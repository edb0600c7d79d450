//! The macOS namespace: tasks that set up a Mac with Homebrew, git, zsh and
//! the usual applications.

use vstd::prelude::*;
use crate::action::{Action, ActionView, Task, TaskView};
use crate::home::{file_under, file_under_view, home_dir};
use crate::cli::namespace_well_formed;
use crate::effect::{action_valid, actions_valid, task_valid};
use crate::namespace::{task_keys, Namespace, NamespaceView};

verus! {

/// The action `brew install <arg>`.
pub open spec fn brew_install_view(arg: Seq<char>) -> ActionView {
    ActionView::Command(seq!["brew"@, "install"@, arg])
}

/// The action `brew install --cask <arg>`.
pub open spec fn brew_install_cask_view(arg: Seq<char>) -> ActionView {
    ActionView::Command(seq!["brew"@, "install"@, "--cask"@, arg])
}

/// The action `asdf plugin add <arg>`.
pub open spec fn asdf_plugin_add_view(arg: Seq<char>) -> ActionView {
    ActionView::Command(seq!["asdf"@, "plugin"@, "add"@, arg])
}

/// The action `cargo install <arg>`.
pub open spec fn cargo_install_view(arg: Seq<char>) -> ActionView {
    ActionView::Command(seq!["cargo"@, "install"@, arg])
}

/// The action `git config --global <keypath> <value>`.
pub open spec fn git_config_global_view(keypath: Seq<char>, value: Seq<char>) -> ActionView {
    ActionView::Command(seq!["git"@, "config"@, "--global"@, keypath, value])
}

/// The path of the zsh run-control file under the home directory.
pub open spec fn zshrc_path_view(home: Seq<char>) -> Seq<char> {
    file_under_view(home, ".zshrc"@)
}

/// The action that appends `line` and a newline to the zsh run-control
/// file.
pub open spec fn zshrc_unique_line_view(home: Seq<char>, line: Seq<char>) -> ActionView {
    ActionView::AppendToFile { content: line + "\n"@, file_path: zshrc_path_view(home) }
}

/// The task `starship`: install the prompt and switch it on in zsh.
pub open spec fn starship_view(home: Seq<char>) -> TaskView {
    TaskView {
        key: "starship"@,
        actions: seq![
            brew_install_view("starship"@),
            ActionView::AppendToFile {
                content: "eval \"$(starship init zsh)\""@,
                file_path: zshrc_path_view(home),
            },
        ],
    }
}

/// The task `font_fira_code_nerd_font`: tap the fonts cask and install the
/// font from it.
pub open spec fn font_fira_code_nerd_font_view() -> TaskView {
    TaskView {
        key: "font_fira_code_nerd_font"@,
        actions: seq![
            ActionView::Command(seq!["brew"@, "tap"@, "homebrew/cask-fonts"@]),
            brew_install_view("font-fira-code-nerd-font"@),
        ],
    }
}

/// The task `git`: install git and its companions and set the global
/// configuration through git itself, which takes care of the file's format
/// and of entries that are there already.
pub open spec fn git_view() -> TaskView {
    TaskView {
        key: "git"@,
        actions: seq![
            brew_install_view("git"@),
            brew_install_view("lazygit"@),
            brew_install_view("gh"@),
            git_config_global_view("pull.rebase"@, "true"@),
            git_config_global_view("user.name"@, "Austin Gatlin"@),
            git_config_global_view("user.email"@, "austin@gatlin.io"@),
            git_config_global_view("alias.co"@, "checkout"@),
            git_config_global_view("alias.br"@, "branch"@),
            git_config_global_view("alias.st"@, "status"@),
            git_config_global_view("alias.lol"@, "log --oneline"@),
            git_config_global_view("alias.c"@, "commit"@),
            git_config_global_view("alias.cane"@, "commit --amend --no-edit"@),
            git_config_global_view("alias.cm"@, "commit -m"@),
            git_config_global_view("alias.ap"@, "add -p"@),
        ],
    }
}

/// The task `brew`: run Homebrew's installer.
pub open spec fn brew_view() -> TaskView {
    TaskView {
        key: "brew"@,
        actions: seq![
            ActionView::Command(
                seq![
                    "/bin/bash"@,
                    "-c"@,
                    "$(curl -fsSL https://raw.githubusercontent.com/Homebrew/install/HEAD/install.sh)"@,
                ],
            ),
        ],
    }
}

/// The task `comms`: the messengers.
pub open spec fn comms_view() -> TaskView {
    TaskView {
        key: "comms"@,
        actions: seq![
            brew_install_view("slack"@),
            brew_install_view("discord"@),
            brew_install_view("signal"@),
            brew_install_view("telegram"@),
            brew_install_view("whatsapp"@),
            brew_install_view("zoom"@),
        ],
    }
}

/// The task `tech`: the prompt, the font and the developer's tools.
pub open spec fn tech_view(home: Seq<char>) -> TaskView {
    TaskView {
        key: "tech"@,
        actions: seq![
            ActionView::Task(starship_view(home)),
            ActionView::Task(font_fira_code_nerd_font_view()),
            brew_install_view("visual-studio-code"@),
            brew_install_view("tree"@),
            brew_install_cask_view("wireshark"@),
            brew_install_view("redis"@),
        ],
    }
}

/// The task `neovim`: the editor and what it leans on.
pub open spec fn neovim_view() -> TaskView {
    TaskView {
        key: "neovim"@,
        actions: seq![
            brew_install_view("iterm2"@),
            brew_install_view("neovim"@),
            brew_install_view("lazygit"@),
            brew_install_view("bottom"@),
            brew_install_view("ripgrep"@),
            cargo_install_view("tree-sitter-cli"@),
        ],
    }
}

/// The task `asdf`: the version manager and its plugins.
pub open spec fn asdf_view() -> TaskView {
    TaskView {
        key: "asdf"@,
        actions: seq![
            brew_install_view("asdf"@),
            asdf_plugin_add_view("nodejs"@),
            asdf_plugin_add_view("erlang"@),
            asdf_plugin_add_view("elixir"@),
        ],
    }
}

/// The task `docker`.
pub open spec fn docker_view() -> TaskView {
    TaskView {
        key: "docker"@,
        actions: seq![brew_install_cask_view("docker"@), brew_install_view("lazydocker"@)],
    }
}

/// The task `browsers`.
pub open spec fn browsers_view() -> TaskView {
    TaskView {
        key: "browsers"@,
        actions: seq![
            brew_install_view("google-chrome"@),
            brew_install_view("chromium"@),
            brew_install_view("firefox"@),
        ],
    }
}

/// The task `apps`.
pub open spec fn apps_view() -> TaskView {
    TaskView {
        key: "apps"@,
        actions: seq![
            brew_install_view("spotify"@),
            brew_install_view("obsidian"@),
            brew_install_view("bitwarden"@),
        ],
    }
}

/// The task `zsh`: the shell's aliases, one line each.
pub open spec fn zsh_view(home: Seq<char>) -> TaskView {
    TaskView {
        key: "zsh"@,
        actions: seq![
            zshrc_unique_line_view(home, "alias g='git'"@),
            zshrc_unique_line_view(home, "alias gg='lazygit'"@),
            zshrc_unique_line_view(home, "alias ls='ls -G'"@),
            zshrc_unique_line_view(home, "alias ll='ls -al'"@),
            zshrc_unique_line_view(home, "alias ..='cd ..'"@),
            zshrc_unique_line_view(home, "alias nr='npm run'"@),
            zshrc_unique_line_view(home, "alias imps='iex -S mix phx.server'"@),
        ],
    }
}

/// The namespace `mac` for a user whose home directory is `home`.
pub open spec fn namespace_view(home: Seq<char>) -> NamespaceView {
    NamespaceView {
        key: "mac"@,
        description: "actions to setup a macos device"@,
        tasks: seq![
            brew_view(),
            comms_view(),
            tech_view(home),
            neovim_view(),
            asdf_view(),
            browsers_view(),
            apps_view(),
            git_view(),
            zsh_view(home),
            docker_view(),
        ],
    }
}

/// The action `asdf plugin add <arg>`.
pub fn asdf_plugin_add(arg: &str) -> (r: Action)
    ensures
        r@ == asdf_plugin_add_view(arg@),
{
    let words = vec![
        String::from_str("asdf"),
        String::from_str("plugin"),
        String::from_str("add"),
        String::from_str(arg),
    ];
    let r = Action::Command(words);
    assert(r@->Command_0 =~= seq!["asdf"@, "plugin"@, "add"@, arg@]);
    r
}

/// The action `brew install <arg>`.
pub fn brew_install(arg: &str) -> (r: Action)
    ensures
        r@ == brew_install_view(arg@),
{
    let words = vec![String::from_str("brew"), String::from_str("install"), String::from_str(arg)];
    let r = Action::Command(words);
    assert(r@->Command_0 =~= seq!["brew"@, "install"@, arg@]);
    r
}

/// The action `brew install --cask <arg>`.
pub fn brew_install_cask(arg: &str) -> (r: Action)
    ensures
        r@ == brew_install_cask_view(arg@),
{
    let words = vec![
        String::from_str("brew"),
        String::from_str("install"),
        String::from_str("--cask"),
        String::from_str(arg),
    ];
    let r = Action::Command(words);
    assert(r@->Command_0 =~= seq!["brew"@, "install"@, "--cask"@, arg@]);
    r
}

/// The action `git config --global <keypath> <value>`.
pub fn git_config_global(keypath: &str, value: &str) -> (r: Action)
    ensures
        r@ == git_config_global_view(keypath@, value@),
{
    let words = vec![
        String::from_str("git"),
        String::from_str("config"),
        String::from_str("--global"),
        String::from_str(keypath),
        String::from_str(value),
    ];
    let r = Action::Command(words);
    assert(r@->Command_0 =~= seq!["git"@, "config"@, "--global"@, keypath@, value@]);
    r
}

/// The action `cargo install <arg>`.
pub fn cargo_install(arg: &str) -> (r: Action)
    ensures
        r@ == cargo_install_view(arg@),
{
    let words = vec![String::from_str("cargo"), String::from_str("install"), String::from_str(arg)];
    let r = Action::Command(words);
    assert(r@->Command_0 =~= seq!["cargo"@, "install"@, arg@]);
    r
}

/// The path of the zsh run-control file under the home directory `home`.
pub fn zshrc_path(home: &str) -> (r: String)
    ensures
        r@ == zshrc_path_view(home@),
{
    file_under(home, ".zshrc")
}

/// The action that appends `line` and a newline to the zsh run-control
/// file. The line is appended whether or not the file holds it already.
pub fn zshrc_unique_line(home: &str, line: &str) -> (r: Action)
    ensures
        r@ == zshrc_unique_line_view(home@, line@),
{
    let mut content = String::from_str(line);
    content.append("\n");
    Action::AppendToFile { content, file_path: zshrc_path(home) }
}

/// The nested task `starship`.
pub fn starship(home: &str) -> (r: Action)
    ensures
        r@ == ActionView::Task(starship_view(home@)),
{
    let zshrc_mod = Action::AppendToFile {
        content: String::from_str("eval \"$(starship init zsh)\""),
        file_path: zshrc_path(home),
    };
    let t = Task { key: "starship", actions: vec![brew_install("starship"), zshrc_mod] };
    assert(t@.actions =~= starship_view(home@).actions);
    Action::Task(t)
}

/// The nested task `font_fira_code_nerd_font`.
pub fn font_fira_code_nerd_font() -> (r: Action)
    ensures
        r@ == ActionView::Task(font_fira_code_nerd_font_view()),
{
    let tap = Action::Command(
        vec![
            String::from_str("brew"),
            String::from_str("tap"),
            String::from_str("homebrew/cask-fonts"),
        ],
    );
    assert(tap@->Command_0 =~= seq!["brew"@, "tap"@, "homebrew/cask-fonts"@]);
    let t = Task {
        key: "font_fira_code_nerd_font",
        actions: vec![tap, brew_install("font-fira-code-nerd-font")],
    };
    assert(t@.actions =~= font_fira_code_nerd_font_view().actions);
    Action::Task(t)
}

/// The task `git`.
pub fn git() -> (r: Task)
    ensures
        r@ == git_view(),
{
    let r = Task {
        key: "git",
        actions: vec![
            brew_install("git"),
            brew_install("lazygit"),
            brew_install("gh"),
            git_config_global("pull.rebase", "true"),
            git_config_global("user.name", "Austin Gatlin"),
            git_config_global("user.email", "austin@gatlin.io"),
            git_config_global("alias.co", "checkout"),
            git_config_global("alias.br", "branch"),
            git_config_global("alias.st", "status"),
            git_config_global("alias.lol", "log --oneline"),
            git_config_global("alias.c", "commit"),
            git_config_global("alias.cane", "commit --amend --no-edit"),
            git_config_global("alias.cm", "commit -m"),
            git_config_global("alias.ap", "add -p"),
        ],
    };
    assert(r@.actions =~= git_view().actions);
    r
}

/// The task `brew`.
pub fn brew() -> (r: Task)
    ensures
        r@ == brew_view(),
{
    let install = Action::Command(
        vec![
            String::from_str("/bin/bash"),
            String::from_str("-c"),
            String::from_str(
                "$(curl -fsSL https://raw.githubusercontent.com/Homebrew/install/HEAD/install.sh)",
            ),
        ],
    );
    assert(install@->Command_0 =~= brew_view().actions[0]->Command_0);
    let r = Task { key: "brew", actions: vec![install] };
    assert(r@.actions =~= brew_view().actions);
    r
}

/// The task `comms`.
pub fn comms() -> (r: Task)
    ensures
        r@ == comms_view(),
{
    let r = Task {
        key: "comms",
        actions: vec![
            brew_install("slack"),
            brew_install("discord"),
            brew_install("signal"),
            brew_install("telegram"),
            brew_install("whatsapp"),
            brew_install("zoom"),
        ],
    };
    assert(r@.actions =~= comms_view().actions);
    r
}

/// The task `tech`.
pub fn tech(home: &str) -> (r: Task)
    ensures
        r@ == tech_view(home@),
{
    let r = Task {
        key: "tech",
        actions: vec![
            starship(home),
            font_fira_code_nerd_font(),
            brew_install("visual-studio-code"),
            brew_install("tree"),
            brew_install_cask("wireshark"),
            brew_install("redis"),
        ],
    };
    assert(r@.actions =~= tech_view(home@).actions);
    r
}

/// The task `neovim`.
pub fn neovim() -> (r: Task)
    ensures
        r@ == neovim_view(),
{
    let r = Task {
        key: "neovim",
        actions: vec![
            brew_install("iterm2"),
            brew_install("neovim"),
            brew_install("lazygit"),
            brew_install("bottom"),
            brew_install("ripgrep"),
            cargo_install("tree-sitter-cli"),
        ],
    };
    assert(r@.actions =~= neovim_view().actions);
    r
}

/// The task `asdf`.
pub fn asdf() -> (r: Task)
    ensures
        r@ == asdf_view(),
{
    let r = Task {
        key: "asdf",
        actions: vec![
            brew_install("asdf"),
            asdf_plugin_add("nodejs"),
            asdf_plugin_add("erlang"),
            asdf_plugin_add("elixir"),
        ],
    };
    assert(r@.actions =~= asdf_view().actions);
    r
}

/// The task `docker`.
pub fn docker() -> (r: Task)
    ensures
        r@ == docker_view(),
{
    let r = Task {
        key: "docker",
        actions: vec![brew_install_cask("docker"), brew_install("lazydocker")],
    };
    assert(r@.actions =~= docker_view().actions);
    r
}

/// The task `browsers`.
pub fn browsers() -> (r: Task)
    ensures
        r@ == browsers_view(),
{
    let r = Task {
        key: "browsers",
        actions: vec![
            brew_install("google-chrome"),
            brew_install("chromium"),
            brew_install("firefox"),
        ],
    };
    assert(r@.actions =~= browsers_view().actions);
    r
}

/// The task `apps`.
pub fn apps() -> (r: Task)
    ensures
        r@ == apps_view(),
{
    let r = Task {
        key: "apps",
        actions: vec![
            brew_install("spotify"),
            brew_install("obsidian"),
            brew_install("bitwarden"),
        ],
    };
    assert(r@.actions =~= apps_view().actions);
    r
}

/// The task `zsh`.
pub fn zsh(home: &str) -> (r: Task)
    ensures
        r@ == zsh_view(home@),
{
    let r = Task {
        key: "zsh",
        actions: vec![
            zshrc_unique_line(home, "alias g='git'"),
            zshrc_unique_line(home, "alias gg='lazygit'"),
            zshrc_unique_line(home, "alias ls='ls -G'"),
            zshrc_unique_line(home, "alias ll='ls -al'"),
            zshrc_unique_line(home, "alias ..='cd ..'"),
            zshrc_unique_line(home, "alias nr='npm run'"),
            zshrc_unique_line(home, "alias imps='iex -S mix phx.server'"),
        ],
    };
    assert(r@.actions =~= zsh_view(home@).actions);
    r
}

/// The namespace `mac` for a user whose home directory is `home`.
pub fn namespace_in(home: &str) -> (r: Namespace)
    ensures
        r@ == namespace_view(home@),
{
    let r = Namespace {
        key: "mac",
        description: "actions to setup a macos device",
        tasks: vec![
            brew(),
            comms(),
            tech(home),
            neovim(),
            asdf(),
            browsers(),
            apps(),
            git(),
            zsh(home),
            docker(),
        ],
    };
    assert(r@.tasks =~= namespace_view(home@).tasks);
    r
}

/// The namespace `mac` for the user who runs the program, or `None` where
/// the system names no home directory.
pub fn namespace() -> (r: Option<Namespace>)
    ensures
        match r {
            Some(n) => exists|home: Seq<char>| n@ == #[trigger] namespace_view(home),
            None => true,
        },
{
    match home_dir() {
        Some(home) => Some(namespace_in(home.as_str())),
        None => None,
    }
}

/// The namespace can stand on a command line: its tasks have keys that
/// differ from each other and from `help`.
pub proof fn lemma_namespace_well_formed(home: Seq<char>)
    ensures
        namespace_well_formed(namespace_view(home)),
{
    reveal_strlit("help");
    reveal_strlit("brew");
    reveal_strlit("comms");
    reveal_strlit("tech");
    reveal_strlit("neovim");
    reveal_strlit("asdf");
    reveal_strlit("browsers");
    reveal_strlit("apps");
    reveal_strlit("git");
    reveal_strlit("zsh");
    reveal_strlit("docker");
    let keys = task_keys(namespace_view(home).tasks);
    assert(keys =~= seq![
        "brew"@,
        "comms"@,
        "tech"@,
        "neovim"@,
        "asdf"@,
        "browsers"@,
        "apps"@,
        "git"@,
        "zsh"@,
        "docker"@,
    ]);
    assert forall|i: int, j: int| 0 <= i < j < keys.len() implies keys[i] != keys[j] by {
        assert(i == 0 || i == 1 || i == 2 || i == 3 || i == 4 || i == 5 || i == 6 || i == 7 || i
            == 8);
        assert(j == 1 || j == 2 || j == 3 || j == 4 || j == 5 || j == 6 || j == 7 || j == 8 || j
            == 9);
        assert(keys[i].len() != keys[j].len() || keys[i][0] != keys[j][0] || keys[i][1]
            != keys[j][1]);
    }
    assert forall|i: int| 0 <= i < keys.len() implies keys[i] != "help"@ by {
        assert(keys[i].len() != 4 || keys[i][0] != 'h');
    }
}

/// Every command of the namespace names a program, so no task of it can
/// fail for want of one.
pub proof fn lemma_tasks_valid(home: Seq<char>)
    ensures
        forall|i: int|
            0 <= i < namespace_view(home).tasks.len() ==> task_valid(
                #[trigger] namespace_view(home).tasks[i],
            ),
{
    reveal_with_fuel(action_valid, 3);
    reveal_with_fuel(actions_valid, 3);
    assert(task_valid(brew_view()));
    assert(task_valid(comms_view()));
    assert(task_valid(starship_view(home)));
    assert(task_valid(font_fira_code_nerd_font_view()));
    assert(task_valid(tech_view(home)));
    assert(task_valid(neovim_view()));
    assert(task_valid(asdf_view()));
    assert(task_valid(browsers_view()));
    assert(task_valid(apps_view()));
    assert(task_valid(git_view()));
    assert(task_valid(zsh_view(home)));
    assert(task_valid(docker_view()));
}

} // verus!
