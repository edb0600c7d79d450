//! The base macOS namespace: Homebrew and the applications, without the
//! git and shell configuration of `mac`.

use vstd::prelude::*;
use crate::action::{Action, ActionView, Task, TaskView};
use crate::home::{file_under, file_under_view, home_dir};
use crate::cli::namespace_well_formed;
use crate::effect::{action_valid, actions_valid, task_valid};
use crate::namespace::{task_keys, Namespace, NamespaceView};
use crate::text::strings_view;

verus! {

/// The words of `asdf plugin add <arg>`.
pub open spec fn asdf_plugin_add_words(arg: Seq<char>) -> Seq<Seq<char>> {
    seq!["asdf"@, "plugin"@, "add"@, arg]
}

/// The words of `cargo install <arg>`.
pub open spec fn cargo_install_words(arg: Seq<char>) -> Seq<Seq<char>> {
    seq!["cargo"@, "install"@, arg]
}

/// The words of `brew install <arg>`.
pub open spec fn brew_install_words(arg: Seq<char>) -> Seq<Seq<char>> {
    seq!["brew"@, "install"@, arg]
}

/// The action `brew install <arg>`.
pub open spec fn brew_install_view(arg: Seq<char>) -> ActionView {
    ActionView::Command(brew_install_words(arg))
}

/// The task `starship`: install the prompt and switch it on in the zsh
/// run-control file under `home`.
pub open spec fn starship_view(home: Seq<char>) -> TaskView {
    TaskView {
        key: "starship"@,
        actions: seq![
            brew_install_view("starship"@),
            ActionView::AppendToFile {
                content: "\neval \"$(starship init zsh)\"\n"@,
                file_path: file_under_view(home, ".zshrc"@),
            },
        ],
    }
}

/// The task `font_fira_code_nerd_font`: tap the fonts cask and install the
/// font from it.
pub open spec fn font_fira_code_nerd_font_view() -> TaskView {
    TaskView {
        key: "font_fira_code_nerd_font"@,
        actions: seq![
            ActionView::Command(seq!["brew"@, "tap"@, "homebrew/cask-fonts"@]),
            brew_install_view("font-fira-code-nerd-font"@),
        ],
    }
}

/// The task `brew`: run Homebrew's installer.
pub open spec fn brew_view() -> TaskView {
    TaskView {
        key: "brew"@,
        actions: seq![
            ActionView::Command(
                seq![
                    "/bin/bash"@,
                    "-c"@,
                    "$(curl -fsSL https://raw.githubusercontent.com/Homebrew/install/HEAD/install.sh)"@,
                ],
            ),
        ],
    }
}

/// The task `comms`: the messengers.
pub open spec fn comms_view() -> TaskView {
    TaskView {
        key: "comms"@,
        actions: seq![
            brew_install_view("slack"@),
            brew_install_view("discord"@),
            brew_install_view("signal"@),
            brew_install_view("telegram"@),
            brew_install_view("whatsapp"@),
            brew_install_view("zoom"@),
        ],
    }
}

/// The task `tech`: the prompt, the font and the developer's tools.
pub open spec fn tech_view(home: Seq<char>) -> TaskView {
    TaskView {
        key: "tech"@,
        actions: seq![
            ActionView::Task(starship_view(home)),
            ActionView::Task(font_fira_code_nerd_font_view()),
            brew_install_view("visual-studio-code"@),
            brew_install_view("lazygit"@),
            brew_install_view("lazydocker"@),
            brew_install_view("asdf"@),
            brew_install_view("git"@),
            brew_install_view("gh"@),
            brew_install_view("tree"@),
            brew_install_view("docker"@),
            brew_install_view("wireshark"@),
            brew_install_view("redis"@),
        ],
    }
}

/// The task `neovim`: the editor and what it leans on.
pub open spec fn neovim_view() -> TaskView {
    TaskView {
        key: "neovim"@,
        actions: seq![
            brew_install_view("iterm2"@),
            brew_install_view("neovim"@),
            brew_install_view("lazygit"@),
            brew_install_view("bottom"@),
            brew_install_view("ripgrep"@),
            ActionView::Command(cargo_install_words("tree-sitter-cli"@)),
        ],
    }
}

/// The task `asdf`: the version manager's plugins.
pub open spec fn asdf_view() -> TaskView {
    TaskView {
        key: "asdf"@,
        actions: seq![
            ActionView::Command(asdf_plugin_add_words("nodejs"@)),
            ActionView::Command(asdf_plugin_add_words("erlang"@)),
            ActionView::Command(asdf_plugin_add_words("elixir"@)),
        ],
    }
}

/// The task `browsers`.
pub open spec fn browsers_view() -> TaskView {
    TaskView {
        key: "browsers"@,
        actions: seq![
            brew_install_view("google-chrome"@),
            brew_install_view("chromium"@),
            brew_install_view("firefox"@),
        ],
    }
}

/// The task `apps`.
pub open spec fn apps_view() -> TaskView {
    TaskView {
        key: "apps"@,
        actions: seq![
            brew_install_view("spotify"@),
            brew_install_view("obsidian"@),
            brew_install_view("bitwarden"@),
        ],
    }
}

/// The namespace `mac` for a user whose home directory is `home`.
pub open spec fn namespace_view(home: Seq<char>) -> NamespaceView {
    NamespaceView {
        key: "mac"@,
        description: "actions to setup a macos device"@,
        tasks: seq![
            brew_view(),
            comms_view(),
            tech_view(home),
            neovim_view(),
            asdf_view(),
            browsers_view(),
            apps_view(),
        ],
    }
}

/// The command `asdf plugin add <arg>`.
pub fn asdf_plugin_add(arg: &str) -> (r: Vec<String>)
    ensures
        strings_view(r@) == asdf_plugin_add_words(arg@),
{
    let r = vec![
        String::from_str("asdf"),
        String::from_str("plugin"),
        String::from_str("add"),
        String::from_str(arg),
    ];
    assert(strings_view(r@) =~= asdf_plugin_add_words(arg@));
    r
}

/// The command `cargo install <arg>`.
pub fn cargo_install(arg: &str) -> (r: Vec<String>)
    ensures
        strings_view(r@) == cargo_install_words(arg@),
{
    let r = vec![String::from_str("cargo"), String::from_str("install"), String::from_str(arg)];
    assert(strings_view(r@) =~= cargo_install_words(arg@));
    r
}

/// The command `brew install <arg>`.
pub fn brew_install(arg: &str) -> (r: Vec<String>)
    ensures
        strings_view(r@) == brew_install_words(arg@),
{
    let r = vec![String::from_str("brew"), String::from_str("install"), String::from_str(arg)];
    assert(strings_view(r@) =~= brew_install_words(arg@));
    r
}

/// The task `starship`.
pub fn starship(home: &str) -> (r: Task)
    ensures
        r@ == starship_view(home@),
{
    let path = file_under(home, ".zshrc");
    let x = String::from_str("\neval \"$(starship init zsh)\"\n");
    let r = Task {
        key: "starship",
        actions: vec![
            Action::Command(brew_install("starship")),
            Action::AppendToFile { content: x, file_path: path },
        ],
    };
    assert(r@.actions =~= starship_view(home@).actions);
    r
}

/// The task `font_fira_code_nerd_font`.
pub fn font_fira_code_nerd_font() -> (r: Task)
    ensures
        r@ == font_fira_code_nerd_font_view(),
{
    let tap = vec![
        String::from_str("brew"),
        String::from_str("tap"),
        String::from_str("homebrew/cask-fonts"),
    ];
    assert(strings_view(tap@) =~= seq!["brew"@, "tap"@, "homebrew/cask-fonts"@]);
    let r = Task {
        key: "font_fira_code_nerd_font",
        actions: vec![
            Action::Command(tap),
            Action::Command(brew_install("font-fira-code-nerd-font")),
        ],
    };
    assert(r@.actions =~= font_fira_code_nerd_font_view().actions);
    r
}

/// The task `brew`.
pub fn brew() -> (r: Task)
    ensures
        r@ == brew_view(),
{
    let install = vec![
        String::from_str("/bin/bash"),
        String::from_str("-c"),
        String::from_str(
            "$(curl -fsSL https://raw.githubusercontent.com/Homebrew/install/HEAD/install.sh)",
        ),
    ];
    assert(strings_view(install@) =~= brew_view().actions[0]->Command_0);
    let r = Task { key: "brew", actions: vec![Action::Command(install)] };
    assert(r@.actions =~= brew_view().actions);
    r
}

/// The task `comms`.
pub fn comms() -> (r: Task)
    ensures
        r@ == comms_view(),
{
    let r = Task {
        key: "comms",
        actions: vec![
            Action::Command(brew_install("slack")),
            Action::Command(brew_install("discord")),
            Action::Command(brew_install("signal")),
            Action::Command(brew_install("telegram")),
            Action::Command(brew_install("whatsapp")),
            Action::Command(brew_install("zoom")),
        ],
    };
    assert(r@.actions =~= comms_view().actions);
    r
}

/// The task `tech`.
pub fn tech(home: &str) -> (r: Task)
    ensures
        r@ == tech_view(home@),
{
    let r = Task {
        key: "tech",
        actions: vec![
            Action::Task(starship(home)),
            Action::Task(font_fira_code_nerd_font()),
            Action::Command(brew_install("visual-studio-code")),
            Action::Command(brew_install("lazygit")),
            Action::Command(brew_install("lazydocker")),
            Action::Command(brew_install("asdf")),
            Action::Command(brew_install("git")),
            Action::Command(brew_install("gh")),
            Action::Command(brew_install("tree")),
            Action::Command(brew_install("docker")),
            Action::Command(brew_install("wireshark")),
            Action::Command(brew_install("redis")),
        ],
    };
    assert(r@.actions =~= tech_view(home@).actions);
    r
}

/// The task `neovim`.
pub fn neovim() -> (r: Task)
    ensures
        r@ == neovim_view(),
{
    let r = Task {
        key: "neovim",
        actions: vec![
            Action::Command(brew_install("iterm2")),
            Action::Command(brew_install("neovim")),
            Action::Command(brew_install("lazygit")),
            Action::Command(brew_install("bottom")),
            Action::Command(brew_install("ripgrep")),
            Action::Command(cargo_install("tree-sitter-cli")),
        ],
    };
    assert(r@.actions =~= neovim_view().actions);
    r
}

/// The task `asdf`.
pub fn asdf() -> (r: Task)
    ensures
        r@ == asdf_view(),
{
    let r = Task {
        key: "asdf",
        actions: vec![
            Action::Command(asdf_plugin_add("nodejs")),
            Action::Command(asdf_plugin_add("erlang")),
            Action::Command(asdf_plugin_add("elixir")),
        ],
    };
    assert(r@.actions =~= asdf_view().actions);
    r
}

/// The task `browsers`.
pub fn browsers() -> (r: Task)
    ensures
        r@ == browsers_view(),
{
    let r = Task {
        key: "browsers",
        actions: vec![
            Action::Command(brew_install("google-chrome")),
            Action::Command(brew_install("chromium")),
            Action::Command(brew_install("firefox")),
        ],
    };
    assert(r@.actions =~= browsers_view().actions);
    r
}

/// The task `apps`.
pub fn apps() -> (r: Task)
    ensures
        r@ == apps_view(),
{
    let r = Task {
        key: "apps",
        actions: vec![
            Action::Command(brew_install("spotify")),
            Action::Command(brew_install("obsidian")),
            Action::Command(brew_install("bitwarden")),
        ],
    };
    assert(r@.actions =~= apps_view().actions);
    r
}

/// The namespace `mac` for a user whose home directory is `home`.
pub fn namespace_in(home: &str) -> (r: Namespace)
    ensures
        r@ == namespace_view(home@),
{
    let r = Namespace {
        key: "mac",
        description: "actions to setup a macos device",
        tasks: vec![brew(), comms(), tech(home), neovim(), asdf(), browsers(), apps()],
    };
    assert(r@.tasks =~= namespace_view(home@).tasks);
    r
}

/// The namespace `mac` for the user who runs the program, or `None` where
/// the system names no home directory.
pub fn namespace() -> (r: Option<Namespace>)
    ensures
        match r {
            Some(n) => exists|home: Seq<char>| n@ == #[trigger] namespace_view(home),
            None => true,
        },
{
    match home_dir() {
        Some(home) => Some(namespace_in(home.as_str())),
        None => None,
    }
}

/// The namespace can stand on a command line: its tasks have keys that
/// differ from each other and from `help`.
pub proof fn lemma_namespace_well_formed(home: Seq<char>)
    ensures
        namespace_well_formed(namespace_view(home)),
{
    reveal_strlit("help");
    reveal_strlit("brew");
    reveal_strlit("comms");
    reveal_strlit("tech");
    reveal_strlit("neovim");
    reveal_strlit("asdf");
    reveal_strlit("browsers");
    reveal_strlit("apps");
    let keys = task_keys(namespace_view(home).tasks);
    assert(keys =~= seq![
        "brew"@,
        "comms"@,
        "tech"@,
        "neovim"@,
        "asdf"@,
        "browsers"@,
        "apps"@,
    ]);
    assert forall|i: int, j: int| 0 <= i < j < keys.len() implies keys[i] != keys[j] by {
        assert(i == 0 || i == 1 || i == 2 || i == 3 || i == 4 || i == 5);
        assert(j == 1 || j == 2 || j == 3 || j == 4 || j == 5 || j == 6);
        assert(keys[i].len() != keys[j].len() || keys[i][0] != keys[j][0] || keys[i][1]
            != keys[j][1]);
    }
    assert forall|i: int| 0 <= i < keys.len() implies keys[i] != "help"@ by {
        assert(keys[i].len() != 4 || keys[i][0] != 'h');
    }
}

/// Every command of the namespace names a program, so no task of it can
/// fail for want of one.
pub proof fn lemma_tasks_valid(home: Seq<char>)
    ensures
        forall|i: int|
            0 <= i < namespace_view(home).tasks.len() ==> task_valid(
                #[trigger] namespace_view(home).tasks[i],
            ),
{
    reveal_with_fuel(action_valid, 3);
    reveal_with_fuel(actions_valid, 3);
    assert(task_valid(brew_view()));
    assert(task_valid(comms_view()));
    assert(task_valid(starship_view(home)));
    assert(task_valid(font_fira_code_nerd_font_view()));
    assert(task_valid(tech_view(home)));
    assert(task_valid(neovim_view()));
    assert(task_valid(asdf_view()));
    assert(task_valid(browsers_view()));
    assert(task_valid(apps_view()));
}

} // verus!
