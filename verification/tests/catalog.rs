use rip::action::{Action, Task};
use rip::catalog;
use rip::effect::Effect;
use rip::mac;
use rip::mac_base;
use rip::ts;

fn words(items: &[&str]) -> Vec<String> {
    items.iter().map(|s| s.to_string()).collect()
}

fn command(items: &[&str]) -> Action {
    Action::Command(words(items))
}

fn keys(tasks: &[Task]) -> Vec<&'static str> {
    tasks.iter().map(|t| t.key).collect()
}

#[test]
fn prettier_dev_dep() {
    let task = ts::prettier();
    let effects = task.effects();
    assert!(effects.contains(&Effect::Spawn {
        program: "npm".to_string(),
        args: words(&["install", "--save-dev", "prettier"]),
    }));
}

#[test]
fn prettier_format_script() {
    let task = ts::prettier();
    let effects = task.effects();
    let (key, value) = match &effects[1] {
        Effect::Spawn { program, args } => {
            assert_eq!(program, "npm");
            assert_eq!(&args[..2], &words(&["pkg", "set"])[..]);
            let (path, value) = args[2].split_once('=').unwrap();
            (path.strip_prefix("scripts.").unwrap().to_string(), value.to_string())
        }
        other => panic!("expected a command, got {:?}", other),
    };
    assert_eq!(key, "format");
    assert!(value.eq("prettier --write src"));
}

#[test]
fn prettier() {
    let app = catalog::app_in("/Users/u");
    match app.invoke("rip", "rip runs a variety of actions", "0.1.0", words(&["rip", "help"])) {
        Err(rip::cli::CliError::Usage(e)) => {
            assert!(e.message.contains("rip runs a variety of actions"));
            assert_eq!(e.exit_code, 0);
        }
        other => panic!("expected help, got {:?}", other),
    }
}

#[test]
fn ts_namespace_holds_prettier_and_skooh() {
    let namespace = ts::namespace();
    assert_eq!(namespace.key, "ts");
    assert_eq!(namespace.description, "typescript");
    assert_eq!(keys(&namespace.tasks), vec!["prettier", "skooh"]);
    assert_eq!(
        namespace.tasks[0].actions,
        vec![
            command(&["npm", "install", "--save-dev", "prettier"]),
            command(&["npm", "pkg", "set", "scripts.format=prettier --write src"]),
        ]
    );
    assert_eq!(
        namespace.tasks[1].actions,
        vec![
            command(&["npm", "install", "--save-dev", "skooh"]),
            command(&["npm", "pkg", "set", "hooks.pre-commit=npm run format"]),
            command(&["npm", "pkg", "set", "hooks.pre-push=npm run test"]),
        ]
    );
    assert!(namespace.is_well_formed());
    assert!(namespace.tasks.iter().all(|t| t.is_valid()));
}

#[test]
fn npm_commands_take_their_argument_last() {
    assert_eq!(ts::npm_install_save_dev("x"), words(&["npm", "install", "--save-dev", "x"]));
    assert_eq!(ts::npm_pkg_set("a=b"), words(&["npm", "pkg", "set", "a=b"]));
}

#[test]
fn mac_commands_take_their_argument_last() {
    assert_eq!(mac::brew_install("x"), command(&["brew", "install", "x"]));
    assert_eq!(mac::brew_install_cask("x"), command(&["brew", "install", "--cask", "x"]));
    assert_eq!(mac::asdf_plugin_add("x"), command(&["asdf", "plugin", "add", "x"]));
    assert_eq!(mac::cargo_install("x"), command(&["cargo", "install", "x"]));
    assert_eq!(
        mac::git_config_global("alias.co", "checkout"),
        command(&["git", "config", "--global", "alias.co", "checkout"])
    );
    assert_eq!(mac_base::brew_install("x"), words(&["brew", "install", "x"]));
    assert_eq!(mac_base::asdf_plugin_add("x"), words(&["asdf", "plugin", "add", "x"]));
    assert_eq!(mac_base::cargo_install("x"), words(&["cargo", "install", "x"]));
}

#[test]
fn zshrc_path_has_one_separator() {
    assert_eq!(mac::zshrc_path("/Users/u/"), "/Users/u/.zshrc");
    assert_eq!(mac::zshrc_path("/"), "/.zshrc");
    assert_eq!(mac::zshrc_path(""), ".zshrc");
    assert_eq!(mac::zshrc_path("/Users/u//"), "/Users/u//.zshrc");
    assert_eq!(mac::zshrc_path("/Users/\u{fc}"), "/Users/\u{fc}/.zshrc");
    let path = |home: &str| match &mac_base::starship(home).actions[1] {
        Action::AppendToFile { file_path, .. } => file_path.clone(),
        other => panic!("expected an append, got {:?}", other),
    };
    assert_eq!(path("/Users/u"), "/Users/u/.zshrc");
    assert_eq!(path("/Users/u/"), "/Users/u/.zshrc");
    assert_eq!(path(""), ".zshrc");
    for home in ["/Users/u", "/Users/u/", "/", "", "rel", "a/b/"] {
        let mut pushed = std::path::PathBuf::from(home);
        pushed.push(".zshrc");
        assert_eq!(mac::zshrc_path(home), pushed.to_str().unwrap());
    }
}

#[test]
fn zshrc_lies_under_the_home_directory() {
    assert_eq!(mac::zshrc_path("/Users/u"), "/Users/u/.zshrc");
    assert_eq!(
        mac::zshrc_unique_line("/Users/u", "alias g='git'"),
        Action::AppendToFile {
            content: "alias g='git'\n".to_string(),
            file_path: "/Users/u/.zshrc".to_string(),
        }
    );
}

#[test]
fn mac_namespace_holds_ten_tasks() {
    let namespace = mac::namespace_in("/Users/u");
    assert_eq!(namespace.key, "mac");
    assert_eq!(namespace.description, "actions to setup a macos device");
    assert_eq!(
        keys(&namespace.tasks),
        vec!["brew", "comms", "tech", "neovim", "asdf", "browsers", "apps", "git", "zsh", "docker"]
    );
    assert!(namespace.is_well_formed());
    assert!(namespace.tasks.iter().all(|t| t.is_valid()));
}

#[test]
fn mac_git_configures_through_git() {
    let task = mac::git();
    assert_eq!(task.key, "git");
    assert_eq!(task.actions.len(), 14);
    assert_eq!(task.actions[0], command(&["brew", "install", "git"]));
    assert_eq!(
        task.actions[4],
        command(&["git", "config", "--global", "user.name", "Austin Gatlin"])
    );
    assert_eq!(
        task.actions[11],
        command(&["git", "config", "--global", "alias.cane", "commit --amend --no-edit"])
    );
    assert_eq!(task.actions[13], command(&["git", "config", "--global", "alias.ap", "add -p"]));
}

#[test]
fn mac_zsh_appends_one_line_per_alias() {
    let task = mac::zsh("/h");
    let effects = task.effects();
    assert_eq!(effects.len(), 7);
    assert_eq!(
        effects[0],
        Effect::Append { content: "alias g='git'\n".to_string(), file_path: "/h/.zshrc".to_string() }
    );
    assert_eq!(
        effects[6],
        Effect::Append {
            content: "alias imps='iex -S mix phx.server'\n".to_string(),
            file_path: "/h/.zshrc".to_string(),
        }
    );
}

#[test]
fn mac_tech_nests_starship_and_the_font() {
    let task = mac::tech("/h");
    let effects = task.effects();
    let lines: Vec<String> = effects
        .iter()
        .map(|e| match e {
            Effect::Spawn { program, args } => format!("{} {}", program, args.join(" ")),
            Effect::Append { content, file_path } => format!("{} << {}", file_path, content),
        })
        .collect();
    assert_eq!(
        lines,
        vec![
            "brew install starship",
            "/h/.zshrc << eval \"$(starship init zsh)\"",
            "brew tap homebrew/cask-fonts",
            "brew install font-fira-code-nerd-font",
            "brew install visual-studio-code",
            "brew install tree",
            "brew install --cask wireshark",
            "brew install redis",
        ]
    );
}

#[test]
fn mac_base_namespace_holds_seven_tasks() {
    let namespace = mac_base::namespace_in("/Users/u");
    assert_eq!(namespace.key, "mac");
    assert_eq!(
        keys(&namespace.tasks),
        vec!["brew", "comms", "tech", "neovim", "asdf", "browsers", "apps"]
    );
    assert!(namespace.is_well_formed());
    assert!(namespace.tasks.iter().all(|t| t.is_valid()));
    assert_eq!(namespace.tasks[2].actions.len(), 12);
    assert_eq!(
        namespace.tasks[0].actions,
        vec![command(&[
            "/bin/bash",
            "-c",
            "$(curl -fsSL https://raw.githubusercontent.com/Homebrew/install/HEAD/install.sh)",
        ])]
    );
}

#[test]
fn mac_base_starship_appends_with_blank_lines() {
    let task = mac_base::starship("/Users/u");
    assert_eq!(
        task.effects(),
        vec![
            Effect::Spawn { program: "brew".to_string(), args: words(&["install", "starship"]) },
            Effect::Append {
                content: "\neval \"$(starship init zsh)\"\n".to_string(),
                file_path: "/Users/u/.zshrc".to_string(),
            },
        ]
    );
    assert_eq!(
        mac_base::tech("/Users/u").about().lines().nth(2),
        Some("for sub-task starship:")
    );
}

#[test]
fn shipped_application_is_well_formed() {
    let app = catalog::app_in("/Users/u");
    assert_eq!(app.namespaces.len(), 2);
    assert_eq!(app.namespaces[0].key, "ts");
    assert_eq!(app.namespaces[1].key, "mac");
    assert!(app.is_well_formed());
    let run = app.invoke("rip", "about", "0.1.0", words(&["rip", "mac", "asdf"])).unwrap();
    assert_eq!(
        run.pending(),
        Some(&Effect::Spawn { program: "asdf".to_string(), args: words(&["plugin", "add", "nodejs"]) })
    );
}

#[test]
fn home_directory_decides_the_run_control_file() {
    if let Some(namespace) = mac::namespace() {
        let effects = namespace.tasks[8].effects();
        match &effects[0] {
            Effect::Append { file_path, .. } => {
                assert!(file_path.ends_with("/.zshrc"));
                assert!(file_path.len() > "/.zshrc".len());
            }
            other => panic!("expected an append, got {:?}", other),
        }
    }
    if let Some(app) = catalog::app() {
        assert!(app.is_well_formed());
    }
    if let Some(namespace) = mac_base::namespace() {
        assert_eq!(namespace.tasks.len(), 7);
    }
}
