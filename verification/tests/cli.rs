use rip::action::{Action, Task};
use rip::app::App;
use rip::cli::{keys_usable, CliError};
use rip::effect::Effect;
use rip::namespace::Namespace;

const ABOUT: &str = "rip runs a variety of actions";
const VERSION: &str = "1.2.3";

fn command(items: &[&str]) -> Action {
    Action::Command(items.iter().map(|s| s.to_string()).collect())
}

fn args(items: &[&str]) -> Vec<String> {
    items.iter().map(|s| s.to_string()).collect()
}

fn sample() -> App {
    App::new(vec![
        Namespace::new(
            "ts",
            "typescript",
            vec![Task::new("lint", vec![command(&["eslint", "."])]), Task::new("fmt", Vec::new())],
        ),
        Namespace::new("mac", "macos", vec![Task::new("brew", vec![command(&["brew", "update"])])]),
    ])
}

#[test]
fn task_subcommand_has_key_and_help() {
    let task = Task::new("lint", vec![command(&["eslint", "."])]);
    let c = task.to_clap_subcommand();
    assert_eq!(c.get_name(), "lint");
    assert_eq!(
        c.get_about().unwrap().to_string(),
        "`lint` will run the following commands:\n\neslint .\n"
    );
    assert!(!c.is_subcommand_required_set());
    assert_eq!(c.get_subcommands().count(), 0);
}

#[test]
fn namespace_subcommand_has_one_subcommand_per_task() {
    let app = sample();
    let c = app.namespaces[0].to_clap_subcommand();
    assert_eq!(c.get_name(), "ts");
    assert_eq!(c.get_about().unwrap().to_string(), "typescript");
    assert!(c.is_subcommand_required_set());
    let names: Vec<&str> = c.get_subcommands().map(|s| s.get_name()).collect();
    assert_eq!(names, vec!["lint", "fmt"]);
}

#[test]
fn nested_tasks_are_not_subcommands() {
    let inner = Task::new("inner", vec![command(&["x"])]);
    let namespace = Namespace::new("n", "d", vec![Task::new("outer", vec![Action::Task(inner)])]);
    let c = namespace.to_clap_subcommand();
    let names: Vec<&str> = c.get_subcommands().map(|s| s.get_name()).collect();
    assert_eq!(names, vec!["outer"]);
    assert_eq!(c.get_subcommands().next().unwrap().get_subcommands().count(), 0);
}

#[test]
fn command_line_has_one_subcommand_per_namespace() {
    let app = sample();
    let c = app.to_clap_command("rip", ABOUT, VERSION);
    assert_eq!(c.get_name(), "rip");
    assert_eq!(c.get_about().unwrap().to_string(), ABOUT);
    assert_eq!(c.get_version(), Some(VERSION));
    assert!(c.is_subcommand_required_set());
    let names: Vec<&str> = c.get_subcommands().map(|s| s.get_name()).collect();
    assert_eq!(names, vec!["ts", "mac"]);
    assert!(c.get_subcommands().all(|n| n.get_version().is_none()));
    let tasks: Vec<Vec<&str>> =
        c.get_subcommands().map(|n| n.get_subcommands().map(|t| t.get_name()).collect()).collect();
    assert_eq!(tasks, vec![vec!["lint", "fmt"], vec!["brew"]]);
}

#[test]
fn keys_are_matched_with_their_case() {
    let app = App::new(vec![Namespace::new(
        "N",
        "d",
        vec![Task::new("Task", Vec::new()), Task::new("task", Vec::new())],
    )]);
    assert!(app.is_well_formed());
    assert!(app.invoke("rip", ABOUT, VERSION, args(&["rip", "N", "Task"])).is_ok());
    assert!(app.invoke("rip", ABOUT, VERSION, args(&["rip", "N", "task"])).is_ok());
    assert!(matches!(
        app.invoke("rip", ABOUT, VERSION, args(&["rip", "n", "task"])),
        Err(CliError::Usage(_))
    ));
    assert!(matches!(
        app.invoke("rip", ABOUT, VERSION, args(&["rip", "N", "TASK"])),
        Err(CliError::Usage(_))
    ));
}

#[test]
fn valid_path_begins_the_run_of_that_task() {
    let app = sample();
    let run = app.invoke("rip", ABOUT, VERSION, args(&["rip", "ts", "lint"])).unwrap();
    assert_eq!(
        run.pending(),
        Some(&Effect::Spawn { program: "eslint".to_string(), args: vec![".".to_string()] })
    );
    let run = app.invoke("rip", ABOUT, VERSION, args(&["rip", "mac", "brew"])).unwrap();
    assert_eq!(
        run.pending(),
        Some(&Effect::Spawn { program: "brew".to_string(), args: vec!["update".to_string()] })
    );
}

#[test]
fn unknown_task_is_turned_down_by_the_parser() {
    let app = sample();
    match app.invoke("rip", ABOUT, VERSION, args(&["rip", "ts", "nope"])) {
        Err(CliError::Usage(e)) => {
            assert_eq!(e.exit_code, 2);
            assert!(e.message.contains("nope"));
            assert!(e.message.contains("Usage"));
        }
        other => panic!("expected a usage error, got {:?}", other),
    }
}

#[test]
fn task_of_another_namespace_is_turned_down() {
    let app = sample();
    match app.invoke("rip", ABOUT, VERSION, args(&["rip", "mac", "lint"])) {
        Err(CliError::Usage(e)) => assert_eq!(e.exit_code, 2),
        other => panic!("expected a usage error, got {:?}", other),
    }
}

#[test]
fn unknown_namespace_is_turned_down_by_the_parser() {
    let app = sample();
    match app.invoke("rip", ABOUT, VERSION, args(&["rip", "linux", "lint"])) {
        Err(CliError::Usage(e)) => {
            assert_eq!(e.exit_code, 2);
            assert!(e.message.contains("linux"));
        }
        other => panic!("expected a usage error, got {:?}", other),
    }
}

#[test]
fn missing_segments_are_usage_errors() {
    let app = sample();
    for line in [args(&["rip"]), args(&["rip", "ts"])] {
        match app.invoke("rip", ABOUT, VERSION, line) {
            Err(CliError::Usage(e)) => {
                assert_eq!(e.exit_code, 2);
                assert!(!e.message.is_empty());
            }
            other => panic!("expected a usage error, got {:?}", other),
        }
    }
}

#[test]
fn help_is_printed_with_status_zero() {
    let app = sample();
    match app.invoke("rip", ABOUT, VERSION, args(&["rip", "help"])) {
        Err(CliError::Usage(e)) => {
            assert_eq!(e.exit_code, 0);
            assert!(e.message.contains("rip runs a variety of actions"));
            assert!(e.message.contains("ts"));
            assert!(e.message.contains("typescript"));
            assert!(e.message.contains("mac"));
        }
        other => panic!("expected help, got {:?}", other),
    }
    match app.invoke("rip", ABOUT, VERSION, args(&["rip", "ts", "lint", "--help"])) {
        Err(CliError::Usage(e)) => {
            assert_eq!(e.exit_code, 0);
            assert!(e.message.contains("`lint` will run the following commands:"));
            assert!(e.message.contains("eslint ."));
        }
        other => panic!("expected help, got {:?}", other),
    }
}

#[test]
fn shared_keys_are_turned_down_before_parsing() {
    let twice = App::new(vec![
        Namespace::new("a", "one", Vec::new()),
        Namespace::new("a", "two", Vec::new()),
    ]);
    assert!(!twice.is_well_formed());
    assert!(matches!(
        twice.invoke("rip", ABOUT, VERSION, args(&["rip", "a"])),
        Err(CliError::AmbiguousKeys)
    ));
    let tasks = App::new(vec![Namespace::new(
        "a",
        "one",
        vec![Task::new("t", Vec::new()), Task::new("u", Vec::new()), Task::new("t", Vec::new())],
    )]);
    assert!(!tasks.namespaces[0].is_well_formed());
    assert!(!tasks.is_well_formed());
    assert!(matches!(
        tasks.invoke("rip", ABOUT, VERSION, args(&["rip", "a", "t"])),
        Err(CliError::AmbiguousKeys)
    ));
}

#[test]
fn help_is_no_key() {
    let app = App::new(vec![Namespace::new("a", "one", vec![Task::new("help", Vec::new())])]);
    assert!(!app.is_well_formed());
    assert!(matches!(
        app.invoke("rip", ABOUT, VERSION, args(&["rip", "a", "help"])),
        Err(CliError::AmbiguousKeys)
    ));
    let app = App::new(vec![Namespace::new("help", "one", Vec::new())]);
    assert!(!app.is_well_formed());
}

#[test]
fn keys_usable_wants_distinct_keys_other_than_help() {
    assert!(keys_usable(&Vec::new()));
    assert!(keys_usable(&vec!["a", "b", "c"]));
    assert!(keys_usable(&vec!["a", "A"]));
    assert!(!keys_usable(&vec!["a", "b", "a"]));
    assert!(!keys_usable(&vec!["b", "b"]));
    assert!(!keys_usable(&vec!["a", "help"]));
    assert!(keys_usable(&vec!["Help", "helper"]));
}

#[test]
fn matched_command_line_is_dispatched() {
    let app = sample();
    let matches = app
        .to_clap_command("rip", ABOUT, VERSION)
        .try_get_matches_from(["rip", "ts", "fmt"])
        .unwrap();
    let run = app.run(&matches);
    assert!(run.succeeded());
    let matches = app
        .to_clap_command("rip", ABOUT, VERSION)
        .try_get_matches_from(["rip", "mac", "brew"])
        .unwrap();
    let run = app.run(&matches);
    assert_eq!(
        run.pending(),
        Some(&Effect::Spawn { program: "brew".to_string(), args: vec!["update".to_string()] })
    );
}

#[test]
fn version_is_printed_with_status_zero() {
    let app = sample();
    for flag in ["--version", "-V"] {
        match app.invoke("rip", ABOUT, VERSION, args(&["rip", flag])) {
            Err(CliError::Usage(e)) => {
                assert_eq!(e.exit_code, 0);
                assert_eq!(e.message, "rip 1.2.3\n");
            }
            other => panic!("expected the version, got {:?}", other),
        }
    }
}

#[test]
fn a_key_is_matched_before_anything_else() {
    for key in ["-x", "--flag", "--help", "-h", "-V", "--version", "--", "-", "", "a b", "hel"] {
        let task = Task::new(key, vec![command(&["run", "it"])]);
        let app = App::new(vec![Namespace::new("n", "d", vec![task])]);
        assert!(app.is_well_formed());
        match app.invoke("rip", ABOUT, VERSION, vec!["rip".to_string(), "n".to_string(), key.to_string()]) {
            Ok(run) => assert_eq!(
                run.pending(),
                Some(&Effect::Spawn { program: "run".to_string(), args: vec!["it".to_string()] })
            ),
            other => panic!("expected a run for the key {:?}, got {:?}", key, other),
        }
        let namespace = Namespace::new(key, "d", vec![Task::new("t", Vec::new())]);
        let app = App::new(vec![namespace]);
        match app.invoke("rip", ABOUT, VERSION, vec!["rip".to_string(), key.to_string(), "t".to_string()]) {
            Ok(run) => assert!(run.succeeded()),
            other => panic!("expected a run under the key {:?}, got {:?}", key, other),
        }
    }
}

#[test]
fn the_program_name_is_not_looked_up() {
    let app = sample();
    for bin in ["rip", "ts", "help", "--help", "", "/usr/local/bin/rip"] {
        let run = app.invoke("rip", ABOUT, VERSION, args(&[bin, "ts", "fmt"])).unwrap();
        assert!(run.succeeded());
    }
}

#[test]
fn stray_words_are_turned_down_with_status_two() {
    let app = sample();
    let lines = [
        args(&[]),
        args(&["rip"]),
        args(&["rip", "ts"]),
        args(&["rip", ""]),
        args(&["rip", "t"]),
        args(&["rip", "tss", "lint"]),
        args(&["rip", "lint"]),
        args(&["rip", "ts", ""]),
        args(&["rip", "ts", "lin"]),
        args(&["rip", "ts", "mac"]),
        args(&["rip", "ts", "lint", "extra"]),
        args(&["rip", "ts", "lint", ""]),
        args(&["rip", "ts", "lint", "lint"]),
        args(&["rip", "ts", "fmt", "ts"]),
        args(&["rip", "mac", "brew", "Help"]),
    ];
    for line in lines {
        let shown = format!("{:?}", line);
        match app.invoke("rip", ABOUT, VERSION, line) {
            Err(CliError::Usage(e)) => assert_eq!(e.exit_code, 2, "for {}", shown),
            other => panic!("expected a usage error for {}, got {:?}", shown, other),
        }
    }
}

#[test]
fn unknown_flags_are_usage_errors() {
    let app = sample();
    for line in [args(&["rip", "--nope"]), args(&["rip", "ts", "-x"]), args(&["rip", "ts", "lint", "--nope"])] {
        match app.invoke("rip", ABOUT, VERSION, line) {
            Err(CliError::Usage(e)) => assert_eq!(e.exit_code, 2),
            other => panic!("expected a usage error, got {:?}", other),
        }
    }
}

#[test]
fn namespace_help_lists_its_tasks() {
    let app = sample();
    match app.invoke("rip", ABOUT, VERSION, args(&["rip", "ts", "help"])) {
        Err(CliError::Usage(e)) => {
            assert_eq!(e.exit_code, 0);
            assert!(e.message.contains("typescript"));
            assert!(e.message.contains("lint"));
            assert!(e.message.contains("fmt"));
        }
        other => panic!("expected help, got {:?}", other),
    }
}
