use rip::action::{Action, Task};
use rip::app::App;
use rip::effect::Effect;
use rip::namespace::Namespace;

fn command(items: &[&str]) -> Action {
    Action::Command(items.iter().map(|s| s.to_string()).collect())
}

fn sample() -> App {
    App::new(vec![
        Namespace::new(
            "ts",
            "typescript",
            vec![Task::new("lint", vec![command(&["eslint", "."])]), Task::new("fmt", Vec::new())],
        ),
        Namespace::new("mac", "macos", vec![Task::new("lint", vec![command(&["swiftlint"])])]),
    ])
}

#[test]
fn find_task_matches_the_key_exactly() {
    let app = sample();
    let ts = &app.namespaces[0];
    assert!(ts.has_task("lint"));
    assert_eq!(ts.find_task("lint").key, "lint");
    assert!(ts.has_task("fmt"));
    assert_eq!(ts.find_task("fmt").key, "fmt");
    assert!(!ts.has_task("Lint"));
    assert!(!ts.has_task("lin"));
    assert!(!ts.has_task("lint "));
    assert!(!ts.has_task(""));
}

#[test]
fn find_task_returns_the_first_of_equal_keys() {
    let namespace = Namespace::new(
        "n",
        "d",
        vec![
            Task::new("s", vec![command(&["other"])]),
            Task::new("t", vec![command(&["first"])]),
            Task::new("t", vec![command(&["second"])]),
        ],
    );
    let found = namespace.find_task("t");
    assert_eq!(found.actions, vec![command(&["first"])]);
}

#[test]
fn find_namespace_matches_the_key_exactly() {
    let app = sample();
    assert!(app.has_namespace("mac"));
    assert_eq!(app.find_namespace("mac").description, "macos");
    assert!(app.has_namespace("ts"));
    assert_eq!(app.find_namespace("ts").description, "typescript");
    assert!(!app.has_namespace("MAC"));
    assert!(!app.has_namespace("lint"));
    assert!(!app.has_namespace(""));
}

#[test]
fn namespace_run_begins_the_task() {
    let app = sample();
    let run = app.namespaces[0].run("lint");
    assert_eq!(
        run.pending(),
        Some(&Effect::Spawn { program: "eslint".to_string(), args: vec![".".to_string()] })
    );
    assert!(!app.namespaces[0].has_task("nope"));
}

#[test]
fn dispatch_runs_the_task_of_the_named_namespace() {
    let app = sample();
    let run = app.dispatch("mac", "lint");
    assert_eq!(
        run.pending(),
        Some(&Effect::Spawn { program: "swiftlint".to_string(), args: Vec::new() })
    );
    let run = app.dispatch("ts", "fmt");
    assert!(run.succeeded());
}

#[test]
fn a_task_belongs_to_its_namespace_alone() {
    let app = sample();
    assert!(app.find_namespace("ts").has_task("fmt"));
    assert!(!app.find_namespace("mac").has_task("fmt"));
}
