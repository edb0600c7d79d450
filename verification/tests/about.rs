use rip::action::{Action, Task};
use rip::text::{copy_from, decimal_string, join, same_text};

fn words(items: &[&str]) -> Vec<String> {
    items.iter().map(|s| s.to_string()).collect()
}

#[test]
fn command_is_described_by_its_words() {
    let action = Action::Command(words(&["brew", "install", "git"]));
    assert_eq!(action.about(), "brew install git");
}

#[test]
fn command_of_one_word_has_no_separator() {
    let action = Action::Command(words(&["true"]));
    assert_eq!(action.about(), "true");
}

#[test]
fn command_without_words_is_described_by_nothing() {
    let action = Action::Command(Vec::new());
    assert_eq!(action.about(), "");
}

#[test]
fn append_is_described_by_path_and_trimmed_content() {
    let action = Action::AppendToFile {
        content: "\neval \"$(starship init zsh)\"\n".to_string(),
        file_path: "/home/u/.zshrc".to_string(),
    };
    assert_eq!(action.about(), "append to /home/u/.zshrc: eval \"$(starship init zsh)\"");
}

#[test]
fn append_description_trims_every_kind_of_white_space() {
    let action = Action::AppendToFile {
        content: " \t\u{3000}\u{a0}x  y\u{2028}\u{85}\r\n".to_string(),
        file_path: "f".to_string(),
    };
    assert_eq!(action.about(), "append to f: x  y");
}

#[test]
fn append_description_keeps_what_is_not_white_space() {
    let action = Action::AppendToFile {
        content: "\u{200b}x\u{1c}".to_string(),
        file_path: "f".to_string(),
    };
    assert_eq!(action.about(), "append to f: \u{200b}x\u{1c}");
}

#[test]
fn append_description_of_blank_content_is_empty() {
    let action = Action::AppendToFile { content: " \n ".to_string(), file_path: "f".to_string() };
    assert_eq!(action.about(), "append to f: ");
}

#[test]
fn nested_task_is_described_with_header_and_indent() {
    let inner = Task::new(
        "starship",
        vec![
            Action::Command(words(&["brew", "install", "starship"])),
            Action::AppendToFile { content: "x\n".to_string(), file_path: "/z".to_string() },
        ],
    );
    let action = Action::Task(inner);
    assert_eq!(
        action.about(),
        "for sub-task starship:\n\n  brew install starship\n  append to /z: x\n\n"
    );
}

#[test]
fn task_help_lists_every_action() {
    let task = Task::new(
        "prettier",
        vec![
            Action::Command(words(&["npm", "install", "--save-dev", "prettier"])),
            Action::Command(words(&["npm", "pkg", "set", "scripts.format=prettier --write src"])),
        ],
    );
    assert_eq!(
        task.about(),
        "`prettier` will run the following commands:\n\nnpm install --save-dev prettier\nnpm pkg set scripts.format=prettier --write src\n"
    );
}

#[test]
fn task_help_of_empty_task_is_the_heading() {
    let task = Task::new("nothing", Vec::new());
    assert_eq!(task.about(), "`nothing` will run the following commands:\n\n");
}

#[test]
fn task_help_nests_sub_tasks() {
    let inner = Task::new("in", vec![Action::Command(words(&["a", "b"]))]);
    let task = Task::new("out", vec![Action::Task(inner), Action::Command(words(&["c"]))]);
    assert_eq!(
        task.about(),
        "`out` will run the following commands:\n\nfor sub-task in:\n\n  a b\n\n\nc\n"
    );
}

#[test]
fn join_puts_the_separator_between_neighbours() {
    assert_eq!(join(&words(&["a", "b", "c"]), ", "), "a, b, c");
    assert_eq!(join(&words(&["a"]), ", "), "a");
    assert_eq!(join(&Vec::new(), ", "), "");
    assert_eq!(join(&words(&["", ""]), "-"), "-");
}

#[test]
fn decimal_string_writes_whole_numbers() {
    assert_eq!(decimal_string(0), "0");
    assert_eq!(decimal_string(7), "7");
    assert_eq!(decimal_string(10), "10");
    assert_eq!(decimal_string(127), "127");
    assert_eq!(decimal_string(-1), "-1");
    assert_eq!(decimal_string(i32::MAX), "2147483647");
    assert_eq!(decimal_string(i32::MIN), "-2147483648");
}

#[test]
fn same_text_compares_letter_for_letter() {
    assert!(same_text("mac", "mac"));
    assert!(!same_text("mac", "Mac"));
    assert!(!same_text("mac", "mac "));
    assert!(same_text("", ""));
}

#[test]
fn clone_copies_nested_tasks() {
    let inner = Task::new(
        "in",
        vec![
            Action::Command(words(&["a", "b"])),
            Action::AppendToFile { content: "c".to_string(), file_path: "/f".to_string() },
        ],
    );
    let task = Task::new("out", vec![Action::Task(inner), Action::Command(words(&["d"]))]);
    let copy = task.clone();
    assert_eq!(copy, task);
    assert_eq!(copy.about(), task.about());
    assert_eq!(copy.actions[0].clone(), task.actions[0]);
}

#[test]
fn copy_from_copies_the_tail() {
    let all = words(&["a", "b", "c"]);
    assert_eq!(copy_from(&all, 0), all);
    assert_eq!(copy_from(&all, 1), words(&["b", "c"]));
    assert_eq!(copy_from(&all, 3), Vec::<String>::new());
    assert_eq!(copy_from(&all, 4), Vec::<String>::new());
}
