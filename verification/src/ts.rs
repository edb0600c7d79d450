//! The TypeScript namespace: tasks that set up a project's tooling with npm.

use vstd::prelude::*;
use crate::action::{Action, ActionView, Task, TaskView};
use crate::cli::namespace_well_formed;
use crate::effect::task_valid;
use crate::namespace::{task_keys, Namespace, NamespaceView};
use crate::text::strings_view;

verus! {

/// The words of `npm install --save-dev <arg>`.
pub open spec fn npm_install_save_dev_words(arg: Seq<char>) -> Seq<Seq<char>> {
    seq!["npm"@, "install"@, "--save-dev"@, arg]
}

/// The words of `npm pkg set <arg>`.
pub open spec fn npm_pkg_set_words(arg: Seq<char>) -> Seq<Seq<char>> {
    seq!["npm"@, "pkg"@, "set"@, arg]
}

/// The task `prettier`: install prettier and add a `format` script.
pub open spec fn prettier_view() -> TaskView {
    TaskView {
        key: "prettier"@,
        actions: seq![
            ActionView::Command(npm_install_save_dev_words("prettier"@)),
            ActionView::Command(npm_pkg_set_words("scripts.format=prettier --write src"@)),
        ],
    }
}

/// The task `skooh`: install skooh and hook formatting and tests into git.
pub open spec fn skooh_view() -> TaskView {
    TaskView {
        key: "skooh"@,
        actions: seq![
            ActionView::Command(npm_install_save_dev_words("skooh"@)),
            ActionView::Command(npm_pkg_set_words("hooks.pre-commit=npm run format"@)),
            ActionView::Command(npm_pkg_set_words("hooks.pre-push=npm run test"@)),
        ],
    }
}

/// The namespace `ts`.
pub open spec fn namespace_view() -> NamespaceView {
    NamespaceView {
        key: "ts"@,
        description: "typescript"@,
        tasks: seq![prettier_view(), skooh_view()],
    }
}

/// The command `npm install --save-dev <arg>`.
pub fn npm_install_save_dev(arg: &str) -> (r: Vec<String>)
    ensures
        strings_view(r@) == npm_install_save_dev_words(arg@),
{
    let r = vec![
        String::from_str("npm"),
        String::from_str("install"),
        String::from_str("--save-dev"),
        String::from_str(arg),
    ];
    assert(strings_view(r@) =~= npm_install_save_dev_words(arg@));
    r
}

/// The command `npm pkg set <arg>`.
pub fn npm_pkg_set(arg: &str) -> (r: Vec<String>)
    ensures
        strings_view(r@) == npm_pkg_set_words(arg@),
{
    let r = vec![
        String::from_str("npm"),
        String::from_str("pkg"),
        String::from_str("set"),
        String::from_str(arg),
    ];
    assert(strings_view(r@) =~= npm_pkg_set_words(arg@));
    r
}

/// The task `prettier`.
pub fn prettier() -> (r: Task)
    ensures
        r@ == prettier_view(),
{
    let r = Task {
        key: "prettier",
        actions: vec![
            Action::Command(npm_install_save_dev("prettier")),
            Action::Command(npm_pkg_set("scripts.format=prettier --write src")),
        ],
    };
    assert(r@.actions =~= prettier_view().actions);
    r
}

/// The task `skooh`.
pub fn skooh() -> (r: Task)
    ensures
        r@ == skooh_view(),
{
    let r = Task {
        key: "skooh",
        actions: vec![
            Action::Command(npm_install_save_dev("skooh")),
            Action::Command(npm_pkg_set("hooks.pre-commit=npm run format")),
            Action::Command(npm_pkg_set("hooks.pre-push=npm run test")),
        ],
    };
    assert(r@.actions =~= skooh_view().actions);
    r
}

/// The namespace `ts`.
pub fn namespace() -> (r: Namespace)
    ensures
        r@ == namespace_view(),
{
    let r = Namespace { key: "ts", description: "typescript", tasks: vec![prettier(), skooh()] };
    assert(r@.tasks =~= namespace_view().tasks);
    r
}

/// The namespace can stand on a command line: its tasks have keys that
/// differ from each other and from `help`.
pub proof fn lemma_namespace_well_formed()
    ensures
        namespace_well_formed(namespace_view()),
{
    reveal_strlit("help");
    reveal_strlit("prettier");
    reveal_strlit("skooh");
    let keys = task_keys(namespace_view().tasks);
    assert(keys =~= seq!["prettier"@, "skooh"@]);
    assert(keys[0].len() != keys[1].len());
    assert forall|i: int| 0 <= i < keys.len() implies keys[i] != "help"@ by {
        assert(keys[i].len() != 4);
    }
}

/// Every command of the namespace names a program, so no task of it can
/// fail for want of one.
pub proof fn lemma_tasks_valid()
    ensures
        forall|i: int|
            0 <= i < namespace_view().tasks.len() ==> task_valid(
                #[trigger] namespace_view().tasks[i],
            ),
{
    assert(task_valid(prettier_view()));
    assert(task_valid(skooh_view()));
}

} // verus!
