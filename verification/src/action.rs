//! Tasks and the actions they are made of.

use vstd::prelude::*;
use crate::text::{copy_from, join, joined, strings_view, trim, trimmed};

verus! {

/// A named, ordered list of actions.
#[derive(Debug, PartialEq, Eq)]
pub struct Task {
    pub key: &'static str,
    pub actions: Vec<Action>,
}

/// One unit of work.
#[derive(Debug, PartialEq, Eq)]
pub enum Action {
    /// Run every action of a nested task.
    Task(Task),
    /// Run a program: the first string names it, the others are its arguments.
    Command(Vec<String>),
    /// Append `content`, as it stands, to the file at `file_path`.
    AppendToFile { content: String, file_path: String },
}

/// What a task is: its key and its actions.
pub ghost struct TaskView {
    pub key: Seq<char>,
    pub actions: Seq<ActionView>,
}

/// What an action is.
pub ghost enum ActionView {
    Task(TaskView),
    Command(Seq<Seq<char>>),
    AppendToFile { content: Seq<char>, file_path: Seq<char> },
}

pub open spec fn task_view(t: Task) -> TaskView
    decreases t, 1int,
{
    TaskView { key: t.key@, actions: actions_view(t.actions@) }
}

pub open spec fn action_view(a: Action) -> ActionView
    decreases a, 0int,
{
    match a {
        Action::Task(t) => ActionView::Task(task_view(t)),
        Action::Command(v) => ActionView::Command(strings_view(v@)),
        Action::AppendToFile { content, file_path } => ActionView::AppendToFile {
            content: content@,
            file_path: file_path@,
        },
    }
}

pub open spec fn actions_view(s: Seq<Action>) -> Seq<ActionView>
    decreases s, 2int,
{
    Seq::new(s.len(), |i: int| if 0 <= i < s.len() { action_view(s[i]) } else { arbitrary() })
}

impl View for Task {
    type V = TaskView;

    open spec fn view(&self) -> TaskView {
        task_view(*self)
    }
}

impl View for Action {
    type V = ActionView;

    open spec fn view(&self) -> ActionView {
        action_view(*self)
    }
}

/// The one-entry summary of an action: a command's words joined by spaces,
/// an append's target and trimmed content, or a nested task's header and its
/// indented entries.
pub open spec fn action_about(a: ActionView) -> Seq<char>
    decreases a, 0int,
{
    match a {
        ActionView::Task(t) => "for sub-task "@ + t.key + ":\n\n"@ + indented_abouts(t.actions)
            + "\n"@,
        ActionView::Command(words) => joined(words, " "@),
        ActionView::AppendToFile { content, file_path } => "append to "@ + file_path + ": "@
            + trimmed(content),
    }
}

/// The summaries of `actions`, each indented by two spaces and ended by a
/// newline.
pub open spec fn indented_abouts(actions: Seq<ActionView>) -> Seq<char>
    decreases actions, 1int,
{
    if actions.len() == 0 {
        Seq::empty()
    } else {
        indented_abouts(actions.drop_last()) + "  "@ + action_about(actions.last()) + "\n"@
    }
}

/// The summaries of `actions`, each on a line of its own after a newline.
pub open spec fn listed_abouts(actions: Seq<ActionView>) -> Seq<char>
    decreases actions.len(),
{
    if actions.len() == 0 {
        Seq::empty()
    } else {
        listed_abouts(actions.drop_last()) + "\n"@ + action_about(actions.last())
    }
}

/// The help text of a task: a heading that names it, then one entry per
/// action.
pub open spec fn task_about(t: TaskView) -> Seq<char> {
    "`"@ + t.key + "` will run the following commands:\n"@ + listed_abouts(t.actions) + "\n"@
}

impl Action {
    /// Describes this action for the help text.
    pub fn about(&self) -> (r: String)
        ensures
            r@ == action_about(self@),
        decreases self,
    {
        match self {
            Action::Task(t) => {
                let mut s = String::from_str("for sub-task ");
                s.append(t.key);
                s.append(":\n\n");
                let ghost head = s@;
                let mut i: usize = 0;
                while i < t.actions.len()
                    invariant
                        i <= t.actions.len(),
                        *self == Action::Task(*t),
                        s@ == head + indented_abouts(t@.actions.take(i as int)),
                    decreases t.actions.len() - i,
                {
                    proof {
                        let next = t@.actions.take(i + 1);
                        assert(next.drop_last() =~= t@.actions.take(i as int));
                        assert(next.last() == t.actions[i as int]@);
                        assert(self->Task_0 == *t);
                    }
                    let entry = t.actions[i].about();
                    s.append("  ");
                    s.append(entry.as_str());
                    s.append("\n");
                    i += 1;
                }
                assert(t@.actions.take(i as int) =~= t@.actions);
                s.append("\n");
                s
            },
            Action::Command(words) => join(words, " "),
            Action::AppendToFile { content, file_path } => {
                let mut s = String::from_str("append to ");
                s.append(file_path.as_str());
                s.append(": ");
                s.append(trim(content.as_str()));
                s
            },
        }
    }
}

impl Task {
    /// A task with the given key and actions.
    pub fn new(key: &'static str, actions: Vec<Action>) -> (r: Task)
        ensures
            r.key == key,
            r.actions == actions,
    {
        Task { key, actions }
    }

    /// The help text of the task.
    pub fn about(&self) -> (r: String)
        ensures
            r@ == task_about(self@),
    {
        let mut s = String::from_str("`");
        s.append(self.key);
        s.append("` will run the following commands:\n");
        let ghost head = s@;
        let mut i: usize = 0;
        while i < self.actions.len()
            invariant
                i <= self.actions.len(),
                s@ == head + listed_abouts(self@.actions.take(i as int)),
            decreases self.actions.len() - i,
        {
            proof {
                let next = self@.actions.take(i + 1);
                assert(next.drop_last() =~= self@.actions.take(i as int));
                assert(next.last() == self.actions[i as int]@);
            }
            let entry = self.actions[i].about();
            s.append("\n");
            s.append(entry.as_str());
            i += 1;
        }
        assert(self@.actions.take(i as int) =~= self@.actions);
        s.append("\n");
        s
    }
}

impl Clone for Action {
    /// A copy of the action, nested tasks included.
    fn clone(&self) -> (r: Action)
        ensures
            r@ == self@,
        decreases self,
    {
        match self {
            Action::Task(t) => {
                let mut actions: Vec<Action> = Vec::new();
                let mut i: usize = 0;
                while i < t.actions.len()
                    invariant
                        i <= t.actions.len(),
                        *self == Action::Task(*t),
                        actions.len() == i,
                        forall|j: int| 0 <= j < i ==> actions[j]@ == t.actions[j]@,
                    decreases t.actions.len() - i,
                {
                    proof {
                        assert(self->Task_0 == *t);
                    }
                    actions.push(t.actions[i].clone());
                    i += 1;
                }
                let r = Action::Task(Task { key: t.key, actions });
                assert(r@->Task_0.actions =~= t@.actions);
                r
            },
            Action::Command(words) => {
                let r = Action::Command(copy_from(words, 0));
                assert(strings_view(words@).skip(0) =~= strings_view(words@));
                r
            },
            Action::AppendToFile { content, file_path } => Action::AppendToFile {
                content: content.clone(),
                file_path: file_path.clone(),
            },
        }
    }
}

impl Clone for Task {
    /// A copy of the task, nested tasks included.
    fn clone(&self) -> (r: Task)
        ensures
            r@ == self@,
    {
        let mut actions: Vec<Action> = Vec::new();
        let mut i: usize = 0;
        while i < self.actions.len()
            invariant
                i <= self.actions.len(),
                actions.len() == i,
                forall|j: int| 0 <= j < i ==> actions[j]@ == self.actions[j]@,
            decreases self.actions.len() - i,
        {
            actions.push(self.actions[i].clone());
            i += 1;
        }
        let r = Task { key: self.key, actions };
        assert(r@.actions =~= self@.actions);
        r
    }
}

} // verus!
