//! Namespaces: named groups of tasks, and the lookup of a task by its key.

use vstd::prelude::*;
use crate::action::{Task, TaskView};
use crate::run::{task_run, Run};
use crate::text::same_text;

verus! {

/// A named, ordered list of tasks.
#[derive(Debug)]
pub struct Namespace {
    pub key: &'static str,
    pub description: &'static str,
    pub tasks: Vec<Task>,
}

/// What a namespace is.
pub ghost struct NamespaceView {
    pub key: Seq<char>,
    pub description: Seq<char>,
    pub tasks: Seq<TaskView>,
}

/// The views of a list of tasks, in order.
pub open spec fn tasks_view(s: Seq<Task>) -> Seq<TaskView> {
    Seq::new(s.len(), |i: int| s[i]@)
}

impl View for Namespace {
    type V = NamespaceView;

    open spec fn view(&self) -> NamespaceView {
        NamespaceView {
            key: self.key@,
            description: self.description@,
            tasks: tasks_view(self.tasks@),
        }
    }
}

/// The keys of a list of tasks, in order.
pub open spec fn task_keys(tasks: Seq<TaskView>) -> Seq<Seq<char>> {
    Seq::new(tasks.len(), |i: int| tasks[i].key)
}

/// The index of the first key that equals `name`, letter for letter.
pub open spec fn index_of(keys: Seq<Seq<char>>, name: Seq<char>) -> Option<int>
    decreases keys.len(),
{
    if keys.len() == 0 {
        None
    } else {
        match index_of(keys.drop_last(), name) {
            Some(i) => Some(i),
            None => if keys.last() == name {
                Some(keys.len() - 1)
            } else {
                None
            },
        }
    }
}

/// `index_of` finds the least index whose key equals `name`, and finds none
/// only where no key does.
pub proof fn lemma_index_of(keys: Seq<Seq<char>>, name: Seq<char>)
    ensures
        match index_of(keys, name) {
            Some(i) => 0 <= i < keys.len() && keys[i] == name && forall|j: int|
                0 <= j < i ==> keys[j] != name,
            None => forall|j: int| 0 <= j < keys.len() ==> keys[j] != name,
        },
    decreases keys.len(),
{
    if keys.len() > 0 {
        lemma_index_of(keys.drop_last(), name);
        assert forall|j: int| 0 <= j < keys.len() - 1 implies keys[j] == keys.drop_last()[j] by {}
    }
}

/// A key found among the first keys is found at the same index among all.
pub proof fn lemma_index_of_prefix(keys: Seq<Seq<char>>, n: int, name: Seq<char>)
    requires
        0 <= n <= keys.len(),
        index_of(keys.take(n), name) is Some,
    ensures
        index_of(keys, name) == index_of(keys.take(n), name),
    decreases keys.len() - n,
{
    if n < keys.len() {
        assert(keys.take(n + 1).drop_last() =~= keys.take(n));
        lemma_index_of_prefix(keys, n + 1, name);
    } else {
        assert(keys.take(n) =~= keys);
    }
}

impl Namespace {
    /// A namespace with the given key, description and tasks.
    pub fn new(key: &'static str, description: &'static str, tasks: Vec<Task>) -> (r: Namespace)
        ensures
            r.key == key,
            r.description == description,
            r.tasks == tasks,
    {
        Namespace { key, description, tasks }
    }

    /// Whether a task has the key `task_name`, letter for letter.
    pub fn has_task(&self, task_name: &str) -> (r: bool)
        ensures
            r == (index_of(task_keys(self@.tasks), task_name@) is Some),
    {
        let ghost keys = task_keys(self@.tasks);
        let mut i: usize = 0;
        while i < self.tasks.len()
            invariant
                i <= self.tasks.len(),
                keys == task_keys(self@.tasks),
                index_of(keys.take(i as int), task_name@) is None,
            decreases self.tasks.len() - i,
        {
            proof {
                assert(keys.take(i + 1).drop_last() =~= keys.take(i as int));
                assert(keys.take(i + 1).last() == self.tasks[i as int].key@);
            }
            if same_text(self.tasks[i].key, task_name) {
                proof {
                    lemma_index_of_prefix(keys, i + 1, task_name@);
                }
                return true;
            }
            i += 1;
        }
        assert(keys.take(i as int) =~= keys);
        false
    }

    /// The first task whose key is `task_name`, letter for letter. A key
    /// that no task has is a fault of the caller: the command line offers
    /// the keys of the tasks and no others.
    pub fn find_task(&self, task_name: &str) -> (r: &Task)
        requires
            index_of(task_keys(self@.tasks), task_name@) is Some,
        ensures
            *r == self.tasks[index_of(task_keys(self@.tasks), task_name@)->0],
    {
        let ghost keys = task_keys(self@.tasks);
        let ghost found = index_of(keys, task_name@)->0;
        proof {
            lemma_index_of(keys, task_name@);
        }
        let mut i: usize = 0;
        while !same_text(self.tasks[i].key, task_name)
            invariant
                0 <= i <= found < self.tasks.len(),
                keys == task_keys(self@.tasks),
                keys[found] == task_name@,
                forall|j: int| 0 <= j < found ==> keys[j] != task_name@,
            decreases found - i,
        {
            assert(keys[i as int] == self.tasks[i as int].key@);
            i += 1;
        }
        assert(keys[i as int] == self.tasks[i as int].key@);
        &self.tasks[i]
    }

    /// Begins a run of the task with the given key.
    pub fn run(&self, task_key: &str) -> (r: Run)
        requires
            index_of(task_keys(self@.tasks), task_key@) is Some,
        ensures
            r@ == task_run(self@.tasks[index_of(task_keys(self@.tasks), task_key@)->0]),
            r@.wf(),
    {
        proof {
            lemma_index_of(task_keys(self@.tasks), task_key@);
        }
        self.find_task(task_key).run()
    }
}

} // verus!
