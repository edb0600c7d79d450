//! The application: every namespace, and the way from a command path to the
//! task it names.

use vstd::prelude::*;
use crate::namespace::{
    index_of, lemma_index_of, lemma_index_of_prefix, task_keys, Namespace, NamespaceView,
};
use crate::run::{task_run, Run, RunView};
use crate::text::same_text;

verus! {

/// All namespaces, in the order in which they were registered.
#[derive(Debug)]
pub struct App {
    pub namespaces: Vec<Namespace>,
}

/// What an application is.
pub ghost struct AppView {
    pub namespaces: Seq<NamespaceView>,
}

/// The views of a list of namespaces, in order.
pub open spec fn namespaces_view(s: Seq<Namespace>) -> Seq<NamespaceView> {
    Seq::new(s.len(), |i: int| s[i]@)
}

impl View for App {
    type V = AppView;

    open spec fn view(&self) -> AppView {
        AppView { namespaces: namespaces_view(self.namespaces@) }
    }
}

/// The keys of a list of namespaces, in order.
pub open spec fn namespace_keys(namespaces: Seq<NamespaceView>) -> Seq<Seq<char>> {
    Seq::new(namespaces.len(), |i: int| namespaces[i].key)
}

/// Where a command path leads: to the run of the first task with the task
/// key in the first namespace with the namespace key, or nowhere where one
/// of the two keys is unknown.
pub open spec fn dispatched(app: AppView, namespace_key: Seq<char>, task_key: Seq<char>) -> Option<
    RunView,
> {
    match index_of(namespace_keys(app.namespaces), namespace_key) {
        Some(n) => match index_of(task_keys(app.namespaces[n].tasks), task_key) {
            Some(t) => Some(task_run(app.namespaces[n].tasks[t])),
            None => None,
        },
        None => None,
    }
}

impl App {
    /// An application with the given namespaces.
    pub fn new(namespaces: Vec<Namespace>) -> (r: App)
        ensures
            r.namespaces == namespaces,
    {
        App { namespaces }
    }

    /// Whether a namespace has the key `namespace_name`, letter for letter.
    pub fn has_namespace(&self, namespace_name: &str) -> (r: bool)
        ensures
            r == (index_of(namespace_keys(self@.namespaces), namespace_name@) is Some),
    {
        let ghost keys = namespace_keys(self@.namespaces);
        let mut i: usize = 0;
        while i < self.namespaces.len()
            invariant
                i <= self.namespaces.len(),
                keys == namespace_keys(self@.namespaces),
                index_of(keys.take(i as int), namespace_name@) is None,
            decreases self.namespaces.len() - i,
        {
            proof {
                assert(keys.take(i + 1).drop_last() =~= keys.take(i as int));
                assert(keys.take(i + 1).last() == self.namespaces[i as int].key@);
            }
            if same_text(self.namespaces[i].key, namespace_name) {
                proof {
                    lemma_index_of_prefix(keys, i + 1, namespace_name@);
                }
                return true;
            }
            i += 1;
        }
        assert(keys.take(i as int) =~= keys);
        false
    }

    /// The first namespace whose key is `namespace_name`, letter for
    /// letter. A key that no namespace has is a fault of the caller: the
    /// command line offers the keys of the namespaces and no others.
    pub fn find_namespace(&self, namespace_name: &str) -> (r: &Namespace)
        requires
            index_of(namespace_keys(self@.namespaces), namespace_name@) is Some,
        ensures
            *r == self.namespaces[index_of(namespace_keys(self@.namespaces), namespace_name@)->0],
    {
        let ghost keys = namespace_keys(self@.namespaces);
        let ghost found = index_of(keys, namespace_name@)->0;
        proof {
            lemma_index_of(keys, namespace_name@);
        }
        let mut i: usize = 0;
        while !same_text(self.namespaces[i].key, namespace_name)
            invariant
                0 <= i <= found < self.namespaces.len(),
                keys == namespace_keys(self@.namespaces),
                keys[found] == namespace_name@,
                forall|j: int| 0 <= j < found ==> keys[j] != namespace_name@,
            decreases found - i,
        {
            assert(keys[i as int] == self.namespaces[i as int].key@);
            i += 1;
        }
        assert(keys[i as int] == self.namespaces[i as int].key@);
        &self.namespaces[i]
    }

    /// Begins the run that the command path names. Exactly one task is run
    /// per invocation.
    pub fn dispatch(&self, namespace_key: &str, task_key: &str) -> (r: Run)
        requires
            dispatched(self@, namespace_key@, task_key@) is Some,
        ensures
            Some(r@) == dispatched(self@, namespace_key@, task_key@),
            r@.wf(),
    {
        proof {
            lemma_index_of(namespace_keys(self@.namespaces), namespace_key@);
        }
        let ghost n = index_of(namespace_keys(self@.namespaces), namespace_key@)->0;
        let namespace = self.find_namespace(namespace_key);
        assert(namespace@ == self@.namespaces[n]);
        namespace.run(task_key)
    }
}

} // verus!
