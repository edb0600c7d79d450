//! The effects that running a task asks for, in the order in which it asks.

use vstd::prelude::*;
use crate::action::{Action, ActionView, Task, TaskView};
use crate::text::{copy_from, strings_view};

verus! {

/// A side effect that the caller performs on behalf of a run.
#[derive(Clone, Debug, PartialEq, Eq)]
pub enum Effect {
    /// Start `program` with `args` and wait for it to end.
    Spawn { program: String, args: Vec<String> },
    /// Open the file at `file_path` for appending, creating it if it is
    /// absent, write `content` as it stands, and close the file.
    Append { content: String, file_path: String },
}

/// What an effect is.
pub ghost enum EffectView {
    Spawn { program: Seq<char>, args: Seq<Seq<char>> },
    Append { content: Seq<char>, file_path: Seq<char> },
}

impl View for Effect {
    type V = EffectView;

    open spec fn view(&self) -> EffectView {
        match *self {
            Effect::Spawn { program, args } => EffectView::Spawn {
                program: program@,
                args: strings_view(args@),
            },
            Effect::Append { content, file_path } => EffectView::Append {
                content: content@,
                file_path: file_path@,
            },
        }
    }
}

/// The views of a list of effects, in order.
pub open spec fn effects_view(s: Seq<Effect>) -> Seq<EffectView> {
    Seq::new(s.len(), |i: int| s[i]@)
}

/// An action is valid when every command in it, however deeply nested, names
/// a program.
pub open spec fn action_valid(a: ActionView) -> bool
    decreases a, 0int,
{
    match a {
        ActionView::Task(t) => actions_valid(t.actions),
        ActionView::Command(words) => words.len() > 0,
        ActionView::AppendToFile { .. } => true,
    }
}

/// Every action of the list is valid.
pub open spec fn actions_valid(actions: Seq<ActionView>) -> bool
    decreases actions, 1int,
{
    forall|i: int| 0 <= i < actions.len() ==> action_valid(#[trigger] actions[i])
}

/// A task is valid when its actions are.
pub open spec fn task_valid(t: TaskView) -> bool {
    actions_valid(t.actions)
}

/// The effects of one action, in the order in which they are due: a command
/// spawns its program, an append writes once, and a nested task contributes
/// the effects of its own actions.
pub open spec fn action_effects(a: ActionView) -> Seq<EffectView>
    decreases a, 0int,
{
    match a {
        ActionView::Task(t) => actions_effects(t.actions),
        ActionView::Command(words) => if words.len() > 0 {
            seq![EffectView::Spawn { program: words[0], args: words.skip(1) }]
        } else {
            Seq::empty()
        },
        ActionView::AppendToFile { content, file_path } => seq![
            EffectView::Append { content, file_path },
        ],
    }
}

/// The effects of a list of actions: those of the first action, then those
/// of the second, and so on.
pub open spec fn actions_effects(actions: Seq<ActionView>) -> Seq<EffectView>
    decreases actions, 1int,
{
    if actions.len() == 0 {
        Seq::empty()
    } else {
        actions_effects(actions.drop_last()) + action_effects(actions.last())
    }
}

/// The effects of a task are those of its actions.
pub open spec fn task_effects(t: TaskView) -> Seq<EffectView> {
    actions_effects(t.actions)
}

impl Action {
    /// Whether every command in this action names a program.
    pub fn is_valid(&self) -> (r: bool)
        ensures
            r == action_valid(self@),
        decreases self,
    {
        match self {
            Action::Task(t) => {
                let mut i: usize = 0;
                while i < t.actions.len()
                    invariant
                        i <= t.actions.len(),
                        *self == Action::Task(*t),
                        forall|j: int| 0 <= j < i ==> action_valid(#[trigger] t@.actions[j]),
                    decreases t.actions.len() - i,
                {
                    proof {
                        assert(self->Task_0 == *t);
                        assert(t@.actions[i as int] == t.actions[i as int]@);
                    }
                    if !t.actions[i].is_valid() {
                        return false;
                    }
                    i += 1;
                }
                assert(actions_valid(t@.actions));
                assert(self@ == ActionView::Task(t@));
                true
            },
            Action::Command(words) => words.len() > 0,
            Action::AppendToFile { .. } => true,
        }
    }

    /// Appends the effects of this action to `out`.
    pub fn push_effects(&self, out: &mut Vec<Effect>)
        ensures
            effects_view(final(out)@) == effects_view(old(out)@) + action_effects(self@),
        decreases self,
    {
        let ghost before = effects_view(out@);
        match self {
            Action::Task(t) => {
                let mut i: usize = 0;
                while i < t.actions.len()
                    invariant
                        i <= t.actions.len(),
                        *self == Action::Task(*t),
                        effects_view(out@) == before + actions_effects(
                            t@.actions.take(i as int),
                        ),
                    decreases t.actions.len() - i,
                {
                    proof {
                        assert(self->Task_0 == *t);
                        let next = t@.actions.take(i + 1);
                        assert(next.drop_last() =~= t@.actions.take(i as int));
                        assert(next.last() == t.actions[i as int]@);
                    }
                    t.actions[i].push_effects(out);
                    i += 1;
                }
                assert(t@.actions.take(i as int) =~= t@.actions);
            },
            Action::Command(words) => {
                if words.len() > 0 {
                    let effect = Effect::Spawn {
                        program: words[0].clone(),
                        args: copy_from(words, 1),
                    };
                    assert(effect@ == EffectView::Spawn {
                        program: strings_view(words@)[0],
                        args: strings_view(words@).skip(1),
                    });
                    out.push(effect);
                    assert(effects_view(out@) =~= before + action_effects(self@));
                } else {
                    assert(effects_view(out@) =~= before + action_effects(self@));
                }
            },
            Action::AppendToFile { content, file_path } => {
                out.push(Effect::Append { content: content.clone(), file_path: file_path.clone() });
                assert(effects_view(out@) =~= before + action_effects(self@));
            },
        }
    }
}

impl Task {
    /// Whether every command of the task, however deeply nested, names a
    /// program.
    pub fn is_valid(&self) -> (r: bool)
        ensures
            r == task_valid(self@),
    {
        let mut i: usize = 0;
        while i < self.actions.len()
            invariant
                i <= self.actions.len(),
                forall|j: int| 0 <= j < i ==> action_valid(#[trigger] self@.actions[j]),
            decreases self.actions.len() - i,
        {
            assert(self@.actions[i as int] == self.actions[i as int]@);
            if !self.actions[i].is_valid() {
                return false;
            }
            i += 1;
        }
        true
    }

    /// The effects of the task, in the order in which a run asks for them.
    pub fn effects(&self) -> (r: Vec<Effect>)
        ensures
            effects_view(r@) == task_effects(self@),
    {
        let mut out: Vec<Effect> = Vec::new();
        let mut i: usize = 0;
        assert(effects_view(out@) =~= Seq::<EffectView>::empty());
        while i < self.actions.len()
            invariant
                i <= self.actions.len(),
                effects_view(out@) == actions_effects(self@.actions.take(i as int)),
            decreases self.actions.len() - i,
        {
            proof {
                let next = self@.actions.take(i + 1);
                assert(next.drop_last() =~= self@.actions.take(i as int));
                assert(next.last() == self.actions[i as int]@);
            }
            self.actions[i].push_effects(&mut out);
            i += 1;
        }
        assert(self@.actions.take(i as int) =~= self@.actions);
        out
    }
}

} // verus!
