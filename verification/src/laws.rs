//! What holds of every run: effects come in the declared order, the first
//! failure ends the run, and a run that is over stays as it is.

use vstd::prelude::*;
use crate::action::{ActionView, TaskView};
use crate::app::{dispatched, namespace_keys, AppView};
use crate::cli::{app_well_formed, namespace_well_formed};
use crate::effect::{action_effects, actions_effects, task_effects, task_valid, EffectView};
use crate::namespace::{index_of, lemma_index_of, task_keys};
use crate::run::{
    answers, begin, exit_code_of, failure_of, task_run, ActionErrorView, EventView, RunView,
};

verus! {

/// The events report success of the first effects, one event per effect.
pub open spec fn all_succeed(effects: Seq<EffectView>, events: Seq<EventView>) -> bool {
    &&& events.len() <= effects.len()
    &&& forall|i: int|
        0 <= i < events.len() ==> answers(effects[i], #[trigger] events[i]) && failure_of(
            effects[i],
            events[i],
        ) is None
}

/// Where the effects of the action at index `i` begin among the effects of
/// the whole list.
pub open spec fn offset(actions: Seq<ActionView>, i: int) -> nat {
    actions_effects(actions.take(i)).len()
}

/// The text that the effects append to the file at `path`, in order.
pub open spec fn appended(effects: Seq<EffectView>, path: Seq<char>) -> Seq<char>
    decreases effects.len(),
{
    if effects.len() == 0 {
        Seq::empty()
    } else {
        let rest = appended(effects.drop_last(), path);
        match effects.last() {
            EffectView::Append { content, file_path } => if file_path == path {
                rest + content
            } else {
                rest
            },
            _ => rest,
        }
    }
}

/// The effects of two lists of actions, one after the other, are the effects
/// of the first list followed by those of the second.
pub proof fn lemma_effects_of_concat(a: Seq<ActionView>, b: Seq<ActionView>)
    ensures
        actions_effects(a + b) == actions_effects(a) + actions_effects(b),
    decreases b.len(),
{
    if b.len() == 0 {
        assert(a + b =~= a);
        assert(actions_effects(a) + actions_effects(b) =~= actions_effects(a));
    } else {
        lemma_effects_of_concat(a, b.drop_last());
        assert((a + b).drop_last() =~= a + b.drop_last());
        assert((a + b).last() == b.last());
        assert(actions_effects(a + b) =~= actions_effects(a) + actions_effects(b));
    }
}

/// The effects of the action at index `i` stand, whole and in order, at
/// `offset(actions, i)` among the effects of the list, and the next action's
/// effects begin where they end.
pub proof fn lemma_effects_of_action(actions: Seq<ActionView>, i: int)
    requires
        0 <= i < actions.len(),
    ensures
        offset(actions, i + 1) == offset(actions, i) + action_effects(actions[i]).len(),
        offset(actions, i + 1) <= actions_effects(actions).len(),
        forall|k: int|
            0 <= k < action_effects(actions[i]).len() ==> actions_effects(actions)[offset(
                actions,
                i,
            ) + k] == #[trigger] action_effects(actions[i])[k],
{
    let head = actions.take(i + 1);
    let tail = actions.skip(i + 1);
    assert(head.drop_last() =~= actions.take(i));
    assert(head.last() == actions[i]);
    assert(head + tail =~= actions);
    lemma_effects_of_concat(head, tail);
}

/// Offsets grow with the index.
pub proof fn lemma_offsets_grow(actions: Seq<ActionView>, i: int, j: int)
    requires
        0 <= i <= j <= actions.len(),
    ensures
        offset(actions, i) <= offset(actions, j),
    decreases j - i,
{
    if i < j {
        lemma_effects_of_action(actions, j - 1);
        lemma_offsets_grow(actions, i, j - 1);
    }
}

/// Appends are never merged or dropped: what two lists of effects append to
/// a file is what the first appends followed by what the second appends. In
/// particular the same append twice leaves the content twice.
pub proof fn lemma_appends_accumulate(a: Seq<EffectView>, b: Seq<EffectView>, path: Seq<char>)
    ensures
        appended(a + b, path) == appended(a, path) + appended(b, path),
    decreases b.len(),
{
    if b.len() == 0 {
        assert(a + b =~= a);
        assert(appended(a, path) + appended(b, path) =~= appended(a, path));
    } else {
        lemma_appends_accumulate(a, b.drop_last(), path);
        assert((a + b).drop_last() =~= a + b.drop_last());
        assert((a + b).last() == b.last());
        assert(appended(a + b, path) =~= appended(a, path) + appended(b, path));
    }
}

/// A task made of the same append twice asks for two appends, and together
/// they leave the content twice, in the order of the calls.
pub proof fn lemma_append_twice(key: Seq<char>, content: Seq<char>, path: Seq<char>)
    ensures
        ({
            let a = ActionView::AppendToFile { content, file_path: path };
            let t = TaskView { key, actions: seq![a, a] };
            let e = EffectView::Append { content, file_path: path };
            &&& task_valid(t)
            &&& task_effects(t) == seq![e, e]
            &&& appended(task_effects(t), path) == content + content
        }),
{
    let a = ActionView::AppendToFile { content, file_path: path };
    let t = TaskView { key, actions: seq![a, a] };
    let e = EffectView::Append { content, file_path: path };
    assert(seq![a, a] =~= seq![a] + seq![a]);
    lemma_effects_of_concat(seq![a], seq![a]);
    assert(seq![a].drop_last() =~= Seq::<ActionView>::empty());
    assert(actions_effects(Seq::<ActionView>::empty()) =~= Seq::<EffectView>::empty());
    assert(seq![a].last() == a);
    assert(action_effects(a) =~= seq![e]);
    assert(actions_effects(seq![a]) =~= seq![e]);
    assert(task_effects(t) =~= seq![e, e]);
    assert(seq![e, e] =~= seq![e] + seq![e]);
    lemma_appends_accumulate(seq![e], seq![e], path);
    assert(seq![e].drop_last() =~= Seq::<EffectView>::empty());
    assert(appended(Seq::<EffectView>::empty(), path) =~= Seq::<char>::empty());
    assert(seq![e].last() == e);
    assert(appended(seq![e], path) =~= content);
}

/// Replaying two lists of events, one after the other, is replaying the
/// first and then the second.
pub proof fn lemma_replay_of_concat(s: RunView, a: Seq<EventView>, b: Seq<EventView>)
    ensures
        s.replay(a + b) == s.replay(a).replay(b),
    decreases b.len(),
{
    if b.len() == 0 {
        assert(a + b =~= a);
    } else {
        lemma_replay_of_concat(s, a, b.drop_last());
        assert((a + b).drop_last() =~= a + b.drop_last());
        assert((a + b).last() == b.last());
    }
}

/// A run that is over stays as it is, whatever is reported to it.
pub proof fn lemma_over_is_final(s: RunView, events: Seq<EventView>)
    requires
        s.finished(),
    ensures
        s.replay(events) == s,
    decreases events.len(),
{
    if events.len() > 0 {
        lemma_over_is_final(s, events.drop_last());
    }
}

/// Reports never change the effects of a run, never take back what was
/// performed, and keep the count of performed effects within bounds.
pub proof fn lemma_replay_keeps_order(s: RunView, events: Seq<EventView>)
    requires
        s.wf(),
    ensures
        s.replay(events).wf(),
        s.replay(events).effects == s.effects,
        s.replay(events).done >= s.done,
        s.replay(events).done <= s.done + events.len(),
    decreases events.len(),
{
    if events.len() > 0 {
        lemma_replay_keeps_order(s, events.drop_last());
    }
}

/// While every report is a success, the run has performed exactly as many
/// effects as there were reports, and the next one in the declared order is
/// pending.
pub proof fn lemma_successes_advance(effects: Seq<EffectView>, events: Seq<EventView>)
    requires
        all_succeed(effects, events),
    ensures
        begin(true, effects).replay(events) == (RunView {
            effects,
            done: events.len(),
            failure: None,
        }),
    decreases events.len(),
{
    if events.len() > 0 {
        let before = events.drop_last();
        assert forall|i: int| 0 <= i < before.len() implies answers(
            effects[i],
            #[trigger] before[i],
        ) && failure_of(effects[i], before[i]) is None by {
            assert(before[i] == events[i]);
        }
        lemma_successes_advance(effects, before);
        let i = events.len() - 1;
        assert(events.last() == events[i]);
    }
}

/// The first failure ends the run: after successes on the effects before
/// index `events.len()`, a failing report on the effect at that index leaves
/// the run failed with exactly that failure, with the effects before it
/// counted and no further effect pending, whatever is reported afterwards.
pub proof fn lemma_first_failure_ends_the_run(
    effects: Seq<EffectView>,
    events: Seq<EventView>,
    event: EventView,
    more: Seq<EventView>,
)
    requires
        all_succeed(effects, events),
        events.len() < effects.len(),
        answers(effects[events.len() as int], event),
        failure_of(effects[events.len() as int], event) is Some,
    ensures
        begin(true, effects).replay(events.push(event) + more) == (RunView {
            effects,
            done: events.len(),
            failure: failure_of(effects[events.len() as int], event),
        }),
        begin(true, effects).replay(events.push(event) + more).pending() is None,
{
    let s = begin(true, effects);
    lemma_successes_advance(effects, events);
    let all = events.push(event);
    assert(all.drop_last() =~= events);
    assert(all.last() == event);
    let stopped = s.replay(all);
    assert(stopped == RunView {
        effects,
        done: events.len(),
        failure: failure_of(effects[events.len() as int], event),
    });
    lemma_replay_of_concat(s, all, more);
    lemma_over_is_final(stopped, more);
}

/// Fail-fast for a task: when the effects before a point succeed and the
/// effect at that point, which belongs to the action at index `i`, fails,
/// then the run ends with the failure of that effect of that action, and no
/// effect of any later action was ever reached.
pub proof fn lemma_failing_action_stops_the_task(
    t: TaskView,
    i: int,
    events: Seq<EventView>,
    event: EventView,
    more: Seq<EventView>,
)
    requires
        task_valid(t),
        0 <= i < t.actions.len(),
        all_succeed(task_effects(t), events),
        offset(t.actions, i) <= events.len() < offset(t.actions, i + 1),
        answers(task_effects(t)[events.len() as int], event),
        failure_of(task_effects(t)[events.len() as int], event) is Some,
    ensures
        ({
            let last = task_run(t).replay(events.push(event) + more);
            let k = events.len() - offset(t.actions, i);
            &&& 0 <= k < action_effects(t.actions[i]).len()
            &&& last.failure == failure_of(action_effects(t.actions[i])[k], event)
            &&& last.failure is Some
            &&& last.pending() is None
            &&& last.done == events.len()
            &&& forall|j: int| i < j <= t.actions.len() ==> last.done < #[trigger] offset(t.actions, j)
        }),
{
    lemma_effects_of_action(t.actions, i);
    let k = events.len() - offset(t.actions, i);
    assert(task_effects(t)[offset(t.actions, i) + k] == action_effects(t.actions[i])[k]);
    lemma_first_failure_ends_the_run(task_effects(t), events, event, more);
    assert forall|j: int| i < j <= t.actions.len() implies events.len() < #[trigger] offset(
        t.actions,
        j,
    ) by {
        lemma_offsets_grow(t.actions, i + 1, j);
    }
}

/// A task without actions succeeds at once: its run asks for no effect.
pub proof fn lemma_empty_task_succeeds(t: TaskView)
    requires
        t.actions.len() == 0,
    ensures
        task_valid(t),
        task_run(t).effects.len() == 0,
        task_run(t).pending() is None,
        task_run(t).succeeded(),
{
}

/// A run with success reported on every effect hands out the effects of the
/// task one by one in the declared order, each exactly once, and then
/// succeeds.
pub proof fn lemma_successful_run_performs_every_effect(t: TaskView, events: Seq<EventView>)
    requires
        task_valid(t),
        all_succeed(task_effects(t), events),
        events.len() == task_effects(t).len(),
    ensures
        task_run(t).replay(events).succeeded(),
        task_run(t).replay(events).done == task_effects(t).len(),
        forall|i: int|
            0 <= i < events.len() ==> (#[trigger] task_run(t).replay(events.take(i))).pending()
                == Some(task_effects(t)[i]),
{
    let effects = task_effects(t);
    lemma_successes_advance(effects, events);
    assert forall|i: int| 0 <= i < events.len() implies (#[trigger] task_run(t).replay(
        events.take(i),
    )).pending() == Some(effects[i]) by {
        let first = events.take(i);
        assert forall|j: int| 0 <= j < first.len() implies answers(
            effects[j],
            #[trigger] first[j],
        ) && failure_of(effects[j], first[j]) is None by {
            assert(first[j] == events[j]);
        }
        lemma_successes_advance(effects, first);
    }
}

/// A program that ends with an exit status other than 0 fails the run, the
/// failure carries that status, and the process ends with it.
pub proof fn lemma_exit_status_is_carried(
    s: RunView,
    program: Seq<char>,
    args: Seq<Seq<char>>,
    code: i32,
)
    requires
        s.pending() == Some(EffectView::Spawn { program, args }),
        code != 0,
    ensures
        s.resume(EventView::Exited(Some(code))).failure == Some(
            ActionErrorView::CommandFailed { program, args, exit_code: Some(code) },
        ),
        s.resume(EventView::Exited(Some(code))).pending() is None,
        exit_code_of(s.resume(EventView::Exited(Some(code))).failure->0) == code,
        s.resume(EventView::Exited(Some(code))).done == s.done,
{
}

/// A task with a command that names no program, at any depth, fails before
/// any effect is asked for.
pub proof fn lemma_invalid_task_performs_nothing(t: TaskView, events: Seq<EventView>)
    requires
        !task_valid(t),
    ensures
        task_run(t).replay(events).failure == Some(ActionErrorView::EmptyCommand),
        task_run(t).replay(events).pending() is None,
        task_run(t).replay(events).done == 0,
{
    lemma_over_is_final(task_run(t), events);
}

/// With keys of their own, the path made of a namespace's key and the key
/// of one of its tasks leads to the run of that very task.
pub proof fn lemma_dispatch_finds_the_named_task(a: AppView, n: int, t: int)
    requires
        app_well_formed(a),
        0 <= n < a.namespaces.len(),
        0 <= t < a.namespaces[n].tasks.len(),
    ensures
        dispatched(a, a.namespaces[n].key, a.namespaces[n].tasks[t].key) == Some(
            task_run(a.namespaces[n].tasks[t]),
        ),
{
    let names = namespace_keys(a.namespaces);
    lemma_index_of(names, a.namespaces[n].key);
    assert(names[n] == a.namespaces[n].key);
    assert(index_of(names, a.namespaces[n].key) == Some(n));
    assert(namespace_well_formed(a.namespaces[n]));
    let keys = task_keys(a.namespaces[n].tasks);
    lemma_index_of(keys, a.namespaces[n].tasks[t].key);
    assert(keys[t] == a.namespaces[n].tasks[t].key);
    assert(index_of(keys, a.namespaces[n].tasks[t].key) == Some(t));
}

/// A path leads to a run only where its keys are those of a namespace and
/// of a task of that namespace; it leads nowhere where no namespace has
/// the first key, or the first namespace that has it has no task with the
/// second.
pub proof fn lemma_dispatch_needs_known_keys(
    a: AppView,
    namespace_key: Seq<char>,
    task_key: Seq<char>,
)
    ensures
        match dispatched(a, namespace_key, task_key) {
            Some(run) => exists|n: int, t: int|
                0 <= n < a.namespaces.len() && 0 <= t < a.namespaces[n].tasks.len()
                    && a.namespaces[n].key == namespace_key && a.namespaces[n].tasks[t].key
                    == task_key && run == task_run(#[trigger] a.namespaces[n].tasks[t]),
            None => (forall|n: int|
                0 <= n < a.namespaces.len() ==> (#[trigger] a.namespaces[n]).key != namespace_key)
                || exists|n: int|
                0 <= n < a.namespaces.len() && (#[trigger] a.namespaces[n]).key == namespace_key
                    && forall|t: int|
                    0 <= t < a.namespaces[n].tasks.len() ==> (#[trigger] a.namespaces[n].tasks[t]).key
                        != task_key,
        },
{
    let names = namespace_keys(a.namespaces);
    lemma_index_of(names, namespace_key);
    match index_of(names, namespace_key) {
        Some(n) => {
            let keys = task_keys(a.namespaces[n].tasks);
            lemma_index_of(keys, task_key);
            match index_of(keys, task_key) {
                Some(t) => {
                    assert(names[n] == a.namespaces[n].key);
                    assert(keys[t] == a.namespaces[n].tasks[t].key);
                },
                None => {
                    assert(names[n] == a.namespaces[n].key);
                    assert forall|t: int| 0 <= t < a.namespaces[n].tasks.len() implies (
                    #[trigger] a.namespaces[n].tasks[t]).key != task_key by {
                        assert(keys[t] == a.namespaces[n].tasks[t].key);
                    }
                },
            }
        },
        None => {
            assert forall|n: int| 0 <= n < a.namespaces.len() implies (
            #[trigger] a.namespaces[n]).key != namespace_key by {
                assert(names[n] == a.namespaces[n].key);
            }
        },
    }
}

} // verus!
