//! Running a task: the run hands out one effect at a time, the caller
//! performs it and reports what happened, and the run decides how to go on.
//! It stops at the first failure.

use vstd::prelude::*;
use crate::action::{Action, ActionView, Task, TaskView};
use crate::effect::{
    action_effects, action_valid, effects_view, task_effects, task_valid, Effect, EffectView,
};
use crate::text::{copy_from, decimal, decimal_string, join, joined, strings_view};

verus! {

/// What the caller reports after performing an effect.
#[derive(Clone, Debug, PartialEq, Eq)]
pub enum Event {
    /// The spawned program ended with this exit status, or, for `None`,
    /// without one.
    Exited(Option<i32>),
    /// The program could not be started; the text is the system's error.
    LaunchFailed(String),
    /// The content was appended to the file.
    Appended,
    /// The file could not be opened or written; the text is the system's
    /// error.
    WriteFailed(String),
}

/// What an event is.
pub ghost enum EventView {
    Exited(Option<i32>),
    LaunchFailed(Seq<char>),
    Appended,
    WriteFailed(Seq<char>),
}

impl View for Event {
    type V = EventView;

    open spec fn view(&self) -> EventView {
        match *self {
            Event::Exited(code) => EventView::Exited(code),
            Event::LaunchFailed(e) => EventView::LaunchFailed(e@),
            Event::Appended => EventView::Appended,
            Event::WriteFailed(e) => EventView::WriteFailed(e@),
        }
    }
}

/// Why a run failed.
#[derive(Clone, Debug, PartialEq, Eq)]
pub enum ActionError {
    /// A command of the task names no program; nothing was performed.
    EmptyCommand,
    /// The program ran and did not end with exit status 0.
    CommandFailed { program: String, args: Vec<String>, exit_code: Option<i32> },
    /// The program could not be started.
    LaunchFailed { program: String, os_error: String },
    /// The file could not be opened or written.
    FileWriteFailed { file_path: String, os_error: String },
}

/// What an error is.
pub ghost enum ActionErrorView {
    EmptyCommand,
    CommandFailed { program: Seq<char>, args: Seq<Seq<char>>, exit_code: Option<i32> },
    LaunchFailed { program: Seq<char>, os_error: Seq<char> },
    FileWriteFailed { file_path: Seq<char>, os_error: Seq<char> },
}

impl View for ActionError {
    type V = ActionErrorView;

    open spec fn view(&self) -> ActionErrorView {
        match *self {
            ActionError::EmptyCommand => ActionErrorView::EmptyCommand,
            ActionError::CommandFailed { program, args, exit_code } => {
                ActionErrorView::CommandFailed {
                    program: program@,
                    args: strings_view(args@),
                    exit_code,
                }
            },
            ActionError::LaunchFailed { program, os_error } => ActionErrorView::LaunchFailed {
                program: program@,
                os_error: os_error@,
            },
            ActionError::FileWriteFailed { file_path, os_error } => {
                ActionErrorView::FileWriteFailed { file_path: file_path@, os_error: os_error@ }
            },
        }
    }
}

/// The exit status with which the process ends after this error: the
/// program's own status where it has one that is not 0, else 1.
pub open spec fn exit_code_of(e: ActionErrorView) -> int {
    match e {
        ActionErrorView::CommandFailed { exit_code: Some(code), .. } => if code != 0 {
            code as int
        } else {
            1
        },
        _ => 1,
    }
}

/// The message that tells the user of the error: what was asked for, and
/// what came of it.
pub open spec fn message_of(e: ActionErrorView) -> Seq<char> {
    match e {
        ActionErrorView::EmptyCommand => "a command names no program"@,
        ActionErrorView::CommandFailed { program, args, exit_code } => {
            let line = "`"@ + joined(seq![program] + args, " "@) + "`"@;
            match exit_code {
                Some(code) => line + " exited with status "@ + decimal(code as int),
                None => line + " ended without an exit status"@,
            }
        },
        ActionErrorView::LaunchFailed { program, os_error } => "could not launch `"@ + program
            + "`: "@ + os_error,
        ActionErrorView::FileWriteFailed { file_path, os_error } => "could not write to "@
            + file_path + ": "@ + os_error,
    }
}

impl ActionError {
    /// The message that tells the user of the error.
    pub fn message(&self) -> (r: String)
        ensures
            r@ == message_of(self@),
    {
        match self {
            ActionError::EmptyCommand => String::from_str("a command names no program"),
            ActionError::CommandFailed { program, args, exit_code } => {
                let mut words: Vec<String> = Vec::new();
                words.push(program.clone());
                let mut i: usize = 0;
                while i < args.len()
                    invariant
                        i <= args.len(),
                        words.len() == i + 1,
                        words[0]@ == program@,
                        forall|j: int| 0 <= j < i ==> words[j + 1]@ == args[j]@,
                    decreases args.len() - i,
                {
                    words.push(args[i].clone());
                    i += 1;
                }
                assert(strings_view(words@) =~= seq![program@] + strings_view(args@));
                let mut s = String::from_str("`");
                s.append(join(&words, " ").as_str());
                s.append("`");
                match exit_code {
                    Some(code) => {
                        s.append(" exited with status ");
                        s.append(decimal_string(*code).as_str());
                    },
                    None => {
                        s.append(" ended without an exit status");
                    },
                }
                s
            },
            ActionError::LaunchFailed { program, os_error } => {
                let mut s = String::from_str("could not launch `");
                s.append(program.as_str());
                s.append("`: ");
                s.append(os_error.as_str());
                s
            },
            ActionError::FileWriteFailed { file_path, os_error } => {
                let mut s = String::from_str("could not write to ");
                s.append(file_path.as_str());
                s.append(": ");
                s.append(os_error.as_str());
                s
            },
        }
    }

    /// The exit status with which the process ends after this error. It is
    /// never 0.
    pub fn exit_code(&self) -> (r: i32)
        ensures
            r == exit_code_of(self@),
            r != 0,
    {
        match self {
            ActionError::CommandFailed { exit_code: Some(code), .. } => if *code != 0 {
                *code
            } else {
                1
            },
            _ => 1,
        }
    }
}

/// Whether `event` is a report on `effect`: a spawn ends or fails to launch,
/// an append is written or fails to write.
pub open spec fn answers(effect: EffectView, event: EventView) -> bool {
    match effect {
        EffectView::Spawn { .. } => event is Exited || event is LaunchFailed,
        EffectView::Append { .. } => event is Appended || event is WriteFailed,
    }
}

/// The failure that `event` reports of `effect`, or `None` where it reports
/// success: a program succeeds only with exit status 0.
pub open spec fn failure_of(effect: EffectView, event: EventView) -> Option<ActionErrorView> {
    match (effect, event) {
        (EffectView::Spawn { program, args }, EventView::Exited(exit_code)) => if exit_code
            == Some(0i32) {
            None
        } else {
            Some(ActionErrorView::CommandFailed { program, args, exit_code })
        },
        (EffectView::Spawn { program, .. }, EventView::LaunchFailed(os_error)) => Some(
            ActionErrorView::LaunchFailed { program, os_error },
        ),
        (EffectView::Append { file_path, .. }, EventView::WriteFailed(os_error)) => Some(
            ActionErrorView::FileWriteFailed { file_path, os_error },
        ),
        _ => None,
    }
}

/// The view of an optional error.
pub open spec fn failure_view(failure: Option<ActionError>) -> Option<ActionErrorView> {
    match failure {
        Some(e) => Some(e@),
        None => None,
    }
}

impl Effect {
    /// Judges the report on this effect: `None` where `event` does not
    /// answer it, else whether it succeeded, and if not, why.
    pub fn judge(&self, event: Event) -> (r: Option<Result<(), ActionError>>)
        ensures
            match r {
                None => !answers(self@, event@),
                Some(Ok(_)) => answers(self@, event@) && failure_of(self@, event@) is None,
                Some(Err(e)) => answers(self@, event@) && failure_of(self@, event@) == Some(e@),
            },
    {
        match self {
            Effect::Spawn { program, args } => match event {
                Event::Exited(exit_code) => {
                    let clean = match exit_code {
                        Some(code) => code == 0,
                        None => false,
                    };
                    if clean {
                        Some(Ok(()))
                    } else {
                        assert(strings_view(args@).skip(0) =~= strings_view(args@));
                        Some(
                            Err(
                                ActionError::CommandFailed {
                                    program: program.clone(),
                                    args: copy_from(args, 0),
                                    exit_code,
                                },
                            ),
                        )
                    }
                },
                Event::LaunchFailed(os_error) => Some(
                    Err(ActionError::LaunchFailed { program: program.clone(), os_error }),
                ),
                _ => None,
            },
            Effect::Append { content: _, file_path } => match event {
                Event::Appended => Some(Ok(())),
                Event::WriteFailed(os_error) => Some(
                    Err(ActionError::FileWriteFailed { file_path: file_path.clone(), os_error }),
                ),
                _ => None,
            },
        }
    }
}

/// The state of a run: the effects it is made of, how many of them were
/// performed with success, and the failure that stopped it, if any.
pub ghost struct RunView {
    pub effects: Seq<EffectView>,
    pub done: nat,
    pub failure: Option<ActionErrorView>,
}

impl RunView {
    /// No more effects count as performed than there are.
    pub open spec fn wf(self) -> bool {
        self.done <= self.effects.len()
    }

    /// The effect that is due next, if the run goes on.
    pub open spec fn pending(self) -> Option<EffectView> {
        if self.failure is None && self.done < self.effects.len() {
            Some(self.effects[self.done as int])
        } else {
            None
        }
    }

    /// The run is over: it failed, or nothing is left to perform.
    pub open spec fn finished(self) -> bool {
        self.pending() is None
    }

    /// The run is over and nothing failed.
    pub open spec fn succeeded(self) -> bool {
        self.failure is None && self.done >= self.effects.len()
    }

    /// The state after `event` is reported. A report on the pending effect
    /// either counts it as performed or stops the run with its failure.
    /// Any other report, and any report to a run that is over, changes
    /// nothing.
    pub open spec fn resume(self, event: EventView) -> RunView {
        match self.pending() {
            Some(effect) => if answers(effect, event) {
                match failure_of(effect, event) {
                    Some(e) => RunView { failure: Some(e), ..self },
                    None => RunView { done: self.done + 1, ..self },
                }
            } else {
                self
            },
            None => self,
        }
    }

    /// The state after the events are reported one after the other.
    pub open spec fn replay(self, events: Seq<EventView>) -> RunView
        decreases events.len(),
    {
        if events.len() == 0 {
            self
        } else {
            self.replay(events.drop_last()).resume(events.last())
        }
    }
}

/// The state in which a run begins. With a command that names no program
/// anywhere among the actions, the run is over at once: it asks for no
/// effect and has failed.
pub open spec fn begin(valid: bool, effects: Seq<EffectView>) -> RunView {
    if valid {
        RunView { effects, done: 0, failure: None }
    } else {
        RunView { effects: Seq::empty(), done: 0, failure: Some(ActionErrorView::EmptyCommand) }
    }
}

/// The state in which a run of the task begins.
pub open spec fn task_run(t: TaskView) -> RunView {
    begin(task_valid(t), task_effects(t))
}

/// The state in which a run of the single action begins.
pub open spec fn action_run(a: ActionView) -> RunView {
    begin(action_valid(a), action_effects(a))
}

/// A run in progress.
#[derive(Debug)]
pub struct Run {
    effects: Vec<Effect>,
    done: usize,
    failure: Option<ActionError>,
}

impl View for Run {
    type V = RunView;

    closed spec fn view(&self) -> RunView {
        RunView {
            effects: effects_view(self.effects@),
            done: self.done as nat,
            failure: failure_view(self.failure),
        }
    }
}

impl Run {
    /// The effect to perform next, or `None` when the run is over.
    pub fn pending(&self) -> (r: Option<&Effect>)
        ensures
            match r {
                Some(effect) => self@.pending() == Some(effect@),
                None => self@.pending() is None,
            },
    {
        if self.failure.is_none() && self.done < self.effects.len() {
            Some(&self.effects[self.done])
        } else {
            None
        }
    }

    /// Takes the report on the pending effect.
    pub fn resume(&mut self, event: Event)
        ensures
            final(self)@ == old(self)@.resume(event@),
            old(self)@.wf() ==> final(self)@.wf(),
    {
        if self.failure.is_none() && self.done < self.effects.len() {
            assert(self@.pending() == Some(self.effects[self.done as int]@));
            let verdict = self.effects[self.done].judge(event);
            match verdict {
                Some(Ok(())) => {
                    self.done = self.done + 1;
                },
                Some(Err(e)) => {
                    self.failure = Some(e);
                },
                None => {},
            }
        }
    }

    /// Whether the run is over.
    pub fn is_finished(&self) -> (r: bool)
        ensures
            r == self@.finished(),
    {
        !(self.failure.is_none() && self.done < self.effects.len())
    }

    /// Whether the run is over and nothing failed.
    pub fn succeeded(&self) -> (r: bool)
        ensures
            r == self@.succeeded(),
    {
        self.failure.is_none() && self.done >= self.effects.len()
    }

    /// The failure that stopped the run, if any.
    pub fn failure(&self) -> (r: Option<&ActionError>)
        ensures
            match r {
                Some(e) => self@.failure == Some(e@),
                None => self@.failure is None,
            },
    {
        self.failure.as_ref()
    }

    /// How many effects were performed with success.
    pub fn completed(&self) -> (r: usize)
        ensures
            r == self@.done,
    {
        self.done
    }

    /// The exit status with which the process ends once the run is over: 0
    /// after success, the failure's status otherwise.
    pub fn exit_code(&self) -> (r: i32)
        ensures
            match self@.failure {
                Some(e) => r == exit_code_of(e) && r != 0,
                None => r == 0,
            },
    {
        match &self.failure {
            Some(e) => e.exit_code(),
            None => 0,
        }
    }
}

impl Task {
    /// Begins a run of the task.
    pub fn run(&self) -> (r: Run)
        ensures
            r@ == task_run(self@),
            r@.wf(),
    {
        if self.is_valid() {
            Run { effects: self.effects(), done: 0, failure: None }
        } else {
            let r = Run { effects: Vec::new(), done: 0, failure: Some(ActionError::EmptyCommand) };
            assert(r@.effects =~= Seq::<EffectView>::empty());
            r
        }
    }
}

impl Action {
    /// Begins a run of this action alone.
    pub fn run(&self) -> (r: Run)
        ensures
            r@ == action_run(self@),
            r@.wf(),
    {
        if self.is_valid() {
            let mut effects: Vec<Effect> = Vec::new();
            assert(effects_view(effects@) =~= Seq::<EffectView>::empty());
            self.push_effects(&mut effects);
            assert(Seq::<EffectView>::empty() + action_effects(self@) =~= action_effects(self@));
            Run { effects, done: 0, failure: None }
        } else {
            let r = Run { effects: Vec::new(), done: 0, failure: Some(ActionError::EmptyCommand) };
            assert(r@.effects =~= Seq::<EffectView>::empty());
            r
        }
    }
}

} // verus!
