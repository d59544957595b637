//! The scheduler: one mandatory first run, a readiness hook fired exactly
//! once after that run succeeds, then — in daemon mode — an endless
//! sleep/run cycle with cooperative cancellation.
//!
//! The machine is driven from outside: the caller performs the action each
//! step commands (run a reconciliation, fire the hook, sleep) and reports
//! the outcome as the next event, together with whether cancellation has
//! been requested. Cancellation is observed only at the boundaries between
//! steps, never inside a run: a run in flight always gets to finish.

use vstd::prelude::*;

verus! {

/// Where the scheduler stands.
#[derive(Clone, Copy, PartialEq, Eq, Structural, Debug)]
pub enum Phase {
    /// Nothing has happened yet.
    Idle,
    /// The mandatory first reconciliation is in flight.
    FirstRun,
    /// The first run succeeded; the readiness hook is in flight.
    AwaitingHook,
    /// Waiting out the interval between periodic runs.
    Sleeping,
    /// A periodic reconciliation is in flight.
    Running,
    /// The scheduler has ended; it accepts nothing further.
    Stopped,
}

/// What the caller reports back to the scheduler.
#[derive(Clone, Copy, PartialEq, Eq, Structural, Debug)]
pub enum Event {
    /// Begin: accepted only when idle.
    Start,
    /// A reconciliation run finished, well or badly.
    RunFinished { ok: bool },
    /// The readiness hook returned; a hook failure is a non-fatal
    /// warning, so the outcome does not steer the machine.
    HookFinished { ok: bool },
    /// The interval sleep ended, or was interrupted by cancellation.
    SleepFinished { cancelled: bool },
}

/// Why the scheduler stopped.
#[derive(Clone, Copy, PartialEq, Eq, Structural, Debug)]
pub enum StopReason {
    /// The mandatory first run failed: fatal, no loop is entered.
    FirstRunFailed,
    /// Cancellation was requested and observed at a boundary.
    Cancelled,
    /// A one-shot run finished; there is no loop to enter.
    Completed,
}

/// What the caller must do next.
#[derive(Clone, Copy, PartialEq, Eq, Structural, Debug)]
pub enum Action {
    /// Perform one reconciliation run and report how it went.
    RunReconcile,
    /// Fire the post-success readiness hook and report back.
    FireHook,
    /// Sleep for the configured interval, watching for cancellation.
    Sleep,
    /// Stop; nothing further will be commanded.
    Stop { reason: StopReason },
}

/// The scheduler's state: whether it loops, where it stands, and whether
/// the readiness hook has already been fired.
#[derive(Clone, Copy, PartialEq, Eq, Structural, Debug)]
pub struct Scheduler {
    pub daemon: bool,
    pub phase: Phase,
    pub hook_fired: bool,
}

impl Scheduler {
    /// The hook is fired at the moment the first run succeeds, so it has
    /// been fired in exactly the phases past that point.
    pub open spec fn wf(self) -> bool {
        match self.phase {
            Phase::Idle => !self.hook_fired,
            Phase::FirstRun => !self.hook_fired,
            Phase::AwaitingHook => self.hook_fired,
            Phase::Sleeping => self.hook_fired,
            Phase::Running => self.hook_fired,
            Phase::Stopped => true,
        }
    }

    /// Which events each phase accepts; a stopped scheduler accepts none.
    pub open spec fn accepts(self, ev: Event) -> bool {
        match self.phase {
            Phase::Idle => ev is Start,
            Phase::FirstRun => ev is RunFinished,
            Phase::AwaitingHook => ev is HookFinished,
            Phase::Sleeping => ev is SleepFinished,
            Phase::Running => ev is RunFinished,
            Phase::Stopped => false,
        }
    }

    /// The whole transition relation: the state after a step and the
    /// action it commands. `cancel` says whether cancellation has been
    /// requested by the time the event is delivered; it is honoured at
    /// every boundary that would otherwise lead into a sleep or a run.
    pub open spec fn step_spec(self, ev: Event, cancel: bool) -> (Scheduler, Action) {
        match (self.phase, ev) {
            (Phase::Idle, Event::Start) => (
                Scheduler { phase: Phase::FirstRun, ..self },
                Action::RunReconcile,
            ),
            (Phase::FirstRun, Event::RunFinished { ok }) => if ok {
                (
                    Scheduler { phase: Phase::AwaitingHook, hook_fired: true, ..self },
                    Action::FireHook,
                )
            } else {
                (
                    Scheduler { phase: Phase::Stopped, ..self },
                    Action::Stop { reason: StopReason::FirstRunFailed },
                )
            },
            (Phase::AwaitingHook, Event::HookFinished { .. }) => if !self.daemon {
                (
                    Scheduler { phase: Phase::Stopped, ..self },
                    Action::Stop { reason: StopReason::Completed },
                )
            } else if cancel {
                (
                    Scheduler { phase: Phase::Stopped, ..self },
                    Action::Stop { reason: StopReason::Cancelled },
                )
            } else {
                (Scheduler { phase: Phase::Sleeping, ..self }, Action::Sleep)
            },
            (Phase::Sleeping, Event::SleepFinished { cancelled }) => if cancelled || cancel {
                (
                    Scheduler { phase: Phase::Stopped, ..self },
                    Action::Stop { reason: StopReason::Cancelled },
                )
            } else {
                (Scheduler { phase: Phase::Running, ..self }, Action::RunReconcile)
            },
            (Phase::Running, Event::RunFinished { .. }) => if cancel {
                (
                    Scheduler { phase: Phase::Stopped, ..self },
                    Action::Stop { reason: StopReason::Cancelled },
                )
            } else {
                (Scheduler { phase: Phase::Sleeping, ..self }, Action::Sleep)
            },
            _ => (self, Action::Stop { reason: StopReason::Completed }),
        }
    }

    /// A fresh scheduler, idle, with the hook not yet fired.
    pub fn new(daemon: bool) -> (r: Scheduler)
        ensures
            r.daemon == daemon,
            r.phase is Idle,
            !r.hook_fired,
            r.wf(),
    {
        Scheduler { daemon, phase: Phase::Idle, hook_fired: false }
    }

    /// Take one step: consume an event the current phase accepts and
    /// return the action the caller must perform next.
    pub fn step(&mut self, ev: Event, cancel_requested: bool) -> (a: Action)
        requires
            old(self).accepts(ev),
        ensures
            *final(self) == old(self).step_spec(ev, cancel_requested).0,
            a == old(self).step_spec(ev, cancel_requested).1,
    {
        match (self.phase, ev) {
            (Phase::Idle, Event::Start) => {
                self.phase = Phase::FirstRun;
                Action::RunReconcile
            },
            (Phase::FirstRun, Event::RunFinished { ok }) => {
                if ok {
                    self.phase = Phase::AwaitingHook;
                    self.hook_fired = true;
                    Action::FireHook
                } else {
                    self.phase = Phase::Stopped;
                    Action::Stop { reason: StopReason::FirstRunFailed }
                }
            },
            (Phase::AwaitingHook, Event::HookFinished { .. }) => {
                if !self.daemon {
                    self.phase = Phase::Stopped;
                    Action::Stop { reason: StopReason::Completed }
                } else if cancel_requested {
                    self.phase = Phase::Stopped;
                    Action::Stop { reason: StopReason::Cancelled }
                } else {
                    self.phase = Phase::Sleeping;
                    Action::Sleep
                }
            },
            (Phase::Sleeping, Event::SleepFinished { cancelled }) => {
                if cancelled || cancel_requested {
                    self.phase = Phase::Stopped;
                    Action::Stop { reason: StopReason::Cancelled }
                } else {
                    self.phase = Phase::Running;
                    Action::RunReconcile
                }
            },
            (Phase::Running, Event::RunFinished { .. }) => {
                if cancel_requested {
                    self.phase = Phase::Stopped;
                    Action::Stop { reason: StopReason::Cancelled }
                } else {
                    self.phase = Phase::Sleeping;
                    Action::Sleep
                }
            },
            _ => {
                proof {
                    assert(false);
                }
                Action::Stop { reason: StopReason::Completed }
            },
        }
    }
}

/// Every step preserves the well-formedness of the scheduler.
pub proof fn lemma_step_preserves_wf(s: Scheduler, ev: Event, cancel: bool)
    requires
        s.wf(),
    ensures
        s.step_spec(ev, cancel).0.wf(),
{
}

/// Cancellation during the sleep phase prevents any further run: the step
/// commands a stop, not a reconciliation, and the machine is stopped for
/// good — a stopped scheduler accepts no event at all.
pub proof fn lemma_cancel_during_sleep(s: Scheduler, cancel: bool)
    requires
        s.phase is Sleeping,
    ensures
        s.step_spec(Event::SleepFinished { cancelled: true }, cancel).1 == (Action::Stop {
            reason: StopReason::Cancelled,
        }),
        s.step_spec(Event::SleepFinished { cancelled: true }, cancel).0.phase is Stopped,
        forall|ev: Event|
            !s.step_spec(Event::SleepFinished { cancelled: true }, cancel).0.accepts(ev),
{
}

/// A run in flight always finishes: while a reconciliation is running,
/// the only event the machine accepts is that run's completion, so no
/// cancellation can cut it short.
pub proof fn lemma_run_completes_before_stop(s: Scheduler, ev: Event)
    requires
        s.phase is FirstRun || s.phase is Running,
        s.accepts(ev),
    ensures
        ev is RunFinished,
{
}

/// The hook is commanded only at the moment the mandatory first run
/// succeeds, and never once it has been fired.
pub proof fn lemma_hook_only_after_first_success(s: Scheduler, ev: Event, cancel: bool)
    requires
        s.wf(),
    ensures
        s.step_spec(ev, cancel).1 is FireHook ==> s.phase is FirstRun && ev == (Event::RunFinished {
            ok: true,
        }) && !s.hook_fired && s.step_spec(ev, cancel).0.hook_fired,
        s.hook_fired ==> !(s.step_spec(ev, cancel).1 is FireHook),
{
}

/// Whether a sequence of (event, cancellation-flag) inputs is accepted
/// step by step from a starting state.
pub open spec fn valid_trace(s: Scheduler, inputs: Seq<(Event, bool)>) -> bool
    decreases inputs.len(),
{
    inputs.len() == 0 || (s.accepts(inputs[0].0) && valid_trace(
        s.step_spec(inputs[0].0, inputs[0].1).0,
        inputs.drop_first(),
    ))
}

/// How many times a trace commands the hook to fire.
pub open spec fn hook_count(s: Scheduler, inputs: Seq<(Event, bool)>) -> nat
    decreases inputs.len(),
{
    if inputs.len() == 0 {
        0
    } else {
        (if s.step_spec(inputs[0].0, inputs[0].1).1 is FireHook {
            1nat
        } else {
            0nat
        }) + hook_count(s.step_spec(inputs[0].0, inputs[0].1).0, inputs.drop_first())
    }
}

/// Along any accepted trace the hook fires at most once, and never again
/// once it has been fired.
pub proof fn lemma_hook_fires_at_most_once(s: Scheduler, inputs: Seq<(Event, bool)>)
    requires
        s.wf(),
        valid_trace(s, inputs),
    ensures
        hook_count(s, inputs) <= 1,
        s.hook_fired ==> hook_count(s, inputs) == 0,
    decreases inputs.len(),
{
    if inputs.len() > 0 {
        let ev = inputs[0].0;
        let cancel = inputs[0].1;
        lemma_step_preserves_wf(s, ev, cancel);
        lemma_hook_only_after_first_success(s, ev, cancel);
        lemma_hook_fires_at_most_once(s.step_spec(ev, cancel).0, inputs.drop_first());
    }
}

} // verus!
