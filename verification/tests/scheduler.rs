use ddns::scheduler::{Action, Event, Phase, Scheduler, StopReason};

#[test]
fn first_run_failure_is_fatal() {
    let mut s = Scheduler::new(true);
    assert_eq!(s.step(Event::Start, false), Action::RunReconcile);
    assert_eq!(
        s.step(Event::RunFinished { ok: false }, false),
        Action::Stop { reason: StopReason::FirstRunFailed }
    );
    assert_eq!(s.phase, Phase::Stopped);
    assert!(!s.hook_fired);
}

#[test]
fn oneshot_stops_after_first_run_and_hook() {
    let mut s = Scheduler::new(false);
    assert_eq!(s.step(Event::Start, false), Action::RunReconcile);
    assert_eq!(s.step(Event::RunFinished { ok: true }, false), Action::FireHook);
    assert_eq!(
        s.step(Event::HookFinished { ok: true }, false),
        Action::Stop { reason: StopReason::Completed }
    );
    assert_eq!(s.phase, Phase::Stopped);
}

#[test]
fn daemon_loops_sleep_run_sleep() {
    let mut s = Scheduler::new(true);
    s.step(Event::Start, false);
    s.step(Event::RunFinished { ok: true }, false);
    assert_eq!(s.step(Event::HookFinished { ok: true }, false), Action::Sleep);
    assert_eq!(s.step(Event::SleepFinished { cancelled: false }, false), Action::RunReconcile);
    assert_eq!(s.step(Event::RunFinished { ok: true }, false), Action::Sleep);
    assert_eq!(s.step(Event::SleepFinished { cancelled: false }, false), Action::RunReconcile);
}

#[test]
fn periodic_failure_is_not_fatal() {
    let mut s = Scheduler::new(true);
    s.step(Event::Start, false);
    s.step(Event::RunFinished { ok: true }, false);
    s.step(Event::HookFinished { ok: true }, false);
    s.step(Event::SleepFinished { cancelled: false }, false);
    // A failed periodic run is reported and the loop goes on sleeping.
    assert_eq!(s.step(Event::RunFinished { ok: false }, false), Action::Sleep);
    assert_eq!(s.phase, Phase::Sleeping);
}

#[test]
fn cancellation_during_sleep_prevents_any_further_run() {
    let mut s = Scheduler::new(true);
    s.step(Event::Start, false);
    s.step(Event::RunFinished { ok: true }, false);
    s.step(Event::HookFinished { ok: true }, false);
    assert_eq!(
        s.step(Event::SleepFinished { cancelled: true }, false),
        Action::Stop { reason: StopReason::Cancelled }
    );
    assert_eq!(s.phase, Phase::Stopped);
}

#[test]
fn cancellation_during_run_lets_the_run_finish() {
    let mut s = Scheduler::new(true);
    s.step(Event::Start, false);
    s.step(Event::RunFinished { ok: true }, false);
    s.step(Event::HookFinished { ok: true }, false);
    s.step(Event::SleepFinished { cancelled: false }, false);
    // The run is in flight; the machine only accepts its completion, and
    // only then observes the pending cancellation.
    assert_eq!(s.phase, Phase::Running);
    assert_eq!(
        s.step(Event::RunFinished { ok: true }, true),
        Action::Stop { reason: StopReason::Cancelled }
    );
    assert_eq!(s.phase, Phase::Stopped);
}

#[test]
fn hook_fires_exactly_once_after_first_success() {
    let mut s = Scheduler::new(true);
    let mut hook_count = 0;
    let mut events = vec![
        (Event::Start, false),
        (Event::RunFinished { ok: true }, false),
        (Event::HookFinished { ok: true }, false),
        (Event::SleepFinished { cancelled: false }, false),
        (Event::RunFinished { ok: true }, false),
        (Event::SleepFinished { cancelled: false }, false),
        (Event::RunFinished { ok: false }, false),
        (Event::SleepFinished { cancelled: true }, false),
    ];
    for (ev, cancel) in events.drain(..) {
        if s.step(ev, cancel) == Action::FireHook {
            hook_count += 1;
        }
    }
    assert_eq!(hook_count, 1);
    assert_eq!(s.phase, Phase::Stopped);
}

#[test]
fn hook_does_not_fire_when_first_run_fails() {
    let mut s = Scheduler::new(true);
    assert_eq!(s.step(Event::Start, false), Action::RunReconcile);
    let action = s.step(Event::RunFinished { ok: false }, false);
    assert_ne!(action, Action::FireHook);
    assert!(!s.hook_fired);
}

#[test]
fn hook_failure_is_not_fatal() {
    let mut s = Scheduler::new(true);
    s.step(Event::Start, false);
    s.step(Event::RunFinished { ok: true }, false);
    // The hook failed; the scheduler still enters the periodic loop.
    assert_eq!(s.step(Event::HookFinished { ok: false }, false), Action::Sleep);
    assert_eq!(s.phase, Phase::Sleeping);
}
