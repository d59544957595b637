//! The post-success readiness hook.
//!
//! Readiness signalling to a process supervisor is an optional side
//! effect; this build carries the no-op hook, so firing it always
//! succeeds. A caller wired to a real supervisor performs its own
//! notification and reports the outcome to the scheduler instead.

use vstd::prelude::*;

use crate::exit_code::ExitCodeError;

verus! {

/// Report that the first reconciliation has succeeded. The no-op hook:
/// there is nobody to notify, so it succeeds without doing anything.
pub fn notify_startup_complete() -> (r: Result<(), ExitCodeError>)
    ensures
        r is Ok,
{
    Ok(())
}

} // verus!
