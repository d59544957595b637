//! The validated configuration record the engine consumes.

use vstd::prelude::*;

use crate::exit_code::{ErrorClass, ExitCodeError};

verus! {

/// Default time-to-live, in seconds, for managed address records.
pub fn default_ttl() -> (r: u32)
    ensures
        r == 120,
{
    120
}

/// Default for flags that are off unless asked for (the proxied flag).
pub fn default_false() -> (r: bool)
    ensures
        r == false,
{
    false
}

/// Default for the per-family enable flags: both families are kept in
/// sync unless one is switched off.
pub fn default_true() -> (r: bool)
    ensures
        r == true,
{
    true
}

/// The repeat interval used when the configuration gives none: five minutes.
pub const DEFAULT_INTERVAL_SECS: u64 = 300;

/// Settings for one reconciliation target.
///
/// `wait_duration` is the repeat interval in minutes, if one was set.
#[derive(Clone, Debug)]
pub struct Config {
    pub name: String,
    pub if_name: String,
    pub zone_id: String,
    pub wait_duration: Option<u64>,
    pub v4: bool,
    pub v6: bool,
    pub proxied: bool,
    pub ttl: u32,
}

impl Config {
    /// A configuration is valid only if at least one address family is
    /// enabled: with both off there is nothing to reconcile.
    pub open spec fn valid(self) -> bool {
        self.v4 || self.v6
    }

    /// A configuration holding only the required fields, everything else
    /// at its default.
    pub fn with_defaults(name: String, if_name: String, zone_id: String) -> (r: Config)
        ensures
            r.name@ == name@,
            r.if_name@ == if_name@,
            r.zone_id@ == zone_id@,
            r.wait_duration is None,
            r.v4,
            r.v6,
            !r.proxied,
            r.ttl == 120,
            r.valid(),
    {
        Config {
            name,
            if_name,
            zone_id,
            wait_duration: None,
            v4: default_true(),
            v6: default_true(),
            proxied: default_false(),
            ttl: default_ttl(),
        }
    }

    /// Reject a configuration with both families disabled, before any
    /// reconciliation is attempted. Succeeds exactly on valid
    /// configurations; the rejection is a user-facing configuration error.
    pub fn validate(&self) -> (r: Result<(), ExitCodeError>)
        ensures
            r is Ok <==> self.valid(),
            r matches Err(e) ==> e.class is Configuration && e.wf(),
    {
        if self.v4 || self.v6 {
            Ok(())
        } else {
            Err(ExitCodeError::new(ErrorClass::Configuration))
        }
    }
}

/// The repeat interval in seconds: the configured number of minutes, or
/// five minutes when none was configured.
pub open spec fn interval_secs_spec(cfg: Config) -> int {
    match cfg.wait_duration {
        Some(minutes) => minutes * 60,
        None => DEFAULT_INTERVAL_SECS as int,
    }
}

/// Compute the repeat interval in seconds from the configuration.
pub fn interval_secs(cfg: &Config) -> (r: u64)
    requires
        cfg.wait_duration matches Some(m) ==> m * 60 <= u64::MAX,
    ensures
        r == interval_secs_spec(*cfg),
{
    match cfg.wait_duration {
        Some(minutes) => minutes * 60,
        None => DEFAULT_INTERVAL_SECS,
    }
}

} // verus!
