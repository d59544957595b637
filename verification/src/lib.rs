//! A dynamic-DNS reconciliation engine.
//!
//! The engine keeps a provider's address records for one hostname in step
//! with the addresses currently bound to a local interface: it classifies
//! the existing remote records page by page, plans the minimal ordered
//! sequence of update/create/delete operations per address family, applies
//! them fail-fast, and repeats on an interval with cooperative
//! cancellation. All provider and interface I/O stays outside this crate;
//! the engine works on plain values handed in by the caller.

pub mod config;
pub mod dns;
pub mod exit_code;
pub mod interface;
pub mod notify;
pub mod opts;
pub mod reconcile;
pub mod scheduler;



