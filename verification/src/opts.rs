//! Command-line options, as plain data: the path of the configuration
//! file and whether to run once instead of looping. Argument parsing
//! itself happens outside the engine and hands a value of this type in.

use vstd::prelude::*;

verus! {

/// The engine's command-line surface.
pub struct Opts {
    pub config: String,
    pub oneshot: bool,
}

} // verus!
