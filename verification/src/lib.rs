//! On-target test harness for microcontrollers: the run coordinator, the
//! persisted run state that lets an unattended run survive the device resets
//! that faulting tests trigger, the console selection protocol, and the
//! panic/fault bridge that classifies a fault as an expected panic or a
//! genuine failure.
//!
//! The byte transport (a UART-like channel), the code-generation step that
//! collects test functions, and the host glue that installs the fault handler
//! are external collaborators; this crate holds the decision logic they drive.

pub mod console;
pub mod coordinator;
pub mod registry;
pub mod render;
pub mod serial;
pub mod store;

use vstd::prelude::*;

verus! {

/// Configuration switches recognized by the harness.
#[derive(Clone, Copy, PartialEq, Eq, Structural, Debug)]
pub struct Config {
    /// Run all tests without waiting for an operator selection.
    pub autorun: bool,
}

/// The harness version string, shown in the console header.
pub fn get_version() -> (r: &'static str)
    ensures
        r@ == "0.1.0"@,
{
    "0.1.0"
}

/// Tells whether unattended-by-default mode is configured.
pub fn is_autorun_enabled(config: &Config) -> (r: bool)
    ensures
        r == config.autorun,
{
    config.autorun
}

} // verus!
