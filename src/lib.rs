//! Keeps one virtual machine instance running: the reconciliation policy,
//! the watchdog and shutdown state machine, and descriptor parsing.
use vstd::prelude::*;

pub mod state;
pub mod watchdog;
pub mod descriptor;

verus! {

} // verus!
