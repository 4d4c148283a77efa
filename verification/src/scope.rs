//! The scope of a counter.

use vstd::prelude::*;

verus! {

/// `Scope` defines how an event is measured (single process or system-wide).
#[derive(Debug, Clone, Copy, PartialEq, Eq, Structural)]
pub enum Scope {
    /// `System` counters track their event over all processes in the system.
    ///
    /// This requires the user to be root.
    System,
    /// `Process` counters track their event for the processes that the
    /// counter is attached to.
    Process,
}

} // verus!
