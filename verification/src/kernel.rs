//! The boundary with the kernel subsystem.
//!
//! The library invokes no primitive of the kernel. It names the one that is to
//! be invoked, as a [`Request`]; the caller invokes it and hands back what the
//! kernel answered: the value that the primitive yields, or the [`Errno`] that
//! it left behind.
//!
//! [`Errno`]: crate::os::Errno

use crate::scope::Scope;
use vstd::prelude::*;

verus! {

/// One invocation of a primitive of the kernel subsystem.
#[derive(Debug)]
pub enum Request {
    /// Initialise the subsystem for this process.
    Init,
    /// Allocate a counter for the event that `spec` names, a string that ends
    /// in its only zero byte. Yields the counter's id.
    Allocate { spec: Vec<u8>, mode: Scope, cpu: i32 },
    /// Attach the counter to a process; `0` stands for the calling process.
    Attach { id: u32, pid: i32 },
    /// Detach the counter from a process.
    Detach { id: u32, pid: i32 },
    /// Start counting.
    Start { id: u32 },
    /// Stop counting.
    Stop { id: u32 },
    /// Read the counter. Yields its value.
    Read { id: u32 },
    /// Set the counter to `value`. Yields the value that it had.
    Write { id: u32, value: u64 },
    /// Release the counter; its id is invalid from then on.
    Release { id: u32 },
}

/// The state of the kernel subsystem in this process: whether it has been
/// initialised.
///
/// The subsystem's allocation primitive must not run in two threads at once,
/// and neither must its initialisation or the release of a counter. There is to
/// be one `Subsystem` in a process, kept inside the lock that serializes these
/// three: every function that asks for one of them takes the `Subsystem`, so a
/// caller can only get that far while it holds the lock.
#[derive(Debug)]
pub struct Subsystem {
    initialized: bool,
}

impl Subsystem {
    /// Whether the subsystem has been initialised, in contracts.
    pub closed spec fn ready(&self) -> bool {
        self.initialized
    }

    /// A subsystem that has not been initialised.
    pub fn new() -> (r: Subsystem)
        ensures
            !r.ready(),
    {
        Subsystem { initialized: false }
    }

    /// Whether the subsystem has been initialised.
    pub fn is_initialized(&self) -> (r: bool)
        ensures
            r == self.ready(),
    {
        self.initialized
    }

    /// Records that the initialisation succeeded.
    pub(crate) fn set_initialized(&mut self)
        ensures
            final(self).ready(),
    {
        self.initialized = true;
    }
}

} // verus!
