//! Managed access to the hardware performance-monitor counters of FreeBSD's
//! `hwpmc`, written as a state machine that performs no kernel call itself.
//!
//! Every operation on a counter is split at the kernel boundary. The library
//! decides which primitive is to be invoked and with which arguments (a
//! [`Request`]), the caller invokes it, and the library interprets what came
//! back. The process-wide services, the allocation serializer and the health
//! flag, are handed in by the caller: the [`Subsystem`] is the value that the
//! serializer guards, and the verdict of [`signal::check`] on the health flag
//! is an argument of every operation that consults it.

pub mod allocation;
pub mod counter;
pub mod error;
pub mod kernel;
pub mod laws;
pub mod os;
pub mod scope;
pub mod signal;

pub use crate::allocation::{
    Allocating, Allocation, Attaching, Checking, CounterConfig, Initializing, Watching,
};
pub use crate::counter::{Counter, Reading, Running, Setting, Starting};
pub use crate::error::{Error, ErrorKind};
pub use crate::kernel::{Request, Subsystem};
pub use crate::os::Errno;
pub use crate::scope::Scope;

use vstd::prelude::*;

verus! {

/// Counters allocated with `CPU_ANY` measure events across all CPUs.
pub const CPU_ANY: i32 = -1;

} // verus!
