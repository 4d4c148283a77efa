//! The failures of the library's operations.

use crate::os::Errno;
use vstd::prelude::*;

verus! {

/// The failure of an operation: its kind and, where the kernel reported one,
/// the operating system's error that caused it.
#[derive(Debug, Clone, Copy)]
pub struct Error {
    /// What failed.
    pub kind: ErrorKind,
    /// The operating system's error behind the failure, where there is one.
    pub cause: Option<Errno>,
}

/// The kinds of failure.
#[derive(Debug, Clone, Copy, PartialEq, Eq, Structural)]
pub enum ErrorKind {
    /// An unknown error
    Unknown,
    /// The signal handler received an unrecognised signal.
    UnexpectedSignal,
    /// Failed to initialise the kernel subsystem: `hwpmc` is missing from the
    /// kernel.
    Init,
    /// The system CPU does not support performance monitor counters.
    Unsupported,
    /// The kernel PMC interface differs from what this crate is using.
    VersionMismatch,
    /// The provided event specification is not recognised.
    InvalidEventSpec,
    /// `AllocInit` is returned for generic `Counter` initialisation errors,
    /// among them an event that the kernel does not know.
    AllocInit,
    /// The `hwpmc` kernel module has been unloaded.
    Unloaded,
    /// A process-scoped counter is not attached to a target process.
    NotAttached,
    /// The `Counter` is already attached to the requested process.
    AlreadyAttached,
    /// The requested scope is invalid for the requested event.
    BadScope,
    /// The requested event requires a configured log file to write results to.
    LogFileRequired,
    /// The requested operation cannot be performed on a running `Counter`.
    Running,
    /// The requested operation can only be performed on a running `Counter`.
    NotRunning,
    /// The requested target PID is already being monitored by another process.
    BusyTarget,
    /// The requested target PID does not exist.
    BadTarget,
    /// The caller does not have the appropriate permissions.
    Forbidden,
}

/// The text that describes a kind of failure.
pub open spec fn description_of(kind: ErrorKind) -> Seq<char> {
    match kind {
        ErrorKind::Init => "missing hwpmc in kernel"@,
        ErrorKind::Unloaded => "hwpmc unloaded from kernel"@,
        ErrorKind::Unsupported => "unsupported CPU"@,
        ErrorKind::VersionMismatch => "unexpected hwpmc version"@,
        ErrorKind::Running => "cannot set running counter"@,
        ErrorKind::NotRunning => "counter not running"@,
        ErrorKind::AllocInit => "failed to allocate counter"@,
        ErrorKind::BusyTarget => "target is busy"@,
        ErrorKind::BadTarget => "target PID does not exist"@,
        ErrorKind::NotAttached => "PMC not attached to target processes"@,
        ErrorKind::AlreadyAttached => "PMC already attached to target process"@,
        ErrorKind::Forbidden => "forbidden"@,
        _ => "unknown error"@,
    }
}

impl Error {
    /// The kind of this failure.
    pub fn kind(&self) -> (r: &ErrorKind)
        ensures
            *r == self.kind,
    {
        &self.kind
    }

    /// The operating system's error that caused this failure, if one did.
    pub fn cause(&self) -> (r: Option<Errno>)
        ensures
            r == self.cause,
    {
        self.cause
    }

    /// A short text that describes the kind of this failure.
    pub fn description(&self) -> (r: &'static str)
        ensures
            r@ == description_of(self.kind),
    {
        match self.kind {
            ErrorKind::Init => "missing hwpmc in kernel",
            ErrorKind::Unloaded => "hwpmc unloaded from kernel",
            ErrorKind::Unsupported => "unsupported CPU",
            ErrorKind::VersionMismatch => "unexpected hwpmc version",
            ErrorKind::Running => "cannot set running counter",
            ErrorKind::NotRunning => "counter not running",
            ErrorKind::AllocInit => "failed to allocate counter",
            ErrorKind::BusyTarget => "target is busy",
            ErrorKind::BadTarget => "target PID does not exist",
            ErrorKind::NotAttached => "PMC not attached to target processes",
            ErrorKind::AlreadyAttached => "PMC already attached to target process",
            ErrorKind::Forbidden => "forbidden",
            _ => "unknown error",
        }
    }

    /// The description as an owned string.
    pub fn to_string(&self) -> (r: String)
        ensures
            r@ == description_of(self.kind),
    {
        self.description().to_owned()
    }
}

/// Two failures are equal when they are of one kind, whatever caused them.
impl PartialEq for Error {
    fn eq(&self, other: &Error) -> (r: bool) {
        self.kind == other.kind
    }
}

impl vstd::std_specs::cmp::PartialEqSpecImpl for Error {
    open spec fn obeys_eq_spec() -> bool {
        true
    }

    open spec fn eq_spec(&self, other: &Error) -> bool {
        self.kind == other.kind
    }
}

/// A failure of the given kind that the operating system's error `cause`
/// brought about.
pub fn new_os_error(kind: ErrorKind, cause: Errno) -> (r: Error)
    ensures
        r == (Error { kind, cause: Some(cause) }),
{
    Error { kind, cause: Some(cause) }
}

/// A failure of the given kind without a cause.
pub fn new_error(kind: ErrorKind) -> (r: Error)
    ensures
        r == (Error { kind, cause: None }),
{
    Error { kind, cause: None }
}

} // verus!
