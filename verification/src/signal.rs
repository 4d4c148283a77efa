//! The kernel-health watcher's decisions.
//!
//! The kernel subsystem tells of its faults by signals. A handler records the
//! number of the last one in a process-wide flag and does nothing else; the
//! functions here say which signals to watch for and what a recorded number
//! means. A flag of `0` means that no signal was recorded.
//!
//! The numbers of the signals are the target's. [`Signals`] holds them, and
//! what is decided is stated over its fields; [`check`] and [`watched`] decide
//! by the numbers of the target that the library was compiled for.

use crate::error::{new_error, Error, ErrorKind};
use vstd::prelude::*;

verus! {

/// The numbers of the two signals that the kernel subsystem raises: the one
/// that tells that the module was unloaded, and the one for any other fault.
#[derive(Debug, Clone, Copy, PartialEq, Eq, Structural)]
pub struct Signals {
    pub unloaded: i32,
    pub other: i32,
}

impl Signals {
    /// What the recorded signal `sig` means: healthy when none was recorded,
    /// `Unloaded` for the signal of the unloaded module, `UnexpectedSignal`
    /// for any other.
    pub open spec fn verdict(self, sig: i32) -> Result<(), Error> {
        if sig == 0 {
            Ok(())
        } else if sig == self.unloaded {
            Err(Error { kind: ErrorKind::Unloaded, cause: None })
        } else {
            Err(Error { kind: ErrorKind::UnexpectedSignal, cause: None })
        }
    }

    /// Whether the two faults can be told apart, from each other and from
    /// health: both numbers are those of signals, which are positive, so that
    /// neither is the `0` of a flag that recorded nothing, and they differ.
    pub open spec fn told_apart(self) -> bool {
        &&& self.unloaded > 0
        &&& self.other > 0
        &&& self.unloaded != self.other
    }

    /// Whether these can be the signals of a target of `libc`: each number is
    /// one that `libc` gives to `SIGBUS`, and to `SIGIO`, on some target.
    pub open spec fn from_libc(self) -> bool {
        &&& (self.unloaded == 7 || self.unloaded == 10 || self.unloaded == 30)
        &&& (self.other == 22 || self.other == 23 || self.other == 29 || self.other == 48)
    }

    /// The signals of the target that the library was compiled for: `SIGBUS`
    /// tells of the unloaded module, `SIGIO` of any other fault. Their
    /// numbers are `libc`'s for this target; on every target the two can be
    /// told apart.
    pub fn native() -> (r: Signals)
        ensures
            r.from_libc(),
            r.told_apart(),
    {
        Signals { unloaded: sigbus(), other: sigio() }
    }

    /// Judges the recorded signal `sig`.
    pub fn check(&self, sig: i32) -> (r: Result<(), Error>)
        ensures
            r == self.verdict(sig),
    {
        if sig == 0 {
            Ok(())
        } else if sig == self.unloaded {
            Err(new_error(ErrorKind::Unloaded))
        } else {
            Err(new_error(ErrorKind::UnexpectedSignal))
        }
    }

    /// The signals that the handler is to be installed for: these two and no
    /// other.
    pub fn watched(&self) -> (r: Vec<i32>)
        ensures
            r@ == seq![self.unloaded, self.other],
    {
        let mut sigs: Vec<i32> = Vec::new();
        sigs.push(self.unloaded);
        sigs.push(self.other);
        sigs
    }
}

/// Judges the recorded signal `sig` by the target's signals: healthy when
/// none was recorded, `Unloaded` for the target's `SIGBUS`, `UnexpectedSignal`
/// for any other. Whatever the target, a number that `libc` gives to `SIGBUS`
/// nowhere is not taken for the unloaded module.
pub fn check(sig: i32) -> (r: Result<(), Error>)
    ensures
        exists|signals: Signals|
            signals.from_libc() && signals.told_apart() && r == #[trigger] signals.verdict(sig),
        r is Ok <==> sig == 0,
{
    let signals = Signals::native();
    signals.check(sig)
}

/// The signals that the handler is to be installed for on this target:
/// `SIGBUS` and `SIGIO`, in this order.
pub fn watched() -> (r: Vec<i32>)
    ensures
        exists|signals: Signals|
            signals.from_libc() && signals.told_apart() && r@ == #[trigger] seq![
                signals.unloaded,
                signals.other,
            ],
        r@.len() == 2,
{
    let signals = Signals::native();
    signals.watched()
}

/// `libc::SIGBUS`. The number is the target's: `libc` defines it as 7, 10 or
/// 30, and the contract claims no more than that it is one of these.
#[verifier::external_body]
fn sigbus() -> (r: i32)
    ensures
        r == 7 || r == 10 || r == 30,
{
    libc::SIGBUS
}

/// `libc::SIGIO`. The number is the target's: `libc` defines it as 22, 23, 29
/// or 48, and the contract claims no more than that it is one of these.
#[verifier::external_body]
fn sigio() -> (r: i32)
    ensures
        r == 22 || r == 23 || r == 29 || r == 48,
{
    libc::SIGIO
}

} // verus!
