//! The operating system's error conditions.
//!
//! A failing kernel primitive leaves a numeric code behind. The numbers differ
//! from one target to the next, so the rest of the library speaks of the
//! conditions by name ([`Errno`]); [`ErrnoTable`] holds the numbers of one
//! target and turns a number into its name.

use vstd::prelude::*;

verus! {

/// The error conditions that the kernel's counter primitives are documented to
/// report, and `Other` with the raw code for every other one.
#[derive(Debug, Clone, Copy, PartialEq, Eq, Structural)]
pub enum Errno {
    /// `EPERM`: the operation is not permitted.
    NotPermitted,
    /// `ENOENT`: no such entry.
    NoEntry,
    /// `ESRCH`: no such process.
    NoProcess,
    /// `ENXIO`: no such device.
    NoDevice,
    /// `EBUSY`: the resource is busy.
    Busy,
    /// `EEXIST`: the entry exists already.
    Exists,
    /// `EINVAL`: invalid argument.
    Invalid,
    /// `EPROGMISMATCH`: the program's version is wrong.
    VersionMismatch,
    /// `EDOOFUS`: the kernel found a programming error in the request.
    Doofus,
    /// Any other code.
    Other(i32),
}

/// FreeBSD's number for `EPROGMISMATCH`, a condition that few other systems
/// have.
pub const EPROGMISMATCH: i32 = 75;

/// FreeBSD's number for `EDOOFUS`, a condition that no other system has.
pub const EDOOFUS: i32 = 88;

/// The numbers that one target gives to the named conditions.
#[derive(Debug, Clone, Copy, PartialEq, Eq, Structural)]
pub struct ErrnoTable {
    pub eperm: i32,
    pub enoent: i32,
    pub esrch: i32,
    pub enxio: i32,
    pub ebusy: i32,
    pub eexist: i32,
    pub einval: i32,
    pub eprogmismatch: i32,
    pub edoofus: i32,
}

impl ErrnoTable {
    /// The name of `code` under this table: the first condition, in the order
    /// of the fields, whose number is `code`.
    pub open spec fn errno_of(self, code: i32) -> Errno {
        if code == self.eperm {
            Errno::NotPermitted
        } else if code == self.enoent {
            Errno::NoEntry
        } else if code == self.esrch {
            Errno::NoProcess
        } else if code == self.enxio {
            Errno::NoDevice
        } else if code == self.ebusy {
            Errno::Busy
        } else if code == self.eexist {
            Errno::Exists
        } else if code == self.einval {
            Errno::Invalid
        } else if code == self.eprogmismatch {
            Errno::VersionMismatch
        } else if code == self.edoofus {
            Errno::Doofus
        } else {
            Errno::Other(code)
        }
    }

    /// Names the raw code of a failed primitive.
    pub fn classify(&self, code: i32) -> (r: Errno)
        ensures
            r == self.errno_of(code),
    {
        if code == self.eperm {
            Errno::NotPermitted
        } else if code == self.enoent {
            Errno::NoEntry
        } else if code == self.esrch {
            Errno::NoProcess
        } else if code == self.enxio {
            Errno::NoDevice
        } else if code == self.ebusy {
            Errno::Busy
        } else if code == self.eexist {
            Errno::Exists
        } else if code == self.einval {
            Errno::Invalid
        } else if code == self.eprogmismatch {
            Errno::VersionMismatch
        } else if code == self.edoofus {
            Errno::Doofus
        } else {
            Errno::Other(code)
        }
    }

    /// Whether this can be the table of a target of `libc`: each of the first
    /// seven numbers is one that `libc` gives to that condition on some
    /// target, and the last two are FreeBSD's.
    pub open spec fn from_libc(self) -> bool {
        &&& (self.eperm == 1 || self.eperm == 6 || self.eperm == 63 || self.eperm == 1073741825
            || self.eperm == -2147483633)
        &&& (self.enoent == 2 || self.enoent == 1 || self.enoent == 44 || self.enoent
            == 1073741826 || self.enoent == -2147459069)
        &&& (self.esrch == 3 || self.esrch == 71 || self.esrch == 1073741827 || self.esrch
            == -2147454963)
        &&& (self.enxio == 6 || self.enxio == 30 || self.enxio == 60 || self.enxio == 1073741830
            || self.enxio == -2147454965)
        &&& (self.ebusy == 16 || self.ebusy == 10 || self.ebusy == 15 || self.ebusy == 1073741840
            || self.ebusy == -2147483634)
        &&& (self.eexist == 17 || self.eexist == 9 || self.eexist == 20 || self.eexist
            == 1073741841 || self.eexist == -2147459070)
        &&& (self.einval == 22 || self.einval == 14 || self.einval == 28 || self.einval
            == 1073741846 || self.einval == -2147483643)
        &&& self.eprogmismatch == EPROGMISMATCH
        &&& self.edoofus == EDOOFUS
    }

    /// The table of the target that the library was compiled for: the first
    /// seven numbers are `libc`'s for this target. The two conditions that
    /// only FreeBSD's kernel reports have FreeBSD's numbers on every target.
    pub fn native() -> (r: ErrnoTable)
        ensures
            r.from_libc(),
    {
        ErrnoTable {
            eperm: eperm(),
            enoent: enoent(),
            esrch: esrch(),
            enxio: enxio(),
            ebusy: ebusy(),
            eexist: eexist(),
            einval: einval(),
            eprogmismatch: EPROGMISMATCH,
            edoofus: EDOOFUS,
        }
    }
}

impl Errno {
    /// Names a raw code by the table of the target that the library was
    /// compiled for.
    pub fn from_raw(code: i32) -> (r: Errno)
        ensures
            exists|table: ErrnoTable| table.from_libc() && r == #[trigger] table.errno_of(code),
            r is Other ==> r == Errno::Other(code),
    {
        let table = ErrnoTable::native();
        table.classify(code)
    }
}

/// `libc::EPERM`. The number is the target's: `libc` defines it as 1, 6, 63,
/// 1073741825 or -2147483633, and the contract claims no more than that it is
/// one of these.
#[verifier::external_body]
fn eperm() -> (r: i32)
    ensures
        r == 1 || r == 6 || r == 63 || r == 1073741825 || r == -2147483633,
{
    libc::EPERM
}

/// `libc::ENOENT`. The number is the target's: `libc` defines it as 2, 1, 44,
/// 1073741826 or -2147459069, and the contract claims no more than that it is
/// one of these.
#[verifier::external_body]
fn enoent() -> (r: i32)
    ensures
        r == 2 || r == 1 || r == 44 || r == 1073741826 || r == -2147459069,
{
    libc::ENOENT
}

/// `libc::ESRCH`. The number is the target's: `libc` defines it as 3, 71,
/// 1073741827 or -2147454963, and the contract claims no more than that it is
/// one of these.
#[verifier::external_body]
fn esrch() -> (r: i32)
    ensures
        r == 3 || r == 71 || r == 1073741827 || r == -2147454963,
{
    libc::ESRCH
}

/// `libc::ENXIO`. The number is the target's: `libc` defines it as 6, 30, 60,
/// 1073741830 or -2147454965, and the contract claims no more than that it is
/// one of these.
#[verifier::external_body]
fn enxio() -> (r: i32)
    ensures
        r == 6 || r == 30 || r == 60 || r == 1073741830 || r == -2147454965,
{
    libc::ENXIO
}

/// `libc::EBUSY`. The number is the target's: `libc` defines it as 16, 10, 15,
/// 1073741840 or -2147483634, and the contract claims no more than that it is
/// one of these.
#[verifier::external_body]
fn ebusy() -> (r: i32)
    ensures
        r == 16 || r == 10 || r == 15 || r == 1073741840 || r == -2147483634,
{
    libc::EBUSY
}

/// `libc::EEXIST`. The number is the target's: `libc` defines it as 17, 9, 20,
/// 1073741841 or -2147459070, and the contract claims no more than that it is
/// one of these.
#[verifier::external_body]
fn eexist() -> (r: i32)
    ensures
        r == 17 || r == 9 || r == 20 || r == 1073741841 || r == -2147459070,
{
    libc::EEXIST
}

/// `libc::EINVAL`. The number is the target's: `libc` defines it as 22, 14,
/// 28, 1073741846 or -2147483643, and the contract claims no more than that it
/// is one of these.
#[verifier::external_body]
fn einval() -> (r: i32)
    ensures
        r == 22 || r == 14 || r == 28 || r == 1073741846 || r == -2147483643,
{
    libc::EINVAL
}

} // verus!
