//! The verdicts on the health flag, and the naming of the system's error
//! codes.

use pmc::error::new_error;
use pmc::os::{ErrnoTable, EDOOFUS, EPROGMISMATCH};
use pmc::signal::{check, watched, Signals};
use pmc::{Errno, ErrorKind};

#[test]
fn test_watch_for() {
    let flag = 0;

    for _ in 0..5 {
        assert!(watched().contains(&libc::SIGIO));
        assert!(check(flag).is_ok(), "got unexpected signal");
    }
}

#[test]
fn test_recognised_signal() {
    assert!(watched().contains(&libc::SIGBUS));
    let flag = libc::SIGBUS;

    assert_eq!(check(flag), Err(new_error(ErrorKind::Unloaded)));
}

#[test]
fn test_unrecognised_signal() {
    // a signal that is not watched for is not recorded
    let raised = libc::SIGUSR1;
    let flag = if watched().contains(&raised) { raised } else { 0 };

    assert!(check(flag).is_ok(), "got unexpected signal");
}

#[test]
fn watched_signals_are_the_two_faults() {
    assert_eq!(watched(), vec![libc::SIGBUS, libc::SIGIO]);
}

#[test]
fn any_other_signal_is_unexpected() {
    assert_eq!(check(libc::SIGIO), Err(new_error(ErrorKind::UnexpectedSignal)));
    assert_eq!(check(libc::SIGUSR1), Err(new_error(ErrorKind::UnexpectedSignal)));
    assert_eq!(check(-1).unwrap_err().kind(), &ErrorKind::UnexpectedSignal);
    assert_eq!(check(i32::MAX).unwrap_err().cause(), None);
    assert_eq!(check(libc::SIGBUS).unwrap_err().to_string(), "hwpmc unloaded from kernel");
    assert_eq!(check(libc::SIGIO).unwrap_err().to_string(), "unknown error");
}

#[test]
fn verdict_goes_by_the_given_numbers() {
    let signals = Signals { unloaded: 10, other: 23 };
    assert_eq!(signals.check(0), Ok(()));
    assert_eq!(signals.check(10), Err(new_error(ErrorKind::Unloaded)));
    assert_eq!(signals.check(7), Err(new_error(ErrorKind::UnexpectedSignal)));
    assert_eq!(signals.check(23), Err(new_error(ErrorKind::UnexpectedSignal)));
    assert_eq!(signals.watched(), vec![10, 23]);
    let odd = Signals { unloaded: 0, other: 0 };
    assert_eq!(odd.check(0), Ok(()));
    assert_eq!(Signals::native(), Signals { unloaded: libc::SIGBUS, other: libc::SIGIO });
}

#[test]
fn raw_codes_get_their_names() {
    assert_eq!(Errno::from_raw(libc::EPERM), Errno::NotPermitted);
    assert_eq!(Errno::from_raw(libc::ENOENT), Errno::NoEntry);
    assert_eq!(Errno::from_raw(libc::ESRCH), Errno::NoProcess);
    assert_eq!(Errno::from_raw(libc::ENXIO), Errno::NoDevice);
    assert_eq!(Errno::from_raw(libc::EBUSY), Errno::Busy);
    assert_eq!(Errno::from_raw(libc::EEXIST), Errno::Exists);
    assert_eq!(Errno::from_raw(libc::EINVAL), Errno::Invalid);
    assert_eq!(Errno::from_raw(EPROGMISMATCH), Errno::VersionMismatch);
    assert_eq!(Errno::from_raw(EDOOFUS), Errno::Doofus);
    assert_eq!(Errno::from_raw(libc::EAGAIN), Errno::Other(libc::EAGAIN));
    assert_eq!(Errno::from_raw(0), Errno::Other(0));
    assert_eq!(Errno::from_raw(-1), Errno::Other(-1));
}

#[test]
fn native_table_holds_the_targets_numbers() {
    let table = ErrnoTable::native();
    assert_eq!(
        table,
        ErrnoTable {
            eperm: libc::EPERM,
            enoent: libc::ENOENT,
            esrch: libc::ESRCH,
            enxio: libc::ENXIO,
            ebusy: libc::EBUSY,
            eexist: libc::EEXIST,
            einval: libc::EINVAL,
            eprogmismatch: 75,
            edoofus: 88,
        }
    );
}

#[test]
fn table_names_the_first_match() {
    let table = ErrnoTable {
        eperm: 1,
        enoent: 2,
        esrch: 3,
        enxio: 6,
        ebusy: 16,
        eexist: 17,
        einval: 22,
        eprogmismatch: 75,
        edoofus: 88,
    };
    assert_eq!(table.classify(22), Errno::Invalid);
    assert_eq!(table.classify(88), Errno::Doofus);
    assert_eq!(table.classify(75), Errno::VersionMismatch);
    assert_eq!(table.classify(4), Errno::Other(4));
    let odd = ErrnoTable { einval: 1, ..table };
    assert_eq!(odd.classify(1), Errno::NotPermitted);
    assert_eq!(odd.classify(22), Errno::Other(22));
}

#[test]
fn errors_are_equal_by_kind() {
    let a = pmc::error::new_os_error(ErrorKind::Unknown, Errno::Busy);
    let b = pmc::error::new_os_error(ErrorKind::Unknown, Errno::Other(5));
    let c = new_error(ErrorKind::Unknown);
    assert_eq!(a, b);
    assert_eq!(a, c);
    assert_ne!(a, new_error(ErrorKind::Running));
    assert_eq!(a.cause(), Some(Errno::Busy));
    assert_eq!(c.cause(), None);
    assert_eq!(a.kind(), &ErrorKind::Unknown);
}

#[test]
fn every_kind_has_its_description() {
    for (kind, text) in [
        (ErrorKind::Unknown, "unknown error"),
        (ErrorKind::UnexpectedSignal, "unknown error"),
        (ErrorKind::Init, "missing hwpmc in kernel"),
        (ErrorKind::Unsupported, "unsupported CPU"),
        (ErrorKind::VersionMismatch, "unexpected hwpmc version"),
        (ErrorKind::InvalidEventSpec, "unknown error"),
        (ErrorKind::AllocInit, "failed to allocate counter"),
        (ErrorKind::Unloaded, "hwpmc unloaded from kernel"),
        (ErrorKind::NotAttached, "PMC not attached to target processes"),
        (ErrorKind::AlreadyAttached, "PMC already attached to target process"),
        (ErrorKind::BadScope, "unknown error"),
        (ErrorKind::LogFileRequired, "unknown error"),
        (ErrorKind::Running, "cannot set running counter"),
        (ErrorKind::NotRunning, "counter not running"),
        (ErrorKind::BusyTarget, "target is busy"),
        (ErrorKind::BadTarget, "target PID does not exist"),
        (ErrorKind::Forbidden, "forbidden"),
    ] {
        assert_eq!(new_error(kind).description(), text);
        assert_eq!(new_error(kind).to_string(), text);
    }
}

#[test]
fn native_signals_can_be_told_apart() {
    let signals = Signals::native();
    assert!([7, 10, 30].contains(&signals.unloaded));
    assert!([22, 23, 29, 48].contains(&signals.other));
    assert!(signals.unloaded > 0 && signals.other > 0);
    assert_ne!(signals.unloaded, signals.other);
    assert_eq!(signals.check(0), Ok(()));
    assert_eq!(signals.check(signals.unloaded), Err(new_error(ErrorKind::Unloaded)));
    assert_eq!(signals.check(signals.other), Err(new_error(ErrorKind::UnexpectedSignal)));
}

#[test]
fn native_table_is_one_of_libc() {
    let table = ErrnoTable::native();
    assert!([1, 6, 63, 1073741825, -2147483633].contains(&table.eperm));
    assert!([2, 1, 44, 1073741826, -2147459069].contains(&table.enoent));
    assert!([3, 71, 1073741827, -2147454963].contains(&table.esrch));
    assert!([6, 30, 60, 1073741830, -2147454965].contains(&table.enxio));
    assert!([16, 10, 15, 1073741840, -2147483634].contains(&table.ebusy));
    assert!([17, 9, 20, 1073741841, -2147459070].contains(&table.eexist));
    assert!([22, 14, 28, 1073741846, -2147483643].contains(&table.einval));
    assert_eq!(table.eprogmismatch, EPROGMISMATCH);
    assert_eq!(table.edoofus, EDOOFUS);
    // a code that no target gives to any of the conditions keeps its number
    assert_eq!(Errno::from_raw(5), Errno::Other(5));
    assert_eq!(Errno::from_raw(1000), Errno::Other(1000));
}

#[test]
fn signal_of_no_target_is_unexpected() {
    for sig in [1, 2, 9, 11, 15, 31, 64] {
        assert_eq!(check(sig), Err(new_error(ErrorKind::UnexpectedSignal)));
    }
    let sigs = watched();
    assert!([7, 10, 30].contains(&sigs[0]));
    assert!([22, 23, 29, 48].contains(&sigs[1]));
    assert_ne!(sigs[0], sigs[1]);
}
