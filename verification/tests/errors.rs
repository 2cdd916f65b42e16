use zmq::{Error, HAUSNUMERO};

fn all_errors() -> Vec<Error> {
    vec![
        Error::EACCES,
        Error::EADDRINUSE,
        Error::EAGAIN,
        Error::EBUSY,
        Error::ECONNREFUSED,
        Error::EFAULT,
        Error::EHOSTUNREACH,
        Error::EINPROGRESS,
        Error::EINVAL,
        Error::EMFILE,
        Error::EMSGSIZE,
        Error::ENAMETOOLONG,
        Error::ENODEV,
        Error::ENOENT,
        Error::ENOMEM,
        Error::ENOTCONN,
        Error::ENOTSOCK,
        Error::EPROTO,
        Error::EPROTONOSUPPORT,
        Error::ENOTSUP,
        Error::ENOBUFS,
        Error::ENETDOWN,
        Error::EADDRNOTAVAIL,
        Error::EFSM,
        Error::ENOCOMPATPROTO,
        Error::ETERM,
        Error::EMTHREAD,
    ]
}

#[test]
fn every_error_round_trips_through_its_code() {
    for error in all_errors() {
        assert_eq!(Error::from_raw(error.to_raw()), error);
        assert_eq!(Error::try_from_raw(error.to_raw()), Some(error));
    }
}

#[test]
fn error_codes_are_pairwise_distinct() {
    let errors = all_errors();
    for (i, a) in errors.iter().enumerate() {
        for b in errors.iter().skip(i + 1) {
            assert_ne!(a.to_raw(), b.to_raw());
        }
    }
}

#[test]
fn platform_errors_have_the_platform_codes() {
    assert_eq!(Error::EACCES.to_raw(), libc::EACCES);
    assert_eq!(Error::EADDRINUSE.to_raw(), libc::EADDRINUSE);
    assert_eq!(Error::EAGAIN.to_raw(), libc::EAGAIN);
    assert_eq!(Error::EBUSY.to_raw(), libc::EBUSY);
    assert_eq!(Error::ECONNREFUSED.to_raw(), libc::ECONNREFUSED);
    assert_eq!(Error::EFAULT.to_raw(), libc::EFAULT);
    assert_eq!(Error::EHOSTUNREACH.to_raw(), libc::EHOSTUNREACH);
    assert_eq!(Error::EINPROGRESS.to_raw(), libc::EINPROGRESS);
    assert_eq!(Error::EINVAL.to_raw(), libc::EINVAL);
    assert_eq!(Error::EMFILE.to_raw(), libc::EMFILE);
    assert_eq!(Error::EMSGSIZE.to_raw(), libc::EMSGSIZE);
    assert_eq!(Error::ENAMETOOLONG.to_raw(), libc::ENAMETOOLONG);
    assert_eq!(Error::ENODEV.to_raw(), libc::ENODEV);
    assert_eq!(Error::ENOENT.to_raw(), libc::ENOENT);
    assert_eq!(Error::ENOMEM.to_raw(), libc::ENOMEM);
    assert_eq!(Error::ENOTCONN.to_raw(), libc::ENOTCONN);
    assert_eq!(Error::ENOTSOCK.to_raw(), libc::ENOTSOCK);
    assert_eq!(Error::EPROTO.to_raw(), libc::EPROTO);
    assert_eq!(Error::EPROTONOSUPPORT.to_raw(), libc::EPROTONOSUPPORT);
}

#[test]
fn platform_errors_have_the_codes_of_the_contracts() {
    assert_eq!(Error::EACCES.to_raw(), 13);
    assert_eq!(Error::EADDRINUSE.to_raw(), 98);
    assert_eq!(Error::EAGAIN.to_raw(), 11);
    assert_eq!(Error::EBUSY.to_raw(), 16);
    assert_eq!(Error::ECONNREFUSED.to_raw(), 111);
    assert_eq!(Error::EFAULT.to_raw(), 14);
    assert_eq!(Error::EHOSTUNREACH.to_raw(), 113);
    assert_eq!(Error::EINPROGRESS.to_raw(), 115);
    assert_eq!(Error::EINVAL.to_raw(), 22);
    assert_eq!(Error::EMFILE.to_raw(), 24);
    assert_eq!(Error::EMSGSIZE.to_raw(), 90);
    assert_eq!(Error::ENAMETOOLONG.to_raw(), 36);
    assert_eq!(Error::ENODEV.to_raw(), 19);
    assert_eq!(Error::ENOENT.to_raw(), 2);
    assert_eq!(Error::ENOMEM.to_raw(), 12);
    assert_eq!(Error::ENOTCONN.to_raw(), 107);
    assert_eq!(Error::ENOTSOCK.to_raw(), 88);
    assert_eq!(Error::EPROTO.to_raw(), 71);
    assert_eq!(Error::EPROTONOSUPPORT.to_raw(), 93);
}

#[test]
fn native_errors_count_from_the_base() {
    assert_eq!(HAUSNUMERO, 156384712);
    assert_eq!(Error::ENOTSUP.to_raw(), HAUSNUMERO + 1);
    assert_eq!(Error::ENOBUFS.to_raw(), HAUSNUMERO + 3);
    assert_eq!(Error::ENETDOWN.to_raw(), HAUSNUMERO + 4);
    assert_eq!(Error::EADDRNOTAVAIL.to_raw(), HAUSNUMERO + 6);
    assert_eq!(Error::EFSM.to_raw(), HAUSNUMERO + 51);
    assert_eq!(Error::ENOCOMPATPROTO.to_raw(), HAUSNUMERO + 52);
    assert_eq!(Error::ETERM.to_raw(), HAUSNUMERO + 53);
    assert_eq!(Error::EMTHREAD.to_raw(), HAUSNUMERO + 54);
}

#[test]
fn aliases_in_the_native_band_give_the_platform_kind() {
    assert_eq!(Error::from_raw(156384714), Error::EPROTONOSUPPORT);
    assert_eq!(Error::from_raw(156384717), Error::EADDRINUSE);
    assert_eq!(Error::from_raw(156384719), Error::ECONNREFUSED);
    assert_eq!(Error::from_raw(156384720), Error::EINPROGRESS);
    assert_eq!(Error::from_raw(156384721), Error::ENOTSOCK);
    assert_eq!(Error::from_raw(156384713), Error::ENOTSUP);
    assert_eq!(Error::from_raw(156384765), Error::ETERM);
}

#[test]
fn unknown_codes_stand_for_no_error() {
    assert_eq!(Error::try_from_raw(0), None);
    assert_eq!(Error::try_from_raw(-1), None);
    assert_eq!(Error::try_from_raw(4), None);
    assert_eq!(Error::try_from_raw(HAUSNUMERO), None);
    assert_eq!(Error::try_from_raw(HAUSNUMERO + 10), None);
    assert_eq!(Error::try_from_raw(HAUSNUMERO + 55), None);
    assert_eq!(Error::try_from_raw(i32::MAX), None);
    assert_eq!(Error::try_from_raw(i32::MIN), None);
}
