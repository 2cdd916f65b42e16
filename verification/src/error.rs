//! The error kinds of the binding and their numeric codes.
//!
//! Codes come in two bands. The first holds the error numbers of the
//! platform, which this module takes from the `libc` crate. The second is the
//! messaging library's own, counted from `HAUSNUMERO`; a few of its codes
//! stand for a kind that the platform band holds too.

use vstd::prelude::*;

verus! {

/// The base from which the messaging library counts its private error codes.
pub const HAUSNUMERO: i32 = 156384712;

/// What can go wrong in a call into the messaging library.
#[allow(non_camel_case_types)]
#[derive(Clone, Copy, Debug, PartialEq, Eq, Structural)]
pub enum Error {
    EACCES,
    EADDRINUSE,
    EAGAIN,
    EBUSY,
    ECONNREFUSED,
    EFAULT,
    EHOSTUNREACH,
    EINPROGRESS,
    EINVAL,
    EMFILE,
    EMSGSIZE,
    ENAMETOOLONG,
    ENODEV,
    ENOENT,
    ENOMEM,
    ENOTCONN,
    ENOTSOCK,
    EPROTO,
    EPROTONOSUPPORT,
    ENOTSUP,
    ENOBUFS,
    ENETDOWN,
    EADDRNOTAVAIL,
    EFSM,
    ENOCOMPATPROTO,
    ETERM,
    EMTHREAD,
}

impl Error {
    /// The canonical code of the kind: the platform's error number (as on
    /// Linux for x86-64), or the messaging library's own code.
    pub open spec fn code(self) -> int {
        match self {
            Error::EACCES => 13,
            Error::EADDRINUSE => 98,
            Error::EAGAIN => 11,
            Error::EBUSY => 16,
            Error::ECONNREFUSED => 111,
            Error::EFAULT => 14,
            Error::EHOSTUNREACH => 113,
            Error::EINPROGRESS => 115,
            Error::EINVAL => 22,
            Error::EMFILE => 24,
            Error::EMSGSIZE => 90,
            Error::ENAMETOOLONG => 36,
            Error::ENODEV => 19,
            Error::ENOENT => 2,
            Error::ENOMEM => 12,
            Error::ENOTCONN => 107,
            Error::ENOTSOCK => 88,
            Error::EPROTO => 71,
            Error::EPROTONOSUPPORT => 93,
            Error::ENOTSUP => 156384713,
            Error::ENOBUFS => 156384715,
            Error::ENETDOWN => 156384716,
            Error::EADDRNOTAVAIL => 156384718,
            Error::EFSM => 156384763,
            Error::ENOCOMPATPROTO => 156384764,
            Error::ETERM => 156384765,
            Error::EMTHREAD => 156384766,
        }
    }

    /// The kind that a code stands for, if any. Besides the canonical codes,
    /// five codes of the messaging library's band stand for kinds of the
    /// platform band.
    pub open spec fn lookup(raw: int) -> Option<Error> {
        if raw == 13 {
            Some(Error::EACCES)
        } else if raw == 98 {
            Some(Error::EADDRINUSE)
        } else if raw == 11 {
            Some(Error::EAGAIN)
        } else if raw == 16 {
            Some(Error::EBUSY)
        } else if raw == 111 {
            Some(Error::ECONNREFUSED)
        } else if raw == 14 {
            Some(Error::EFAULT)
        } else if raw == 113 {
            Some(Error::EHOSTUNREACH)
        } else if raw == 115 {
            Some(Error::EINPROGRESS)
        } else if raw == 22 {
            Some(Error::EINVAL)
        } else if raw == 24 {
            Some(Error::EMFILE)
        } else if raw == 90 {
            Some(Error::EMSGSIZE)
        } else if raw == 36 {
            Some(Error::ENAMETOOLONG)
        } else if raw == 19 {
            Some(Error::ENODEV)
        } else if raw == 2 {
            Some(Error::ENOENT)
        } else if raw == 12 {
            Some(Error::ENOMEM)
        } else if raw == 107 {
            Some(Error::ENOTCONN)
        } else if raw == 88 {
            Some(Error::ENOTSOCK)
        } else if raw == 71 {
            Some(Error::EPROTO)
        } else if raw == 93 {
            Some(Error::EPROTONOSUPPORT)
        } else if raw == 156384713 {
            Some(Error::ENOTSUP)
        } else if raw == 156384714 {
            Some(Error::EPROTONOSUPPORT)
        } else if raw == 156384715 {
            Some(Error::ENOBUFS)
        } else if raw == 156384716 {
            Some(Error::ENETDOWN)
        } else if raw == 156384717 {
            Some(Error::EADDRINUSE)
        } else if raw == 156384718 {
            Some(Error::EADDRNOTAVAIL)
        } else if raw == 156384719 {
            Some(Error::ECONNREFUSED)
        } else if raw == 156384720 {
            Some(Error::EINPROGRESS)
        } else if raw == 156384721 {
            Some(Error::ENOTSOCK)
        } else if raw == 156384763 {
            Some(Error::EFSM)
        } else if raw == 156384764 {
            Some(Error::ENOCOMPATPROTO)
        } else if raw == 156384765 {
            Some(Error::ETERM)
        } else if raw == 156384766 {
            Some(Error::EMTHREAD)
        } else {
            None
        }
    }

    /// Whether a code stands for an error kind.
    pub open spec fn known(raw: int) -> bool {
        Error::lookup(raw) is Some
    }

    pub fn to_raw(&self) -> (raw: i32)
        ensures
            raw == self.code(),
            Error::lookup(raw as int) == Some(*self),
    {
        match self {
            Error::EACCES => eacces(),
            Error::EADDRINUSE => eaddrinuse(),
            Error::EAGAIN => eagain(),
            Error::EBUSY => ebusy(),
            Error::ECONNREFUSED => econnrefused(),
            Error::EFAULT => efault(),
            Error::EHOSTUNREACH => ehostunreach(),
            Error::EINPROGRESS => einprogress(),
            Error::EINVAL => einval(),
            Error::EMFILE => emfile(),
            Error::EMSGSIZE => emsgsize(),
            Error::ENAMETOOLONG => enametoolong(),
            Error::ENODEV => enodev(),
            Error::ENOENT => enoent(),
            Error::ENOMEM => enomem(),
            Error::ENOTCONN => enotconn(),
            Error::ENOTSOCK => enotsock(),
            Error::EPROTO => eproto(),
            Error::EPROTONOSUPPORT => eprotonosupport(),
            Error::ENOTSUP => 156384713,
            Error::ENOBUFS => 156384715,
            Error::ENETDOWN => 156384716,
            Error::EADDRNOTAVAIL => 156384718,
            Error::EFSM => 156384763,
            Error::ENOCOMPATPROTO => 156384764,
            Error::ETERM => 156384765,
            Error::EMTHREAD => 156384766,
        }
    }

    /// The kind with the given code; `None` for a code that stands for none.
    pub fn try_from_raw(raw: i32) -> (found: Option<Error>)
        ensures
            found == Error::lookup(raw as int),
    {
        if raw == eacces() {
            Some(Error::EACCES)
        } else if raw == eaddrinuse() {
            Some(Error::EADDRINUSE)
        } else if raw == eagain() {
            Some(Error::EAGAIN)
        } else if raw == ebusy() {
            Some(Error::EBUSY)
        } else if raw == econnrefused() {
            Some(Error::ECONNREFUSED)
        } else if raw == efault() {
            Some(Error::EFAULT)
        } else if raw == ehostunreach() {
            Some(Error::EHOSTUNREACH)
        } else if raw == einprogress() {
            Some(Error::EINPROGRESS)
        } else if raw == einval() {
            Some(Error::EINVAL)
        } else if raw == emfile() {
            Some(Error::EMFILE)
        } else if raw == emsgsize() {
            Some(Error::EMSGSIZE)
        } else if raw == enametoolong() {
            Some(Error::ENAMETOOLONG)
        } else if raw == enodev() {
            Some(Error::ENODEV)
        } else if raw == enoent() {
            Some(Error::ENOENT)
        } else if raw == enomem() {
            Some(Error::ENOMEM)
        } else if raw == enotconn() {
            Some(Error::ENOTCONN)
        } else if raw == enotsock() {
            Some(Error::ENOTSOCK)
        } else if raw == eproto() {
            Some(Error::EPROTO)
        } else if raw == eprotonosupport() {
            Some(Error::EPROTONOSUPPORT)
        } else if raw == 156384713 {
            Some(Error::ENOTSUP)
        } else if raw == 156384714 {
            Some(Error::EPROTONOSUPPORT)
        } else if raw == 156384715 {
            Some(Error::ENOBUFS)
        } else if raw == 156384716 {
            Some(Error::ENETDOWN)
        } else if raw == 156384717 {
            Some(Error::EADDRINUSE)
        } else if raw == 156384718 {
            Some(Error::EADDRNOTAVAIL)
        } else if raw == 156384719 {
            Some(Error::ECONNREFUSED)
        } else if raw == 156384720 {
            Some(Error::EINPROGRESS)
        } else if raw == 156384721 {
            Some(Error::ENOTSOCK)
        } else if raw == 156384763 {
            Some(Error::EFSM)
        } else if raw == 156384764 {
            Some(Error::ENOCOMPATPROTO)
        } else if raw == 156384765 {
            Some(Error::ETERM)
        } else if raw == 156384766 {
            Some(Error::EMTHREAD)
        } else {
            None
        }
    }

    /// The kind with the given code, which must stand for one.
    pub fn from_raw(raw: i32) -> (error: Error)
        requires
            Error::known(raw as int),
        ensures
            Some(error) == Error::lookup(raw as int),
    {
        match Error::try_from_raw(raw) {
            Some(error) => error,
            None => vstd::pervasive::unreached(),
        }
    }

    /// Every error kind is found again under its own code.
    pub proof fn lemma_round_trip(error: Error)
        ensures
            Error::known(error.code()),
            Error::lookup(error.code()) == Some(error),
    {
    }
}

/// `libc::EACCES`, the platform's error number for "permission denied", which
/// is 13 on Linux for x86-64.
#[verifier::external_body]
fn eacces() -> (code: i32)
    ensures
        code == 13,
{
    libc::EACCES
}

/// `libc::EADDRINUSE`, the platform's error number for "address already in
/// use", which is 98 on Linux for x86-64.
#[verifier::external_body]
fn eaddrinuse() -> (code: i32)
    ensures
        code == 98,
{
    libc::EADDRINUSE
}

/// `libc::EAGAIN`, the platform's error number for "the call would block",
/// which is 11 on Linux for x86-64.
#[verifier::external_body]
fn eagain() -> (code: i32)
    ensures
        code == 11,
{
    libc::EAGAIN
}

/// `libc::EBUSY`, the platform's error number for "resource busy", which is 16
/// on Linux for x86-64.
#[verifier::external_body]
fn ebusy() -> (code: i32)
    ensures
        code == 16,
{
    libc::EBUSY
}

/// `libc::ECONNREFUSED`, the platform's error number for "connection refused",
/// which is 111 on Linux for x86-64.
#[verifier::external_body]
fn econnrefused() -> (code: i32)
    ensures
        code == 111,
{
    libc::ECONNREFUSED
}

/// `libc::EFAULT`, the platform's error number for "bad address", which is 14
/// on Linux for x86-64.
#[verifier::external_body]
fn efault() -> (code: i32)
    ensures
        code == 14,
{
    libc::EFAULT
}

/// `libc::EHOSTUNREACH`, the platform's error number for "host unreachable",
/// which is 113 on Linux for x86-64.
#[verifier::external_body]
fn ehostunreach() -> (code: i32)
    ensures
        code == 113,
{
    libc::EHOSTUNREACH
}

/// `libc::EINPROGRESS`, the platform's error number for "operation in
/// progress", which is 115 on Linux for x86-64.
#[verifier::external_body]
fn einprogress() -> (code: i32)
    ensures
        code == 115,
{
    libc::EINPROGRESS
}

/// `libc::EINVAL`, the platform's error number for "invalid argument", which
/// is 22 on Linux for x86-64.
#[verifier::external_body]
fn einval() -> (code: i32)
    ensures
        code == 22,
{
    libc::EINVAL
}

/// `libc::EMFILE`, the platform's error number for "too many open files",
/// which is 24 on Linux for x86-64.
#[verifier::external_body]
fn emfile() -> (code: i32)
    ensures
        code == 24,
{
    libc::EMFILE
}

/// `libc::EMSGSIZE`, the platform's error number for "message too long", which
/// is 90 on Linux for x86-64.
#[verifier::external_body]
fn emsgsize() -> (code: i32)
    ensures
        code == 90,
{
    libc::EMSGSIZE
}

/// `libc::ENAMETOOLONG`, the platform's error number for "name too long",
/// which is 36 on Linux for x86-64.
#[verifier::external_body]
fn enametoolong() -> (code: i32)
    ensures
        code == 36,
{
    libc::ENAMETOOLONG
}

/// `libc::ENODEV`, the platform's error number for "no such device", which is
/// 19 on Linux for x86-64.
#[verifier::external_body]
fn enodev() -> (code: i32)
    ensures
        code == 19,
{
    libc::ENODEV
}

/// `libc::ENOENT`, the platform's error number for "no such entry", which is 2
/// on Linux for x86-64.
#[verifier::external_body]
fn enoent() -> (code: i32)
    ensures
        code == 2,
{
    libc::ENOENT
}

/// `libc::ENOMEM`, the platform's error number for "out of memory", which is
/// 12 on Linux for x86-64.
#[verifier::external_body]
fn enomem() -> (code: i32)
    ensures
        code == 12,
{
    libc::ENOMEM
}

/// `libc::ENOTCONN`, the platform's error number for "not connected", which is
/// 107 on Linux for x86-64.
#[verifier::external_body]
fn enotconn() -> (code: i32)
    ensures
        code == 107,
{
    libc::ENOTCONN
}

/// `libc::ENOTSOCK`, the platform's error number for "not a socket", which is
/// 88 on Linux for x86-64.
#[verifier::external_body]
fn enotsock() -> (code: i32)
    ensures
        code == 88,
{
    libc::ENOTSOCK
}

/// `libc::EPROTO`, the platform's error number for "protocol error", which is
/// 71 on Linux for x86-64.
#[verifier::external_body]
fn eproto() -> (code: i32)
    ensures
        code == 71,
{
    libc::EPROTO
}

/// `libc::EPROTONOSUPPORT`, the platform's error number for "protocol not
/// supported", which is 93 on Linux for x86-64.
#[verifier::external_body]
fn eprotonosupport() -> (code: i32)
    ensures
        code == 93,
{
    libc::EPROTONOSUPPORT
}

} // verus!
