//! A verified core for a ZeroMQ binding.
//!
//! This crate decides what a binding to the ZeroMQ library does, and leaves
//! the doing to a driver: the code around it that can call into the library.
//! Nothing in here touches the library itself.
//!
//! Every operation is a function of the replies that the library has made so
//! far. Given none, it names its first call as a [`Step::Call`]. The driver
//! makes the call, adds the [`Reply`] to the list and asks again, until the
//! operation ends: with its result ([`Step::Done`]), with an error of the
//! library ([`Step::Failed`]), or with a fault that cannot be recovered from
//! ([`Step::Fatal`]), on which the driver aborts.
//!
//! Contexts, sockets and messages stand for the library's handles. The
//! driver lets go of each when it is dropped, by running the `release`
//! operation of the value.

pub mod constants;
pub mod context;
pub mod error;
pub mod exchange;
pub mod library;
pub mod message;
pub mod options;
pub mod poll;
pub mod socket;

pub use crate::constants::{Constants, SocketType, DONTWAIT, POLLERR, POLLIN, POLLOUT, SNDMORE};
pub use crate::context::Context;
pub use crate::error::{Error, HAUSNUMERO};
pub use crate::exchange::{Call, Fault, OptionKind, OptionValue, Output, Reply, Step};
pub use crate::library::{strerror, version};
pub use crate::message::Message;
pub use crate::poll::{poll, PollItem};
pub use crate::socket::Socket;
