//! Socket roles, option identifiers and flag bits, with their numeric codes.

use vstd::prelude::*;

verus! {

/// Flag for one send or receive: do not block.
pub const DONTWAIT: i32 = 1;

/// Flag for one send: more frames of the same message follow.
pub const SNDMORE: i32 = 2;

/// Readiness bit: the socket can be read from.
pub const POLLIN: i16 = 1;

/// Readiness bit: the socket can be written to.
pub const POLLOUT: i16 = 2;

/// Readiness bit: the descriptor is in an error state.
pub const POLLERR: i16 = 4;

/// The role of a socket.
#[allow(non_camel_case_types)]
#[derive(Clone, Copy, Debug, PartialEq, Eq, Structural)]
pub enum SocketType {
    PAIR,
    PUB,
    SUB,
    REQ,
    REP,
    DEALER,
    ROUTER,
    PULL,
    PUSH,
    XPUB,
    XSUB,
}

impl View for SocketType {
    type V = SocketType;

    open spec fn view(&self) -> SocketType {
        *self
    }
}

impl SocketType {
    /// The code of this role, 0 to 10 in the order of declaration.
    pub open spec fn code(self) -> int {
        match self {
            SocketType::PAIR => 0,
            SocketType::PUB => 1,
            SocketType::SUB => 2,
            SocketType::REQ => 3,
            SocketType::REP => 4,
            SocketType::DEALER => 5,
            SocketType::ROUTER => 6,
            SocketType::PULL => 7,
            SocketType::PUSH => 8,
            SocketType::XPUB => 9,
            SocketType::XSUB => 10,
        }
    }

    /// The role that a code stands for, if any.
    pub open spec fn lookup(raw: int) -> Option<SocketType> {
        if raw == 0 {
            Some(SocketType::PAIR)
        } else if raw == 1 {
            Some(SocketType::PUB)
        } else if raw == 2 {
            Some(SocketType::SUB)
        } else if raw == 3 {
            Some(SocketType::REQ)
        } else if raw == 4 {
            Some(SocketType::REP)
        } else if raw == 5 {
            Some(SocketType::DEALER)
        } else if raw == 6 {
            Some(SocketType::ROUTER)
        } else if raw == 7 {
            Some(SocketType::PULL)
        } else if raw == 8 {
            Some(SocketType::PUSH)
        } else if raw == 9 {
            Some(SocketType::XPUB)
        } else if raw == 10 {
            Some(SocketType::XSUB)
        } else {
            None
        }
    }

    pub fn to_raw(&self) -> (raw: i32)
        ensures
            raw == self.code(),
    {
        match self {
            SocketType::PAIR => 0,
            SocketType::PUB => 1,
            SocketType::SUB => 2,
            SocketType::REQ => 3,
            SocketType::REP => 4,
            SocketType::DEALER => 5,
            SocketType::ROUTER => 6,
            SocketType::PULL => 7,
            SocketType::PUSH => 8,
            SocketType::XPUB => 9,
            SocketType::XSUB => 10,
        }
    }

    /// The role with the given code; `None` for a code outside 0 to 10.
    pub fn try_from_raw(raw: i32) -> (found: Option<SocketType>)
        ensures
            found == SocketType::lookup(raw as int),
    {
        match raw {
            0 => Some(SocketType::PAIR),
            1 => Some(SocketType::PUB),
            2 => Some(SocketType::SUB),
            3 => Some(SocketType::REQ),
            4 => Some(SocketType::REP),
            5 => Some(SocketType::DEALER),
            6 => Some(SocketType::ROUTER),
            7 => Some(SocketType::PULL),
            8 => Some(SocketType::PUSH),
            9 => Some(SocketType::XPUB),
            10 => Some(SocketType::XSUB),
            _ => None,
        }
    }

    /// The role with the given code, which must be one of 0 to 10.
    pub fn from_raw(raw: i32) -> (role: SocketType)
        requires
            0 <= raw <= 10,
        ensures
            Some(role) == SocketType::lookup(raw as int),
            role.code() == raw,
    {
        match SocketType::try_from_raw(raw) {
            Some(role) => role,
            None => vstd::pervasive::unreached(),
        }
    }

    /// Every role is found again under its own code, and under no other.
    pub proof fn lemma_code_round_trip(role: SocketType, raw: int)
        ensures
            SocketType::lookup(role.code()) == Some(role),
            SocketType::lookup(raw) == Some(role) <==> raw == role.code(),
            0 <= role.code() <= 10,
    {
    }
}

/// The numeric constants of the messaging library: option identifiers,
/// message flags and the base of its private error codes.
#[allow(non_camel_case_types)]
#[derive(Clone, Copy, Debug, PartialEq, Eq, Structural)]
pub enum Constants {
    ZMQ_AFFINITY,
    ZMQ_IDENTITY,
    ZMQ_SUBSCRIBE,
    ZMQ_UNSUBSCRIBE,
    ZMQ_RATE,
    ZMQ_RECOVERY_IVL,
    ZMQ_MCAST_LOOP,
    ZMQ_SNDBUF,
    ZMQ_RCVBUF,
    ZMQ_RCVMORE,
    ZMQ_FD,
    ZMQ_EVENTS,
    ZMQ_TYPE,
    ZMQ_LINGER,
    ZMQ_RECONNECT_IVL,
    ZMQ_BACKLOG,
    ZMQ_RECOVERY_IVL_MSEC,
    ZMQ_RECONNECT_IVL_MAX,
    ZMQ_MAXMSGSIZE,
    ZMQ_SNDHWM,
    ZMQ_RCVHWM,
    ZMQ_MAX_VSM_SIZE,
    ZMQ_DELIMITER,
    ZMQ_VSM,
    ZMQ_MSG_MORE,
    ZMQ_MSG_SHARED,
    ZMQ_MSG_MASK,
    ZMQ_HAUSNUMERO,
}

impl Constants {
    /// The number that the constant stands for.
    pub open spec fn code(self) -> int {
        match self {
            Constants::ZMQ_AFFINITY => 4,
            Constants::ZMQ_IDENTITY => 5,
            Constants::ZMQ_SUBSCRIBE => 6,
            Constants::ZMQ_UNSUBSCRIBE => 7,
            Constants::ZMQ_RATE => 8,
            Constants::ZMQ_RECOVERY_IVL => 9,
            Constants::ZMQ_MCAST_LOOP => 10,
            Constants::ZMQ_SNDBUF => 11,
            Constants::ZMQ_RCVBUF => 12,
            Constants::ZMQ_RCVMORE => 13,
            Constants::ZMQ_FD => 14,
            Constants::ZMQ_EVENTS => 15,
            Constants::ZMQ_TYPE => 16,
            Constants::ZMQ_LINGER => 17,
            Constants::ZMQ_RECONNECT_IVL => 18,
            Constants::ZMQ_BACKLOG => 19,
            Constants::ZMQ_RECOVERY_IVL_MSEC => 20,
            Constants::ZMQ_RECONNECT_IVL_MAX => 21,
            Constants::ZMQ_MAXMSGSIZE => 22,
            Constants::ZMQ_SNDHWM => 23,
            Constants::ZMQ_RCVHWM => 24,
            Constants::ZMQ_MAX_VSM_SIZE => 30,
            Constants::ZMQ_DELIMITER => 31,
            Constants::ZMQ_VSM => 32,
            Constants::ZMQ_MSG_MORE => 1,
            Constants::ZMQ_MSG_SHARED => 128,
            Constants::ZMQ_MSG_MASK => 129,
            Constants::ZMQ_HAUSNUMERO => 156384712,
        }
    }

    /// The constant that a number stands for, if any.
    pub open spec fn lookup(raw: int) -> Option<Constants> {
        if raw == 4 {
            Some(Constants::ZMQ_AFFINITY)
        } else if raw == 5 {
            Some(Constants::ZMQ_IDENTITY)
        } else if raw == 6 {
            Some(Constants::ZMQ_SUBSCRIBE)
        } else if raw == 7 {
            Some(Constants::ZMQ_UNSUBSCRIBE)
        } else if raw == 8 {
            Some(Constants::ZMQ_RATE)
        } else if raw == 9 {
            Some(Constants::ZMQ_RECOVERY_IVL)
        } else if raw == 10 {
            Some(Constants::ZMQ_MCAST_LOOP)
        } else if raw == 11 {
            Some(Constants::ZMQ_SNDBUF)
        } else if raw == 12 {
            Some(Constants::ZMQ_RCVBUF)
        } else if raw == 13 {
            Some(Constants::ZMQ_RCVMORE)
        } else if raw == 14 {
            Some(Constants::ZMQ_FD)
        } else if raw == 15 {
            Some(Constants::ZMQ_EVENTS)
        } else if raw == 16 {
            Some(Constants::ZMQ_TYPE)
        } else if raw == 17 {
            Some(Constants::ZMQ_LINGER)
        } else if raw == 18 {
            Some(Constants::ZMQ_RECONNECT_IVL)
        } else if raw == 19 {
            Some(Constants::ZMQ_BACKLOG)
        } else if raw == 20 {
            Some(Constants::ZMQ_RECOVERY_IVL_MSEC)
        } else if raw == 21 {
            Some(Constants::ZMQ_RECONNECT_IVL_MAX)
        } else if raw == 22 {
            Some(Constants::ZMQ_MAXMSGSIZE)
        } else if raw == 23 {
            Some(Constants::ZMQ_SNDHWM)
        } else if raw == 24 {
            Some(Constants::ZMQ_RCVHWM)
        } else if raw == 30 {
            Some(Constants::ZMQ_MAX_VSM_SIZE)
        } else if raw == 31 {
            Some(Constants::ZMQ_DELIMITER)
        } else if raw == 32 {
            Some(Constants::ZMQ_VSM)
        } else if raw == 1 {
            Some(Constants::ZMQ_MSG_MORE)
        } else if raw == 128 {
            Some(Constants::ZMQ_MSG_SHARED)
        } else if raw == 129 {
            Some(Constants::ZMQ_MSG_MASK)
        } else if raw == 156384712 {
            Some(Constants::ZMQ_HAUSNUMERO)
        } else {
            None
        }
    }

    pub fn to_raw(&self) -> (raw: i32)
        ensures
            raw == self.code(),
    {
        match self {
            Constants::ZMQ_AFFINITY => 4,
            Constants::ZMQ_IDENTITY => 5,
            Constants::ZMQ_SUBSCRIBE => 6,
            Constants::ZMQ_UNSUBSCRIBE => 7,
            Constants::ZMQ_RATE => 8,
            Constants::ZMQ_RECOVERY_IVL => 9,
            Constants::ZMQ_MCAST_LOOP => 10,
            Constants::ZMQ_SNDBUF => 11,
            Constants::ZMQ_RCVBUF => 12,
            Constants::ZMQ_RCVMORE => 13,
            Constants::ZMQ_FD => 14,
            Constants::ZMQ_EVENTS => 15,
            Constants::ZMQ_TYPE => 16,
            Constants::ZMQ_LINGER => 17,
            Constants::ZMQ_RECONNECT_IVL => 18,
            Constants::ZMQ_BACKLOG => 19,
            Constants::ZMQ_RECOVERY_IVL_MSEC => 20,
            Constants::ZMQ_RECONNECT_IVL_MAX => 21,
            Constants::ZMQ_MAXMSGSIZE => 22,
            Constants::ZMQ_SNDHWM => 23,
            Constants::ZMQ_RCVHWM => 24,
            Constants::ZMQ_MAX_VSM_SIZE => 30,
            Constants::ZMQ_DELIMITER => 31,
            Constants::ZMQ_VSM => 32,
            Constants::ZMQ_MSG_MORE => 1,
            Constants::ZMQ_MSG_SHARED => 128,
            Constants::ZMQ_MSG_MASK => 129,
            Constants::ZMQ_HAUSNUMERO => 156384712,
        }
    }

    /// The constant with the given number; `None` where no constant has it.
    pub fn try_from_raw(raw: i32) -> (found: Option<Constants>)
        ensures
            found == Constants::lookup(raw as int),
    {
        match raw {
            4 => Some(Constants::ZMQ_AFFINITY),
            5 => Some(Constants::ZMQ_IDENTITY),
            6 => Some(Constants::ZMQ_SUBSCRIBE),
            7 => Some(Constants::ZMQ_UNSUBSCRIBE),
            8 => Some(Constants::ZMQ_RATE),
            9 => Some(Constants::ZMQ_RECOVERY_IVL),
            10 => Some(Constants::ZMQ_MCAST_LOOP),
            11 => Some(Constants::ZMQ_SNDBUF),
            12 => Some(Constants::ZMQ_RCVBUF),
            13 => Some(Constants::ZMQ_RCVMORE),
            14 => Some(Constants::ZMQ_FD),
            15 => Some(Constants::ZMQ_EVENTS),
            16 => Some(Constants::ZMQ_TYPE),
            17 => Some(Constants::ZMQ_LINGER),
            18 => Some(Constants::ZMQ_RECONNECT_IVL),
            19 => Some(Constants::ZMQ_BACKLOG),
            20 => Some(Constants::ZMQ_RECOVERY_IVL_MSEC),
            21 => Some(Constants::ZMQ_RECONNECT_IVL_MAX),
            22 => Some(Constants::ZMQ_MAXMSGSIZE),
            23 => Some(Constants::ZMQ_SNDHWM),
            24 => Some(Constants::ZMQ_RCVHWM),
            30 => Some(Constants::ZMQ_MAX_VSM_SIZE),
            31 => Some(Constants::ZMQ_DELIMITER),
            32 => Some(Constants::ZMQ_VSM),
            1 => Some(Constants::ZMQ_MSG_MORE),
            128 => Some(Constants::ZMQ_MSG_SHARED),
            129 => Some(Constants::ZMQ_MSG_MASK),
            156384712 => Some(Constants::ZMQ_HAUSNUMERO),
            _ => None,
        }
    }

    /// The constant with the given number, which must be the number of one.
    pub fn from_raw(raw: i32) -> (constant: Constants)
        requires
            Constants::lookup(raw as int) is Some,
        ensures
            Some(constant) == Constants::lookup(raw as int),
            constant.code() == raw,
    {
        match Constants::try_from_raw(raw) {
            Some(constant) => constant,
            None => vstd::pervasive::unreached(),
        }
    }

    /// Every constant is found again under its own number, and under no other.
    pub proof fn lemma_code_round_trip(constant: Constants, raw: int)
        ensures
            Constants::lookup(constant.code()) == Some(constant),
            Constants::lookup(raw) == Some(constant) <==> raw == constant.code(),
    {
    }
}

} // verus!
