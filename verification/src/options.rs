//! Reading and storing socket options, at the width that each option has.

use crate::exchange::{
    command, errno_to_error, failure, run_command, Call, CallView, Fault, OptionKind, OptionValue,
    OptionValueView, Output, Reply, Step, StepView,
};
use vstd::prelude::*;
use vstd::slice::slice_to_vec;

verus! {

/// The first call of every read of an option.
pub open spec fn get_option(socket: usize, option: i32, kind: OptionKind) -> CallView {
    CallView::GetOption { socket, option, kind }
}

/// Reading an option as a 32-bit signed integer.
pub open spec fn read_int(socket: usize, option: i32, replies: Seq<Reply>) -> StepView<i32> {
    if replies.len() == 0 {
        StepView::Call(get_option(socket, option, OptionKind::Int))
    } else if replies[0].failed() {
        failure(replies[0].errno)
    } else {
        match replies[0].output {
            Output::Int(value) => StepView::Done(value),
            _ => StepView::Fatal(Fault::UnexpectedReply),
        }
    }
}

/// Reading an option as a 64-bit signed integer.
pub open spec fn read_long(socket: usize, option: i32, replies: Seq<Reply>) -> StepView<i64> {
    if replies.len() == 0 {
        StepView::Call(get_option(socket, option, OptionKind::Long))
    } else if replies[0].failed() {
        failure(replies[0].errno)
    } else {
        match replies[0].output {
            Output::Long(value) => StepView::Done(value),
            _ => StepView::Fatal(Fault::UnexpectedReply),
        }
    }
}

/// Reading an option as a 64-bit unsigned integer.
pub open spec fn read_unsigned(socket: usize, option: i32, replies: Seq<Reply>) -> StepView<u64> {
    if replies.len() == 0 {
        StepView::Call(get_option(socket, option, OptionKind::Unsigned))
    } else if replies[0].failed() {
        failure(replies[0].errno)
    } else {
        match replies[0].output {
            Output::Unsigned(value) => StepView::Done(value),
            _ => StepView::Fatal(Fault::UnexpectedReply),
        }
    }
}

/// What is kept of a buffer after `size` bytes were written to it: its first
/// `size` bytes, or all of it where it holds no more.
pub open spec fn truncated(buffer: Seq<u8>, size: usize) -> Seq<u8> {
    if size <= buffer.len() {
        buffer.subrange(0, size as int)
    } else {
        buffer
    }
}

/// Reading a binary option: the buffer that the library wrote to, cut down
/// to the size that it wrote back.
pub open spec fn read_bytes(socket: usize, option: i32, replies: Seq<Reply>) -> StepView<Seq<u8>> {
    if replies.len() == 0 {
        StepView::Call(get_option(socket, option, OptionKind::Bytes))
    } else if replies[0].failed() {
        failure(replies[0].errno)
    } else {
        match replies[0].output {
            Output::Bytes { buffer, size } => StepView::Done(truncated(buffer@, size)),
            _ => StepView::Fatal(Fault::UnexpectedReply),
        }
    }
}

/// Storing a value in an option.
pub open spec fn store(
    socket: usize,
    option: i32,
    value: OptionValueView,
    replies: Seq<Reply>,
) -> StepView<()> {
    command(CallView::SetOption { socket, option, value }, replies)
}

/// Whether a reply reports success and hands back the given value, at the
/// width of the value.
pub open spec fn hands_back(reply: Reply, value: OptionValueView) -> bool {
    !reply.failed() && match value {
        OptionValueView::Int(number) => reply.output == Output::Int(number),
        OptionValueView::Long(number) => reply.output == Output::Long(number),
        OptionValueView::Unsigned(number) => reply.output == Output::Unsigned(number),
        OptionValueView::Bytes(bytes) => match reply.output {
            Output::Bytes { buffer, size } => truncated(buffer@, size) == bytes,
            _ => false,
        },
    }
}

/// Storing a value in an option sends that value, and where the messaging
/// library hands the same value back when the same option is read at the
/// same width, the read ends with that value.
pub proof fn lemma_option_is_read_back(
    socket: usize,
    option: i32,
    value: OptionValueView,
    reply: Reply,
)
    requires
        hands_back(reply, value),
    ensures
        store(socket, option, value, Seq::empty()) == StepView::<()>::Call(
            CallView::SetOption { socket, option, value },
        ),
        match value {
            OptionValueView::Int(number) => read_int(socket, option, seq![reply])
                == StepView::Done(number),
            OptionValueView::Long(number) => read_long(socket, option, seq![reply])
                == StepView::Done(number),
            OptionValueView::Unsigned(number) => read_unsigned(socket, option, seq![reply])
                == StepView::Done(number),
            OptionValueView::Bytes(bytes) => read_bytes(socket, option, seq![reply])
                == StepView::Done(bytes),
        },
{
}

pub fn getsockopt_int(sock: usize, opt: i32, replies: &[Reply]) -> (step: Step<i32>)
    ensures
        step@ == read_int(sock, opt, replies@),
{
    if replies.len() == 0 {
        Step::Call(Call::GetOption { socket: sock, option: opt, kind: OptionKind::Int })
    } else if replies[0].rc == -1 {
        errno_to_error(&replies[0])
    } else {
        match &replies[0].output {
            Output::Int(value) => Step::Done(*value),
            _ => Step::Fatal(Fault::UnexpectedReply),
        }
    }
}

pub fn getsockopt_i64(sock: usize, opt: i32, replies: &[Reply]) -> (step: Step<i64>)
    ensures
        step@ == read_long(sock, opt, replies@),
{
    if replies.len() == 0 {
        Step::Call(Call::GetOption { socket: sock, option: opt, kind: OptionKind::Long })
    } else if replies[0].rc == -1 {
        errno_to_error(&replies[0])
    } else {
        match &replies[0].output {
            Output::Long(value) => Step::Done(*value),
            _ => Step::Fatal(Fault::UnexpectedReply),
        }
    }
}

pub fn getsockopt_u64(sock: usize, opt: i32, replies: &[Reply]) -> (step: Step<u64>)
    ensures
        step@ == read_unsigned(sock, opt, replies@),
{
    if replies.len() == 0 {
        Step::Call(Call::GetOption { socket: sock, option: opt, kind: OptionKind::Unsigned })
    } else if replies[0].rc == -1 {
        errno_to_error(&replies[0])
    } else {
        match &replies[0].output {
            Output::Unsigned(value) => Step::Done(*value),
            _ => Step::Fatal(Fault::UnexpectedReply),
        }
    }
}

pub fn getsockopt_bytes(sock: usize, opt: i32, replies: &[Reply]) -> (step: Step<Vec<u8>>)
    ensures
        step@ == read_bytes(sock, opt, replies@),
{
    if replies.len() == 0 {
        Step::Call(Call::GetOption { socket: sock, option: opt, kind: OptionKind::Bytes })
    } else if replies[0].rc == -1 {
        errno_to_error(&replies[0])
    } else {
        match &replies[0].output {
            Output::Bytes { buffer, size } => {
                let mut value = slice_to_vec(buffer.as_slice());
                value.truncate(*size);
                Step::Done(value)
            },
            _ => Step::Fatal(Fault::UnexpectedReply),
        }
    }
}

pub fn setsockopt_int(sock: usize, opt: i32, value: i32, replies: &[Reply]) -> (step: Step<()>)
    ensures
        step@ == store(sock, opt, OptionValueView::Int(value), replies@),
{
    run_command(
        Call::SetOption { socket: sock, option: opt, value: OptionValue::Int(value) },
        replies,
    )
}

pub fn setsockopt_i64(sock: usize, opt: i32, value: i64, replies: &[Reply]) -> (step: Step<()>)
    ensures
        step@ == store(sock, opt, OptionValueView::Long(value), replies@),
{
    run_command(
        Call::SetOption { socket: sock, option: opt, value: OptionValue::Long(value) },
        replies,
    )
}

pub fn setsockopt_u64(sock: usize, opt: i32, value: u64, replies: &[Reply]) -> (step: Step<()>)
    ensures
        step@ == store(sock, opt, OptionValueView::Unsigned(value), replies@),
{
    run_command(
        Call::SetOption { socket: sock, option: opt, value: OptionValue::Unsigned(value) },
        replies,
    )
}

pub fn setsockopt_bytes(sock: usize, opt: i32, value: &[u8], replies: &[Reply]) -> (step: Step<()>)
    ensures
        step@ == store(sock, opt, OptionValueView::Bytes(value@), replies@),
{
    run_command(
        Call::SetOption {
            socket: sock,
            option: opt,
            value: OptionValue::Bytes(slice_to_vec(value)),
        },
        replies,
    )
}

} // verus!
