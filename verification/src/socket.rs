//! The socket: one endpoint of the messaging library, open until it is
//! closed.

use crate::constants::{Constants, SocketType};
use crate::exchange::{
    c_string, command, errno_to_error, failure, run_command, to_c_string, Call, CallView, Fault,
    OptionValueView, Output, Reply, Step, StepView,
};
use crate::message::{create, Message};
use crate::options::{
    getsockopt_bytes, getsockopt_i64, getsockopt_int, getsockopt_u64, hands_back, read_bytes,
    read_int, read_long, read_unsigned, setsockopt_bytes, setsockopt_i64, setsockopt_int,
    setsockopt_u64, store,
};
use crate::poll::PollItem;
use vstd::prelude::*;
use vstd::slice::{slice_subrange, slice_to_vec};
use vstd::string::StringSliceAdditionalSpecFns;
use vstd::utf8::{decode_utf8, valid_utf8};

verus! {

/// A socket of the messaging library. Only an open socket takes part in an
/// operation; a closed one can only be closed again, which does nothing.
#[derive(Debug, PartialEq, Eq)]
pub struct Socket {
    sock: usize,
    closed: bool,
}

/// The mathematical value of a `Socket`: its handle, and whether it has
/// been closed.
pub struct SocketView {
    pub handle: usize,
    pub closed: bool,
}

impl View for Socket {
    type V = SocketView;

    closed spec fn view(&self) -> SocketView {
        SocketView { handle: self.sock, closed: self.closed }
    }
}

/// Binding to an endpoint, given by the bytes of its text: one call, which
/// takes the endpoint as a C string. An endpoint that holds a NUL is a fault.
pub open spec fn bind(socket: usize, endpoint: Seq<u8>, replies: Seq<Reply>) -> StepView<()> {
    if endpoint.contains(0u8) {
        StepView::Fatal(Fault::EndpointNul)
    } else {
        command(CallView::Bind { socket, endpoint: c_string(endpoint) }, replies)
    }
}

/// Connecting to an endpoint, given by the bytes of its text: one call,
/// which takes the endpoint as a C string. An endpoint that holds a NUL is a
/// fault.
pub open spec fn connect(socket: usize, endpoint: Seq<u8>, replies: Seq<Reply>) -> StepView<()> {
    if endpoint.contains(0u8) {
        StepView::Fatal(Fault::EndpointNul)
    } else {
        command(CallView::Connect { socket, endpoint: c_string(endpoint) }, replies)
    }
}

/// Sending a payload: a native message of the payload's size is
/// initialised, filled, sent and closed. The close comes whether or not the
/// send succeeded, and the send decides how the operation ends.
pub open spec fn send(socket: usize, data: Seq<u8>, flags: i32, replies: Seq<Reply>) -> StepView<
    (),
> {
    if replies.len() == 0 {
        StepView::Call(CallView::MessageInitSize { size: data.len() as usize })
    } else if replies[0].failed() {
        failure(replies[0].errno)
    } else if replies.len() == 1 {
        StepView::Call(CallView::MessageFill { data })
    } else if replies.len() == 2 {
        StepView::Call(CallView::MessageSend { socket, flags })
    } else if replies.len() == 3 {
        StepView::Call(CallView::MessageClose)
    } else if replies[2].failed() {
        failure(replies[2].errno)
    } else {
        StepView::Done(())
    }
}

/// Receiving into the native message: one call, which hands back the
/// payload received.
pub open spec fn receive(socket: usize, flags: i32, replies: Seq<Reply>) -> StepView<Seq<u8>> {
    if replies.len() == 0 {
        StepView::Call(CallView::MessageReceive { socket, flags })
    } else if replies[0].failed() {
        failure(replies[0].errno)
    } else {
        match replies[0].output {
            Output::Payload(payload) => StepView::Done(payload@),
            _ => StepView::Fatal(Fault::UnexpectedReply),
        }
    }
}

/// Receiving a fresh message: a native message is initialised and received
/// into. Where the receive fails the native message is closed before the
/// operation ends; where it succeeds the message is handed on open.
pub open spec fn receive_message(socket: usize, flags: i32, replies: Seq<Reply>) -> StepView<
    Seq<u8>,
> {
    match create(replies) {
        StepView::Done(_) => match receive(socket, flags, replies.skip(1)) {
            StepView::Failed(error) => match crate::message::release(replies.skip(2)) {
                StepView::Call(call) => StepView::Call(call),
                _ => StepView::Failed(error),
            },
            step => step,
        },
        step => step,
    }
}

/// Receiving a payload: a fresh message is received and closed, and its
/// payload is the result.
pub open spec fn receive_bytes(socket: usize, flags: i32, replies: Seq<Reply>) -> StepView<
    Seq<u8>,
> {
    match receive_message(socket, flags, replies) {
        StepView::Done(payload) => crate::message::release(replies.skip(2)).map(|done: ()| payload),
        step => step,
    }
}

/// Receiving a text: a fresh message is received and closed, and the text
/// that its payload encodes is the result. A payload that is not UTF-8 is a
/// fault.
pub open spec fn receive_text(socket: usize, flags: i32, replies: Seq<Reply>) -> StepView<
    Seq<char>,
> {
    match receive_message(socket, flags, replies) {
        StepView::Call(call) => StepView::Call(call),
        StepView::Done(payload) => if valid_utf8(payload) {
            crate::message::release(replies.skip(2)).map(|done: ()| decode_utf8(payload))
        } else {
            StepView::Fatal(Fault::InvalidUtf8)
        },
        StepView::Failed(error) => StepView::Failed(error),
        StepView::Fatal(fault) => StepView::Fatal(fault),
    }
}

/// Closing a socket: nothing at all for a socket that is closed, and one
/// call for a socket that is open.
pub open spec fn close(socket: SocketView, replies: Seq<Reply>) -> StepView<()> {
    if replies.len() == 0 && socket.closed {
        StepView::Done(())
    } else {
        command(CallView::SocketClose { socket: socket.handle }, replies)
    }
}

/// Letting go of a socket: it is closed unless it is closed already, and a
/// close that fails is a fault.
pub open spec fn release(socket: SocketView, replies: Seq<Reply>) -> StepView<()> {
    match close(socket, replies) {
        StepView::Failed(error) => StepView::Fatal(Fault::SocketClose { error }),
        step => step,
    }
}

/// Reading the role of a socket: its code is read as a 32-bit integer, and
/// a code that stands for no role is a fault.
pub open spec fn read_socket_type(socket: usize, replies: Seq<Reply>) -> StepView<SocketType> {
    match read_int(socket, Constants::ZMQ_TYPE.code() as i32, replies) {
        StepView::Call(call) => StepView::Call(call),
        StepView::Done(code) => match SocketType::lookup(code as int) {
            Some(socket_type) => StepView::Done(socket_type),
            None => StepView::Fatal(Fault::SocketTypeOutOfRange { code }),
        },
        StepView::Failed(error) => StepView::Failed(error),
        StepView::Fatal(fault) => StepView::Fatal(fault),
    }
}

/// Reading an option that is on or off: it is read as a 64-bit integer, and
/// is on where that is 1.
pub open spec fn read_flag(socket: usize, option: i32, replies: Seq<Reply>) -> StepView<bool> {
    read_long(socket, option, replies).map(|value: i64| value == 1)
}

/// The number stored for an option that is on or off.
pub open spec fn flag_value(on: bool) -> i64 {
    if on {
        1
    } else {
        0
    }
}

/// A socket that has gone through a step of `Socket::close` is closed, and
/// closing it again ends at once, with success and without a call to the
/// messaging library, and leaves it closed.
pub proof fn lemma_close_is_idempotent(socket: SocketView)
    ensures
        close(SocketView { handle: socket.handle, closed: true }, Seq::empty()) == StepView::Done(
            (),
        ),
{
}

/// Where the messaging library reports, for a socket, the role code that
/// `Context::socket` asks a socket to be created with, `get_socket_type` ends
/// with the role that was asked for.
pub proof fn lemma_socket_type_is_read_back(
    context: usize,
    socket: usize,
    socket_type: SocketType,
    reply: Reply,
)
    requires
        !reply.failed(),
        reply.output == Output::Int(socket_type.code() as i32),
    ensures
        crate::context::create_socket(context, socket_type, Seq::empty()) == StepView::<
            SocketView,
        >::Call(CallView::SocketNew { context, socket_type: socket_type.code() as i32 }),
        read_socket_type(socket, seq![reply]) == StepView::Done(socket_type),
{
}

/// Where the messaging library hands back the number that `set_mcast_loop`
/// stores for a flag, `get_mcast_loop` ends with that flag.
pub proof fn lemma_flag_is_read_back(socket: usize, option: i32, on: bool, reply: Reply)
    requires
        hands_back(reply, OptionValueView::Long(flag_value(on))),
    ensures
        read_flag(socket, option, seq![reply]) == StepView::Done(on),
{
}

impl Socket {
    #[verifier::type_invariant]
    spec fn non_null(self) -> bool {
        self.sock != 0
    }

    /// An open socket with the given handle.
    pub(crate) fn open(handle: usize) -> (socket: Socket)
        requires
            handle != 0,
        ensures
            socket@ == (SocketView { handle, closed: false }),
    {
        Socket { sock: handle, closed: false }
    }

    /// The handle of the socket.
    pub fn handle(&self) -> (handle: usize)
        ensures
            handle == self@.handle,
            handle != 0,
    {
        proof {
            use_type_invariant(self);
        }
        self.sock
    }

    /// Whether the socket has been closed.
    pub fn is_closed(&self) -> (closed: bool)
        ensures
            closed == self@.closed,
    {
        self.closed
    }

    /// Accept connections on a socket.
    pub fn bind(&mut self, endpoint: &str, replies: &[Reply]) -> (step: Step<()>)
        requires
            !old(self)@.closed,
        ensures
            step@ == bind(old(self)@.handle, endpoint.spec_bytes(), replies@),
            final(self)@ == old(self)@,
    {
        match to_c_string(endpoint) {
            Some(terminated) => run_command(
                Call::Bind { socket: self.sock, endpoint: terminated },
                replies,
            ),
            None => Step::Fatal(Fault::EndpointNul),
        }
    }

    /// Connect a socket.
    pub fn connect(&mut self, endpoint: &str, replies: &[Reply]) -> (step: Step<()>)
        requires
            !old(self)@.closed,
        ensures
            step@ == connect(old(self)@.handle, endpoint.spec_bytes(), replies@),
            final(self)@ == old(self)@,
    {
        match to_c_string(endpoint) {
            Some(terminated) => run_command(
                Call::Connect { socket: self.sock, endpoint: terminated },
                replies,
            ),
            None => Step::Fatal(Fault::EndpointNul),
        }
    }

    /// Send a message.
    pub fn send(&mut self, data: &[u8], flags: i32, replies: &[Reply]) -> (step: Step<()>)
        requires
            !old(self)@.closed,
        ensures
            step@ == send(old(self)@.handle, data@, flags, replies@),
            final(self)@ == old(self)@,
    {
        let count: usize = replies.len();
        if count == 0 {
            Step::Call(Call::MessageInitSize { size: data.len() })
        } else if replies[0].rc == -1 {
            errno_to_error(&replies[0])
        } else if count == 1 {
            Step::Call(Call::MessageFill { data: slice_to_vec(data) })
        } else if count == 2 {
            Step::Call(Call::MessageSend { socket: self.sock, flags })
        } else if count == 3 {
            Step::Call(Call::MessageClose)
        } else if replies[2].rc == -1 {
            errno_to_error(&replies[2])
        } else {
            Step::Done(())
        }
    }

    /// Send a text as its UTF-8 bytes.
    pub fn send_str(&mut self, data: &str, flags: i32, replies: &[Reply]) -> (step: Step<()>)
        requires
            !old(self)@.closed,
        ensures
            step@ == send(old(self)@.handle, data.spec_bytes(), flags, replies@),
            final(self)@ == old(self)@,
    {
        self.send(data.as_bytes(), flags, replies)
    }

    /// Receive a message into a `Message`. The message keeps what it holds
    /// unless the receive succeeds.
    pub fn recv(&mut self, msg: &mut Message, flags: i32, replies: &[Reply]) -> (step: Step<()>)
        requires
            !old(self)@.closed,
        ensures
            step@ == receive(old(self)@.handle, flags, replies@).map(|payload: Seq<u8>| ()),
            final(msg)@ == match receive(old(self)@.handle, flags, replies@) {
                StepView::Done(payload) => payload,
                _ => old(msg)@,
            },
            final(self)@ == old(self)@,
    {
        if replies.len() == 0 {
            Step::Call(Call::MessageReceive { socket: self.sock, flags })
        } else if replies[0].rc == -1 {
            errno_to_error(&replies[0])
        } else {
            match &replies[0].output {
                Output::Payload(payload) => {
                    msg.fill(slice_to_vec(payload.as_slice()));
                    Step::Done(())
                },
                _ => Step::Fatal(Fault::UnexpectedReply),
            }
        }
    }

    /// Receive a fresh message.
    pub fn recv_msg(&mut self, flags: i32, replies: &[Reply]) -> (step: Step<Message>)
        requires
            !old(self)@.closed,
        ensures
            step@ == receive_message(old(self)@.handle, flags, replies@),
            final(self)@ == old(self)@,
    {
        match Message::new(replies) {
            Step::Call(call) => Step::Call(call),
            Step::Done(message) => {
                let mut msg = message;
                let count: usize = replies.len();
                match self.recv(&mut msg, flags, slice_subrange(replies, 1, count)) {
                    Step::Call(call) => Step::Call(call),
                    Step::Done(_) => Step::Done(msg),
                    Step::Failed(error) => match msg.release(slice_subrange(replies, 2, count)) {
                        Step::Call(call) => Step::Call(call),
                        _ => Step::Failed(error),
                    },
                    Step::Fatal(fault) => Step::Fatal(fault),
                }
            },
            Step::Failed(error) => Step::Failed(error),
            Step::Fatal(fault) => Step::Fatal(fault),
        }
    }

    /// Receive a message and hand back a copy of its payload.
    pub fn recv_bytes(&mut self, flags: i32, replies: &[Reply]) -> (step: Step<Vec<u8>>)
        requires
            !old(self)@.closed,
        ensures
            step@ == receive_bytes(old(self)@.handle, flags, replies@),
            final(self)@ == old(self)@,
    {
        match self.recv_msg(flags, replies) {
            Step::Call(call) => Step::Call(call),
            Step::Done(msg) => {
                let bytes = msg.to_bytes();
                match msg.release(slice_subrange(replies, 2, replies.len())) {
                    Step::Call(call) => Step::Call(call),
                    Step::Done(_) => Step::Done(bytes),
                    Step::Failed(error) => Step::Failed(error),
                    Step::Fatal(fault) => Step::Fatal(fault),
                }
            },
            Step::Failed(error) => Step::Failed(error),
            Step::Fatal(fault) => Step::Fatal(fault),
        }
    }

    /// Receive a message and hand back its payload as text.
    pub fn recv_str(&mut self, flags: i32, replies: &[Reply]) -> (step: Step<String>)
        requires
            !old(self)@.closed,
        ensures
            step@ == receive_text(old(self)@.handle, flags, replies@),
            final(self)@ == old(self)@,
    {
        match self.recv_msg(flags, replies) {
            Step::Call(call) => Step::Call(call),
            Step::Done(msg) => {
                if !msg.is_text() {
                    Step::Fatal(Fault::InvalidUtf8)
                } else {
                    let text = msg.to_str();
                    match msg.release(slice_subrange(replies, 2, replies.len())) {
                        Step::Call(call) => Step::Call(call),
                        Step::Done(_) => Step::Done(text),
                        Step::Failed(error) => Step::Failed(error),
                        Step::Fatal(fault) => Step::Fatal(fault),
                    }
                }
            },
            Step::Failed(error) => Step::Failed(error),
            Step::Fatal(fault) => Step::Fatal(fault),
        }
    }

    /// Closes the socket, unless it is closed already. It is closed from
    /// the first step on, whatever the library replies.
    pub fn close(&mut self, replies: &[Reply]) -> (step: Step<()>)
        ensures
            step@ == close(old(self)@, replies@),
            final(self)@ == (SocketView { handle: old(self)@.handle, closed: true }),
    {
        if replies.len() == 0 && self.closed {
            Step::Done(())
        } else {
            proof {
                use_type_invariant(&*self);
            }
            self.closed = true;
            run_command(Call::SocketClose { socket: self.sock }, replies)
        }
    }

    /// Closes the socket, unless it is closed already, and leaves it marked
    /// as it was.
    pub fn close_final(&mut self, replies: &[Reply]) -> (step: Step<()>)
        ensures
            step@ == close(old(self)@, replies@),
            final(self)@ == old(self)@,
    {
        if replies.len() == 0 && self.closed {
            Step::Done(())
        } else {
            run_command(Call::SocketClose { socket: self.sock }, replies)
        }
    }

    /// Closes the socket for good, unless it is closed already. This is
    /// what dropping a socket comes to: nothing can be done there about a
    /// close that fails.
    pub fn release(&mut self, replies: &[Reply]) -> (step: Step<()>)
        ensures
            step@ == release(old(self)@, replies@),
            final(self)@ == old(self)@,
    {
        match self.close_final(replies) {
            Step::Failed(error) => Step::Fatal(Fault::SocketClose { error }),
            step => step,
        }
    }

    /// The role of the socket.
    pub fn get_socket_type(&mut self, replies: &[Reply]) -> (step: Step<SocketType>)
        requires
            !old(self)@.closed,
        ensures
            step@ == read_socket_type(old(self)@.handle, replies@),
            final(self)@ == old(self)@,
    {
        match getsockopt_int(self.sock, Constants::ZMQ_TYPE.to_raw(), replies) {
            Step::Call(call) => Step::Call(call),
            Step::Done(code) => match SocketType::try_from_raw(code) {
                Some(socket_type) => Step::Done(socket_type),
                None => Step::Fatal(Fault::SocketTypeOutOfRange { code }),
            },
            Step::Failed(error) => Step::Failed(error),
            Step::Fatal(fault) => Step::Fatal(fault),
        }
    }


    /// Whether more frames of the message last received are to come.
    pub fn get_rcvmore(&mut self, replies: &[Reply]) -> (step: Step<bool>)
        requires
            !old(self)@.closed,
        ensures
            step@ == read_flag(old(self)@.handle, Constants::ZMQ_RCVMORE.code() as i32, replies@),
            final(self)@ == old(self)@,
    {
        match getsockopt_i64(self.sock, Constants::ZMQ_RCVMORE.to_raw(), replies) {
            Step::Call(call) => Step::Call(call),
            Step::Done(value) => Step::Done(value == 1),
            Step::Failed(error) => Step::Failed(error),
            Step::Fatal(fault) => Step::Fatal(fault),
        }
    }

    /// The largest message that the socket takes in, in bytes; -1 for no limit.
    pub fn get_maxmsgsize(&mut self, replies: &[Reply]) -> (step: Step<i64>)
        requires
            !old(self)@.closed,
        ensures
            step@ == read_long(
                old(self)@.handle,
                Constants::ZMQ_MAXMSGSIZE.code() as i32,
                replies@,
            ),
            final(self)@ == old(self)@,
    {
        getsockopt_i64(self.sock, Constants::ZMQ_MAXMSGSIZE.to_raw(), replies)
    }

    /// The high-water mark for outgoing messages.
    pub fn get_sndhwm(&mut self, replies: &[Reply]) -> (step: Step<i32>)
        requires
            !old(self)@.closed,
        ensures
            step@ == read_int(old(self)@.handle, Constants::ZMQ_SNDHWM.code() as i32, replies@),
            final(self)@ == old(self)@,
    {
        getsockopt_int(self.sock, Constants::ZMQ_SNDHWM.to_raw(), replies)
    }

    /// The high-water mark for incoming messages.
    pub fn get_rcvhwm(&mut self, replies: &[Reply]) -> (step: Step<i32>)
        requires
            !old(self)@.closed,
        ensures
            step@ == read_int(old(self)@.handle, Constants::ZMQ_RCVHWM.code() as i32, replies@),
            final(self)@ == old(self)@,
    {
        getsockopt_int(self.sock, Constants::ZMQ_RCVHWM.to_raw(), replies)
    }

    /// The I/O threads that serve the socket, as a bit mask.
    pub fn get_affinity(&mut self, replies: &[Reply]) -> (step: Step<u64>)
        requires
            !old(self)@.closed,
        ensures
            step@ == read_unsigned(
                old(self)@.handle,
                Constants::ZMQ_AFFINITY.code() as i32,
                replies@,
            ),
            final(self)@ == old(self)@,
    {
        getsockopt_u64(self.sock, Constants::ZMQ_AFFINITY.to_raw(), replies)
    }

    /// The identity of the socket.
    pub fn get_identity(&mut self, replies: &[Reply]) -> (step: Step<Vec<u8>>)
        requires
            !old(self)@.closed,
        ensures
            step@ == read_bytes(old(self)@.handle, Constants::ZMQ_IDENTITY.code() as i32, replies@),
            final(self)@ == old(self)@,
    {
        getsockopt_bytes(self.sock, Constants::ZMQ_IDENTITY.to_raw(), replies)
    }

    /// The multicast data rate.
    pub fn get_rate(&mut self, replies: &[Reply]) -> (step: Step<i64>)
        requires
            !old(self)@.closed,
        ensures
            step@ == read_long(old(self)@.handle, Constants::ZMQ_RATE.code() as i32, replies@),
            final(self)@ == old(self)@,
    {
        getsockopt_i64(self.sock, Constants::ZMQ_RATE.to_raw(), replies)
    }

    /// The multicast recovery interval.
    pub fn get_recovery_ivl(&mut self, replies: &[Reply]) -> (step: Step<i64>)
        requires
            !old(self)@.closed,
        ensures
            step@ == read_long(
                old(self)@.handle,
                Constants::ZMQ_RECOVERY_IVL.code() as i32,
                replies@,
            ),
            final(self)@ == old(self)@,
    {
        getsockopt_i64(self.sock, Constants::ZMQ_RECOVERY_IVL.to_raw(), replies)
    }

    /// The multicast recovery interval in milliseconds.
    pub fn get_recovery_ivl_msec(&mut self, replies: &[Reply]) -> (step: Step<i64>)
        requires
            !old(self)@.closed,
        ensures
            step@ == read_long(
                old(self)@.handle,
                Constants::ZMQ_RECOVERY_IVL_MSEC.code() as i32,
                replies@,
            ),
            final(self)@ == old(self)@,
    {
        getsockopt_i64(self.sock, Constants::ZMQ_RECOVERY_IVL_MSEC.to_raw(), replies)
    }

    /// Whether multicast packets are looped back.
    pub fn get_mcast_loop(&mut self, replies: &[Reply]) -> (step: Step<bool>)
        requires
            !old(self)@.closed,
        ensures
            step@ == read_flag(
                old(self)@.handle,
                Constants::ZMQ_MCAST_LOOP.code() as i32,
                replies@,
            ),
            final(self)@ == old(self)@,
    {
        match getsockopt_i64(self.sock, Constants::ZMQ_MCAST_LOOP.to_raw(), replies) {
            Step::Call(call) => Step::Call(call),
            Step::Done(value) => Step::Done(value == 1),
            Step::Failed(error) => Step::Failed(error),
            Step::Fatal(fault) => Step::Fatal(fault),
        }
    }

    /// The size of the kernel's transmit buffer.
    pub fn get_sndbuf(&mut self, replies: &[Reply]) -> (step: Step<u64>)
        requires
            !old(self)@.closed,
        ensures
            step@ == read_unsigned(
                old(self)@.handle,
                Constants::ZMQ_SNDBUF.code() as i32,
                replies@,
            ),
            final(self)@ == old(self)@,
    {
        getsockopt_u64(self.sock, Constants::ZMQ_SNDBUF.to_raw(), replies)
    }

    /// The size of the kernel's receive buffer.
    pub fn get_rcvbuf(&mut self, replies: &[Reply]) -> (step: Step<u64>)
        requires
            !old(self)@.closed,
        ensures
            step@ == read_unsigned(
                old(self)@.handle,
                Constants::ZMQ_RCVBUF.code() as i32,
                replies@,
            ),
            final(self)@ == old(self)@,
    {
        getsockopt_u64(self.sock, Constants::ZMQ_RCVBUF.to_raw(), replies)
    }

    /// How long pending messages linger after the socket is closed.
    pub fn get_linger(&mut self, replies: &[Reply]) -> (step: Step<i64>)
        requires
            !old(self)@.closed,
        ensures
            step@ == read_long(old(self)@.handle, Constants::ZMQ_LINGER.code() as i32, replies@),
            final(self)@ == old(self)@,
    {
        getsockopt_i64(self.sock, Constants::ZMQ_LINGER.to_raw(), replies)
    }

    /// The interval between attempts to reconnect.
    pub fn get_reconnect_ivl(&mut self, replies: &[Reply]) -> (step: Step<i32>)
        requires
            !old(self)@.closed,
        ensures
            step@ == read_int(
                old(self)@.handle,
                Constants::ZMQ_RECONNECT_IVL.code() as i32,
                replies@,
            ),
            final(self)@ == old(self)@,
    {
        getsockopt_int(self.sock, Constants::ZMQ_RECONNECT_IVL.to_raw(), replies)
    }

    /// The longest interval between attempts to reconnect.
    pub fn get_reconnect_ivl_max(&mut self, replies: &[Reply]) -> (step: Step<i32>)
        requires
            !old(self)@.closed,
        ensures
            step@ == read_int(
                old(self)@.handle,
                Constants::ZMQ_RECONNECT_IVL_MAX.code() as i32,
                replies@,
            ),
            final(self)@ == old(self)@,
    {
        getsockopt_int(self.sock, Constants::ZMQ_RECONNECT_IVL_MAX.to_raw(), replies)
    }

    /// The longest queue of outstanding connections.
    pub fn get_backlog(&mut self, replies: &[Reply]) -> (step: Step<i32>)
        requires
            !old(self)@.closed,
        ensures
            step@ == read_int(old(self)@.handle, Constants::ZMQ_BACKLOG.code() as i32, replies@),
            final(self)@ == old(self)@,
    {
        getsockopt_int(self.sock, Constants::ZMQ_BACKLOG.to_raw(), replies)
    }

    /// The file descriptor that belongs to the socket.
    pub fn get_fd(&mut self, replies: &[Reply]) -> (step: Step<i64>)
        requires
            !old(self)@.closed,
        ensures
            step@ == read_long(old(self)@.handle, Constants::ZMQ_FD.code() as i32, replies@),
            final(self)@ == old(self)@,
    {
        getsockopt_i64(self.sock, Constants::ZMQ_FD.to_raw(), replies)
    }

    /// The events that the socket is ready for.
    pub fn get_events(&mut self, replies: &[Reply]) -> (step: Step<i32>)
        requires
            !old(self)@.closed,
        ensures
            step@ == read_int(old(self)@.handle, Constants::ZMQ_EVENTS.code() as i32, replies@),
            final(self)@ == old(self)@,
    {
        getsockopt_int(self.sock, Constants::ZMQ_EVENTS.to_raw(), replies)
    }

    /// Sets the largest message that the socket takes in, in bytes; -1 for no limit.
    pub fn set_maxmsgsize(&mut self, value: i64, replies: &[Reply]) -> (step: Step<()>)
        requires
            !old(self)@.closed,
        ensures
            step@ == store(
                old(self)@.handle,
                Constants::ZMQ_MAXMSGSIZE.code() as i32,
                OptionValueView::Long(value),
                replies@,
            ),
            final(self)@ == old(self)@,
    {
        setsockopt_i64(self.sock, Constants::ZMQ_MAXMSGSIZE.to_raw(), value, replies)
    }

    /// Sets the high-water mark for outgoing messages.
    pub fn set_sndhwm(&mut self, value: i32, replies: &[Reply]) -> (step: Step<()>)
        requires
            !old(self)@.closed,
        ensures
            step@ == store(
                old(self)@.handle,
                Constants::ZMQ_SNDHWM.code() as i32,
                OptionValueView::Int(value),
                replies@,
            ),
            final(self)@ == old(self)@,
    {
        setsockopt_int(self.sock, Constants::ZMQ_SNDHWM.to_raw(), value, replies)
    }

    /// Sets the high-water mark for incoming messages.
    pub fn set_rcvhwm(&mut self, value: i32, replies: &[Reply]) -> (step: Step<()>)
        requires
            !old(self)@.closed,
        ensures
            step@ == store(
                old(self)@.handle,
                Constants::ZMQ_RCVHWM.code() as i32,
                OptionValueView::Int(value),
                replies@,
            ),
            final(self)@ == old(self)@,
    {
        setsockopt_int(self.sock, Constants::ZMQ_RCVHWM.to_raw(), value, replies)
    }

    /// Sets the I/O threads that serve the socket, as a bit mask.
    pub fn set_affinity(&mut self, value: u64, replies: &[Reply]) -> (step: Step<()>)
        requires
            !old(self)@.closed,
        ensures
            step@ == store(
                old(self)@.handle,
                Constants::ZMQ_AFFINITY.code() as i32,
                OptionValueView::Unsigned(value),
                replies@,
            ),
            final(self)@ == old(self)@,
    {
        setsockopt_u64(self.sock, Constants::ZMQ_AFFINITY.to_raw(), value, replies)
    }

    /// Sets the identity of the socket.
    pub fn set_identity(&mut self, value: &[u8], replies: &[Reply]) -> (step: Step<()>)
        requires
            !old(self)@.closed,
        ensures
            step@ == store(
                old(self)@.handle,
                Constants::ZMQ_IDENTITY.code() as i32,
                OptionValueView::Bytes(value@),
                replies@,
            ),
            final(self)@ == old(self)@,
    {
        setsockopt_bytes(self.sock, Constants::ZMQ_IDENTITY.to_raw(), value, replies)
    }

    /// Subscribes to the messages that begin with the given bytes.
    pub fn set_subscribe(&mut self, value: &[u8], replies: &[Reply]) -> (step: Step<()>)
        requires
            !old(self)@.closed,
        ensures
            step@ == store(
                old(self)@.handle,
                Constants::ZMQ_SUBSCRIBE.code() as i32,
                OptionValueView::Bytes(value@),
                replies@,
            ),
            final(self)@ == old(self)@,
    {
        setsockopt_bytes(self.sock, Constants::ZMQ_SUBSCRIBE.to_raw(), value, replies)
    }

    /// Takes back a subscription.
    pub fn set_unsubscribe(&mut self, value: &[u8], replies: &[Reply]) -> (step: Step<()>)
        requires
            !old(self)@.closed,
        ensures
            step@ == store(
                old(self)@.handle,
                Constants::ZMQ_UNSUBSCRIBE.code() as i32,
                OptionValueView::Bytes(value@),
                replies@,
            ),
            final(self)@ == old(self)@,
    {
        setsockopt_bytes(self.sock, Constants::ZMQ_UNSUBSCRIBE.to_raw(), value, replies)
    }

    /// Sets the multicast data rate.
    pub fn set_rate(&mut self, value: i64, replies: &[Reply]) -> (step: Step<()>)
        requires
            !old(self)@.closed,
        ensures
            step@ == store(
                old(self)@.handle,
                Constants::ZMQ_RATE.code() as i32,
                OptionValueView::Long(value),
                replies@,
            ),
            final(self)@ == old(self)@,
    {
        setsockopt_i64(self.sock, Constants::ZMQ_RATE.to_raw(), value, replies)
    }

    /// Sets the multicast recovery interval.
    pub fn set_recovery_ivl(&mut self, value: i64, replies: &[Reply]) -> (step: Step<()>)
        requires
            !old(self)@.closed,
        ensures
            step@ == store(
                old(self)@.handle,
                Constants::ZMQ_RECOVERY_IVL.code() as i32,
                OptionValueView::Long(value),
                replies@,
            ),
            final(self)@ == old(self)@,
    {
        setsockopt_i64(self.sock, Constants::ZMQ_RECOVERY_IVL.to_raw(), value, replies)
    }

    /// Sets the multicast recovery interval in milliseconds.
    pub fn set_recovery_ivl_msec(&mut self, value: i64, replies: &[Reply]) -> (step: Step<()>)
        requires
            !old(self)@.closed,
        ensures
            step@ == store(
                old(self)@.handle,
                Constants::ZMQ_RECOVERY_IVL_MSEC.code() as i32,
                OptionValueView::Long(value),
                replies@,
            ),
            final(self)@ == old(self)@,
    {
        setsockopt_i64(self.sock, Constants::ZMQ_RECOVERY_IVL_MSEC.to_raw(), value, replies)
    }

    /// Sets whether multicast packets are looped back.
    pub fn set_mcast_loop(&mut self, value: bool, replies: &[Reply]) -> (step: Step<()>)
        requires
            !old(self)@.closed,
        ensures
            step@ == store(
                old(self)@.handle,
                Constants::ZMQ_MCAST_LOOP.code() as i32,
                OptionValueView::Long(flag_value(value)),
                replies@,
            ),
            final(self)@ == old(self)@,
    {
        let value: i64 = if value {
            1
        } else {
            0
        };
        setsockopt_i64(self.sock, Constants::ZMQ_MCAST_LOOP.to_raw(), value, replies)
    }

    /// Sets the size of the kernel's transmit buffer.
    pub fn set_sndbuf(&mut self, value: u64, replies: &[Reply]) -> (step: Step<()>)
        requires
            !old(self)@.closed,
        ensures
            step@ == store(
                old(self)@.handle,
                Constants::ZMQ_SNDBUF.code() as i32,
                OptionValueView::Unsigned(value),
                replies@,
            ),
            final(self)@ == old(self)@,
    {
        setsockopt_u64(self.sock, Constants::ZMQ_SNDBUF.to_raw(), value, replies)
    }

    /// Sets the size of the kernel's receive buffer.
    pub fn set_rcvbuf(&mut self, value: u64, replies: &[Reply]) -> (step: Step<()>)
        requires
            !old(self)@.closed,
        ensures
            step@ == store(
                old(self)@.handle,
                Constants::ZMQ_RCVBUF.code() as i32,
                OptionValueView::Unsigned(value),
                replies@,
            ),
            final(self)@ == old(self)@,
    {
        setsockopt_u64(self.sock, Constants::ZMQ_RCVBUF.to_raw(), value, replies)
    }

    /// Sets how long pending messages linger after the socket is closed.
    pub fn set_linger(&mut self, value: i32, replies: &[Reply]) -> (step: Step<()>)
        requires
            !old(self)@.closed,
        ensures
            step@ == store(
                old(self)@.handle,
                Constants::ZMQ_LINGER.code() as i32,
                OptionValueView::Int(value),
                replies@,
            ),
            final(self)@ == old(self)@,
    {
        setsockopt_int(self.sock, Constants::ZMQ_LINGER.to_raw(), value, replies)
    }

    /// Sets the interval between attempts to reconnect.
    pub fn set_reconnect_ivl(&mut self, value: i32, replies: &[Reply]) -> (step: Step<()>)
        requires
            !old(self)@.closed,
        ensures
            step@ == store(
                old(self)@.handle,
                Constants::ZMQ_RECONNECT_IVL.code() as i32,
                OptionValueView::Int(value),
                replies@,
            ),
            final(self)@ == old(self)@,
    {
        setsockopt_int(self.sock, Constants::ZMQ_RECONNECT_IVL.to_raw(), value, replies)
    }

    /// Sets the longest interval between attempts to reconnect.
    pub fn set_reconnect_ivl_max(&mut self, value: i32, replies: &[Reply]) -> (step: Step<()>)
        requires
            !old(self)@.closed,
        ensures
            step@ == store(
                old(self)@.handle,
                Constants::ZMQ_RECONNECT_IVL_MAX.code() as i32,
                OptionValueView::Int(value),
                replies@,
            ),
            final(self)@ == old(self)@,
    {
        setsockopt_int(self.sock, Constants::ZMQ_RECONNECT_IVL_MAX.to_raw(), value, replies)
    }

    /// Sets the longest queue of outstanding connections.
    pub fn set_backlog(&mut self, value: i32, replies: &[Reply]) -> (step: Step<()>)
        requires
            !old(self)@.closed,
        ensures
            step@ == store(
                old(self)@.handle,
                Constants::ZMQ_BACKLOG.code() as i32,
                OptionValueView::Int(value),
                replies@,
            ),
            final(self)@ == old(self)@,
    {
        setsockopt_int(self.sock, Constants::ZMQ_BACKLOG.to_raw(), value, replies)
    }

    /// A descriptor for polling this socket for the given events.
    pub fn as_poll_item(&self, events: i16) -> (item: PollItem)
        ensures
            item == (PollItem { socket: self@.handle, fd: 0, events, revents: 0 }),
    {
        PollItem { socket: self.sock, fd: 0, events, revents: 0 }
    }
}

} // verus!
