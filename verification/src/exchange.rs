//! The calls that the binding asks for, the replies that it takes, and the
//! steps by which an operation goes on.
//!
//! An operation is a function of the replies made so far. Called with none, it
//! names its first call; called again with the reply to that call, it names
//! the next, or ends. Whoever drives the operation makes each call and adds
//! its reply to the list.

use crate::error::Error;
use crate::poll::PollItem;
use vstd::prelude::*;
use vstd::string::StringSliceAdditionalSpecFns;

verus! {

/// The width and signedness at which an option is read.
#[derive(Clone, Copy, Debug, PartialEq, Eq, Structural)]
pub enum OptionKind {
    /// A signed integer of the platform's `int`, 32 bits.
    Int,
    /// A signed integer of 64 bits.
    Long,
    /// An unsigned integer of 64 bits.
    Unsigned,
    /// A run of bytes.
    Bytes,
}

/// The longest binary option: an identity has at most this many bytes.
pub const MAX_BINARY_OPTION: usize = 255;

impl OptionKind {
    /// The size of the buffer into which an option of this kind is read.
    pub open spec fn spec_width(self) -> usize {
        match self {
            OptionKind::Int => 4,
            OptionKind::Long => 8,
            OptionKind::Unsigned => 8,
            OptionKind::Bytes => MAX_BINARY_OPTION,
        }
    }

    /// The size of the buffer into which an option of this kind is read.
    #[verifier::when_used_as_spec(spec_width)]
    pub fn width(self) -> (bytes: usize)
        ensures
            bytes == self.spec_width(),
    {
        match self {
            OptionKind::Int => 4,
            OptionKind::Long => 8,
            OptionKind::Unsigned => 8,
            OptionKind::Bytes => MAX_BINARY_OPTION,
        }
    }
}

/// A value to store in an option, at the width that the option has.
#[derive(Clone, Debug, PartialEq, Eq)]
pub enum OptionValue {
    Int(i32),
    Long(i64),
    Unsigned(u64),
    Bytes(Vec<u8>),
}

/// The mathematical value of an `OptionValue`.
pub enum OptionValueView {
    Int(i32),
    Long(i64),
    Unsigned(u64),
    Bytes(Seq<u8>),
}

impl View for OptionValue {
    type V = OptionValueView;

    open spec fn view(&self) -> OptionValueView {
        match self {
            OptionValue::Int(value) => OptionValueView::Int(*value),
            OptionValue::Long(value) => OptionValueView::Long(*value),
            OptionValue::Unsigned(value) => OptionValueView::Unsigned(*value),
            OptionValue::Bytes(value) => OptionValueView::Bytes(value@),
        }
    }
}

/// One call into the messaging library, with its arguments. Handles are
/// addresses; the message calls act on the one native message that the
/// operation at hand works with.
#[derive(Clone, Debug, PartialEq, Eq)]
pub enum Call {
    /// Ask for the library's version.
    Version,
    /// Create a context.
    ContextNew,
    /// Destroy a context.
    ContextDestroy { context: usize },
    /// Create a socket of the role with the given code.
    SocketNew { context: usize, socket_type: i32 },
    /// Close a socket.
    SocketClose { socket: usize },
    /// Accept connections at an endpoint, given as a C string: the bytes of
    /// the text, then a NUL.
    Bind { socket: usize, endpoint: Vec<u8> },
    /// Connect to an endpoint, given as a C string.
    Connect { socket: usize, endpoint: Vec<u8> },
    /// Read an option into a buffer of `kind.width()` bytes.
    GetOption { socket: usize, option: i32, kind: OptionKind },
    /// Store a value in an option.
    SetOption { socket: usize, option: i32, value: OptionValue },
    /// Initialise the native message, empty.
    MessageInit,
    /// Initialise the native message with room for `size` bytes.
    MessageInitSize { size: usize },
    /// Copy `data` to the start of the native message's payload.
    MessageFill { data: Vec<u8> },
    /// Send the native message.
    MessageSend { socket: usize, flags: i32 },
    /// Receive into the native message.
    MessageReceive { socket: usize, flags: i32 },
    /// Close the native message.
    MessageClose,
    /// Wait until a descriptor is ready or the timeout, in milliseconds, is
    /// over; a negative timeout waits without end.
    Poll { items: Vec<PollItem>, timeout: i64 },
    /// Ask for the library's description of an error code.
    ErrorText { code: i32 },
}

/// The mathematical value of a `Call`.
pub enum CallView {
    Version,
    ContextNew,
    ContextDestroy { context: usize },
    SocketNew { context: usize, socket_type: i32 },
    SocketClose { socket: usize },
    Bind { socket: usize, endpoint: Seq<u8> },
    Connect { socket: usize, endpoint: Seq<u8> },
    GetOption { socket: usize, option: i32, kind: OptionKind },
    SetOption { socket: usize, option: i32, value: OptionValueView },
    MessageInit,
    MessageInitSize { size: usize },
    MessageFill { data: Seq<u8> },
    MessageSend { socket: usize, flags: i32 },
    MessageReceive { socket: usize, flags: i32 },
    MessageClose,
    Poll { items: Seq<PollItem>, timeout: i64 },
    ErrorText { code: i32 },
}

impl View for Call {
    type V = CallView;

    open spec fn view(&self) -> CallView {
        match self {
            Call::Version => CallView::Version,
            Call::ContextNew => CallView::ContextNew,
            Call::ContextDestroy { context } => CallView::ContextDestroy { context: *context },
            Call::SocketNew { context, socket_type } => CallView::SocketNew {
                context: *context,
                socket_type: *socket_type,
            },
            Call::SocketClose { socket } => CallView::SocketClose { socket: *socket },
            Call::Bind { socket, endpoint } => CallView::Bind {
                socket: *socket,
                endpoint: endpoint@,
            },
            Call::Connect { socket, endpoint } => CallView::Connect {
                socket: *socket,
                endpoint: endpoint@,
            },
            Call::GetOption { socket, option, kind } => CallView::GetOption {
                socket: *socket,
                option: *option,
                kind: *kind,
            },
            Call::SetOption { socket, option, value } => CallView::SetOption {
                socket: *socket,
                option: *option,
                value: value@,
            },
            Call::MessageInit => CallView::MessageInit,
            Call::MessageInitSize { size } => CallView::MessageInitSize { size: *size },
            Call::MessageFill { data } => CallView::MessageFill { data: data@ },
            Call::MessageSend { socket, flags } => CallView::MessageSend {
                socket: *socket,
                flags: *flags,
            },
            Call::MessageReceive { socket, flags } => CallView::MessageReceive {
                socket: *socket,
                flags: *flags,
            },
            Call::MessageClose => CallView::MessageClose,
            Call::Poll { items, timeout } => CallView::Poll { items: items@, timeout: *timeout },
            Call::ErrorText { code } => CallView::ErrorText { code: *code },
        }
    }
}

/// What a call stored or handed back besides its status.
#[derive(Clone, Debug, PartialEq, Eq)]
pub enum Output {
    /// The call hands nothing back, or failed before it did.
    Nothing,
    /// The address of a context or socket; 0 is the null handle.
    Handle(usize),
    /// An option read as a 32-bit signed integer.
    Int(i32),
    /// An option read as a 64-bit signed integer.
    Long(i64),
    /// An option read as a 64-bit unsigned integer.
    Unsigned(u64),
    /// The buffer that an option was read into, and the size written back.
    Bytes { buffer: Vec<u8>, size: usize },
    /// The payload of the native message after a receive.
    Payload(Vec<u8>),
    /// The events found, one entry for each descriptor polled, in order.
    Events(Vec<i16>),
    /// The three parts of the library's version.
    Version { major: i32, minor: i32, patch: i32 },
    /// A text of the library.
    Text(String),
}

/// The reply to one call.
#[derive(Clone, Debug, PartialEq, Eq)]
pub struct Reply {
    /// The status that the call returned; 0 for a call that returns none.
    pub rc: i32,
    /// The library's error code for the calling thread, read after the call.
    pub errno: i32,
    /// What the call stored or handed back.
    pub output: Output,
}

/// Why an operation cannot go on. None of these is an error of the messaging
/// library: each shows a defect in the program or a library that does not keep
/// to its interface, and the driver of the operation aborts.
#[derive(Clone, Copy, Debug, PartialEq, Eq, Structural)]
pub enum Fault {
    /// A call failed with a code that stands for no error kind.
    UnknownError { code: i32 },
    /// An endpoint holds a NUL, so that no C string can hold it.
    EndpointNul,
    /// A socket reported a role outside the known ones.
    SocketTypeOutOfRange { code: i32 },
    /// No context could be created.
    ContextCreation,
    /// A message could not be initialised.
    MessageInit,
    /// A socket could not be closed when it was let go of.
    SocketClose { error: Error },
    /// A payload asked for as text is not UTF-8.
    InvalidUtf8,
    /// A reply does not hold what its call hands back.
    UnexpectedReply,
}

/// How an operation goes on after the replies made so far.
#[derive(Clone, Debug, PartialEq, Eq)]
pub enum Step<T> {
    /// Make this call, and come back with its reply added to the list.
    Call(Call),
    /// The operation has succeeded, with this result.
    Done(T),
    /// The operation has failed, with this error of the messaging library.
    Failed(Error),
    /// The operation cannot go on.
    Fatal(Fault),
}

/// The mathematical value of a `Step`.
pub enum StepView<V> {
    Call(CallView),
    Done(V),
    Failed(Error),
    Fatal(Fault),
}

impl<T: View> View for Step<T> {
    type V = StepView<T::V>;

    open spec fn view(&self) -> StepView<T::V> {
        match self {
            Step::Call(call) => StepView::Call(call@),
            Step::Done(value) => StepView::Done(value@),
            Step::Failed(error) => StepView::Failed(*error),
            Step::Fatal(fault) => StepView::Fatal(*fault),
        }
    }
}

impl<A> StepView<A> {
    /// The same step, with `f` applied to the result of one that is done.
    pub open spec fn map<B>(self, f: spec_fn(A) -> B) -> StepView<B> {
        match self {
            StepView::Call(call) => StepView::Call(call),
            StepView::Done(value) => StepView::Done(f(value)),
            StepView::Failed(error) => StepView::Failed(error),
            StepView::Fatal(fault) => StepView::Fatal(fault),
        }
    }
}

impl Reply {
    /// Whether the call reported failure by its status.
    pub open spec fn failed(self) -> bool {
        self.rc == -1
    }
}

/// How an operation ends after a call that failed with the given error code:
/// with the error kind that the code stands for, or, if it stands for none,
/// with a fault.
pub open spec fn failure<V>(errno: i32) -> StepView<V> {
    match Error::lookup(errno as int) {
        Some(error) => StepView::Failed(error),
        None => StepView::Fatal(Fault::UnknownError { code: errno }),
    }
}

/// Ends an operation whose last call failed, by the error code of the reply.
pub fn errno_to_error<T: View>(reply: &Reply) -> (step: Step<T>)
    ensures
        step@ == failure::<T::V>(reply.errno),
{
    match Error::try_from_raw(reply.errno) {
        Some(error) => Step::Failed(error),
        None => Step::Fatal(Fault::UnknownError { code: reply.errno }),
    }
}

/// The C string of a text, given by its bytes: the bytes, then a NUL.
pub open spec fn c_string(text: Seq<u8>) -> Seq<u8> {
    text.push(0u8)
}

/// The C string of a text; `None` for a text that holds a NUL.
pub fn to_c_string(text: &str) -> (terminated: Option<Vec<u8>>)
    ensures
        terminated is None <==> text.spec_bytes().contains(0u8),
        terminated matches Some(bytes) ==> bytes@ == c_string(text.spec_bytes()),
{
    let bytes = text.as_bytes();
    let mut terminated: Vec<u8> = Vec::new();
    let mut i: usize = 0;
    while i < bytes.len()
        invariant
            i <= bytes@.len(),
            bytes@ == text.spec_bytes(),
            terminated@ == bytes@.subrange(0, i as int),
            forall|k: int| 0 <= k < i ==> bytes@[k] != 0u8,
        decreases bytes@.len() - i,
    {
        if bytes[i] == 0 {
            return None;
        }
        terminated.push(bytes[i]);
        assert(terminated@ == bytes@.subrange(0, i + 1));
        i += 1;
    }
    assert(terminated@ == bytes@);
    terminated.push(0);
    Some(terminated)
}

/// An operation of one call that hands back a status only.
pub open spec fn command(call: CallView, replies: Seq<Reply>) -> StepView<()> {
    if replies.len() == 0 {
        StepView::Call(call)
    } else if replies[0].failed() {
        failure(replies[0].errno)
    } else {
        StepView::Done(())
    }
}

/// Runs an operation of one call that hands back a status only: makes the
/// call, fails with the error of a reply whose status is -1, and succeeds on
/// any other.
pub fn run_command(call: Call, replies: &[Reply]) -> (step: Step<()>)
    ensures
        step@ == command(call@, replies@),
{
    if replies.len() == 0 {
        Step::Call(call)
    } else if replies[0].rc == -1 {
        errno_to_error(&replies[0])
    } else {
        Step::Done(())
    }
}

} // verus!
