//! The context: the root of the messaging library's runtime, from which
//! sockets are made.

use crate::constants::SocketType;
use crate::error::Error;
use crate::exchange::{
    command, errno_to_error, failure, run_command, Call, CallView, Fault, Output, Reply, Step,
    StepView,
};
use crate::socket::{Socket, SocketView};
use vstd::prelude::*;

verus! {

/// A context of the messaging library. Its view is its handle, which is
/// never null. A context may have many owners at once, so no operation on it
/// asks for exclusive access.
#[derive(Debug, PartialEq, Eq)]
pub struct Context {
    ctx: usize,
}

impl View for Context {
    type V = usize;

    closed spec fn view(&self) -> usize {
        self.ctx
    }
}

/// Creating a context: one call, which hands back the handle. A null
/// handle is a fault.
pub open spec fn create_context(replies: Seq<Reply>) -> StepView<usize> {
    if replies.len() == 0 {
        StepView::Call(CallView::ContextNew)
    } else {
        match replies[0].output {
            Output::Handle(handle) => if handle == 0 {
                StepView::Fatal(Fault::ContextCreation)
            } else {
                StepView::Done(handle)
            },
            _ => StepView::Fatal(Fault::UnexpectedReply),
        }
    }
}

/// Creating a socket: one call, which hands back the handle. A null handle
/// is the failure of the call; any other is the handle of an open socket.
pub open spec fn create_socket(
    context: usize,
    socket_type: SocketType,
    replies: Seq<Reply>,
) -> StepView<SocketView> {
    if replies.len() == 0 {
        StepView::Call(CallView::SocketNew { context, socket_type: socket_type.code() as i32 })
    } else {
        match replies[0].output {
            Output::Handle(handle) => if handle == 0 {
                failure(replies[0].errno)
            } else {
                StepView::Done(SocketView { handle, closed: false })
            },
            _ => StepView::Fatal(Fault::UnexpectedReply),
        }
    }
}

/// Whether a reply tells that the context is gone: the call to destroy it
/// succeeded, or failed with the code for a bad address.
pub open spec fn gone(reply: Reply) -> bool {
    !reply.failed() || Error::lookup(reply.errno as int) == Some(Error::EFAULT)
}

/// Letting go of a context: the call to destroy it, made again after every
/// reply that does not tell that the context is gone.
pub open spec fn release(context: usize, replies: Seq<Reply>) -> StepView<()> {
    if replies.len() == 0 || !gone(replies.last()) {
        StepView::Call(CallView::ContextDestroy { context })
    } else {
        StepView::Done(())
    }
}

impl Context {
    #[verifier::type_invariant]
    spec fn non_null(self) -> bool {
        self.ctx != 0
    }

    /// Creates a context.
    pub fn new(replies: &[Reply]) -> (step: Step<Context>)
        ensures
            step@ == create_context(replies@),
    {
        if replies.len() == 0 {
            Step::Call(Call::ContextNew)
        } else {
            match &replies[0].output {
                Output::Handle(handle) => if *handle == 0 {
                    Step::Fatal(Fault::ContextCreation)
                } else {
                    Step::Done(Context { ctx: *handle })
                },
                _ => Step::Fatal(Fault::UnexpectedReply),
            }
        }
    }

    /// The handle of the context.
    pub fn handle(&self) -> (handle: usize)
        ensures
            handle == self@,
            handle != 0,
    {
        proof {
            use_type_invariant(self);
        }
        self.ctx
    }

    /// Creates a socket of the given role in this context.
    pub fn socket(&self, socket_type: SocketType, replies: &[Reply]) -> (step: Step<Socket>)
        ensures
            step@ == create_socket(self@, socket_type, replies@),
    {
        if replies.len() == 0 {
            Step::Call(Call::SocketNew { context: self.ctx, socket_type: socket_type.to_raw() })
        } else {
            match &replies[0].output {
                Output::Handle(handle) => if *handle == 0 {
                    errno_to_error(&replies[0])
                } else {
                    Step::Done(Socket::open(*handle))
                },
                _ => Step::Fatal(Fault::UnexpectedReply),
            }
        }
    }

    /// Tries once to destroy the context.
    pub fn destroy(&self, replies: &[Reply]) -> (step: Step<()>)
        ensures
            step@ == command(CallView::ContextDestroy { context: self@ }, replies@),
    {
        run_command(Call::ContextDestroy { context: self.ctx }, replies)
    }

    /// Destroys the context, trying again for as long as the library
    /// reports a failure other than a bad address. This is what dropping a
    /// context comes to.
    pub fn release(&self, replies: &[Reply]) -> (step: Step<()>)
        ensures
            step@ == release(self@, replies@),
    {
        let count: usize = replies.len();
        if count == 0 {
            Step::Call(Call::ContextDestroy { context: self.ctx })
        } else {
            let last = &replies[count - 1];
            if last.rc == -1 && last.errno != Error::EFAULT.to_raw() {
                Step::Call(Call::ContextDestroy { context: self.ctx })
            } else {
                Step::Done(())
            }
        }
    }
}

} // verus!
