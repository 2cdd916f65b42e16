//! Readiness polling over a set of descriptors.

use crate::exchange::{
    errno_to_error, failure, Call, CallView, Fault, Output, Reply, Step, StepView,
};
use vstd::prelude::*;
use vstd::slice::slice_to_vec;

verus! {

/// One descriptor to poll: a socket or, where `socket` is 0, a file
/// descriptor of the operating system, with the events asked for and the
/// events found.
#[derive(Clone, Copy, Debug, PartialEq, Eq, Structural)]
pub struct PollItem {
    pub socket: usize,
    pub fd: i32,
    pub events: i16,
    pub revents: i16,
}

impl PollItem {
    /// The same descriptor with the given events found.
    pub open spec fn with_revents(self, revents: i16) -> PollItem {
        PollItem { socket: self.socket, fd: self.fd, events: self.events, revents }
    }
}

/// Polling: one call, which hands back the events found, one entry for each
/// descriptor. The number of ready descriptors that the call returns is not
/// passed on.
pub open spec fn poll_step(items: Seq<PollItem>, timeout: i64, replies: Seq<Reply>) -> StepView<
    (),
> {
    if replies.len() == 0 {
        StepView::Call(CallView::Poll { items, timeout })
    } else if replies[0].failed() {
        failure(replies[0].errno)
    } else {
        match replies[0].output {
            Output::Events(revents) => if revents.len() == items.len() {
                StepView::Done(())
            } else {
                StepView::Fatal(Fault::UnexpectedReply)
            },
            _ => StepView::Fatal(Fault::UnexpectedReply),
        }
    }
}

/// The descriptors after polling: where the poll is done, each holds the
/// events found for it; otherwise they are as they were.
pub open spec fn polled(items: Seq<PollItem>, timeout: i64, replies: Seq<Reply>) -> Seq<PollItem> {
    if poll_step(items, timeout, replies) is Done {
        match replies[0].output {
            Output::Events(revents) => Seq::new(
                items.len(),
                |i: int| items[i].with_revents(revents[i]),
            ),
            _ => items,
        }
    } else {
        items
    }
}

/// Waits until one of the descriptors is ready, or until the timeout, in
/// milliseconds, is over: a negative one waits without end, 0 does not wait.
pub fn poll(items: &mut [PollItem], timeout: i64, replies: &[Reply]) -> (step: Step<()>)
    ensures
        step@ == poll_step(old(items)@, timeout, replies@),
        final(items)@ == polled(old(items)@, timeout, replies@),
{
    if replies.len() == 0 {
        Step::Call(Call::Poll { items: slice_to_vec(items), timeout })
    } else if replies[0].rc == -1 {
        errno_to_error(&replies[0])
    } else {
        match &replies[0].output {
            Output::Events(revents) => {
                let count: usize = items.len();
                if revents.len() != count {
                    return Step::Fatal(Fault::UnexpectedReply);
                }
                let mut i: usize = 0;
                while i < count
                    invariant
                        i <= count,
                        count == items@.len(),
                        count == old(items)@.len(),
                        count == revents@.len(),
                        forall|k: int|
                            0 <= k < i ==> items@[k] == old(items)@[k].with_revents(revents@[k]),
                        forall|k: int| i <= k < count ==> items@[k] == old(items)@[k],
                    decreases count - i,
                {
                    items[i].revents = revents[i];
                    i += 1;
                }
                assert(items@ =~= polled(old(items)@, timeout, replies@));
                Step::Done(())
            },
            _ => Step::Fatal(Fault::UnexpectedReply),
        }
    }
}

} // verus!
