//! What the messaging library tells of itself: its version, and its text
//! for an error.

use crate::error::Error;
use crate::exchange::{Call, CallView, Fault, Output, Reply, Step, StepView};
use vstd::prelude::*;

verus! {

/// Asking for the version: one call, which hands back its three parts.
pub open spec fn read_version(replies: Seq<Reply>) -> StepView<(i32, i32, i32)> {
    if replies.len() == 0 {
        StepView::Call(CallView::Version)
    } else {
        match replies[0].output {
            Output::Version { major, minor, patch } => StepView::Done((major, minor, patch)),
            _ => StepView::Fatal(Fault::UnexpectedReply),
        }
    }
}

/// Asking for the text of an error code: one call, which hands back the
/// text.
pub open spec fn read_error_text(code: i32, replies: Seq<Reply>) -> StepView<Seq<char>> {
    if replies.len() == 0 {
        StepView::Call(CallView::ErrorText { code })
    } else {
        match replies[0].output {
            Output::Text(text) => StepView::Done(text@),
            _ => StepView::Fatal(Fault::UnexpectedReply),
        }
    }
}

/// The version of the messaging library: major, minor, patch.
pub fn version(replies: &[Reply]) -> (step: Step<(i32, i32, i32)>)
    ensures
        step@ == read_version(replies@),
{
    if replies.len() == 0 {
        Step::Call(Call::Version)
    } else {
        match &replies[0].output {
            Output::Version { major, minor, patch } => Step::Done((*major, *minor, *patch)),
            _ => Step::Fatal(Fault::UnexpectedReply),
        }
    }
}

/// The messaging library's text for an error code.
pub fn strerror(code: i32, replies: &[Reply]) -> (step: Step<String>)
    ensures
        step@ == read_error_text(code, replies@),
{
    if replies.len() == 0 {
        Step::Call(Call::ErrorText { code })
    } else {
        match &replies[0].output {
            Output::Text(text) => Step::Done(text.clone()),
            _ => Step::Fatal(Fault::UnexpectedReply),
        }
    }
}

impl Error {
    /// The messaging library's text for this error. This is how an error
    /// is shown.
    pub fn message(&self, replies: &[Reply]) -> (step: Step<String>)
        ensures
            step@ == read_error_text(self.code() as i32, replies@),
    {
        strerror(self.to_raw(), replies)
    }
}

} // verus!
