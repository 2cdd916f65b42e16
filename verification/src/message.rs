//! A message: the payload of one frame.
//!
//! The native message belongs to the messaging library and stays with the
//! driver. A `Message` holds the bytes that a receive put into it.

use crate::exchange::{Call, CallView, Fault, Reply, Step, StepView};
use vstd::prelude::*;
use vstd::slice::slice_to_vec;
use vstd::utf8::{decode_utf8, valid_utf8};

verus! {

/// The error of `core::str::from_utf8`; nothing is read from it.
#[verifier::external_type_specification]
#[verifier::external_body]
pub struct ExUtf8Error(core::str::Utf8Error);

/// `core::str::from_utf8` succeeds on exactly the byte strings that are
/// UTF-8, and the text it gives is the one that those bytes encode.
pub assume_specification[ core::str::from_utf8 ](v: &[u8]) -> (text: Result<
    &str,
    core::str::Utf8Error,
>)
    ensures
        text is Ok <==> valid_utf8(v@),
        text matches Ok(s) ==> s@ == decode_utf8(v@),
;

/// The payload of one frame.
#[derive(Debug, PartialEq, Eq)]
pub struct Message {
    payload: Vec<u8>,
}

impl View for Message {
    type V = Seq<u8>;

    closed spec fn view(&self) -> Seq<u8> {
        self.payload@
    }
}

/// Creating a message: one call that initialises the native message, whose
/// failure is a fault. The new message is empty.
pub open spec fn create(replies: Seq<Reply>) -> StepView<Seq<u8>> {
    if replies.len() == 0 {
        StepView::Call(CallView::MessageInit)
    } else if replies[0].failed() {
        StepView::Fatal(Fault::MessageInit)
    } else {
        StepView::Done(Seq::empty())
    }
}

/// Letting go of a message: one call that closes the native message, whose
/// reply is not looked at.
pub open spec fn release(replies: Seq<Reply>) -> StepView<()> {
    if replies.len() == 0 {
        StepView::Call(CallView::MessageClose)
    } else {
        StepView::Done(())
    }
}

impl Message {
    /// Creates an empty message.
    pub fn new(replies: &[Reply]) -> (step: Step<Message>)
        ensures
            step@ == create(replies@),
    {
        if replies.len() == 0 {
            Step::Call(Call::MessageInit)
        } else if replies[0].rc == -1 {
            Step::Fatal(Fault::MessageInit)
        } else {
            Step::Done(Message { payload: Vec::new() })
        }
    }

    /// Puts a payload in place of the one held.
    pub(crate) fn fill(&mut self, payload: Vec<u8>)
        ensures
            final(self)@ == payload@,
    {
        self.payload = payload;
    }

    /// Closes the native message. This is what dropping a message comes to.
    pub fn release(&self, replies: &[Reply]) -> (step: Step<()>)
        ensures
            step@ == release(replies@),
    {
        if replies.len() == 0 {
            Step::Call(Call::MessageClose)
        } else {
            Step::Done(())
        }
    }

    /// Calls `f` on the payload.
    pub fn with_bytes<T, F: FnOnce(&[u8]) -> T>(&self, f: F) -> (result: T)
        requires
            forall|bytes: &[u8]| bytes@ == self@ ==> f.requires((bytes,)),
        ensures
            exists|bytes: &[u8]| bytes@ == self@ && f.ensures((bytes,), result),
    {
        f(self.payload.as_slice())
    }

    /// Calls `f` on the payload as text. The payload must be UTF-8.
    pub fn with_str<T, F: FnOnce(&str) -> T>(&self, f: F) -> (result: T)
        requires
            valid_utf8(self@),
            forall|text: &str| text@ == decode_utf8(self@) ==> f.requires((text,)),
        ensures
            exists|text: &str| text@ == decode_utf8(self@) && f.ensures((text,), result),
    {
        match core::str::from_utf8(self.payload.as_slice()) {
            Ok(text) => f(text),
            Err(_) => vstd::pervasive::unreached(),
        }
    }

    /// A copy of the payload.
    pub fn to_bytes(&self) -> (bytes: Vec<u8>)
        ensures
            bytes@ == self@,
    {
        slice_to_vec(self.payload.as_slice())
    }

    /// Whether the payload is UTF-8.
    pub fn is_text(&self) -> (valid: bool)
        ensures
            valid == valid_utf8(self@),
    {
        core::str::from_utf8(self.payload.as_slice()).is_ok()
    }

    /// A copy of the payload as text. The payload must be UTF-8.
    pub fn to_str(&self) -> (text: String)
        requires
            valid_utf8(self@),
        ensures
            text@ == decode_utf8(self@),
    {
        match core::str::from_utf8(self.payload.as_slice()) {
            Ok(text) => text.to_owned(),
            Err(_) => vstd::pervasive::unreached(),
        }
    }
}

} // verus!
