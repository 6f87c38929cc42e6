//! What the decoder hands out for the bytes that have come so far.

use vstd::prelude::*;

use crate::network::protocol::message::Message;

verus! {

/// A message that may not be complete yet: either a whole message, or the
/// sign that more bytes have to come.
#[derive(Debug, PartialEq, Eq)]
pub enum DecoderOutput {
    Complete(Message),
    Incomplete,
}

impl DecoderOutput {
    /// The output for a whole message.
    pub fn from_message(message: Message) -> (output: DecoderOutput)
        ensures
            output == DecoderOutput::Complete(message),
    {
        DecoderOutput::Complete(message)
    }

    /// The whole message, if there is one.
    pub fn into_complete_message(self) -> (message: Option<Message>)
        ensures
            self matches DecoderOutput::Complete(whole) ==> message == Some(whole),
            self is Incomplete ==> message.is_none(),
    {
        match self {
            DecoderOutput::Complete(message) => Some(message),
            DecoderOutput::Incomplete => None,
        }
    }
}

} // verus!
