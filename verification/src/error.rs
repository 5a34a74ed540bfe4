//! The failures of the transport layer.

use vstd::prelude::*;

verus! {

/// Why a message could not be received or sent. No failure is recovered from
/// in this layer: each is handed to the caller.
#[derive(Debug, Clone, Copy, PartialEq, Eq, Structural)]
pub enum TransportError {
    /// The text is not JSON, or fits none of the three message shapes.
    MalformedMessage,
    /// The byte stream failed, or ended.
    ChannelFailure,
    /// The message could not be written as JSON text.
    EncodingFailure,
}

/// The words that describe each failure.
pub open spec fn description(error: TransportError) -> Seq<char> {
    match error {
        TransportError::MalformedMessage => "malformed message"@,
        TransportError::ChannelFailure => "channel failure"@,
        TransportError::EncodingFailure => "encoding failure"@,
    }
}

impl TransportError {
    /// A few words that describe the failure.
    pub fn describe(&self) -> (words: &'static str)
        ensures
            words@ == description(*self),
    {
        match self {
            TransportError::MalformedMessage => "malformed message",
            TransportError::ChannelFailure => "channel failure",
            TransportError::EncodingFailure => "encoding failure",
        }
    }
}

} // verus!
