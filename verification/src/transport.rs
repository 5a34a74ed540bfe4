//! The transport that frames each message as one line of JSON text.
//!
//! [`StdioTransport`] holds what the transport over standard input and output
//! computes: the line to write for a message, and the message in a line that
//! was read. Reading and writing the streams is left to the caller.

use crate::error::TransportError;
use crate::message::{
    decode, decoded, encode, encoded, message_result_view, option_view, text_result_view, Message,
    MessageView,
};
use crate::text::{line_feed, strip_line_feed, without_line_feed};
use vstd::prelude::*;
use vstd::string::StringExecFns;

verus! {

/// The transport over standard input and output: one message per line.
#[derive(Debug, Clone, Copy, PartialEq, Eq, Structural)]
pub struct StdioTransport;

/// The line that is written for a message: its text, then one line feed.
pub open spec fn sent(message: MessageView) -> Result<Seq<char>, TransportError> {
    match encoded(message) {
        Ok(text) => Ok(text.push(line_feed())),
        Err(error) => Err(error),
    }
}

/// The message in what one read of a line gave. Nothing read means that the
/// input has ended. Else the line is decoded without the line feed that ends
/// it.
pub open spec fn received(line: Seq<char>) -> Result<MessageView, TransportError> {
    match unframed(line) {
        Some(text) => decoded(text),
        None => Err(TransportError::ChannelFailure),
    }
}

/// The text of a line that was read: none where nothing was read, else the
/// line without the line feed that ends it.
pub open spec fn unframed(line: Seq<char>) -> Option<Seq<char>> {
    if line.len() == 0 {
        None
    } else {
        Some(without_line_feed(line))
    }
}

/// Ends a text with one line feed.
pub fn frame(text: String) -> (line: String)
    ensures
        line@ == text@.push(line_feed()),
{
    let mut line = text;
    line.append("\n");
    proof {
        reveal_strlit("\n");
        assert(line@ =~= text@.push(line_feed()));
    }
    line
}

/// The text in what one read of a line gave: none where nothing was read,
/// which is the end of the input; else the line without the line feed that
/// ends it.
pub fn unframe(line: &str) -> (text: Option<&str>)
    ensures
        option_view(text) == unframed(line@),
{
    if line.is_empty() {
        None
    } else {
        Some(strip_line_feed(line))
    }
}

impl Default for StdioTransport {
    fn default() -> (transport: Self)
        ensures
            transport == StdioTransport,
    {
        StdioTransport
    }
}

impl StdioTransport {
    /// Opens the transport. The standard streams are open already, so
    /// nothing is done and nothing fails.
    pub fn open(&self) -> (done: Result<(), TransportError>)
        ensures
            done is Ok,
    {
        Ok(())
    }

    /// Closes the transport. The standard streams close with the process, so
    /// nothing is done and nothing fails.
    pub fn close(&self) -> (done: Result<(), TransportError>)
        ensures
            done is Ok,
    {
        Ok(())
    }

    /// The line to write to standard output for a message, line feed
    /// included. The caller writes it whole and flushes.
    pub fn send(&self, message: &Message) -> (line: Result<String, TransportError>)
        ensures
            text_result_view(line) == sent(message@),
    {
        match encode(message) {
            Ok(text) => Ok(frame(text)),
            Err(error) => Err(error),
        }
    }

    /// The message in a line that was read from standard input. The caller
    /// hands over what one read up to and including a line feed gave; the
    /// empty text stands for the end of the input.
    pub fn receive(&self, line: &str) -> (message: Result<Message, TransportError>)
        ensures
            message_result_view(message) == received(line@),
    {
        match unframe(line) {
            Some(text) => decode(text),
            None => Err(TransportError::ChannelFailure),
        }
    }
}

} // verus!
