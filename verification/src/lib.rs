//! Message model and line framing for a JSON-RPC 2.0 transport.
//!
//! [`message`] holds the three kinds of message and reads them from and writes
//! them to JSON values; [`wire`] reads and writes JSON text; [`transport`]
//! frames each message as one line. [`laws`] states what holds of all of them.

pub mod error;
pub mod json;
pub mod laws;
pub mod message;
pub mod text;
pub mod transport;
pub mod wire;

pub use crate::error::TransportError;
pub use crate::json::{Json, JsonNumber};
pub use crate::message::{
    decode, encode, JsonRpcError, JsonRpcMessage, JsonRpcNotification, JsonRpcRequest,
    JsonRpcResponse, JsonRpcVersion, Message, RequestId,
};
pub use crate::transport::StdioTransport;
