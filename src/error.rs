//! Errors reported by the client.

use vstd::prelude::*;

verus! {

/// Errors that can occur when using the RPC client.
#[derive(Debug, Clone, PartialEq, Eq)]
pub enum Error {
    /// The transport failed: the connection, the TLS or HTTP handshake, or a
    /// read or write on the socket. Holds the underlying error's message.
    Transport(String),
    /// No reply arrived within the reply budget.
    Timeout,
    /// The server rejected the request.
    Rpc { code: i64, message: String },
    /// A frame other than a text frame arrived where a reply was expected.
    InvalidResponse,
    /// The peer closed the connection, or no connection is open.
    ConnectionClosed,
    /// The server refused the credentials during the handshake.
    AuthFailed,
    /// A reply that is not a well-formed envelope.
    MalformedPayload,
    /// A reply envelope with both or neither of `result` and `error`.
    ProtocolViolation,
    /// Any other failure, with a description.
    Other(String),
}

} // verus!
