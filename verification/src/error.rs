//! Why a connection was closed.

use vstd::prelude::*;

verus! {

/// A failure that ends one connection. It never reaches another
/// connection, nor the listener.
#[derive(Clone, Copy, Debug, PartialEq, Eq, Structural)]
pub enum ConnectionError {
    /// The first buffer is not one complete, valid HTTP request.
    MalformedRequest,
    /// `/websocket` was asked for without a `Sec-WebSocket-Key` header.
    MissingHandshakeKey,
    /// A frame that a client may not send, or less of a frame than its
    /// header declares.
    ProtocolViolation,
    /// The payload of a text frame is not UTF-8.
    InvalidUtf8Payload,
    /// Reading from or writing to the socket failed.
    IoError,
}

} // verus!
