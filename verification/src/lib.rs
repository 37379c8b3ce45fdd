//! Protocol core of a minimal WebSocket endpoint: the opening handshake,
//! the frame codec and the per-connection state machine.
//!
//! Everything here works on plain values. Reading from and writing to a
//! socket is left to the caller, which drives [`connection::step`] by
//! performing the action it asks for and reporting what came of it.

pub mod big_endian;
pub mod connection;
pub mod encoding;
pub mod error;
pub mod frame;
pub mod handshake;
pub mod page;
pub mod request;
