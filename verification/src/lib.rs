//! An RPC session client: a login handshake over a duplex transport, then
//! any number of request/response exchanges matched by request id.
//!
//! The session is a state machine that is fed transport events and decoded
//! messages and answers with the messages to send and the calls to complete.
//! It performs no I/O itself.

pub mod digest;
pub mod frame;
pub mod handshake;
pub mod laws;
pub mod message;
pub mod registry;
pub mod session;
