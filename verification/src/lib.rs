//! Core of a host-controller command/response transport.
//!
//! The crate holds the device-independent logic of the transport: the
//! little-endian codec for fixed-width integers, the in-memory mirror of the
//! kernel event filter, the framing of incoming event packets, and the
//! request/response state machine that frames a command, narrows the filter,
//! correlates the response by opcode and restores the filter. The raw socket
//! itself (creation, send, receive, poll, socket options) is owned by the
//! caller, which drives the state machine with the outcomes of those calls.

pub mod error;
pub mod filter;
pub mod io;
pub mod event;
pub mod request;
