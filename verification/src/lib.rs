//! The protocol core of a one-shot OTP bridge.
//!
//! A host process reads one length-prefixed JSON request from a byte stream,
//! consults a credential store, a credential engine and a clock, and writes
//! one length-prefixed JSON response. This crate holds everything about that
//! exchange that is not I/O: the wire framing, the message model, the JSON
//! shapes, and the decisions that lead from a request to its response.

pub mod dispatch;
pub mod exchange;
pub mod framing;
pub mod json;
pub mod message;
