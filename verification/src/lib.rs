//! Host-side driver core for a ZigBee coordinator module behind a serial line:
//! the message schema, the wire codec and the request/response bookkeeping,
//! each with a machine-checked contract.

pub mod call;
pub mod client;
pub mod error;
pub mod protocol;

pub use client::{Client, Routed};
pub use error::{Error, SlipError};
pub use protocol::codec::Codec;
pub use protocol::constants;
pub use protocol::incoming::{IncomingMessage, IncomingPayload};
pub use protocol::outgoing::{OutgoingMessage, OutgoingPayload};
pub use protocol::types;
