//! The wire protocol: constants, value types, message encoding and decoding.

pub mod buffer;
pub mod codec;
pub mod constants;
pub mod endian;
pub mod incoming;
pub mod laws;
pub mod outgoing;
pub mod slip;
pub mod types;
