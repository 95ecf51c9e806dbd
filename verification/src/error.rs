//! What can go wrong in the codec and in the handling of a response.

use vstd::prelude::*;
use crate::protocol::constants::StatusCode;
use crate::protocol::incoming::IncomingPayload;

verus! {

/// A failure of the SLIP byte-stuffing layer.
#[derive(Debug, PartialEq, Eq, Clone, Copy, Structural)]
pub enum SlipError {
    /// The output has no room for the byte that opens a frame.
    NoOutputSpaceForHeader,
    /// The output has no room for the byte that closes a frame.
    NoOutputSpaceForEndByte,
    /// The input does not start with the byte that opens a frame.
    BadHeaderDecode,
    /// An escape byte is followed by a byte that completes no escape sequence.
    BadEscapeSequenceDecode,
}

#[derive(Debug)]
pub enum Error {
    /// The byte-stuffing layer failed.
    SLIP(SlipError),
    /// An outgoing message could not be serialized.
    Encoding(&'static str),
    /// An incoming frame is malformed.
    Decoding(&'static str),
    /// A channel inside the process was cancelled.
    Internal(&'static str),
    /// The module answered with a status other than success.
    NonSuccessResponse(StatusCode),
    /// The module answered with success, but with a payload of another shape
    /// than the request calls for: the expected shape's name, and the payload.
    UnexpectedResponsePayload(&'static str, IncomingPayload),
}

} // verus!
