//! A pending call: the receiving end of the slot that a response comes
//! through.

use vstd::prelude::*;
use crate::error::Error;
use crate::protocol::incoming::IncomingMessage;

verus! {

/// What the receiving end of a slot says when it is asked.
#[derive(Debug)]
pub enum Received {
    /// Nothing has come yet.
    Pending,
    /// The response has come.
    Resolved(IncomingMessage),
    /// The sending end is gone: no response will ever come.
    Cancelled,
}

/// What asking a pending call gives: nothing yet while it is pending, the
/// response once it has come, and an error once the sending end is gone.
pub fn poll(received: Received) -> (r: Result<Option<IncomingMessage>, Error>)
    ensures
        match received {
            Received::Pending => r == Ok::<Option<IncomingMessage>, Error>(None),
            Received::Resolved(message) => r == Ok::<Option<IncomingMessage>, Error>(
                Some(message),
            ),
            Received::Cancelled => r == Err::<Option<IncomingMessage>, Error>(
                Error::Internal("Channel canceled"),
            ),
        },
{
    match received {
        Received::Pending => Ok(None),
        Received::Resolved(message) => Ok(Some(message)),
        Received::Cancelled => Err(Error::Internal("Channel canceled")),
    }
}

} // verus!
