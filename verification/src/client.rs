//! The request/response bookkeeping of a client: sequence numbers, the table
//! of requests that wait for their response, the routing of what comes in,
//! and the reading of a response. The client owns no transport: it is handed
//! the slot through which a response will reach its caller, and says which
//! message to send and where a message that came in has to go.

use vstd::prelude::*;
use std::collections::BTreeMap;
use crate::error::Error;
use crate::protocol::constants::{CommandCode, NetworkStateCode, ParameterCode, StatusCode};
use crate::protocol::incoming::{IncomingMessage, IncomingPayload};
use crate::protocol::outgoing::{OutgoingMessage, OutgoingPayload};
use crate::protocol::types::ParameterValue;

verus! {

/// What a response is matched by: its sequence number and the wire code of
/// its command.
pub type SubscriptionId = (u8, u8);

/// The sequence number that follows `seq`: the next one, and 0 after 255.
pub open spec fn spec_next_seq(seq: u8) -> u8 {
    if seq == 255 {
        0
    } else {
        (seq + 1) as u8
    }
}

/// Where a message that came in goes.
pub enum Routed<S> {
    /// To the slot of the request that waited for it.
    Reply(S, IncomingMessage),
    /// Nobody waited for it: its payload goes to the notification stream.
    Notification(IncomingPayload),
}

/// The bookkeeping of a client. `S` is the slot through which a response is
/// handed to the caller that waits for it.
pub struct Client<S> {
    next_seq: u8,
    subscriptions: BTreeMap<SubscriptionId, S>,
}

impl<S> Client<S> {
    /// The sequence number that the next request gets.
    pub closed spec fn next_seq(&self) -> u8 {
        self.next_seq
    }

    /// The slots of the requests that wait for a response. There is at most
    /// one for a sequence number and command.
    pub closed spec fn pending(&self) -> Map<SubscriptionId, S> {
        self.subscriptions@
    }

    /// A client that has sent nothing yet.
    pub fn new() -> (client: Self)
        ensures
            client.next_seq() == 0,
            client.pending() == Map::<SubscriptionId, S>::empty(),
    {
        Client { next_seq: 0, subscriptions: BTreeMap::new() }
    }

    /// Takes the next sequence number. The one after it is one higher, and 0
    /// after 255.
    pub fn take_seq(&mut self) -> (seq: u8)
        ensures
            seq == old(self).next_seq(),
            final(self).next_seq() == spec_next_seq(seq),
            final(self).pending() == old(self).pending(),
    {
        let seq = self.next_seq;
        self.next_seq = seq.wrapping_add(1);
        seq
    }

    /// Registers `slot` for the response to `msg`. A slot that waited under
    /// the same sequence number and command is given up.
    pub fn send_request(&mut self, msg: &OutgoingMessage, slot: S)
        ensures
            final(self).next_seq() == old(self).next_seq(),
            final(self).pending() == old(self).pending().insert(
                (msg.seq, msg.command.spec_code()),
                slot,
            ),
    {
        let _ = self.subscriptions.insert((msg.seq, msg.command.code()), slot);
    }

    /// Starts a request for the value of `parameter`: returns the message to
    /// send, which carries the next sequence number, and registers `slot`
    /// for its response.
    pub fn read_parameter(&mut self, parameter: ParameterCode, slot: S) -> (msg: OutgoingMessage)
        ensures
            msg.command == CommandCode::ReadParameter,
            msg.seq == old(self).next_seq(),
            msg.payload == (OutgoingPayload::ReadParameter { parameter }),
            final(self).next_seq() == spec_next_seq(msg.seq),
            final(self).pending() == old(self).pending().insert(
                (msg.seq, CommandCode::ReadParameter.spec_code()),
                slot,
            ),
    {
        let seq = self.take_seq();
        let msg = OutgoingMessage::new_read_parameter(seq, parameter);
        self.send_request(&msg, slot);
        msg
    }

    /// Starts a request to set `parameter` to `value`: returns the message to
    /// send, which carries the next sequence number, and registers `slot`
    /// for its response.
    pub fn write_parameter(&mut self, parameter: ParameterCode, value: ParameterValue, slot: S) -> (msg:
        OutgoingMessage)
        ensures
            msg.command == CommandCode::WriteParameter,
            msg.seq == old(self).next_seq(),
            msg.payload == (OutgoingPayload::WriteParameter { parameter, value }),
            final(self).next_seq() == spec_next_seq(msg.seq),
            final(self).pending() == old(self).pending().insert(
                (msg.seq, CommandCode::WriteParameter.spec_code()),
                slot,
            ),
    {
        let seq = self.take_seq();
        let msg = OutgoingMessage::new_write_parameter(seq, parameter, value);
        self.send_request(&msg, slot);
        msg
    }

    /// Starts a request for the device state: returns the message to send,
    /// which carries the next sequence number, and registers `slot` for its
    /// response.
    pub fn device_state(&mut self, slot: S) -> (msg: OutgoingMessage)
        ensures
            msg.command == CommandCode::DeviceState,
            msg.seq == old(self).next_seq(),
            msg.payload == OutgoingPayload::DeviceState,
            final(self).next_seq() == spec_next_seq(msg.seq),
            final(self).pending() == old(self).pending().insert(
                (msg.seq, CommandCode::DeviceState.spec_code()),
                slot,
            ),
    {
        let seq = self.take_seq();
        let msg = OutgoingMessage::new_device_state(seq);
        self.send_request(&msg, slot);
        msg
    }

    /// Starts a request to change the network state to `state`: returns the
    /// message to send, which carries the next sequence number, and
    /// registers `slot` for its response.
    pub fn change_network_state(&mut self, state: NetworkStateCode, slot: S) -> (msg:
        OutgoingMessage)
        ensures
            msg.command == CommandCode::ChangeNetworkState,
            msg.seq == old(self).next_seq(),
            msg.payload == (OutgoingPayload::ChangeNetworkState { state }),
            final(self).next_seq() == spec_next_seq(msg.seq),
            final(self).pending() == old(self).pending().insert(
                (msg.seq, CommandCode::ChangeNetworkState.spec_code()),
                slot,
            ),
    {
        let seq = self.take_seq();
        let msg = OutgoingMessage::new_change_network_state(seq, state);
        self.send_request(&msg, slot);
        msg
    }

    /// Starts a request for the data indication that the module holds:
    /// returns the message to send, which carries the next sequence number,
    /// and registers `slot` for its response.
    pub fn aps_data_indication(&mut self, slot: S) -> (msg: OutgoingMessage)
        ensures
            msg.command == CommandCode::ApsDataIndication,
            msg.seq == old(self).next_seq(),
            msg.payload == OutgoingPayload::Empty,
            final(self).next_seq() == spec_next_seq(msg.seq),
            final(self).pending() == old(self).pending().insert(
                (msg.seq, CommandCode::ApsDataIndication.spec_code()),
                slot,
            ),
    {
        let seq = self.take_seq();
        let msg = OutgoingMessage::new_aps_data_indication(seq);
        self.send_request(&msg, slot);
        msg
    }

    /// Routes a message that came in. Where a slot waits under its sequence
    /// number and command, the slot leaves the table and the message goes
    /// to it. Where none does, the payload is a notification. A slot under
    /// the same sequence number and another command stays where it is.
    pub fn dispatch(&mut self, message: IncomingMessage) -> (r: Routed<S>)
        ensures
            final(self).next_seq() == old(self).next_seq(),
            final(self).pending() == old(self).pending().remove(
                (message.seq, message.command.spec_code()),
            ),
            match r {
                Routed::Reply(slot, delivered) => {
                    &&& old(self).pending().contains_key(
                        (message.seq, message.command.spec_code()),
                    )
                    &&& slot == old(self).pending()[(message.seq, message.command.spec_code())]
                    &&& delivered == message
                },
                Routed::Notification(payload) => {
                    &&& !old(self).pending().contains_key(
                        (message.seq, message.command.spec_code()),
                    )
                    &&& payload == message.payload
                },
            },
    {
        let key = (message.seq, message.command.code());
        match self.subscriptions.remove(&key) {
            Some(subscription) => Routed::Reply(subscription, message),
            None => Routed::Notification(message.payload),
        }
    }
}

/// What the caller of a read-parameter request gets from its response: the
/// value, where the status is success and the payload that of a
/// read-parameter response.
pub fn read_parameter_reply(response: IncomingMessage) -> (r: Result<ParameterValue, Error>)
    ensures
        response.status != StatusCode::Success ==> r == Err::<ParameterValue, Error>(
            Error::NonSuccessResponse(response.status),
        ),
        response.status == StatusCode::Success ==> match response.payload {
            IncomingPayload::ReadParameter { value, .. } => r == Ok::<ParameterValue, Error>(value),
            _ => r == Err::<ParameterValue, Error>(
                Error::UnexpectedResponsePayload("ReadParameter", response.payload),
            ),
        },
{
    match response.status {
        StatusCode::Success => match response.payload {
            IncomingPayload::ReadParameter { value, .. } => Ok(value),
            payload => Err(Error::UnexpectedResponsePayload("ReadParameter", payload)),
        },
        status => Err(Error::NonSuccessResponse(status)),
    }
}

/// What the caller of a write-parameter request gets from its response:
/// nothing, where the status is success and the payload that of a
/// write-parameter response.
pub fn write_parameter_reply(response: IncomingMessage) -> (r: Result<(), Error>)
    ensures
        response.status != StatusCode::Success ==> r == Err::<(), Error>(
            Error::NonSuccessResponse(response.status),
        ),
        response.status == StatusCode::Success ==> match response.payload {
            IncomingPayload::WriteParameter { .. } => r == Ok::<(), Error>(()),
            _ => r == Err::<(), Error>(
                Error::UnexpectedResponsePayload("WriteParameter", response.payload),
            ),
        },
{
    match response.status {
        StatusCode::Success => match response.payload {
            IncomingPayload::WriteParameter { .. } => Ok(()),
            payload => Err(Error::UnexpectedResponsePayload("WriteParameter", payload)),
        },
        status => Err(Error::NonSuccessResponse(status)),
    }
}

/// What the caller of a device-state request gets from its response: the
/// network state, where the status is success and the payload a device
/// state.
pub fn device_state_reply(response: IncomingMessage) -> (r: Result<NetworkStateCode, Error>)
    ensures
        response.status != StatusCode::Success ==> r == Err::<NetworkStateCode, Error>(
            Error::NonSuccessResponse(response.status),
        ),
        response.status == StatusCode::Success ==> match response.payload {
            IncomingPayload::DeviceState { state, .. } => r == Ok::<NetworkStateCode, Error>(state),
            _ => r == Err::<NetworkStateCode, Error>(
                Error::UnexpectedResponsePayload("DeviceState", response.payload),
            ),
        },
{
    match response.status {
        StatusCode::Success => match response.payload {
            IncomingPayload::DeviceState { state, .. } => Ok(state),
            payload => Err(Error::UnexpectedResponsePayload("DeviceState", payload)),
        },
        status => Err(Error::NonSuccessResponse(status)),
    }
}

/// What the caller of a change-network-state request gets from its
/// response: nothing, where the status is success and the payload that of a
/// change-network-state response.
pub fn change_network_state_reply(response: IncomingMessage) -> (r: Result<(), Error>)
    ensures
        response.status != StatusCode::Success ==> r == Err::<(), Error>(
            Error::NonSuccessResponse(response.status),
        ),
        response.status == StatusCode::Success ==> match response.payload {
            IncomingPayload::ChangeNetworkState { .. } => r == Ok::<(), Error>(()),
            _ => r == Err::<(), Error>(
                Error::UnexpectedResponsePayload("ChangeNetworkState", response.payload),
            ),
        },
{
    match response.status {
        StatusCode::Success => match response.payload {
            IncomingPayload::ChangeNetworkState { .. } => Ok(()),
            payload => Err(Error::UnexpectedResponsePayload("ChangeNetworkState", payload)),
        },
        status => Err(Error::NonSuccessResponse(status)),
    }
}

/// What the caller of a request for a data indication gets from its
/// response: the payload, where the status is success and the payload a
/// data indication.
pub fn aps_data_indication_reply(response: IncomingMessage) -> (r: Result<IncomingPayload, Error>)
    ensures
        response.status != StatusCode::Success ==> r == Err::<IncomingPayload, Error>(
            Error::NonSuccessResponse(response.status),
        ),
        response.status == StatusCode::Success ==> match response.payload {
            IncomingPayload::ApsDataIndication { .. } => r == Ok::<IncomingPayload, Error>(
                response.payload,
            ),
            _ => r == Err::<IncomingPayload, Error>(
                Error::UnexpectedResponsePayload("ApsDataIndication", response.payload),
            ),
        },
{
    match response.status {
        StatusCode::Success => match response.payload {
            IncomingPayload::ApsDataIndication {
                source,
                destination,
                profile_id,
                cluster_id,
                asdu,
                lqi,
                rssi,
            } => Ok(
                IncomingPayload::ApsDataIndication {
                    source,
                    destination,
                    profile_id,
                    cluster_id,
                    asdu,
                    lqi,
                    rssi,
                },
            ),
            payload => Err(Error::UnexpectedResponsePayload("ApsDataIndication", payload)),
        },
        status => Err(Error::NonSuccessResponse(status)),
    }
}

} // verus!
