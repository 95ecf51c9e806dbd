//! Messages that come from the module, and how they are read from bytes.

use vstd::prelude::*;
use crate::protocol::constants::{CommandCode, NetworkStateCode, ParameterCode, StatusCode};
use crate::protocol::endian::{get_u16, get_u64, get_uint, le_value};
use crate::protocol::types::{Address, ParameterValue};
use crate::error::Error;

verus! {

/// The payload of a response or of a notification.
#[derive(Debug)]
pub enum IncomingPayload {
    ReadParameter { parameter: ParameterCode, value: ParameterValue },
    WriteParameter { parameter: ParameterCode },
    DeviceState {
        state: NetworkStateCode,
        apsde_data_confirm: bool,
        apsde_data_indication: bool,
        configuration_changed: bool,
        apsde_data_request: bool,
    },
    ChangeNetworkState { state: NetworkStateCode },
    ApsDataIndication {
        source: Address,
        destination: Address,
        profile_id: u16,
        cluster_id: u16,
        asdu: Vec<u8>,
        lqi: u8,
        rssi: i8,
    },
}

/// A payload as a mathematical value: the data unit is a sequence of bytes.
pub enum PayloadView {
    ReadParameter { parameter: ParameterCode, value: ParameterValue },
    WriteParameter { parameter: ParameterCode },
    DeviceState {
        state: NetworkStateCode,
        apsde_data_confirm: bool,
        apsde_data_indication: bool,
        configuration_changed: bool,
        apsde_data_request: bool,
    },
    ChangeNetworkState { state: NetworkStateCode },
    ApsDataIndication {
        source: Address,
        destination: Address,
        profile_id: u16,
        cluster_id: u16,
        asdu: Seq<u8>,
        lqi: u8,
        rssi: i8,
    },
}

impl View for IncomingPayload {
    type V = PayloadView;

    open spec fn view(&self) -> PayloadView {
        match self {
            IncomingPayload::ReadParameter { parameter, value } => PayloadView::ReadParameter {
                parameter: *parameter,
                value: *value,
            },
            IncomingPayload::WriteParameter { parameter } => PayloadView::WriteParameter {
                parameter: *parameter,
            },
            IncomingPayload::DeviceState {
                state,
                apsde_data_confirm,
                apsde_data_indication,
                configuration_changed,
                apsde_data_request,
            } => PayloadView::DeviceState {
                state: *state,
                apsde_data_confirm: *apsde_data_confirm,
                apsde_data_indication: *apsde_data_indication,
                configuration_changed: *configuration_changed,
                apsde_data_request: *apsde_data_request,
            },
            IncomingPayload::ChangeNetworkState { state } => PayloadView::ChangeNetworkState {
                state: *state,
            },
            IncomingPayload::ApsDataIndication {
                source,
                destination,
                profile_id,
                cluster_id,
                asdu,
                lqi,
                rssi,
            } => PayloadView::ApsDataIndication {
                source: *source,
                destination: *destination,
                profile_id: *profile_id,
                cluster_id: *cluster_id,
                asdu: asdu@,
                lqi: *lqi,
                rssi: *rssi,
            },
        }
    }
}

/// A frame that came from the module.
#[derive(Debug)]
pub struct IncomingMessage {
    pub command: CommandCode,
    pub seq: u8,
    pub status: StatusCode,
    pub payload: IncomingPayload,
}

/// A message as a mathematical value.
pub struct MessageView {
    pub command: CommandCode,
    pub seq: u8,
    pub status: StatusCode,
    pub payload: PayloadView,
}

impl View for IncomingMessage {
    type V = MessageView;

    open spec fn view(&self) -> MessageView {
        MessageView {
            command: self.command,
            seq: self.seq,
            status: self.status,
            payload: self.payload@,
        }
    }
}

/// Shortest frame: command, sequence number, status and the frame length.
pub const FRAME_MIN_LEN: usize = 5;

/// What a device-state byte says: the network state in its two low bits, then
/// one flag per bit for a pending data confirm, a pending data indication, a
/// changed configuration and a free slot for a data request. The two high
/// bits are ignored.
pub open spec fn spec_decode_device_state(state: u8) -> (NetworkStateCode, bool, bool, bool, bool) {
    (
        NetworkStateCode::spec_from_code(state & 0x3).unwrap(),
        (state & 0x4) != 0,
        (state & 0x8) != 0,
        (state & 0x10) != 0,
        (state & 0x20) != 0,
    )
}

/// Every byte is a device state: the two low bits always name a network state.
pub fn decode_device_state(state: u8) -> (r: Option<(NetworkStateCode, bool, bool, bool, bool)>)
    ensures
        r == Some(spec_decode_device_state(state)),
        NetworkStateCode::spec_from_code(state & 0x3) == Some(r.unwrap().0),
{
    assert(state & 0x3 < 4) by (bit_vector);
    let network_state = match NetworkStateCode::from_code(state & 0x3) {
        Some(s) => s,
        None => {
            return None;
        },
    };
    let apsde_data_confirm = (state & 0x4) != 0;
    let apsde_data_indication = (state & 0x8) != 0;
    let configuration_changed = (state & 0x10) != 0;
    let apsde_data_request = (state & 0x20) != 0;
    Some(
        (
            network_state,
            apsde_data_confirm,
            apsde_data_indication,
            configuration_changed,
            apsde_data_request,
        ),
    )
}

/// The payload that a device-state byte decodes to.
pub open spec fn spec_device_state_payload(state: u8) -> PayloadView {
    let d = spec_decode_device_state(state);
    PayloadView::DeviceState {
        state: d.0,
        apsde_data_confirm: d.1,
        apsde_data_indication: d.2,
        configuration_changed: d.3,
        apsde_data_request: d.4,
    }
}

/// Why no address can be read at some place of a frame.
#[derive(Debug, PartialEq, Eq, Clone, Copy, Structural)]
pub enum AddressError {
    /// The frame ends before the address does.
    TooShort,
    /// The mode byte is none of group, network and extended.
    UnknownMode,
}

/// The address that starts at `at`, and the place behind it. A mode byte
/// comes first. A group address is followed by one byte that is skipped, a
/// network or extended address by its endpoint.
pub open spec fn spec_read_address(input: Seq<u8>, at: int) -> Result<(Address, int), AddressError> {
    if input.len() <= at {
        Err(AddressError::TooShort)
    } else if input[at] == 1 {
        if input.len() < at + 4 {
            Err(AddressError::TooShort)
        } else {
            Ok((Address::Group(le_value(input.subrange(at + 1, at + 3)) as u16), at + 4))
        }
    } else if input[at] == 2 {
        if input.len() < at + 4 {
            Err(AddressError::TooShort)
        } else {
            Ok(
                (
                    Address::NWK(le_value(input.subrange(at + 1, at + 3)) as u16, input[at + 3]),
                    at + 4,
                ),
            )
        }
    } else if input[at] == 3 {
        if input.len() < at + 10 {
            Err(AddressError::TooShort)
        } else {
            Ok(
                (
                    Address::IEEE(le_value(input.subrange(at + 1, at + 9)) as u64, input[at + 9]),
                    at + 10,
                ),
            )
        }
    } else {
        Err(AddressError::UnknownMode)
    }
}

/// Reads the address that starts at `at`.
pub fn read_address(input: &[u8], at: usize) -> (r: Result<(Address, usize), AddressError>)
    ensures
        match r {
            Ok((address, next)) => spec_read_address(input@, at as int) == Ok::<
                (Address, int),
                AddressError,
            >((address, next as int)) && at < next <= input@.len(),
            Err(e) => spec_read_address(input@, at as int) == Err::<(Address, int), AddressError>(
                e,
            ),
        },
{
    if input.len() <= at {
        return Err(AddressError::TooShort);
    }
    let room = input.len() - at;
    let mode = input[at];
    if mode == 0x1 {
        if room < 4 {
            return Err(AddressError::TooShort);
        }
        let address = get_u16(input, at + 1);
        Ok((Address::Group(address), at + 4))
    } else if mode == 0x2 {
        if room < 4 {
            return Err(AddressError::TooShort);
        }
        let address = get_u16(input, at + 1);
        let endpoint = input[at + 3];
        Ok((Address::NWK(address, endpoint), at + 4))
    } else if mode == 0x3 {
        if room < 10 {
            return Err(AddressError::TooShort);
        }
        let address = get_u64(input, at + 1);
        let endpoint = input[at + 9];
        Ok((Address::IEEE(address, endpoint), at + 10))
    } else {
        Err(AddressError::UnknownMode)
    }
}

/// A byte read as a signed number in two's complement.
pub open spec fn spec_signed(byte: u8) -> i8 {
    if byte < 128 {
        byte as i8
    } else {
        (byte - 256) as i8
    }
}

fn signed(byte: u8) -> (r: i8)
    ensures
        r == spec_signed(byte),
{
    if byte < 128 {
        byte as i8
    } else {
        (byte as i16 - 256) as i8
    }
}

/// The body of a read-parameter response: the payload length, the parameter
/// and its value, whose width is the payload length less one and has to be 1,
/// 2, 4 or 8 bytes.
pub open spec fn spec_read_parameter(input: Seq<u8>) -> Result<PayloadView, &'static str> {
    let payload_len = le_value(input.subrange(0, 2));
    let width = payload_len - 1;
    if input.len() <= 3 {
        Err("Too short payload for ReadParameter")
    } else if input.len() < 2 + payload_len {
        Err("Too short payload: incorrect payload length")
    } else if ParameterCode::spec_from_code(input[2]) is None {
        Err("Unknown parameter id")
    } else if !(width == 1 || width == 2 || width == 4 || width == 8) {
        Err("Invalid payload length for ReadParameter")
    } else {
        Ok(
            PayloadView::ReadParameter {
                parameter: ParameterCode::spec_from_code(input[2]).unwrap(),
                value: ParameterValue::spec_from_value_and_len(
                    le_value(input.subrange(3, 3 + width)) as u64,
                    width as usize,
                ).unwrap(),
            },
        )
    }
}

/// The body of a write-parameter response: a payload length of at least one,
/// and the parameter.
pub open spec fn spec_write_parameter(input: Seq<u8>) -> Result<PayloadView, &'static str> {
    if input.len() < 3 {
        Err("Too short payload for WriteParameter")
    } else if le_value(input.subrange(0, 2)) < 1 {
        Err("Invalid payload length for WriteParameter")
    } else if ParameterCode::spec_from_code(input[2]) is None {
        Err("Unknown parameter id")
    } else {
        Ok(
            PayloadView::WriteParameter {
                parameter: ParameterCode::spec_from_code(input[2]).unwrap(),
            },
        )
    }
}

/// The body of a device-state response or notification: one byte.
pub open spec fn spec_device_state(input: Seq<u8>) -> Result<PayloadView, &'static str> {
    if input.len() < 1 {
        Err("Too short payload for DeviceState")
    } else {
        Ok(spec_device_state_payload(input[0]))
    }
}

/// The body of a change-network-state response: the code of a network state.
pub open spec fn spec_change_network_state(input: Seq<u8>) -> Result<PayloadView, &'static str> {
    if input.len() < 1 {
        Err("Too short payload for DeviceState")
    } else if NetworkStateCode::spec_from_code(input[0]) is None {
        Err("Unknown network state")
    } else {
        Ok(
            PayloadView::ChangeNetworkState {
                state: NetworkStateCode::spec_from_code(input[0]).unwrap(),
            },
        )
    }
}

/// What follows the two addresses of a data indication, which end at `next`:
/// profile, cluster, the length of the data unit and the data unit, then
/// eight bytes of which the third is the link quality and the last the
/// signal strength.
pub open spec fn spec_aps_data_tail(
    input: Seq<u8>,
    destination: Address,
    source: Address,
    next: int,
) -> Result<PayloadView, &'static str> {
    let asdu_len = le_value(input.subrange(next + 4, next + 6));
    let after = next + 6 + asdu_len;
    if input.len() < next + 6 {
        Err("Too short payload for ApsDataIndication")
    } else if input.len() < after + 8 {
        Err("Too short payload for ApsDataIndication")
    } else {
        Ok(
            PayloadView::ApsDataIndication {
                source,
                destination,
                profile_id: le_value(input.subrange(next, next + 2)) as u16,
                cluster_id: le_value(input.subrange(next + 2, next + 4)) as u16,
                asdu: input.subrange(next + 6, after),
                lqi: input[after + 2],
                rssi: spec_signed(input[after + 7]),
            },
        )
    }
}

/// The body of a data indication: the payload length, which the body must
/// cover, a device-state byte that is passed over, the destination address
/// and the source address, and the rest as `spec_aps_data_tail` has it. Every
/// byte that is read must lie inside the body.
pub open spec fn spec_aps_data_indication(input: Seq<u8>) -> Result<PayloadView, &'static str> {
    if input.len() < 2 {
        Err("Too short payload for ApsDataIndication")
    } else if input.len() < 2 + le_value(input.subrange(0, 2)) {
        Err("Too short payload for ApsDataIndication: invalid payload_length")
    } else {
        match spec_read_address(input, 3) {
            Err(AddressError::TooShort) => Err("Too short payload for ApsDataIndication"),
            Err(AddressError::UnknownMode) => Err("Unknown address mode for destination"),
            Ok((destination, next)) => match spec_read_address(input, next) {
                Err(AddressError::TooShort) => Err("Too short payload for ApsDataIndication"),
                Err(AddressError::UnknownMode) => Err("Unknown address mode for source"),
                Ok((source, next)) => spec_aps_data_tail(input, destination, source, next),
            },
        }
    }
}

/// The payload that the body `input` of a frame with the given command
/// holds, or the reason why it holds none.
pub open spec fn spec_read_payload(command: CommandCode, input: Seq<u8>) -> Result<
    PayloadView,
    &'static str,
> {
    match command {
        CommandCode::ReadParameter => spec_read_parameter(input),
        CommandCode::WriteParameter => spec_write_parameter(input),
        CommandCode::DeviceState => spec_device_state(input),
        CommandCode::ChangeNetworkState => spec_change_network_state(input),
        CommandCode::ApsDataIndication => spec_aps_data_indication(input),
        CommandCode::DeviceStateChanged => spec_device_state(input),
        _ => Err("This command decoder is not yet implemented"),
    }
}

/// `r` is the outcome that `expected` describes: the payload with that view,
/// or the decoding error with that message.
pub open spec fn payload_outcome(
    r: Result<IncomingPayload, Error>,
    expected: Result<PayloadView, &'static str>,
) -> bool {
    match r {
        Ok(payload) => expected == Ok::<PayloadView, &'static str>(payload@),
        Err(e) => expected is Err && e == Error::Decoding(expected->Err_0),
    }
}

fn device_state_payload(state: u8) -> (r: Result<IncomingPayload, Error>)
    ensures
        r is Ok,
        r->Ok_0@ == spec_device_state_payload(state),
{
    match decode_device_state(state) {
        None => Err(Error::Decoding("Cannot decode device state")),
        Some(
            (
                state,
                apsde_data_confirm,
                apsde_data_indication,
                configuration_changed,
                apsde_data_request,
            ),
        ) => Ok(
            IncomingPayload::DeviceState {
                state,
                apsde_data_confirm,
                apsde_data_indication,
                configuration_changed,
                apsde_data_request,
            },
        ),
    }
}

impl IncomingPayload {
    fn read_parameter(input: &[u8]) -> (r: Result<Self, Error>)
        ensures
            payload_outcome(r, spec_read_parameter(input@)),
    {
        if input.len() <= 3 {
            return Err(Error::Decoding("Too short payload for ReadParameter"));
        }
        let payload_len = get_u16(input, 0) as usize;
        if input.len() - 2 < payload_len {
            return Err(Error::Decoding("Too short payload: incorrect payload length"));
        }
        let parameter = match ParameterCode::from_code(input[2]) {
            None => {
                return Err(Error::Decoding("Unknown parameter id"));
            },
            Some(parameter) => parameter,
        };
        if !(payload_len == 2 || payload_len == 3 || payload_len == 5 || payload_len == 9) {
            return Err(Error::Decoding("Invalid payload length for ReadParameter"));
        }
        let parameter_len = payload_len - 1;
        let parameter_value = get_uint(input, 3, parameter_len);
        proof {
            crate::protocol::endian::lemma_le_value_bound(
                input@.subrange(3, 3 + parameter_len as int),
            );
            crate::protocol::endian::lemma_pow256_values();
        }
        match ParameterValue::from_value_and_len(parameter_value, parameter_len) {
            None => Err(Error::Decoding("Invalid payload length for ReadParameter")),
            Some(value) => Ok(IncomingPayload::ReadParameter { parameter, value }),
        }
    }

    fn write_parameter(input: &[u8]) -> (r: Result<Self, Error>)
        ensures
            payload_outcome(r, spec_write_parameter(input@)),
    {
        if input.len() < 3 {
            return Err(Error::Decoding("Too short payload for WriteParameter"));
        }
        let payload_len = get_u16(input, 0) as usize;
        if payload_len < 1 {
            return Err(Error::Decoding("Invalid payload length for WriteParameter"));
        }
        match ParameterCode::from_code(input[2]) {
            None => Err(Error::Decoding("Unknown parameter id")),
            Some(parameter) => Ok(IncomingPayload::WriteParameter { parameter }),
        }
    }

    fn aps_data_indication(input: &[u8]) -> (r: Result<Self, Error>)
        ensures
            payload_outcome(r, spec_aps_data_indication(input@)),
    {
        if input.len() < 2 {
            return Err(Error::Decoding("Too short payload for ApsDataIndication"));
        }
        let payload_length = get_u16(input, 0) as usize;
        if input.len() - 2 < payload_length {
            return Err(
                Error::Decoding("Too short payload for ApsDataIndication: invalid payload_length"),
            );
        }
        let (destination, next_offset) = match read_address(input, 3) {
            Ok(found) => found,
            Err(AddressError::TooShort) => {
                return Err(Error::Decoding("Too short payload for ApsDataIndication"));
            },
            Err(AddressError::UnknownMode) => {
                return Err(Error::Decoding("Unknown address mode for destination"));
            },
        };
        let (source, next_offset) = match read_address(input, next_offset) {
            Ok(found) => found,
            Err(AddressError::TooShort) => {
                return Err(Error::Decoding("Too short payload for ApsDataIndication"));
            },
            Err(AddressError::UnknownMode) => {
                return Err(Error::Decoding("Unknown address mode for source"));
            },
        };
        if input.len() - next_offset < 6 {
            return Err(Error::Decoding("Too short payload for ApsDataIndication"));
        }
        let profile_id = get_u16(input, next_offset);
        let cluster_id = get_u16(input, next_offset + 2);
        let asdu_len = get_u16(input, next_offset + 4) as usize;
        let asdu_start = next_offset + 6;
        if input.len() - asdu_start < asdu_len || input.len() - asdu_start - asdu_len < 8 {
            return Err(Error::Decoding("Too short payload for ApsDataIndication"));
        }
        let next_offset = asdu_start + asdu_len;
        let asdu = vstd::slice::slice_to_vec(&input[asdu_start..next_offset]);
        let lqi = input[next_offset + 2];
        let rssi = signed(input[next_offset + 7]);
        Ok(
            IncomingPayload::ApsDataIndication {
                source,
                destination,
                profile_id,
                cluster_id,
                asdu,
                lqi,
                rssi,
            },
        )
    }

    /// Reads the body of a frame, which is what follows the five bytes of
    /// its header, as the payload that `command` calls for. The result is
    /// the payload that `spec_read_payload` describes; where that is an
    /// error, it is a decoding error with the same message.
    pub fn read(command: &CommandCode, input: &[u8]) -> (r: Result<Self, Error>)
        ensures
            payload_outcome(r, spec_read_payload(*command, input@)),
    {
        match command {
            CommandCode::ReadParameter => Self::read_parameter(input),
            CommandCode::WriteParameter => Self::write_parameter(input),
            CommandCode::DeviceState | CommandCode::DeviceStateChanged => {
                if input.len() < 1 {
                    return Err(Error::Decoding("Too short payload for DeviceState"));
                }
                device_state_payload(input[0])
            },
            CommandCode::ChangeNetworkState => {
                if input.len() < 1 {
                    return Err(Error::Decoding("Too short payload for DeviceState"));
                }
                match NetworkStateCode::from_code(input[0]) {
                    None => Err(Error::Decoding("Unknown network state")),
                    Some(state) => Ok(IncomingPayload::ChangeNetworkState { state }),
                }
            },
            CommandCode::ApsDataIndication => Self::aps_data_indication(input),
            _ => Err(Error::Decoding("This command decoder is not yet implemented")),
        }
    }
}

/// The message that the frame `input` holds, or the reason why it holds
/// none. A frame starts with the command, the sequence number, the status and
/// its own length in two bytes; the length must not exceed the input nor fall
/// short of the header, and the payload is what lies between the header and
/// that length. Bytes behind the length are not looked at.
pub open spec fn spec_read(input: Seq<u8>) -> Result<MessageView, &'static str> {
    let frame_len = le_value(input.subrange(3, 5));
    if input.len() < FRAME_MIN_LEN {
        Err("Frame is too short: cannot read header")
    } else if input.len() < frame_len {
        Err("Frame is too short: invalid Frame length value")
    } else if CommandCode::spec_from_code(input[0]) is None {
        Err("Invalid commande code")
    } else if StatusCode::spec_from_code(input[2]) is None {
        Err("Invalid status code")
    } else if frame_len < FRAME_MIN_LEN {
        Err("Frame is too short: invalid Frame length value")
    } else {
        let command = CommandCode::spec_from_code(input[0]).unwrap();
        match spec_read_payload(command, input.subrange(FRAME_MIN_LEN as int, frame_len as int)) {
            Err(reason) => Err(reason),
            Ok(payload) => Ok(
                MessageView {
                    command,
                    seq: input[1],
                    status: StatusCode::spec_from_code(input[2]).unwrap(),
                    payload,
                },
            ),
        }
    }
}

/// `r` is the outcome that `expected` describes: the message with that view,
/// or the decoding error with that message.
pub open spec fn message_outcome(
    r: Result<IncomingMessage, Error>,
    expected: Result<MessageView, &'static str>,
) -> bool {
    match r {
        Ok(message) => expected == Ok::<MessageView, &'static str>(message@),
        Err(e) => expected is Err && e == Error::Decoding(expected->Err_0),
    }
}

impl IncomingMessage {
    /// Reads a frame. The result is the message that `spec_read` describes;
    /// where that is an error, it is a decoding error with the same message.
    pub fn read(input: &[u8]) -> (r: Result<Self, Error>)
        ensures
            message_outcome(r, spec_read(input@)),
    {
        if input.len() < FRAME_MIN_LEN {
            return Err(Error::Decoding("Frame is too short: cannot read header"));
        }
        let command = CommandCode::from_code(input[0]);
        let seq = input[1];
        let status = StatusCode::from_code(input[2]);
        let frame_len = get_u16(input, 3) as usize;
        if input.len() < frame_len {
            return Err(Error::Decoding("Frame is too short: invalid Frame length value"));
        }
        match (command, status) {
            (None, _) => Err(Error::Decoding("Invalid commande code")),
            (_, None) => Err(Error::Decoding("Invalid status code")),
            (Some(command), Some(status)) => {
                if frame_len < FRAME_MIN_LEN {
                    return Err(Error::Decoding("Frame is too short: invalid Frame length value"));
                }
                match IncomingPayload::read(&command, &input[FRAME_MIN_LEN..frame_len]) {
                    Err(e) => Err(e),
                    Ok(payload) => Ok(IncomingMessage { command, seq, status, payload }),
                }
            },
        }
    }
}

} // verus!
