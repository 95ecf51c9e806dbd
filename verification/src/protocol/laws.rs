//! What holds between writing a message and reading a frame.

use vstd::prelude::*;
use crate::protocol::constants::{CommandCode, NetworkStateCode, ParameterCode, StatusCode};
use crate::protocol::endian::{
    le_bytes, le_value, lemma_le_bytes_len, lemma_le_bytes_two, lemma_le_two,
};
use crate::protocol::codec::spec_crc;
use crate::protocol::incoming::{spec_read, MessageView, PayloadView, FRAME_MIN_LEN};
use crate::protocol::outgoing::{OutgoingMessage, OutgoingPayload};

verus! {

/// The code of a command reads back as that command.
pub proof fn lemma_command_code_round_trip(command: CommandCode)
    ensures
        CommandCode::spec_from_code(command.spec_code()) == Some(command),
{
}

/// The code of a parameter reads back as that parameter.
pub proof fn lemma_parameter_code_round_trip(parameter: ParameterCode)
    ensures
        ParameterCode::spec_from_code(parameter.spec_code()) == Some(parameter),
{
}

/// The code of a status reads back as that status.
pub proof fn lemma_status_code_round_trip(status: StatusCode)
    ensures
        StatusCode::spec_from_code(status.spec_code()) == Some(status),
{
}

/// The code of a network state reads back as that state.
pub proof fn lemma_network_state_code_round_trip(state: NetworkStateCode)
    ensures
        NetworkStateCode::spec_from_code(state.spec_code()) == Some(state),
{
}

/// What reading the frame of a message gives, for the commands that the
/// module answers in the layout the request has: the command and the sequence
/// number of the message, the status success, and the payload fields of the
/// message as far as the reader keeps them. The three zero bytes of a
/// device-state request read as the state offline with no flag set.
pub open spec fn spec_read_of_written(m: OutgoingMessage) -> MessageView {
    MessageView {
        command: m.command,
        seq: m.seq,
        status: StatusCode::Success,
        payload: match m.payload {
            OutgoingPayload::WriteParameter { parameter, .. } => PayloadView::WriteParameter {
                parameter,
            },
            OutgoingPayload::ChangeNetworkState { state } => PayloadView::ChangeNetworkState {
                state,
            },
            _ => PayloadView::DeviceState {
                state: NetworkStateCode::Offline,
                apsde_data_confirm: false,
                apsde_data_indication: false,
                configuration_changed: false,
                apsde_data_request: false,
            },
        },
    }
}

/// Reading what was written gives the message back: for a write-parameter,
/// a device-state and a change-network-state message, the frame that
/// `OutgoingMessage::write` produces reads as `spec_read_of_written` says.
pub proof fn lemma_read_of_written(m: OutgoingMessage)
    requires
        m.well_formed(),
        m.payload is WriteParameter || m.payload is DeviceState || m.payload
            is ChangeNetworkState,
    ensures
        spec_read(m.spec_bytes()) == Ok::<MessageView, &'static str>(spec_read_of_written(m)),
{
    let bytes = m.spec_bytes();
    let frame_len = m.spec_frame_len();
    m.lemma_frame_len();
    lemma_le_bytes_two(frame_len);
    lemma_le_bytes_len(frame_len, 2);
    lemma_le_two(bytes.subrange(3, 5));
    assert(frame_len < 0x1_0000);
    assert(bytes.subrange(3, 5) =~= le_bytes(frame_len, 2));
    assert(le_value(bytes.subrange(3, 5)) == frame_len);
    assert(bytes[0] == m.command.spec_code());
    assert(bytes[1] == m.seq);
    assert(bytes[2] == 0);
    let body = bytes.subrange(5, frame_len as int);
    match m.payload {
        OutgoingPayload::WriteParameter { parameter, value } => {
            let payload_len = m.payload.spec_length();
            lemma_le_bytes_two(payload_len);
            lemma_le_bytes_len(payload_len, 2);
            lemma_le_bytes_len(value.spec_u64() as nat, value.spec_length() as nat);
            assert(body.subrange(0, 2) =~= le_bytes(payload_len, 2));
            lemma_le_two(body.subrange(0, 2));
            assert(body[2] == parameter.spec_code());
        },
        OutgoingPayload::DeviceState => {
            assert(body[0] == 0);
            assert(0u8 & 0x3 == 0) by (bit_vector);
            assert(0u8 & 0x4 == 0) by (bit_vector);
            assert(0u8 & 0x8 == 0) by (bit_vector);
            assert(0u8 & 0x10 == 0) by (bit_vector);
            assert(0u8 & 0x20 == 0) by (bit_vector);
        },
        OutgoingPayload::ChangeNetworkState { state } => {
            assert(body[0] == state.spec_code());
        },
        _ => {},
    }
}

/// The frames of the other messages are requests in a layout that no answer
/// has, and reading them fails: a read-parameter request is too short for
/// the value that an answer carries, the request for a data indication too
/// short for an indication, and for data requests and confirmations there is
/// no reader.
pub proof fn lemma_request_frames_rejected(m: OutgoingMessage)
    requires
        m.well_formed(),
        !(m.payload is WriteParameter || m.payload is DeviceState || m.payload
            is ChangeNetworkState),
    ensures
        spec_read(m.spec_bytes()) is Err,
        m.payload is ReadParameter ==> spec_read(m.spec_bytes()) == Err::<
            MessageView,
            &'static str,
        >("Too short payload for ReadParameter"),
        m.command == CommandCode::ApsDataIndication ==> spec_read(m.spec_bytes()) == Err::<
            MessageView,
            &'static str,
        >("Too short payload for ApsDataIndication"),
        m.command == CommandCode::ApsDataConfirm ==> spec_read(m.spec_bytes()) == Err::<
            MessageView,
            &'static str,
        >("This command decoder is not yet implemented"),
{
    let bytes = m.spec_bytes();
    let frame_len = m.spec_frame_len();
    m.lemma_frame_len();
    lemma_le_bytes_len((frame_len % 0x1_0000) as nat, 2);
    assert(bytes[0] == m.command.spec_code());
    assert(bytes[1] == m.seq);
    assert(bytes[2] == 0);
    if frame_len < 0x1_0000 {
        lemma_le_bytes_two(frame_len);
        lemma_le_two(bytes.subrange(3, 5));
        assert(bytes.subrange(3, 5) =~= le_bytes(frame_len, 2));
        assert(le_value(bytes.subrange(3, 5)) == frame_len);
        let body = bytes.subrange(5, frame_len as int);
        match m.payload {
            OutgoingPayload::Empty => {
                lemma_le_bytes_two(0);
                lemma_le_bytes_len(0, 2);
                assert(body =~= le_bytes(0, 2));
                assert(body.subrange(0, 2) =~= body);
                lemma_le_two(body);
            },
            _ => {},
        }
    }
}

/// Reading looks at no byte behind the length that a frame announces: where
/// the input covers that length, bytes that follow change nothing.
pub proof fn lemma_read_ignores_what_follows(input: Seq<u8>, extra: Seq<u8>)
    requires
        input.len() >= FRAME_MIN_LEN,
        le_value(input.subrange(3, 5)) <= input.len(),
    ensures
        spec_read(input + extra) == spec_read(input),
{
    let longer = input + extra;
    let frame_len = le_value(input.subrange(3, 5));
    assert(longer.subrange(3, 5) =~= input.subrange(3, 5));
    assert(longer[0] == input[0] && longer[1] == input[1] && longer[2] == input[2]);
    if frame_len >= FRAME_MIN_LEN {
        assert(longer.subrange(FRAME_MIN_LEN as int, frame_len as int) =~= input.subrange(
            FRAME_MIN_LEN as int,
            frame_len as int,
        ));
    }
}

/// What the codec puts between the end bytes of a frame, the message and its
/// checksum, reads as the message itself does: for a write-parameter, a
/// device-state and a change-network-state message, as `spec_read_of_written`
/// says.
pub proof fn lemma_read_of_framed(m: OutgoingMessage)
    requires
        m.well_formed(),
        m.payload is WriteParameter || m.payload is DeviceState || m.payload
            is ChangeNetworkState,
    ensures
        spec_read(m.spec_bytes() + le_bytes(spec_crc(m.spec_bytes()), 2)) == Ok::<
            MessageView,
            &'static str,
        >(spec_read_of_written(m)),
{
    m.lemma_frame_len_field();
    lemma_read_of_written(m);
    lemma_read_ignores_what_follows(m.spec_bytes(), le_bytes(spec_crc(m.spec_bytes()), 2));
}

} // verus!
