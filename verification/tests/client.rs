use deconz_sp::call::{poll, Received};
use deconz_sp::client::{
    aps_data_indication_reply, change_network_state_reply, device_state_reply,
    read_parameter_reply, write_parameter_reply,
};
use deconz_sp::constants::{CommandCode, NetworkStateCode, ParameterCode, StatusCode};
use deconz_sp::types::{Address, ParameterValue};
use deconz_sp::{Client, Error, IncomingMessage, IncomingPayload, Routed};

fn response(command: CommandCode, seq: u8, payload: IncomingPayload) -> IncomingMessage {
    IncomingMessage {
        command,
        seq,
        status: StatusCode::Success,
        payload,
    }
}

fn read_response(seq: u8, value: u8) -> IncomingMessage {
    response(
        CommandCode::ReadParameter,
        seq,
        IncomingPayload::ReadParameter {
            parameter: ParameterCode::CurrentChannel,
            value: ParameterValue::U8(value),
        },
    )
}

fn state_payload() -> IncomingPayload {
    IncomingPayload::DeviceState {
        state: NetworkStateCode::Connected,
        apsde_data_confirm: false,
        apsde_data_indication: true,
        configuration_changed: false,
        apsde_data_request: true,
    }
}

fn indication_payload() -> IncomingPayload {
    IncomingPayload::ApsDataIndication {
        source: Address::NWK(2, 4),
        destination: Address::Group(1),
        profile_id: 1,
        cluster_id: 2,
        asdu: vec![1, 2, 3],
        lqi: 5,
        rssi: 6,
    }
}

#[test]
fn sequence_numbers_count_up_and_wrap() {
    let mut client: Client<u32> = Client::new();
    for expected in 0..=255u8 {
        assert_eq!(client.take_seq(), expected);
    }
    assert_eq!(client.take_seq(), 0);
    assert_eq!(client.take_seq(), 1);
}

#[test]
fn requests_carry_consecutive_sequence_numbers() {
    let mut client: Client<u32> = Client::new();
    let first = client.read_parameter(ParameterCode::MacAddress, 1);
    let second = client.write_parameter(ParameterCode::SecurityMode, ParameterValue::U8(1), 2);
    let third = client.device_state(3);
    let fourth = client.change_network_state(NetworkStateCode::Connected, 4);
    let fifth = client.aps_data_indication(5);
    assert_eq!(
        (first.command, first.seq),
        (CommandCode::ReadParameter, 0)
    );
    assert_eq!(
        (second.command, second.seq),
        (CommandCode::WriteParameter, 1)
    );
    assert_eq!((third.command, third.seq), (CommandCode::DeviceState, 2));
    assert_eq!(
        (fourth.command, fourth.seq),
        (CommandCode::ChangeNetworkState, 3)
    );
    assert_eq!(
        (fifth.command, fifth.seq),
        (CommandCode::ApsDataIndication, 4)
    );
    let mut out = [0u8; 16];
    assert_eq!(second.write(&mut out).unwrap(), 9);
    assert_eq!(&out[..9], &[0x0b, 1, 0, 9, 0, 2, 0, 0x10, 1][..]);
    assert_eq!(fifth.write(&mut out).unwrap(), 7);
    assert_eq!(&out[..7], &[0x17, 4, 0, 7, 0, 0, 0][..]);
}

#[test]
fn each_response_finds_the_request_with_its_sequence_number() {
    let mut client: Client<usize> = Client::new();
    let mut sent = Vec::new();
    for slot in 0..200usize {
        sent.push(client.read_parameter(ParameterCode::CurrentChannel, slot).seq);
    }
    // The responses come in another order than the requests went out.
    for slot in (0..200usize).rev() {
        match client.dispatch(read_response(sent[slot], slot as u8)) {
            Routed::Reply(found, message) => {
                assert_eq!(found, slot);
                assert_eq!(message.seq, sent[slot]);
                assert_eq!(
                    read_parameter_reply(message).unwrap(),
                    ParameterValue::U8(slot as u8)
                );
            }
            Routed::Notification(payload) => panic!("nobody waited for {:?}", payload),
        }
    }
    // Every slot was taken: a second response is a notification.
    match client.dispatch(read_response(sent[0], 0)) {
        Routed::Notification(_) => {}
        Routed::Reply(found, _) => panic!("slot {} was still there", found),
    }
}

#[test]
fn three_hundred_reads_wrap_around() {
    let mut client: Client<usize> = Client::new();
    for slot in 0..300usize {
        let message = client.read_parameter(ParameterCode::CurrentChannel, slot);
        assert_eq!(message.seq as usize, slot % 256);
    }
    // The requests 256 to 299 took over the sequence numbers 0 to 43.
    for seq in 0..=255u8 {
        let expected = if seq < 44 {
            256 + seq as usize
        } else {
            seq as usize
        };
        match client.dispatch(read_response(seq, seq)) {
            Routed::Reply(found, message) => {
                assert_eq!(found, expected);
                assert_eq!(message.seq, seq);
            }
            Routed::Notification(payload) => panic!("nobody waited for {:?}", payload),
        }
    }
}

#[test]
fn responses_are_matched_by_sequence_number_and_command() {
    let mut client: Client<&'static str> = Client::new();
    let request = client.device_state("state");
    assert_eq!(request.seq, 0);
    // A notification with the same sequence number and another command.
    match client.dispatch(response(
        CommandCode::DeviceStateChanged,
        0,
        state_payload(),
    )) {
        Routed::Notification(IncomingPayload::DeviceState {
            apsde_data_indication,
            ..
        }) => assert!(apsde_data_indication),
        _ => panic!("the notification took the slot of the request"),
    }
    // The response still finds its slot.
    match client.dispatch(response(CommandCode::DeviceState, 0, state_payload())) {
        Routed::Reply(slot, message) => {
            assert_eq!(slot, "state");
            assert_eq!(
                device_state_reply(message).unwrap(),
                NetworkStateCode::Connected
            );
        }
        Routed::Notification(_) => panic!("the response found no slot"),
    }
    // Another sequence number finds nothing.
    match client.dispatch(response(CommandCode::DeviceState, 1, state_payload())) {
        Routed::Notification(_) => {}
        Routed::Reply(_, _) => panic!("a slot for a request never made"),
    }
}

#[test]
fn replies_with_the_expected_payload() {
    assert_eq!(
        read_parameter_reply(read_response(1, 11)).unwrap(),
        ParameterValue::U8(11)
    );
    assert!(write_parameter_reply(response(
        CommandCode::WriteParameter,
        1,
        IncomingPayload::WriteParameter {
            parameter: ParameterCode::SecurityMode
        }
    ))
    .is_ok());
    assert_eq!(
        device_state_reply(response(CommandCode::DeviceState, 1, state_payload())).unwrap(),
        NetworkStateCode::Connected
    );
    assert!(change_network_state_reply(response(
        CommandCode::ChangeNetworkState,
        1,
        IncomingPayload::ChangeNetworkState {
            state: NetworkStateCode::Connected
        }
    ))
    .is_ok());
    match aps_data_indication_reply(response(
        CommandCode::ApsDataIndication,
        1,
        indication_payload(),
    ))
    .unwrap()
    {
        IncomingPayload::ApsDataIndication {
            source,
            destination,
            profile_id,
            cluster_id,
            asdu,
            lqi,
            rssi,
        } => {
            assert_eq!(source, Address::NWK(2, 4));
            assert_eq!(destination, Address::Group(1));
            assert_eq!((profile_id, cluster_id), (1, 2));
            assert_eq!(asdu, vec![1, 2, 3]);
            assert_eq!((lqi, rssi), (5, 6));
        }
        other => panic!("unexpected payload {:?}", other),
    }
}

#[test]
fn replies_with_another_payload() {
    match read_parameter_reply(response(CommandCode::ReadParameter, 1, state_payload())) {
        Err(Error::UnexpectedResponsePayload(expected, IncomingPayload::DeviceState { .. })) => {
            assert_eq!(expected, "ReadParameter")
        }
        other => panic!("unexpected result {:?}", other),
    }
    match write_parameter_reply(read_response(1, 1)) {
        Err(Error::UnexpectedResponsePayload(expected, IncomingPayload::ReadParameter { .. })) => {
            assert_eq!(expected, "WriteParameter")
        }
        other => panic!("unexpected result {:?}", other),
    }
    match device_state_reply(read_response(1, 1)) {
        Err(Error::UnexpectedResponsePayload(expected, IncomingPayload::ReadParameter { .. })) => {
            assert_eq!(expected, "DeviceState")
        }
        other => panic!("unexpected result {:?}", other),
    }
    match change_network_state_reply(read_response(1, 1)) {
        Err(Error::UnexpectedResponsePayload(expected, IncomingPayload::ReadParameter { .. })) => {
            assert_eq!(expected, "ChangeNetworkState")
        }
        other => panic!("unexpected result {:?}", other),
    }
    match aps_data_indication_reply(read_response(1, 1)) {
        Err(Error::UnexpectedResponsePayload(expected, IncomingPayload::ReadParameter { .. })) => {
            assert_eq!(expected, "ApsDataIndication")
        }
        other => panic!("unexpected result {:?}", other),
    }
}

#[test]
fn replies_without_success() {
    let mut busy = read_response(1, 1);
    busy.status = StatusCode::Busy;
    match read_parameter_reply(busy) {
        Err(Error::NonSuccessResponse(status)) => assert_eq!(status, StatusCode::Busy),
        other => panic!("unexpected result {:?}", other),
    }
    let mut failed = response(CommandCode::DeviceState, 1, state_payload());
    failed.status = StatusCode::Failure;
    match device_state_reply(failed) {
        Err(Error::NonSuccessResponse(status)) => assert_eq!(status, StatusCode::Failure),
        other => panic!("unexpected result {:?}", other),
    }
    // The status is looked at before the payload.
    let mut unsupported = read_response(1, 1);
    unsupported.status = StatusCode::Unsupported;
    match write_parameter_reply(unsupported) {
        Err(Error::NonSuccessResponse(status)) => assert_eq!(status, StatusCode::Unsupported),
        other => panic!("unexpected result {:?}", other),
    }
    let mut no_network = read_response(1, 1);
    no_network.status = StatusCode::NoNetwork;
    match change_network_state_reply(no_network) {
        Err(Error::NonSuccessResponse(status)) => assert_eq!(status, StatusCode::NoNetwork),
        other => panic!("unexpected result {:?}", other),
    }
    let mut timeout = response(CommandCode::ApsDataIndication, 1, indication_payload());
    timeout.status = StatusCode::Timeout;
    match aps_data_indication_reply(timeout) {
        Err(Error::NonSuccessResponse(status)) => assert_eq!(status, StatusCode::Timeout),
        other => panic!("unexpected result {:?}", other),
    }
}

#[test]
fn a_pending_call_resolves_or_is_cancelled() {
    assert!(poll(Received::Pending).unwrap().is_none());
    let message = poll(Received::Resolved(read_response(7, 1)))
        .unwrap()
        .unwrap();
    assert_eq!(message.seq, 7);
    match poll(Received::Cancelled) {
        Err(Error::Internal(reason)) => assert_eq!(reason, "Channel canceled"),
        other => panic!("unexpected result {:?}", other),
    }
}
