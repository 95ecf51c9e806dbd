use deconz_sp::constants::{
    CommandCode, DestinationMode, NetworkStateCode, ParameterCode, StatusCode,
};
use deconz_sp::types::{Address, ParameterValue};

#[test]
fn command_codes() {
    let table = [
        (CommandCode::DeviceState, 0x07),
        (CommandCode::ChangeNetworkState, 0x08),
        (CommandCode::ReadParameter, 0x0a),
        (CommandCode::WriteParameter, 0x0b),
        (CommandCode::DeviceStateChanged, 0x0e),
        (CommandCode::ApsDataRequest, 0x12),
        (CommandCode::ApsDataConfirm, 0x04),
        (CommandCode::ApsDataIndication, 0x17),
    ];
    for (command, code) in table.iter() {
        assert_eq!(command.code(), *code);
        assert_eq!(CommandCode::from_code(*code), Some(*command));
    }
    for code in 0..=255u8 {
        match CommandCode::from_code(code) {
            Some(command) => assert_eq!(command.code(), code),
            None => assert!(table.iter().all(|(_, known)| *known != code)),
        }
    }
}

#[test]
fn parameter_codes_and_lengths() {
    let table = [
        (ParameterCode::MacAddress, 0x01, 8),
        (ParameterCode::NwkPanId, 0x05, 2),
        (ParameterCode::NwkAddress, 0x07, 2),
        (ParameterCode::NwkExtendedPanId, 0x08, 8),
        (ParameterCode::ApsDesignedCoordinator, 0x09, 1),
        (ParameterCode::ChannelMask, 0x0a, 4),
        (ParameterCode::ApsExtendedPanId, 0x0b, 8),
        (ParameterCode::TrustCenterAddress, 0x0e, 8),
        (ParameterCode::SecurityMode, 0x10, 1),
        (ParameterCode::NetworkKey, 0x18, 1),
        (ParameterCode::CurrentChannel, 0x1c, 1),
        (ParameterCode::ProtocolVersion, 0x22, 2),
        (ParameterCode::NwkUpdateId, 0x24, 1),
    ];
    for (parameter, code, len) in table.iter() {
        assert_eq!(parameter.code(), *code);
        assert_eq!(parameter.len(), *len);
        assert_eq!(ParameterCode::from_code(*code), Some(*parameter));
    }
    for code in 0..=255u8 {
        match ParameterCode::from_code(code) {
            Some(parameter) => assert_eq!(parameter.code(), code),
            None => assert!(table.iter().all(|(_, known, _)| *known != code)),
        }
    }
}

#[test]
fn status_codes() {
    let table = [
        StatusCode::Success,
        StatusCode::Failure,
        StatusCode::Busy,
        StatusCode::Timeout,
        StatusCode::Unsupported,
        StatusCode::Error,
        StatusCode::NoNetwork,
        StatusCode::InvalidValue,
        StatusCode::ModuleResponseTimeout,
        StatusCode::ModuleSendDataTimeout,
    ];
    for (code, status) in table.iter().enumerate() {
        assert_eq!(status.code() as usize, code);
        assert_eq!(StatusCode::from_code(code as u8), Some(*status));
    }
    for code in 10..=255u8 {
        assert_eq!(StatusCode::from_code(code), None);
    }
}

#[test]
fn network_state_codes() {
    let table = [
        NetworkStateCode::Offline,
        NetworkStateCode::Joining,
        NetworkStateCode::Connected,
        NetworkStateCode::Leaving,
    ];
    for (code, state) in table.iter().enumerate() {
        assert_eq!(state.code() as usize, code);
        assert_eq!(NetworkStateCode::from_code(code as u8), Some(*state));
    }
    for code in 4..=255u8 {
        assert_eq!(NetworkStateCode::from_code(code), None);
    }
}

#[test]
fn destination_modes() {
    assert_eq!(DestinationMode::Group.code(), 1);
    assert_eq!(DestinationMode::NWK.code(), 2);
    assert_eq!(DestinationMode::IEEE.code(), 3);
    assert_eq!(Address::Group(1).mode(), DestinationMode::Group);
    assert_eq!(Address::NWK(1, 2).mode(), DestinationMode::NWK);
    assert_eq!(Address::IEEE(1, 2).mode(), DestinationMode::IEEE);
}

#[test]
fn parameter_values() {
    assert_eq!(ParameterValue::U8(7).length(), 1);
    assert_eq!(ParameterValue::U16(7).length(), 2);
    assert_eq!(ParameterValue::U32(7).length(), 4);
    assert_eq!(ParameterValue::U64(7).length(), 8);
    assert_eq!(ParameterValue::U8(0xff).u64(), 0xff);
    assert_eq!(ParameterValue::U16(0xffff).u64(), 0xffff);
    assert_eq!(ParameterValue::U32(0xffff_ffff).u64(), 0xffff_ffff);
    assert_eq!(ParameterValue::U64(u64::MAX).u64(), u64::MAX);
    assert_eq!(ParameterValue::from(5u8), ParameterValue::U8(5));
    assert_eq!(ParameterValue::from(5u16), ParameterValue::U16(5));
    assert_eq!(ParameterValue::from(5u32), ParameterValue::U32(5));
    assert_eq!(ParameterValue::from(5u64), ParameterValue::U64(5));
}

#[test]
fn parameter_values_by_width() {
    assert_eq!(
        ParameterValue::from_value_and_len(0xab, 1),
        Some(ParameterValue::U8(0xab))
    );
    assert_eq!(
        ParameterValue::from_value_and_len(0xabcd, 2),
        Some(ParameterValue::U16(0xabcd))
    );
    assert_eq!(
        ParameterValue::from_value_and_len(0xabcd_ef01, 4),
        Some(ParameterValue::U32(0xabcd_ef01))
    );
    assert_eq!(
        ParameterValue::from_value_and_len(u64::MAX, 8),
        Some(ParameterValue::U64(u64::MAX))
    );
    assert_eq!(ParameterValue::from_value_and_len(0x100, 1), None);
    assert_eq!(ParameterValue::from_value_and_len(0x1_0000, 2), None);
    assert_eq!(ParameterValue::from_value_and_len(0x1_0000_0000, 4), None);
    assert_eq!(ParameterValue::from_value_and_len(1, 0), None);
    assert_eq!(ParameterValue::from_value_and_len(1, 3), None);
    assert_eq!(ParameterValue::from_value_and_len(1, 9), None);
}
