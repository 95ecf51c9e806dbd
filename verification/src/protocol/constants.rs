//! The closed sets of codes that appear on the wire.

use vstd::prelude::*;

verus! {

/// The command a frame carries, identified by one byte on the wire.
#[derive(Debug, PartialEq, PartialOrd, Eq, Ord, Clone, Copy, Structural)]
pub enum CommandCode {
    DeviceState,
    ChangeNetworkState,
    ReadParameter,
    WriteParameter,
    DeviceStateChanged,
    ApsDataRequest,
    ApsDataConfirm,
    ApsDataIndication,
}

impl CommandCode {
    /// The wire code of each command.
    pub open spec fn spec_code(&self) -> u8 {
        match self {
            CommandCode::DeviceState => 0x07,
            CommandCode::ChangeNetworkState => 0x08,
            CommandCode::ReadParameter => 0x0a,
            CommandCode::WriteParameter => 0x0b,
            CommandCode::DeviceStateChanged => 0x0e,
            CommandCode::ApsDataRequest => 0x12,
            CommandCode::ApsDataConfirm => 0x04,
            CommandCode::ApsDataIndication => 0x17,
        }
    }

    /// The command with the given wire code, if there is one.
    pub open spec fn spec_from_code(code: u8) -> Option<CommandCode> {
        if code == 0x07 {
            Some(CommandCode::DeviceState)
        } else if code == 0x08 {
            Some(CommandCode::ChangeNetworkState)
        } else if code == 0x0a {
            Some(CommandCode::ReadParameter)
        } else if code == 0x0b {
            Some(CommandCode::WriteParameter)
        } else if code == 0x0e {
            Some(CommandCode::DeviceStateChanged)
        } else if code == 0x12 {
            Some(CommandCode::ApsDataRequest)
        } else if code == 0x04 {
            Some(CommandCode::ApsDataConfirm)
        } else if code == 0x17 {
            Some(CommandCode::ApsDataIndication)
        } else {
            None
        }
    }

    #[verifier::when_used_as_spec(spec_code)]
    pub fn code(&self) -> (c: u8)
        ensures
            c == self.spec_code(),
    {
        match self {
            CommandCode::DeviceState => 0x07,
            CommandCode::ChangeNetworkState => 0x08,
            CommandCode::ReadParameter => 0x0a,
            CommandCode::WriteParameter => 0x0b,
            CommandCode::DeviceStateChanged => 0x0e,
            CommandCode::ApsDataRequest => 0x12,
            CommandCode::ApsDataConfirm => 0x04,
            CommandCode::ApsDataIndication => 0x17,
        }
    }

    /// Decoding is the inverse of `code`: a byte yields the one command that
    /// encodes to it, and no command at all when none does.
    pub fn from_code(code: u8) -> (r: Option<Self>)
        ensures
            r == Self::spec_from_code(code),
            match r {
                Some(c) => c.spec_code() == code,
                None => forall|c: CommandCode| c.spec_code() != code,
            },
    {
        match code {
            0x07 => Some(CommandCode::DeviceState),
            0x08 => Some(CommandCode::ChangeNetworkState),
            0x0a => Some(CommandCode::ReadParameter),
            0x0b => Some(CommandCode::WriteParameter),
            0x0e => Some(CommandCode::DeviceStateChanged),
            0x12 => Some(CommandCode::ApsDataRequest),
            0x04 => Some(CommandCode::ApsDataConfirm),
            0x17 => Some(CommandCode::ApsDataIndication),
            _ => None,
        }
    }
}

/// A configuration parameter of the module, with its wire code and the fixed
/// byte length of its value.
#[derive(Debug, PartialEq, Eq, Clone, Copy, Structural)]
pub enum ParameterCode {
    MacAddress,
    NwkPanId,
    NwkAddress,
    NwkExtendedPanId,
    ApsDesignedCoordinator,
    ChannelMask,
    ApsExtendedPanId,
    TrustCenterAddress,
    SecurityMode,
    NetworkKey,
    CurrentChannel,
    ProtocolVersion,
    NwkUpdateId,
}

impl ParameterCode {
    /// The wire code of each parameter.
    pub open spec fn spec_code(&self) -> u8 {
        match self {
            ParameterCode::MacAddress => 0x01,
            ParameterCode::NwkPanId => 0x05,
            ParameterCode::NwkAddress => 0x07,
            ParameterCode::NwkExtendedPanId => 0x08,
            ParameterCode::ApsDesignedCoordinator => 0x09,
            ParameterCode::ChannelMask => 0x0a,
            ParameterCode::ApsExtendedPanId => 0x0b,
            ParameterCode::TrustCenterAddress => 0x0e,
            ParameterCode::SecurityMode => 0x10,
            ParameterCode::NetworkKey => 0x18,
            ParameterCode::CurrentChannel => 0x1c,
            ParameterCode::ProtocolVersion => 0x22,
            ParameterCode::NwkUpdateId => 0x24,
        }
    }

    /// The value with the given wire code, if there is one.
    pub open spec fn spec_from_code(code: u8) -> Option<ParameterCode> {
        if code == 0x01 {
            Some(ParameterCode::MacAddress)
        } else if code == 0x05 {
            Some(ParameterCode::NwkPanId)
        } else if code == 0x07 {
            Some(ParameterCode::NwkAddress)
        } else if code == 0x08 {
            Some(ParameterCode::NwkExtendedPanId)
        } else if code == 0x09 {
            Some(ParameterCode::ApsDesignedCoordinator)
        } else if code == 0x0a {
            Some(ParameterCode::ChannelMask)
        } else if code == 0x0b {
            Some(ParameterCode::ApsExtendedPanId)
        } else if code == 0x0e {
            Some(ParameterCode::TrustCenterAddress)
        } else if code == 0x10 {
            Some(ParameterCode::SecurityMode)
        } else if code == 0x18 {
            Some(ParameterCode::NetworkKey)
        } else if code == 0x1c {
            Some(ParameterCode::CurrentChannel)
        } else if code == 0x22 {
            Some(ParameterCode::ProtocolVersion)
        } else if code == 0x24 {
            Some(ParameterCode::NwkUpdateId)
        } else {
            None
        }
    }

    #[verifier::when_used_as_spec(spec_code)]
    pub fn code(&self) -> (c: u8)
        ensures
            c == self.spec_code(),
    {
        match self {
            ParameterCode::MacAddress => 0x01,
            ParameterCode::NwkPanId => 0x05,
            ParameterCode::NwkAddress => 0x07,
            ParameterCode::NwkExtendedPanId => 0x08,
            ParameterCode::ApsDesignedCoordinator => 0x09,
            ParameterCode::ChannelMask => 0x0a,
            ParameterCode::ApsExtendedPanId => 0x0b,
            ParameterCode::TrustCenterAddress => 0x0e,
            ParameterCode::SecurityMode => 0x10,
            ParameterCode::NetworkKey => 0x18,
            ParameterCode::CurrentChannel => 0x1c,
            ParameterCode::ProtocolVersion => 0x22,
            ParameterCode::NwkUpdateId => 0x24,
        }
    }

    /// Decoding is the inverse of `code`: a byte yields the one value that
    /// encodes to it, and none at all when no value does.
    pub fn from_code(code: u8) -> (r: Option<Self>)
        ensures
            r == Self::spec_from_code(code),
            match r {
                Some(c) => c.spec_code() == code,
                None => forall|c: ParameterCode| c.spec_code() != code,
            },
    {
        match code {
            0x01 => Some(ParameterCode::MacAddress),
            0x05 => Some(ParameterCode::NwkPanId),
            0x07 => Some(ParameterCode::NwkAddress),
            0x08 => Some(ParameterCode::NwkExtendedPanId),
            0x09 => Some(ParameterCode::ApsDesignedCoordinator),
            0x0a => Some(ParameterCode::ChannelMask),
            0x0b => Some(ParameterCode::ApsExtendedPanId),
            0x0e => Some(ParameterCode::TrustCenterAddress),
            0x10 => Some(ParameterCode::SecurityMode),
            0x18 => Some(ParameterCode::NetworkKey),
            0x1c => Some(ParameterCode::CurrentChannel),
            0x22 => Some(ParameterCode::ProtocolVersion),
            0x24 => Some(ParameterCode::NwkUpdateId),
            _ => None,
        }
    }

    /// The declared byte length of the parameter's value.
    pub open spec fn spec_len(&self) -> u8 {
        match self {
            ParameterCode::MacAddress => 8,
            ParameterCode::NwkPanId => 2,
            ParameterCode::NwkAddress => 2,
            ParameterCode::NwkExtendedPanId => 8,
            ParameterCode::ApsDesignedCoordinator => 1,
            ParameterCode::ChannelMask => 4,
            ParameterCode::ApsExtendedPanId => 8,
            ParameterCode::TrustCenterAddress => 8,
            ParameterCode::SecurityMode => 1,
            ParameterCode::NetworkKey => 1,
            ParameterCode::CurrentChannel => 1,
            ParameterCode::ProtocolVersion => 2,
            ParameterCode::NwkUpdateId => 1,
        }
    }

    #[verifier::when_used_as_spec(spec_len)]
    pub fn len(&self) -> (n: u8)
        ensures
            n == self.spec_len(),
    {
        match self {
            ParameterCode::MacAddress => 8,
            ParameterCode::NwkPanId => 2,
            ParameterCode::NwkAddress => 2,
            ParameterCode::NwkExtendedPanId => 8,
            ParameterCode::ApsDesignedCoordinator => 1,
            ParameterCode::ChannelMask => 4,
            ParameterCode::ApsExtendedPanId => 8,
            ParameterCode::TrustCenterAddress => 8,
            ParameterCode::SecurityMode => 1,
            ParameterCode::NetworkKey => 1,
            ParameterCode::CurrentChannel => 1,
            ParameterCode::ProtocolVersion => 2,
            ParameterCode::NwkUpdateId => 1,
        }
    }
}

/// The status byte of a frame that comes from the module.
#[derive(Debug, PartialEq, Eq, Clone, Copy, Structural)]
pub enum StatusCode {
    Success,
    Failure,
    Busy,
    Timeout,
    Unsupported,
    Error,
    NoNetwork,
    InvalidValue,
    ModuleResponseTimeout,
    ModuleSendDataTimeout,
}

impl StatusCode {
    /// The wire code of each status.
    pub open spec fn spec_code(&self) -> u8 {
        match self {
            StatusCode::Success => 0,
            StatusCode::Failure => 1,
            StatusCode::Busy => 2,
            StatusCode::Timeout => 3,
            StatusCode::Unsupported => 4,
            StatusCode::Error => 5,
            StatusCode::NoNetwork => 6,
            StatusCode::InvalidValue => 7,
            StatusCode::ModuleResponseTimeout => 8,
            StatusCode::ModuleSendDataTimeout => 9,
        }
    }

    /// The value with the given wire code, if there is one.
    pub open spec fn spec_from_code(code: u8) -> Option<StatusCode> {
        if code == 0 {
            Some(StatusCode::Success)
        } else if code == 1 {
            Some(StatusCode::Failure)
        } else if code == 2 {
            Some(StatusCode::Busy)
        } else if code == 3 {
            Some(StatusCode::Timeout)
        } else if code == 4 {
            Some(StatusCode::Unsupported)
        } else if code == 5 {
            Some(StatusCode::Error)
        } else if code == 6 {
            Some(StatusCode::NoNetwork)
        } else if code == 7 {
            Some(StatusCode::InvalidValue)
        } else if code == 8 {
            Some(StatusCode::ModuleResponseTimeout)
        } else if code == 9 {
            Some(StatusCode::ModuleSendDataTimeout)
        } else {
            None
        }
    }

    #[verifier::when_used_as_spec(spec_code)]
    pub fn code(&self) -> (c: u8)
        ensures
            c == self.spec_code(),
    {
        match self {
            StatusCode::Success => 0,
            StatusCode::Failure => 1,
            StatusCode::Busy => 2,
            StatusCode::Timeout => 3,
            StatusCode::Unsupported => 4,
            StatusCode::Error => 5,
            StatusCode::NoNetwork => 6,
            StatusCode::InvalidValue => 7,
            StatusCode::ModuleResponseTimeout => 8,
            StatusCode::ModuleSendDataTimeout => 9,
        }
    }

    /// Decoding is the inverse of `code`: a byte yields the one value that
    /// encodes to it, and none at all when no value does.
    pub fn from_code(code: u8) -> (r: Option<Self>)
        ensures
            r == Self::spec_from_code(code),
            match r {
                Some(c) => c.spec_code() == code,
                None => forall|c: StatusCode| c.spec_code() != code,
            },
    {
        match code {
            0 => Some(StatusCode::Success),
            1 => Some(StatusCode::Failure),
            2 => Some(StatusCode::Busy),
            3 => Some(StatusCode::Timeout),
            4 => Some(StatusCode::Unsupported),
            5 => Some(StatusCode::Error),
            6 => Some(StatusCode::NoNetwork),
            7 => Some(StatusCode::InvalidValue),
            8 => Some(StatusCode::ModuleResponseTimeout),
            9 => Some(StatusCode::ModuleSendDataTimeout),
            _ => None,
        }
    }
}

/// The network state of the module: the low two bits of a device-state byte.
#[derive(Debug, PartialEq, Eq, Clone, Copy, Structural)]
pub enum NetworkStateCode {
    Offline,
    Joining,
    Connected,
    Leaving,
}

impl NetworkStateCode {
    /// The wire code of each network state.
    pub open spec fn spec_code(&self) -> u8 {
        match self {
            NetworkStateCode::Offline => 0,
            NetworkStateCode::Joining => 1,
            NetworkStateCode::Connected => 2,
            NetworkStateCode::Leaving => 3,
        }
    }

    /// The value with the given wire code, if there is one.
    pub open spec fn spec_from_code(code: u8) -> Option<NetworkStateCode> {
        if code == 0 {
            Some(NetworkStateCode::Offline)
        } else if code == 1 {
            Some(NetworkStateCode::Joining)
        } else if code == 2 {
            Some(NetworkStateCode::Connected)
        } else if code == 3 {
            Some(NetworkStateCode::Leaving)
        } else {
            None
        }
    }

    #[verifier::when_used_as_spec(spec_code)]
    pub fn code(&self) -> (c: u8)
        ensures
            c == self.spec_code(),
    {
        match self {
            NetworkStateCode::Offline => 0,
            NetworkStateCode::Joining => 1,
            NetworkStateCode::Connected => 2,
            NetworkStateCode::Leaving => 3,
        }
    }

    /// Decoding is the inverse of `code`: a byte yields the one value that
    /// encodes to it, and none at all when no value does.
    pub fn from_code(code: u8) -> (r: Option<Self>)
        ensures
            r == Self::spec_from_code(code),
            match r {
                Some(c) => c.spec_code() == code,
                None => forall|c: NetworkStateCode| c.spec_code() != code,
            },
    {
        match code {
            0 => Some(NetworkStateCode::Offline),
            1 => Some(NetworkStateCode::Joining),
            2 => Some(NetworkStateCode::Connected),
            3 => Some(NetworkStateCode::Leaving),
            _ => None,
        }
    }
}

/// How the destination of a data request is addressed.
#[derive(Debug, PartialEq, Eq, Clone, Copy, Structural)]
pub enum DestinationMode {
    Group,
    NWK,
    IEEE,
}

impl DestinationMode {
    /// The wire code of each destination mode.
    pub open spec fn spec_code(&self) -> u8 {
        match self {
            DestinationMode::Group => 0x01,
            DestinationMode::NWK => 0x02,
            DestinationMode::IEEE => 0x03,
        }
    }

    #[verifier::when_used_as_spec(spec_code)]
    pub fn code(&self) -> (c: u8)
        ensures
            c == self.spec_code(),
    {
        match self {
            DestinationMode::Group => 0x01,
            DestinationMode::NWK => 0x02,
            DestinationMode::IEEE => 0x03,
        }
    }
}

} // verus!
