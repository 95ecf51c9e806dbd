//! Value types carried inside messages: addresses and parameter values.

use vstd::prelude::*;
use vstd::std_specs::convert::FromSpecImpl;
use crate::protocol::constants::DestinationMode;

verus! {

/// A destination or source of APS traffic.
#[derive(Debug, PartialEq, Eq, Clone, Copy, Structural)]
pub enum Address {
    /// A 16-bit group address; it has no endpoint.
    Group(u16),
    /// A 16-bit network address and an endpoint.
    NWK(u16, u8),
    /// A 64-bit extended address and an endpoint.
    IEEE(u64, u8),
}

impl Address {
    pub open spec fn spec_mode(&self) -> DestinationMode {
        match self {
            Address::Group(_) => DestinationMode::Group,
            Address::NWK(_, _) => DestinationMode::NWK,
            Address::IEEE(_, _) => DestinationMode::IEEE,
        }
    }

    /// Number of bytes the address takes in an outgoing data request:
    /// the address itself, and the endpoint where there is one.
    pub open spec fn spec_wire_len(&self) -> nat {
        match self {
            Address::Group(_) => 2,
            Address::NWK(_, _) => 3,
            Address::IEEE(_, _) => 9,
        }
    }

    #[verifier::when_used_as_spec(spec_mode)]
    pub fn mode(&self) -> (m: DestinationMode)
        ensures
            m == self.spec_mode(),
    {
        match self {
            Address::Group(_) => DestinationMode::Group,
            Address::NWK(_, _) => DestinationMode::NWK,
            Address::IEEE(_, _) => DestinationMode::IEEE,
        }
    }
}

/// An unsigned parameter value that remembers its width.
#[derive(Debug, PartialEq, Eq, Clone, Copy, Structural)]
pub enum ParameterValue {
    U8(u8),
    U16(u16),
    U32(u32),
    U64(u64),
}

impl ParameterValue {
    /// Width of the value in bytes.
    pub open spec fn spec_length(&self) -> usize {
        match self {
            ParameterValue::U8(_) => 1,
            ParameterValue::U16(_) => 2,
            ParameterValue::U32(_) => 4,
            ParameterValue::U64(_) => 8,
        }
    }

    /// The value, widened to 64 bits.
    pub open spec fn spec_u64(&self) -> u64 {
        match self {
            ParameterValue::U8(value) => *value as u64,
            ParameterValue::U16(value) => *value as u64,
            ParameterValue::U32(value) => *value as u64,
            ParameterValue::U64(value) => *value,
        }
    }

    /// The value of the given width that holds `value`, where the width is one
    /// of 1, 2, 4 and 8 bytes and `value` fits in it.
    pub open spec fn spec_from_value_and_len(value: u64, len: usize) -> Option<ParameterValue> {
        if len == 1 && value <= u8::MAX {
            Some(ParameterValue::U8(value as u8))
        } else if len == 2 && value <= u16::MAX {
            Some(ParameterValue::U16(value as u16))
        } else if len == 4 && value <= u32::MAX {
            Some(ParameterValue::U32(value as u32))
        } else if len == 8 {
            Some(ParameterValue::U64(value))
        } else {
            None
        }
    }

    #[verifier::when_used_as_spec(spec_length)]
    pub fn length(&self) -> (n: usize)
        ensures
            n == self.spec_length(),
    {
        match self {
            ParameterValue::U8(_) => 1,
            ParameterValue::U16(_) => 2,
            ParameterValue::U32(_) => 4,
            ParameterValue::U64(_) => 8,
        }
    }

    #[verifier::when_used_as_spec(spec_u64)]
    pub fn u64(&self) -> (v: u64)
        ensures
            v == self.spec_u64(),
    {
        match self {
            ParameterValue::U8(value) => *value as u64,
            ParameterValue::U16(value) => *value as u64,
            ParameterValue::U32(value) => *value as u64,
            ParameterValue::U64(value) => *value,
        }
    }

    /// Wraps `value` into the variant that is `len` bytes wide. The result
    /// reads back as the same value and width; there is none when no variant
    /// has that width or the value does not fit.
    pub fn from_value_and_len(value: u64, len: usize) -> (r: Option<ParameterValue>)
        ensures
            r == Self::spec_from_value_and_len(value, len),
            r matches Some(v) ==> v.spec_u64() == value && v.spec_length() == len,
    {
        if len == 1 && value <= 0xff {
            Some(ParameterValue::U8(value as u8))
        } else if len == 2 && value <= 0xffff {
            Some(ParameterValue::U16(value as u16))
        } else if len == 4 && value <= 0xffff_ffff {
            Some(ParameterValue::U32(value as u32))
        } else if len == 8 {
            Some(ParameterValue::U64(value))
        } else {
            None
        }
    }
}

impl From<u8> for ParameterValue {
    fn from(value: u8) -> (r: Self) {
        ParameterValue::U8(value)
    }
}

impl FromSpecImpl<u8> for ParameterValue {
    open spec fn obeys_from_spec() -> bool {
        true
    }

    open spec fn from_spec(value: u8) -> Self {
        ParameterValue::U8(value)
    }
}

impl From<u16> for ParameterValue {
    fn from(value: u16) -> (r: Self) {
        ParameterValue::U16(value)
    }
}

impl FromSpecImpl<u16> for ParameterValue {
    open spec fn obeys_from_spec() -> bool {
        true
    }

    open spec fn from_spec(value: u16) -> Self {
        ParameterValue::U16(value)
    }
}

impl From<u32> for ParameterValue {
    fn from(value: u32) -> (r: Self) {
        ParameterValue::U32(value)
    }
}

impl FromSpecImpl<u32> for ParameterValue {
    open spec fn obeys_from_spec() -> bool {
        true
    }

    open spec fn from_spec(value: u32) -> Self {
        ParameterValue::U32(value)
    }
}

impl From<u64> for ParameterValue {
    fn from(value: u64) -> (r: Self) {
        ParameterValue::U64(value)
    }
}

impl FromSpecImpl<u64> for ParameterValue {
    open spec fn obeys_from_spec() -> bool {
        true
    }

    open spec fn from_spec(value: u64) -> Self {
        ParameterValue::U64(value)
    }
}

} // verus!
