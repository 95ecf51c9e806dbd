//! Messages that go to the module, and how they are written as bytes.

use vstd::prelude::*;
use crate::error::Error;
use crate::protocol::constants::{CommandCode, NetworkStateCode, ParameterCode};
use crate::protocol::endian::{
    le_bytes, le_value, lemma_le_bytes_len, lemma_le_value_of_bytes, lemma_pow256_values,
    lemma_splice_append, put_u8, splice, write_u16, write_u64, write_uint,
};
use crate::protocol::types::{Address, ParameterValue};

verus! {

/// Length of the header of a frame: command, sequence number, a reserved
/// byte and the frame length.
pub const FRAME_MIN_LEN: usize = 5;

/// The transmit options of every data request.
pub const TX_OPTIONS: u8 = 0x04;

/// What an outgoing message carries behind its header.
#[derive(Debug)]
pub enum OutgoingPayload {
    Empty,
    ReadParameter { parameter: ParameterCode },
    WriteParameter { parameter: ParameterCode, value: ParameterValue },
    DeviceState,
    ChangeNetworkState { state: NetworkStateCode },
    ApsDataRequest {
        request_id: u8,
        destination: Address,
        profile_id: u16,
        cluster_id: u16,
        source_endpoint: u8,
        asdu: Vec<u8>,
        radius: u8,
    },
}

/// The bytes of a destination behind its mode byte: the address, least
/// significant byte first, and the endpoint where the mode has one.
pub open spec fn address_bytes(address: Address) -> Seq<u8> {
    match address {
        Address::Group(addr) => le_bytes(addr as nat, 2),
        Address::NWK(addr, endpoint) => le_bytes(addr as nat, 2) + seq![endpoint],
        Address::IEEE(addr, endpoint) => le_bytes(addr as nat, 8) + seq![endpoint],
    }
}

impl OutgoingPayload {
    /// Whether a two-byte payload length stands between header and payload.
    pub open spec fn spec_has_variable_length(&self) -> bool {
        match self {
            OutgoingPayload::Empty => true,
            OutgoingPayload::ReadParameter { .. } => true,
            OutgoingPayload::WriteParameter { .. } => true,
            OutgoingPayload::ApsDataRequest { .. } => true,
            _ => false,
        }
    }

    /// Number of bytes of the payload.
    pub open spec fn spec_length(&self) -> nat {
        match self {
            OutgoingPayload::Empty => 0,
            OutgoingPayload::ReadParameter { .. } => 1,
            OutgoingPayload::WriteParameter { value, .. } => 1 + value.spec_length() as nat,
            OutgoingPayload::DeviceState => 3,
            OutgoingPayload::ChangeNetworkState { .. } => 1,
            OutgoingPayload::ApsDataRequest { destination, asdu, .. } => 12
                + destination.spec_wire_len() + asdu@.len(),
        }
    }

    /// The bytes of the payload. Integers are little-endian. A length that
    /// does not fit its two bytes is cut to them.
    pub open spec fn spec_bytes(&self) -> Seq<u8> {
        match self {
            OutgoingPayload::Empty => Seq::empty(),
            OutgoingPayload::ReadParameter { parameter } => seq![parameter.spec_code()],
            OutgoingPayload::WriteParameter { parameter, value } => seq![parameter.spec_code()]
                + le_bytes(value.spec_u64() as nat, value.spec_length() as nat),
            OutgoingPayload::DeviceState => seq![0u8, 0u8, 0u8],
            OutgoingPayload::ChangeNetworkState { state } => seq![state.spec_code()],
            OutgoingPayload::ApsDataRequest {
                request_id,
                destination,
                profile_id,
                cluster_id,
                source_endpoint,
                asdu,
                radius,
            } => data_request_bytes(
                *request_id,
                *destination,
                *profile_id,
                *cluster_id,
                *source_endpoint,
                asdu@,
                *radius,
            ),
        }
    }

    /// The payload has as many bytes as its length says.
    pub proof fn lemma_bytes_len(&self)
        ensures
            self.spec_bytes().len() == self.spec_length(),
    {
        match self {
            OutgoingPayload::WriteParameter { parameter, value } => {
                lemma_le_bytes_len(value.spec_u64() as nat, value.spec_length() as nat);
            },
            OutgoingPayload::ApsDataRequest {
                destination,
                profile_id,
                cluster_id,
                asdu,
                ..
            } => {
                match destination {
                    Address::Group(addr) => lemma_le_bytes_len(*addr as nat, 2),
                    Address::NWK(addr, _) => lemma_le_bytes_len(*addr as nat, 2),
                    Address::IEEE(addr, _) => lemma_le_bytes_len(*addr as nat, 8),
                }
                lemma_le_bytes_len(*profile_id as nat, 2);
                lemma_le_bytes_len(*cluster_id as nat, 2);
                lemma_le_bytes_len((asdu@.len() % 0x1_0000) as nat, 2);
            },
            _ => {},
        }
    }

    #[verifier::when_used_as_spec(spec_has_variable_length)]
    pub fn has_variable_length(&self) -> (r: bool)
        ensures
            r == self.spec_has_variable_length(),
    {
        match self {
            OutgoingPayload::Empty => true,
            OutgoingPayload::ReadParameter { .. } => true,
            OutgoingPayload::WriteParameter { .. } => true,
            OutgoingPayload::ApsDataRequest { .. } => true,
            _ => false,
        }
    }

    /// Whether the payload takes no more than `limit` bytes.
    pub fn fits(&self, limit: usize) -> (r: bool)
        ensures
            r == (self.spec_length() <= limit),
    {
        match self {
            OutgoingPayload::Empty => true,
            OutgoingPayload::ReadParameter { .. } => 1 <= limit,
            OutgoingPayload::WriteParameter { value, .. } => 1 + value.length() <= limit,
            OutgoingPayload::DeviceState => 3 <= limit,
            OutgoingPayload::ChangeNetworkState { .. } => 1 <= limit,
            OutgoingPayload::ApsDataRequest { destination, asdu, .. } => {
                let fixed: usize = match destination {
                    Address::Group(_) => 14,
                    Address::NWK(_, _) => 15,
                    Address::IEEE(_, _) => 21,
                };
                fixed <= limit && asdu.len() <= limit - fixed
            },
        }
    }

    /// Number of bytes of the payload, where a `usize` can hold it.
    pub fn length(&self) -> (n: usize)
        requires
            self.spec_length() <= usize::MAX,
        ensures
            n == self.spec_length(),
    {
        match self {
            OutgoingPayload::Empty => 0,
            OutgoingPayload::ReadParameter { .. } => 1,
            OutgoingPayload::WriteParameter { value, .. } => 1 + value.length(),
            OutgoingPayload::DeviceState => 3,
            OutgoingPayload::ChangeNetworkState { .. } => 1,
            OutgoingPayload::ApsDataRequest { destination, asdu, .. } => {
                let address_len: usize = match destination {
                    Address::Group(_) => 2,
                    Address::NWK(_, _) => 3,
                    Address::IEEE(_, _) => 9,
                };
                12 + address_len + asdu.len()
            },
        }
    }

    /// Writes the payload into `out` from `at` on and leaves the rest of
    /// `out` as it was. It always succeeds.
    pub fn write(&self, out: &mut [u8], at: usize) -> (r: Result<(), Error>)
        requires
            at + self.spec_length() <= old(out).len(),
        ensures
            r is Ok,
            final(out)@ == splice(old(out)@, at as int, self.spec_bytes()),
    {
        let ghost start = out@;
        match self {
            OutgoingPayload::Empty => {
                assert(out@ =~= splice(start, at as int, self.spec_bytes()));
                Ok(())
            },
            OutgoingPayload::ReadParameter { parameter } => {
                put_u8(out, at, parameter.code());
                Ok(())
            },
            OutgoingPayload::WriteParameter { parameter, value } => {
                put_u8(out, at, parameter.code());
                proof {
                    lemma_pow256_values();
                    lemma_le_bytes_len(value.spec_u64() as nat, value.spec_length() as nat);
                    lemma_splice_append(
                        start,
                        at as int,
                        seq![parameter.spec_code()],
                        le_bytes(value.spec_u64() as nat, value.spec_length() as nat),
                    );
                }
                write_uint(out, at + 1, value.u64(), value.length());
                Ok(())
            },
            OutgoingPayload::DeviceState => {
                put_u8(out, at, 0x0);
                put_u8(out, at + 1, 0x0);
                put_u8(out, at + 2, 0x0);
                assert(out@ =~= splice(start, at as int, self.spec_bytes()));
                Ok(())
            },
            OutgoingPayload::ChangeNetworkState { state } => {
                put_u8(out, at, state.code());
                Ok(())
            },
            OutgoingPayload::ApsDataRequest {
                request_id,
                destination,
                profile_id,
                cluster_id,
                source_endpoint,
                asdu,
                radius,
            } => {
                write_data_request(
                    out,
                    at,
                    *request_id,
                    destination,
                    *profile_id,
                    *cluster_id,
                    *source_endpoint,
                    asdu,
                    *radius,
                );
                Ok(())
            },
        }
    }
}

/// The bytes of a data request: the request id, a zero byte, the mode of the
/// destination and the destination, profile and cluster, the source endpoint,
/// the length of the data unit and the data unit, the transmit options and
/// the radius.
pub open spec fn data_request_bytes(
    request_id: u8,
    destination: Address,
    profile_id: u16,
    cluster_id: u16,
    source_endpoint: u8,
    asdu: Seq<u8>,
    radius: u8,
) -> Seq<u8> {
    seq![request_id, 0u8, destination.spec_mode().spec_code()] + address_bytes(destination)
        + le_bytes(profile_id as nat, 2) + le_bytes(cluster_id as nat, 2) + seq![source_endpoint]
        + le_bytes((asdu.len() % 0x1_0000) as nat, 2) + asdu + seq![TX_OPTIONS, radius]
}

/// Writes the destination behind its mode byte; returns the place behind it.
fn write_destination(out: &mut [u8], at: usize, destination: &Address) -> (next: usize)
    requires
        at + destination.spec_wire_len() <= old(out).len(),
    ensures
        next == at + destination.spec_wire_len(),
        address_bytes(*destination).len() == destination.spec_wire_len(),
        final(out)@ == splice(old(out)@, at as int, address_bytes(*destination)),
{
    let ghost start = out@;
    match destination {
        Address::Group(addr) => {
            proof {
                lemma_le_bytes_len(*addr as nat, 2);
            }
            write_u16(out, at, *addr);
            at + 2
        },
        Address::NWK(addr, endpoint) => {
            proof {
                lemma_le_bytes_len(*addr as nat, 2);
                lemma_splice_append(start, at as int, le_bytes(*addr as nat, 2), seq![*endpoint]);
            }
            write_u16(out, at, *addr);
            put_u8(out, at + 2, *endpoint);
            at + 3
        },
        Address::IEEE(addr, endpoint) => {
            proof {
                lemma_le_bytes_len(*addr as nat, 8);
                lemma_splice_append(start, at as int, le_bytes(*addr as nat, 8), seq![*endpoint]);
            }
            write_u64(out, at, *addr);
            put_u8(out, at + 8, *endpoint);
            at + 9
        },
    }
}

/// Copies `data` into `out` from `at` on.
fn write_bytes(out: &mut [u8], at: usize, data: &Vec<u8>)
    requires
        at + data@.len() <= old(out).len(),
    ensures
        final(out)@ == splice(old(out)@, at as int, data@),
{
    let ghost start = out@;
    let mut i: usize = 0;
    assert(out@ =~= splice(start, at as int, data@.take(0)));
    while i < data.len()
        invariant
            i <= data@.len(),
            at + data@.len() <= start.len(),
            at + data@.len() <= usize::MAX,
            out@ == splice(start, at as int, data@.take(i as int)),
        decreases data@.len() - i,
    {
        proof {
            lemma_splice_append(start, at as int, data@.take(i as int), seq![data@[i as int]]);
            assert(data@.take(i as int) + seq![data@[i as int]] =~= data@.take(i + 1));
        }
        put_u8(out, at + i, data[i]);
        i += 1;
    }
    assert(data@.take(i as int) =~= data@);
}

/// `now` is `start` with `done` written from `base` on.
#[verifier::opaque]
spec fn filled(now: Seq<u8>, start: Seq<u8>, base: int, done: Seq<u8>) -> bool {
    &&& 0 <= base
    &&& base + done.len() <= start.len()
    &&& now == splice(start, base, done)
}

proof fn lemma_filled_append(
    before: Seq<u8>,
    now: Seq<u8>,
    start: Seq<u8>,
    base: int,
    done: Seq<u8>,
    part: Seq<u8>,
)
    requires
        filled(before, start, base, done),
        base + done.len() + part.len() <= start.len(),
        now == splice(before, base + done.len(), part),
    ensures
        filled(now, start, base, done + part),
{
    reveal(filled);
    lemma_splice_append(start, base, done, part);
}

fn fill_u8(
    out: &mut [u8],
    at: usize,
    value: u8,
    Ghost(start): Ghost<Seq<u8>>,
    Ghost(base): Ghost<int>,
    Ghost(done): Ghost<Seq<u8>>,
)
    requires
        filled(old(out)@, start, base, done),
        at == base + done.len(),
        at < start.len(),
    ensures
        filled(final(out)@, start, base, done + seq![value]),
{
    proof {
        reveal(filled);
    }
    put_u8(out, at, value);
    proof {
        lemma_filled_append(old(out)@, out@, start, base, done, seq![value]);
    }
}

fn fill_u16(
    out: &mut [u8],
    at: usize,
    value: u16,
    Ghost(start): Ghost<Seq<u8>>,
    Ghost(base): Ghost<int>,
    Ghost(done): Ghost<Seq<u8>>,
)
    requires
        filled(old(out)@, start, base, done),
        at == base + done.len(),
        at + 2 <= start.len(),
    ensures
        filled(final(out)@, start, base, done + le_bytes(value as nat, 2)),
{
    proof {
        reveal(filled);
        lemma_le_bytes_len(value as nat, 2);
    }
    write_u16(out, at, value);
    proof {
        lemma_filled_append(old(out)@, out@, start, base, done, le_bytes(value as nat, 2));
    }
}

fn fill_destination(
    out: &mut [u8],
    at: usize,
    destination: &Address,
    Ghost(start): Ghost<Seq<u8>>,
    Ghost(base): Ghost<int>,
    Ghost(done): Ghost<Seq<u8>>,
) -> (next: usize)
    requires
        filled(old(out)@, start, base, done),
        at == base + done.len(),
        at + destination.spec_wire_len() <= start.len(),
    ensures
        next == at + destination.spec_wire_len(),
        address_bytes(*destination).len() == destination.spec_wire_len(),
        filled(final(out)@, start, base, done + address_bytes(*destination)),
{
    proof {
        reveal(filled);
    }
    let next = write_destination(out, at, destination);
    proof {
        lemma_filled_append(old(out)@, out@, start, base, done, address_bytes(*destination));
    }
    next
}

fn fill_bytes(
    out: &mut [u8],
    at: usize,
    data: &Vec<u8>,
    Ghost(start): Ghost<Seq<u8>>,
    Ghost(base): Ghost<int>,
    Ghost(done): Ghost<Seq<u8>>,
)
    requires
        filled(old(out)@, start, base, done),
        at == base + done.len(),
        at + data@.len() <= start.len(),
    ensures
        filled(final(out)@, start, base, done + data@),
{
    proof {
        reveal(filled);
    }
    write_bytes(out, at, data);
    proof {
        lemma_filled_append(old(out)@, out@, start, base, done, data@);
    }
}

proof fn lemma_filled_start(start: Seq<u8>, base: int)
    requires
        0 <= base <= start.len(),
    ensures
        filled(start, start, base, Seq::empty()),
{
    reveal(filled);
    assert(start =~= splice(start, base, Seq::empty()));
}

proof fn lemma_filled_done(now: Seq<u8>, start: Seq<u8>, base: int, done: Seq<u8>)
    requires
        filled(now, start, base, done),
    ensures
        now == splice(start, base, done),
{
    reveal(filled);
}

fn write_data_request(
    out: &mut [u8],
    at: usize,
    request_id: u8,
    destination: &Address,
    profile_id: u16,
    cluster_id: u16,
    source_endpoint: u8,
    asdu: &Vec<u8>,
    radius: u8,
)
    requires
        at + 12 + destination.spec_wire_len() + asdu@.len() <= old(out).len(),
    ensures
        final(out)@ == splice(
            old(out)@,
            at as int,
            data_request_bytes(
                request_id,
                *destination,
                profile_id,
                cluster_id,
                source_endpoint,
                asdu@,
                radius,
            ),
        ),
{
    let ghost start = out@;
    let ghost base = at as int;
    let asdu_len: u16 = (asdu.len() % 0x1_0000) as u16;
    proof {
        lemma_le_bytes_len(profile_id as nat, 2);
        lemma_le_bytes_len(cluster_id as nat, 2);
        lemma_le_bytes_len(asdu_len as nat, 2);
        lemma_filled_start(start, base);
    }
    let ghost d0: Seq<u8> = Seq::empty();
    fill_u8(out, at, request_id, Ghost(start), Ghost(base), Ghost(d0));
    let ghost d1 = d0 + seq![request_id];
    fill_u8(out, at + 1, 0x0, Ghost(start), Ghost(base), Ghost(d1));
    let ghost d2 = d1 + seq![0u8];
    fill_u8(out, at + 2, destination.mode().code(), Ghost(start), Ghost(base), Ghost(d2));
    let ghost d3 = d2 + seq![destination.spec_mode().spec_code()];
    let mut next_offset = fill_destination(
        out,
        at + 3,
        destination,
        Ghost(start),
        Ghost(base),
        Ghost(d3),
    );
    let ghost d4 = d3 + address_bytes(*destination);
    fill_u16(out, next_offset, profile_id, Ghost(start), Ghost(base), Ghost(d4));
    next_offset += 2;
    let ghost d5 = d4 + le_bytes(profile_id as nat, 2);
    fill_u16(out, next_offset, cluster_id, Ghost(start), Ghost(base), Ghost(d5));
    next_offset += 2;
    let ghost d6 = d5 + le_bytes(cluster_id as nat, 2);
    fill_u8(out, next_offset, source_endpoint, Ghost(start), Ghost(base), Ghost(d6));
    next_offset += 1;
    let ghost d7 = d6 + seq![source_endpoint];
    fill_u16(out, next_offset, asdu_len, Ghost(start), Ghost(base), Ghost(d7));
    next_offset += 2;
    let ghost d8 = d7 + le_bytes(asdu_len as nat, 2);
    fill_bytes(out, next_offset, asdu, Ghost(start), Ghost(base), Ghost(d8));
    next_offset += asdu.len();
    let ghost d9 = d8 + asdu@;
    fill_u8(out, next_offset, TX_OPTIONS, Ghost(start), Ghost(base), Ghost(d9));
    next_offset += 1;
    let ghost d10 = d9 + seq![TX_OPTIONS];
    fill_u8(out, next_offset, radius, Ghost(start), Ghost(base), Ghost(d10));
    let ghost d11 = d10 + seq![radius];
    proof {
        lemma_filled_done(out@, start, base, d11);
        assert(d11 =~= data_request_bytes(
            request_id,
            *destination,
            profile_id,
            cluster_id,
            source_endpoint,
            asdu@,
            radius,
        ));
    }
}

/// A message for the module: a command, the sequence number that the answer
/// will carry, and a payload.
#[derive(Debug)]
pub struct OutgoingMessage {
    pub command: CommandCode,
    pub seq: u8,
    pub payload: OutgoingPayload,
}

impl OutgoingMessage {
    /// The payload belongs to the command, as in every message that a
    /// constructor makes.
    pub open spec fn well_formed(&self) -> bool {
        match self.payload {
            OutgoingPayload::Empty => self.command == CommandCode::ApsDataIndication
                || self.command == CommandCode::ApsDataConfirm,
            OutgoingPayload::ReadParameter { .. } => self.command == CommandCode::ReadParameter,
            OutgoingPayload::WriteParameter { .. } => self.command == CommandCode::WriteParameter,
            OutgoingPayload::DeviceState => self.command == CommandCode::DeviceState,
            OutgoingPayload::ChangeNetworkState { .. } => self.command
                == CommandCode::ChangeNetworkState,
            OutgoingPayload::ApsDataRequest { .. } => self.command == CommandCode::ApsDataRequest,
        }
    }

    /// Number of bytes in front of the payload: the header, and the payload
    /// length where the payload has one.
    pub open spec fn spec_header_len(&self) -> nat {
        if self.payload.spec_has_variable_length() {
            (FRAME_MIN_LEN + 2) as nat
        } else {
            FRAME_MIN_LEN as nat
        }
    }

    /// Number of bytes of the whole frame.
    pub open spec fn spec_frame_len(&self) -> nat {
        self.spec_header_len() + self.payload.spec_length()
    }

    /// The bytes in front of the payload: command, sequence number, a zero
    /// byte, the frame length and, where the payload has one, the payload
    /// length. A length that does not fit its two bytes is cut to them.
    pub open spec fn spec_header(&self) -> Seq<u8> {
        let fixed = seq![self.command.spec_code(), self.seq, 0u8] + le_bytes(
            (self.spec_frame_len() % 0x1_0000) as nat,
            2,
        );
        if self.payload.spec_has_variable_length() {
            fixed + le_bytes((self.payload.spec_length() % 0x1_0000) as nat, 2)
        } else {
            fixed
        }
    }

    /// The frame: header and payload.
    pub open spec fn spec_bytes(&self) -> Seq<u8> {
        self.spec_header() + self.payload.spec_bytes()
    }

    pub fn new_read_parameter(seq: u8, parameter: ParameterCode) -> (r: Self)
        ensures
            r.command == CommandCode::ReadParameter,
            r.seq == seq,
            r.payload == (OutgoingPayload::ReadParameter { parameter }),
            r.well_formed(),
    {
        OutgoingMessage {
            command: CommandCode::ReadParameter,
            seq,
            payload: OutgoingPayload::ReadParameter { parameter },
        }
    }

    pub fn new_write_parameter(seq: u8, parameter: ParameterCode, value: ParameterValue) -> (r:
        Self)
        ensures
            r.command == CommandCode::WriteParameter,
            r.seq == seq,
            r.payload == (OutgoingPayload::WriteParameter { parameter, value }),
            r.well_formed(),
    {
        OutgoingMessage {
            command: CommandCode::WriteParameter,
            seq,
            payload: OutgoingPayload::WriteParameter { parameter, value },
        }
    }

    pub fn new_device_state(seq: u8) -> (r: Self)
        ensures
            r.command == CommandCode::DeviceState,
            r.seq == seq,
            r.payload == OutgoingPayload::DeviceState,
            r.well_formed(),
    {
        OutgoingMessage {
            command: CommandCode::DeviceState,
            seq,
            payload: OutgoingPayload::DeviceState,
        }
    }

    pub fn new_change_network_state(seq: u8, state: NetworkStateCode) -> (r: Self)
        ensures
            r.command == CommandCode::ChangeNetworkState,
            r.seq == seq,
            r.payload == (OutgoingPayload::ChangeNetworkState { state }),
            r.well_formed(),
    {
        OutgoingMessage {
            command: CommandCode::ChangeNetworkState,
            seq,
            payload: OutgoingPayload::ChangeNetworkState { state },
        }
    }

    /// The request for the next data indication; it has an empty payload.
    pub fn new_aps_data_indication(seq: u8) -> (r: Self)
        ensures
            r.command == CommandCode::ApsDataIndication,
            r.seq == seq,
            r.payload == OutgoingPayload::Empty,
            r.well_formed(),
    {
        OutgoingMessage {
            command: CommandCode::ApsDataIndication,
            seq,
            payload: OutgoingPayload::Empty,
        }
    }

    pub fn new_aps_data_request(
        seq: u8,
        request_id: u8,
        destination: Address,
        profile_id: u16,
        cluster_id: u16,
        source_endpoint: u8,
        radius: u8,
        asdu: Vec<u8>,
    ) -> (r: Self)
        ensures
            r.command == CommandCode::ApsDataRequest,
            r.seq == seq,
            r.payload == (OutgoingPayload::ApsDataRequest {
                request_id,
                destination,
                profile_id,
                cluster_id,
                source_endpoint,
                asdu,
                radius,
            }),
            r.well_formed(),
    {
        OutgoingMessage {
            command: CommandCode::ApsDataRequest,
            seq,
            payload: OutgoingPayload::ApsDataRequest {
                request_id,
                destination,
                profile_id,
                cluster_id,
                source_endpoint,
                asdu,
                radius,
            },
        }
    }

    /// The request for the confirmation of a data request; it has an empty
    /// payload.
    pub fn new_aps_data_confirm(seq: u8) -> (r: Self)
        ensures
            r.command == CommandCode::ApsDataConfirm,
            r.seq == seq,
            r.payload == OutgoingPayload::Empty,
            r.well_formed(),
    {
        OutgoingMessage {
            command: CommandCode::ApsDataConfirm,
            seq,
            payload: OutgoingPayload::Empty,
        }
    }

    /// The header is as long as `spec_header_len` says, and the frame as long
    /// as `spec_frame_len` says.
    pub proof fn lemma_frame_len(&self)
        ensures
            self.spec_header().len() == self.spec_header_len(),
            self.spec_bytes().len() == self.spec_frame_len(),
    {
        lemma_le_bytes_len((self.spec_frame_len() % 0x1_0000) as nat, 2);
        lemma_le_bytes_len((self.payload.spec_length() % 0x1_0000) as nat, 2);
        self.payload.lemma_bytes_len();
    }

    /// A frame of at most 65535 bytes holds its own length, little-endian,
    /// in its bytes 3 and 4.
    pub proof fn lemma_frame_len_field(&self)
        requires
            self.spec_frame_len() <= 0xffff,
        ensures
            self.spec_bytes().len() == self.spec_frame_len(),
            le_value(self.spec_bytes().subrange(3, 5)) == self.spec_frame_len(),
    {
        self.lemma_frame_len();
        let field = le_bytes(self.spec_frame_len(), 2);
        lemma_le_bytes_len(self.spec_frame_len(), 2);
        lemma_le_value_of_bytes(self.spec_frame_len(), 2);
        lemma_pow256_values();
        assert(self.spec_bytes().subrange(3, 5) =~= field);
    }

    /// Where the payload has a length field and takes at most 65535 bytes,
    /// bytes 5 and 6 of the frame hold the payload's length, little-endian.
    pub proof fn lemma_payload_len_field(&self)
        requires
            self.payload.spec_has_variable_length(),
            self.payload.spec_length() <= 0xffff,
        ensures
            le_value(self.spec_bytes().subrange(5, 7)) == self.payload.spec_length(),
    {
        self.lemma_frame_len();
        let field = le_bytes(self.payload.spec_length(), 2);
        lemma_le_bytes_len((self.spec_frame_len() % 0x1_0000) as nat, 2);
        lemma_le_bytes_len(self.payload.spec_length(), 2);
        lemma_le_value_of_bytes(self.payload.spec_length(), 2);
        lemma_pow256_values();
        assert(self.spec_bytes().subrange(5, 7) =~= field);
    }

    /// Writes the frame to the front of `out` and returns its length; what
    /// lies behind the frame stays as it was. Where `out` is shorter than
    /// the frame, nothing is written and the error says so.
    pub fn write(&self, out: &mut [u8]) -> (r: Result<usize, Error>)
        ensures
            match r {
                Ok(n) => {
                    &&& n == self.spec_frame_len()
                    &&& n <= old(out)@.len()
                    &&& final(out)@ == self.spec_bytes() + old(out)@.skip(n as int)
                    &&& n <= 0xffff ==> le_value(final(out)@.subrange(3, 5)) == n
                    &&& self.payload.spec_has_variable_length()
                        && self.payload.spec_length() <= 0xffff ==> le_value(
                        final(out)@.subrange(5, 7),
                    ) == self.payload.spec_length()
                },
                Err(e) => {
                    &&& e == Error::Encoding("Not enough space for encoding this frame")
                    &&& old(out)@.len() < self.spec_frame_len()
                    &&& final(out)@ == old(out)@
                },
            },
    {
        let ghost start = out@;
        let header_len: usize = if self.payload.has_variable_length() {
            FRAME_MIN_LEN + 2
        } else {
            FRAME_MIN_LEN
        };
        if out.len() < header_len || !self.payload.fits(out.len() - header_len) {
            return Err(Error::Encoding("Not enough space for encoding this frame"));
        }
        let payload_len = self.payload.length();
        let frame_len = header_len + payload_len;
        let frame_len_field: u16 = (frame_len % 0x1_0000) as u16;
        let payload_len_field: u16 = (payload_len % 0x1_0000) as u16;
        proof {
            lemma_filled_start(start, 0);
            lemma_le_bytes_len(frame_len_field as nat, 2);
            lemma_le_bytes_len(payload_len_field as nat, 2);
        }
        let ghost d0: Seq<u8> = Seq::empty();
        fill_u8(out, 0, self.command.code(), Ghost(start), Ghost(0), Ghost(d0));
        let ghost d1 = d0 + seq![self.command.spec_code()];
        fill_u8(out, 1, self.seq, Ghost(start), Ghost(0), Ghost(d1));
        let ghost d2 = d1 + seq![self.seq];
        fill_u8(out, 2, 0x0, Ghost(start), Ghost(0), Ghost(d2));
        let ghost d3 = d2 + seq![0u8];
        fill_u16(out, 3, frame_len_field, Ghost(start), Ghost(0), Ghost(d3));
        let ghost mut d4 = d3 + le_bytes(frame_len_field as nat, 2);
        let next_offset: usize = if self.payload.has_variable_length() {
            fill_u16(out, 5, payload_len_field, Ghost(start), Ghost(0), Ghost(d4));
            proof {
                d4 = d4 + le_bytes(payload_len_field as nat, 2);
            }
            7
        } else {
            5
        };
        proof {
            assert(d4 =~= self.spec_header());
            lemma_filled_done(out@, start, 0, d4);
            self.payload.lemma_bytes_len();
            lemma_splice_append(start, 0, d4, self.payload.spec_bytes());
        }
        let _ = self.payload.write(out, next_offset);
        proof {
            assert(out@ =~= self.spec_bytes() + start.skip(frame_len as int));
            if frame_len <= 0xffff {
                self.lemma_frame_len_field();
                assert(out@.subrange(3, 5) =~= self.spec_bytes().subrange(3, 5));
            }
            if self.payload.spec_has_variable_length() && payload_len <= 0xffff {
                self.lemma_payload_len_field();
                assert(out@.subrange(5, 7) =~= self.spec_bytes().subrange(5, 7));
            }
        }
        Ok(frame_len)
    }
}

} // verus!
