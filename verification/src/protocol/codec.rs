//! The stream codec: frames with a checksum trailer, SLIP-encoded, into and
//! out of a byte buffer.

use vstd::prelude::*;
use bytes::BytesMut;
use crate::error::{Error, SlipError};
use crate::protocol::buffer::{buffer_bytes, buffer_extend, buffer_len, buffer_split_to, buffered};
use crate::protocol::endian::{le_bytes, lemma_le_bytes_len, lemma_le_bytes_two, put_u8, write_u16};
use crate::protocol::incoming::{spec_read, IncomingMessage, MessageView};
use crate::protocol::outgoing::{
    address_bytes, data_request_bytes, OutgoingMessage, OutgoingPayload, TX_OPTIONS,
};
use crate::protocol::slip::{
    broken, framed, lemma_specials_concat, lemma_stuffed_len, lemma_stuffed_prefix, slip_decode,
    slip_decoded, slip_encode, slip_finish, specials, unfinished, END, ESC, ESC_END, ESC_ESC,
};
use crate::protocol::types::Address;

verus! {

/// Longest message that the encoder takes, in bytes.
pub const MAX_MESSAGE_LEN: usize = 300;

/// Room for the encoded frame of a message.
pub const MAX_ENCODED_LEN: usize = 600;

/// Room for the decoded bytes of a frame.
pub const MAX_DECODED_LEN: usize = 300;

/// The sum of the bytes of `data`.
pub open spec fn byte_sum(data: Seq<u8>) -> nat
    decreases data.len(),
{
    if data.len() == 0 {
        0
    } else {
        byte_sum(data.drop_last()) + data.last() as nat
    }
}

/// The checksum of `data`: the two's complement, in 16 bits, of the sum of
/// its bytes. Sum and checksum add up to a multiple of 65536.
pub open spec fn spec_crc(data: Seq<u8>) -> nat {
    ((0x1_0000 - byte_sum(data) % 0x1_0000) % 0x1_0000) as nat
}

/// The sum of the bytes and the checksum add up to a multiple of 65536.
pub proof fn lemma_crc_complements_sum(data: Seq<u8>)
    ensures
        spec_crc(data) < 0x1_0000,
        (byte_sum(data) + spec_crc(data)) % 0x1_0000 == 0,
{
}

/// The checksum of `data` as it stands behind a message: little-endian.
pub fn compute_crc(data: &[u8]) -> (crc: [u8; 2])
    ensures
        crc@ == le_bytes(spec_crc(data@), 2),
{
    let mut sum: u16 = 0;
    let mut i: usize = 0;
    assert(data@.take(0) =~= Seq::<u8>::empty());
    while i < data.len()
        invariant
            i <= data@.len(),
            sum == byte_sum(data@.take(i as int)) % 0x1_0000,
        decreases data@.len() - i,
    {
        proof {
            assert(data@.take(i + 1).drop_last() =~= data@.take(i as int));
        }
        sum = sum.wrapping_add(data[i] as u16);
        i += 1;
    }
    assert(data@.take(i as int) =~= data@);
    assert(!sum == 0xffff - sum) by (bit_vector);
    let crc: u16 = (!sum).wrapping_add(1);
    let mut buf = [0u8; 2];
    write_u16(&mut buf, 0, crc);
    proof {
        lemma_le_bytes_len(crc as nat, 2);
        assert(buf@ =~= le_bytes(crc as nat, 2));
    }
    buf
}

/// The bytes that a message travels as: the message, its checksum, and the
/// SLIP framing around both.
pub open spec fn spec_wire_frame(msg: OutgoingMessage) -> Seq<u8> {
    framed(msg.spec_bytes() + le_bytes(spec_crc(msg.spec_bytes()), 2))
}

/// `whole` has at least `plain` bytes that travel as they are.
spec fn has_plain(whole: Seq<u8>, plain: nat) -> bool {
    specials(whole) + plain <= whole.len()
}

proof fn lemma_plain_append(done: Seq<u8>, k: nat, part: Seq<u8>, plain: nat)
    requires
        has_plain(done, k),
        has_plain(part, plain),
    ensures
        has_plain(done + part, k + plain),
{
    lemma_specials_concat(done, part);
}

proof fn lemma_plain_any(part: Seq<u8>)
    ensures
        has_plain(part, 0),
{
    lemma_stuffed_len(part);
}

proof fn lemma_plain_one(byte: u8)
    requires
        byte != END,
        byte != ESC,
    ensures
        has_plain(seq![byte], 1),
{
    assert(seq![byte].drop_last() =~= Seq::<u8>::empty());
    reveal_with_fuel(specials, 2);
}

/// The high byte of a length below 0xc000 travels as it is.
proof fn lemma_plain_length(len: nat)
    requires
        len < 0xc000,
    ensures
        has_plain(le_bytes(len, 2), 1),
{
    lemma_le_bytes_two(len);
    let low = seq![(len % 256) as u8];
    let high = seq![((len / 256) % 256) as u8];
    assert(le_bytes(len, 2) =~= low + high);
    lemma_plain_any(low);
    lemma_plain_one(((len / 256) % 256) as u8);
    lemma_plain_append(low, 0, high, 1);
}

/// The bytes in front of the payload of a message of up to 300 bytes hold
/// three that travel as they are: the command, the zero byte and the high
/// byte of the frame length.
proof fn lemma_plain_header(msg: OutgoingMessage)
    requires
        msg.spec_frame_len() <= MAX_MESSAGE_LEN,
    ensures
        has_plain(msg.spec_header(), 3),
{
    let frame_len = msg.spec_frame_len();
    let payload_len = msg.payload.spec_length();
    let start = seq![msg.command.spec_code(), msg.seq, 0u8];
    let command = seq![msg.command.spec_code()];
    assert(start =~= command + seq![msg.seq] + seq![0u8]);
    lemma_plain_one(msg.command.spec_code());
    lemma_plain_any(seq![msg.seq]);
    lemma_plain_one(0u8);
    lemma_plain_append(command, 1, seq![msg.seq], 0);
    lemma_plain_append(command + seq![msg.seq], 1, seq![0u8], 1);
    lemma_plain_length(frame_len);
    lemma_plain_append(start, 2, le_bytes(frame_len, 2), 1);
    if msg.payload.spec_has_variable_length() {
        lemma_plain_any(le_bytes(payload_len, 2));
        lemma_plain_append(start + le_bytes(frame_len, 2), 3, le_bytes(payload_len, 2), 0);
    }
}

/// The payload of a data request of up to 300 bytes holds four bytes that
/// travel as they are: the zero byte, the mode of the destination, the high
/// byte of the data unit's length and the transmit options.
proof fn lemma_plain_data_request(
    request_id: u8,
    destination: Address,
    profile_id: u16,
    cluster_id: u16,
    source_endpoint: u8,
    asdu: Seq<u8>,
    radius: u8,
)
    requires
        asdu.len() <= MAX_MESSAGE_LEN,
    ensures
        has_plain(
            data_request_bytes(
                request_id,
                destination,
                profile_id,
                cluster_id,
                source_endpoint,
                asdu,
                radius,
            ),
            4,
        ),
{
    let mode = destination.spec_mode().spec_code();
    let d1 = seq![request_id];
    lemma_plain_any(d1);
    lemma_plain_one(0u8);
    lemma_plain_append(d1, 0, seq![0u8], 1);
    let d2 = d1 + seq![0u8];
    lemma_plain_one(mode);
    lemma_plain_append(d2, 1, seq![mode], 1);
    let d3 = d2 + seq![mode];
    assert(d3 =~= seq![request_id, 0u8, mode]);
    lemma_plain_any(address_bytes(destination));
    lemma_plain_append(d3, 2, address_bytes(destination), 0);
    let d4 = d3 + address_bytes(destination);
    lemma_plain_any(le_bytes(profile_id as nat, 2));
    lemma_plain_append(d4, 2, le_bytes(profile_id as nat, 2), 0);
    let d5 = d4 + le_bytes(profile_id as nat, 2);
    lemma_plain_any(le_bytes(cluster_id as nat, 2));
    lemma_plain_append(d5, 2, le_bytes(cluster_id as nat, 2), 0);
    let d6 = d5 + le_bytes(cluster_id as nat, 2);
    lemma_plain_any(seq![source_endpoint]);
    lemma_plain_append(d6, 2, seq![source_endpoint], 0);
    let d7 = d6 + seq![source_endpoint];
    lemma_plain_length(asdu.len());
    lemma_plain_append(d7, 2, le_bytes(asdu.len(), 2), 1);
    let d8 = d7 + le_bytes(asdu.len(), 2);
    lemma_plain_any(asdu);
    lemma_plain_append(d8, 3, asdu, 0);
    let d9 = d8 + asdu;
    lemma_plain_one(TX_OPTIONS);
    lemma_plain_append(d9, 3, seq![TX_OPTIONS], 1);
    let d10 = d9 + seq![TX_OPTIONS];
    lemma_plain_any(seq![radius]);
    lemma_plain_append(d10, 4, seq![radius], 0);
    let d11 = d10 + seq![radius];
    assert(d11 =~= data_request_bytes(
        request_id,
        destination,
        profile_id,
        cluster_id,
        source_endpoint,
        asdu,
        radius,
    ));
}

/// The frame of a message of up to 300 bytes takes at most 600 bytes on the
/// wire, whatever its bytes are: a frame of 302 bytes with its checksum
/// cannot consist of bytes to escape alone.
pub proof fn lemma_wire_frame_fits(msg: OutgoingMessage)
    requires
        msg.spec_frame_len() <= MAX_MESSAGE_LEN,
    ensures
        spec_wire_frame(msg).len() <= MAX_ENCODED_LEN,
{
    let message = msg.spec_bytes();
    let trailer = le_bytes(spec_crc(message), 2);
    msg.lemma_frame_len();
    msg.payload.lemma_bytes_len();
    lemma_le_bytes_len(spec_crc(message), 2);
    lemma_plain_header(msg);
    match msg.payload {
        OutgoingPayload::ApsDataRequest {
            request_id,
            destination,
            profile_id,
            cluster_id,
            source_endpoint,
            asdu,
            radius,
        } => {
            lemma_plain_data_request(
                request_id,
                destination,
                profile_id,
                cluster_id,
                source_endpoint,
                asdu@,
                radius,
            );
        },
        _ => {
            lemma_plain_any(msg.payload.spec_bytes());
        },
    }
    let plain: nat = if msg.payload is ApsDataRequest {
        4
    } else {
        0
    };
    lemma_plain_append(msg.spec_header(), 3, msg.payload.spec_bytes(), plain);
    lemma_plain_any(trailer);
    lemma_plain_append(message, 3 + plain, trailer, 0);
    lemma_stuffed_len(message + trailer);
}

/// `r` is what reading `data` as a message gives: the message, or nothing
/// where `data` is no message.
pub open spec fn read_as(data: Seq<u8>, r: Option<IncomingMessage>) -> bool {
    match r {
        Some(message) => spec_read(data) == Ok::<MessageView, &'static str>(message@),
        None => spec_read(data) is Err,
    }
}

/// What the decoder does with a buffer that holds `before`, once the SLIP
/// layer has processed `read` bytes of it into `data` and has or has not
/// reached the end of a frame: without an end nothing happens; with one, the
/// processed bytes leave the buffer and `data` is read as a message, which is
/// handed on if it is one and dropped if not.
pub open spec fn deframed(
    before: Seq<u8>,
    read: nat,
    data: Seq<u8>,
    end: bool,
    after: Seq<u8>,
    r: Option<IncomingMessage>,
) -> bool {
    if !end {
        after == before && r is None
    } else {
        after == before.skip(read as int) && read_as(data, r)
    }
}

/// What the decoder does with a buffer that holds `before`. An empty buffer
/// holds no frame. Otherwise the SLIP layer decodes the buffer's bytes into
/// room for 300: its error is returned and the buffer stays as it was; its
/// result is dealt with as `deframed` says.
pub open spec fn decoded(
    before: Seq<u8>,
    after: Seq<u8>,
    r: Result<Option<IncomingMessage>, Error>,
) -> bool {
    if before.len() == 0 {
        after == before && r is Ok && r->Ok_0 is None
    } else {
        match slip_decoded(before, MAX_DECODED_LEN as nat) {
            Err(e) => after == before && r is Err && r->Err_0 == Error::SLIP(e),
            Ok((read, data, end)) => r is Ok && deframed(before, read, data, end, after, r->Ok_0),
        }
    }
}

/// The codec. It keeps nothing between two calls.
pub struct Codec {}

impl Codec {
    pub fn new() -> (codec: Self) {
        Codec {  }
    }

    /// Takes a decoded frame out of the buffer: `read`, `data` and `end` are
    /// what the SLIP layer made of the buffer's bytes.
    pub fn deframe(buf: &mut BytesMut, read: usize, data: &[u8], end: bool) -> (r: Option<
        IncomingMessage,
    >)
        requires
            read <= buffered(*old(buf)).len(),
        ensures
            deframed(buffered(*old(buf)), read as nat, data@, end, buffered(*final(buf)), r),
    {
        if !end {
            return None;
        }
        let _ = buffer_split_to(buf, read);
        match IncomingMessage::read(data) {
            Ok(response) => Some(response),
            Err(_) => None,
        }
    }

    /// Looks for a frame at the front of the buffer, as `decoded` says. As
    /// long as the data of a frame is shorter than 300 bytes:
    /// a buffer that does not start with the end byte is refused;
    /// of a buffer that starts with a whole frame, the frame leaves the
    /// buffer and its data is read as a message;
    /// a buffer that holds the start of a frame and not yet its end is left
    /// alone, for more to come;
    /// a buffer with a broken escape sequence is refused.
    /// A refused buffer stays as it was. The checksum at the end of a frame
    /// is not verified.
    pub fn decode(&mut self, buf: &mut BytesMut) -> (r: Result<Option<IncomingMessage>, Error>)
        ensures
            decoded(buffered(*old(buf)), buffered(*final(buf)), r),
            buffered(*old(buf)).len() > 0 && buffered(*old(buf))[0] != END ==> {
                &&& buffered(*final(buf)) == buffered(*old(buf))
                &&& r is Err
                &&& r->Err_0 == Error::SLIP(SlipError::BadHeaderDecode)
            },
            forall|data: Seq<u8>, rest: Seq<u8>|
                #![trigger framed(data) + rest]
                buffered(*old(buf)) == framed(data) + rest && data.len() < MAX_DECODED_LEN ==> {
                    &&& buffered(*final(buf)) == rest
                    &&& r is Ok
                    &&& read_as(data, r->Ok_0)
                },
            forall|data: Seq<u8>, held: bool|
                #![trigger unfinished(data, held)]
                buffered(*old(buf)) == unfinished(data, held) && data.len() < MAX_DECODED_LEN ==> {
                    &&& buffered(*final(buf)) == buffered(*old(buf))
                    &&& r is Ok
                    &&& r->Ok_0 is None
                },
            forall|data: Seq<u8>, next: u8, rest: Seq<u8>|
                #![trigger broken(data, next) + rest]
                buffered(*old(buf)) == broken(data, next) + rest && next != ESC_END && next
                    != ESC_ESC && data.len() < MAX_DECODED_LEN ==> {
                    &&& buffered(*final(buf)) == buffered(*old(buf))
                    &&& r is Err
                    &&& r->Err_0 == Error::SLIP(SlipError::BadEscapeSequenceDecode)
                },
    {
        if buffer_len(buf) < 1 {
            return Ok(None);
        }
        let mut output = [0u8; 300];
        match slip_decode(buffer_bytes(buf), &mut output) {
            Err(e) => Err(Error::SLIP(e)),
            Ok((read, len, end)) => {
                let data: &[u8] = &output;
                proof {
                    let before = buffered(*old(buf));
                    assert forall|frame: Seq<u8>, rest: Seq<u8>|
                        #![trigger framed(frame) + rest]
                        before == framed(frame) + rest && frame.len()
                            < MAX_DECODED_LEN implies before.skip(read as int) == rest
                        && data@.subrange(0, len as int) == frame && end by {
                        assert((framed(frame) + rest).skip(framed(frame).len() as int) =~= rest);
                        assert(data@.subrange(0, len as int) =~= data@.take(len as int));
                    }
                }
                Ok(Self::deframe(buf, read, &data[0..len], end))
            },
        }
    }

    /// Appends the frame of `msg` to the buffer: the message, its checksum,
    /// and the SLIP framing around both. It succeeds if and only if the
    /// message takes no more than 300 bytes; where it takes more, the buffer
    /// stays as it was.
    pub fn encode(&mut self, msg: OutgoingMessage, buf: &mut BytesMut) -> (r: Result<(), Error>)
        requires
            buffered(*old(buf)).len() + MAX_ENCODED_LEN <= isize::MAX,
        ensures
            match r {
                Ok(_) => {
                    &&& msg.spec_frame_len() <= MAX_MESSAGE_LEN
                    &&& buffered(*final(buf)) == buffered(*old(buf)) + spec_wire_frame(msg)
                },
                Err(e) => {
                    &&& msg.spec_frame_len() > MAX_MESSAGE_LEN
                    &&& e == Error::Encoding("Not enough space for encoding this frame")
                    &&& buffered(*final(buf)) == buffered(*old(buf))
                },
            },
    {
        let mut data = [0u8; 302];
        let len = match msg.write(&mut data) {
            Ok(len) => len,
            Err(e) => {
                return Err(e);
            },
        };
        if len > MAX_MESSAGE_LEN {
            return Err(Error::Encoding("Not enough space for encoding this frame"));
        }
        let ghost message = msg.spec_bytes();
        proof {
            msg.lemma_frame_len();
        }
        assert(data@.take(len as int) =~= message);
        let crc = {
            let written: &[u8] = &data;
            assert(written@.subrange(0, len as int) =~= message);
            compute_crc(&written[0..len])
        };
        let ghost trailer = le_bytes(spec_crc(message), 2);
        proof {
            lemma_le_bytes_len(spec_crc(message), 2);
        }
        put_u8(&mut data, len, crc[0]);
        put_u8(&mut data, len + 1, crc[1]);
        let ghost frame = message + trailer;
        assert(data@.take(len + 2) =~= frame);
        let mut output = [0u8; 600];
        let frame_bytes: &[u8] = &data;
        assert(frame_bytes@.subrange(0, len + 2) =~= frame);
        let (encoder, read, written) = match slip_encode(&frame_bytes[0..len + 2], &mut output) {
            Ok(done) => done,
            Err(e) => {
                return Err(Error::SLIP(e));
            },
        };
        proof {
            lemma_stuffed_prefix(frame, read as int);
            lemma_wire_frame_fits(msg);
        }
        if read < len + 2 {
            return Err(Error::Encoding("Not enough space for encoding this frame"));
        }
        assert(frame.take(read as int) =~= frame);
        let end = match slip_finish(encoder, &mut output, written) {
            Ok(end) => end,
            Err(e) => {
                return Err(Error::SLIP(e));
            },
        };
        let encoded: &[u8] = &output;
        assert(encoded@.subrange(0, written + end) =~= framed(frame));
        buffer_extend(buf, &encoded[0..written + end]);
        Ok(())
    }
}

} // verus!
