//! SLIP byte stuffing: what an encoded frame looks like, and the calls into
//! the encoder and the decoder.

use vstd::prelude::*;
use crate::error::SlipError;
use crate::protocol::endian::splice;

verus! {

/// Frame end.
pub const END: u8 = 0xC0;

/// Frame escape.
pub const ESC: u8 = 0xDB;

/// Transposed frame end.
pub const ESC_END: u8 = 0xDC;

/// Transposed frame escape.
pub const ESC_ESC: u8 = 0xDD;

/// One byte as it travels inside a frame: an end or escape byte becomes an
/// escape sequence of two bytes, any other byte travels as it is.
pub open spec fn escaped(byte: u8) -> Seq<u8> {
    if byte == ESC {
        seq![ESC, ESC_ESC]
    } else if byte == END {
        seq![ESC, ESC_END]
    } else {
        seq![byte]
    }
}

/// The bytes of `data` as they travel inside a frame.
pub open spec fn stuffed(data: Seq<u8>) -> Seq<u8>
    decreases data.len(),
{
    if data.len() == 0 {
        Seq::empty()
    } else {
        stuffed(data.drop_last()) + escaped(data.last())
    }
}

/// A whole frame on the wire: an end byte, the stuffed data, an end byte.
pub open spec fn framed(data: Seq<u8>) -> Seq<u8> {
    seq![END] + stuffed(data) + seq![END]
}

/// The start of a frame whose end has not come yet: an end byte and the
/// stuffed data, and behind them, where `held` says so, an escape byte whose
/// second byte is still missing.
pub open spec fn unfinished(data: Seq<u8>, held: bool) -> Seq<u8> {
    if held {
        seq![END] + stuffed(data) + seq![ESC]
    } else {
        seq![END] + stuffed(data)
    }
}

/// The start of a frame up to an escape byte and the byte `next` behind it.
pub open spec fn broken(data: Seq<u8>, next: u8) -> Seq<u8> {
    seq![END] + stuffed(data) + seq![ESC, next]
}

/// No end byte stands among stuffed bytes: the first end byte behind the
/// start of a frame is the end of that frame.
pub proof fn lemma_stuffed_has_no_end(data: Seq<u8>, i: int)
    requires
        0 <= i < stuffed(data).len(),
    ensures
        stuffed(data)[i] != END,
    decreases data.len(),
{
    if data.len() > 0 {
        let front = stuffed(data.drop_last());
        if i < front.len() {
            lemma_stuffed_has_no_end(data.drop_last(), i);
        }
    }
}

/// Stuffing a longer piece of the same data gives no fewer bytes.
pub proof fn lemma_stuffed_prefix(data: Seq<u8>, n: int)
    requires
        0 <= n <= data.len(),
    ensures
        stuffed(data.take(n)).len() <= stuffed(data).len(),
        n < data.len() ==> stuffed(data.take(n)).len() + escaped(data[n]).len() <= stuffed(
            data,
        ).len(),
    decreases data.len(),
{
    if n < data.len() {
        let shorter = data.drop_last();
        lemma_stuffed_prefix(shorter, n);
        assert(shorter.take(n) =~= data.take(n));
        if n == data.len() - 1 {
            assert(data.take(n) =~= shorter);
        }
    } else {
        assert(data.take(n) =~= data);
    }
}

/// Number of bytes of `data` that travel as an escape sequence.
pub open spec fn specials(data: Seq<u8>) -> nat
    decreases data.len(),
{
    if data.len() == 0 {
        0
    } else if data.last() == END || data.last() == ESC {
        specials(data.drop_last()) + 1
    } else {
        specials(data.drop_last())
    }
}

/// Stuffing adds one byte for each byte that is escaped.
pub proof fn lemma_stuffed_len(data: Seq<u8>)
    ensures
        stuffed(data).len() == data.len() + specials(data),
        specials(data) <= data.len(),
    decreases data.len(),
{
    if data.len() > 0 {
        lemma_stuffed_len(data.drop_last());
    }
}

/// The escaped bytes of two pieces are those of the one and of the other.
pub proof fn lemma_specials_concat(a: Seq<u8>, b: Seq<u8>)
    ensures
        specials(a + b) == specials(a) + specials(b),
    decreases b.len(),
{
    if b.len() == 0 {
        assert(a + b =~= a);
    } else {
        lemma_specials_concat(a, b.drop_last());
        assert((a + b).drop_last() =~= a + b.drop_last());
    }
}

/// What `Decoder::decode` of serial-line-ip returns on a decoder that has
/// seen no input yet, for the given input and an output of `room` bytes: the
/// number of input bytes it has processed, the decoded bytes, and whether it
/// reached the end of a frame; or the error it stopped on.
pub uninterp spec fn slip_decoded(input: Seq<u8>, room: nat) -> Result<
    (nat, Seq<u8>, bool),
    SlipError,
>;

/// `Encoder` of serial-line-ip, carried from the call that opens a frame to
/// the call that closes it. Nothing is known of what it holds.
#[verifier::external_type_specification]
#[verifier::external_body]
pub struct ExEncoder(serial_line_ip::Encoder);

/// `Encoder::encode` of serial-line-ip, on a new encoder: it writes the end
/// byte that opens a frame and then the stuffed bytes of `input`, one input
/// byte after the other, and stops in front of the first whose one or two
/// bytes no longer fit in `output`. It returns the encoder, the number of
/// input bytes taken and the number of output bytes written; the rest of
/// `output` stays as it was. On an empty `output` it fails for want of room
/// for the opening byte.
#[verifier::external_body]
pub(crate) fn slip_encode(input: &[u8], output: &mut [u8]) -> (r: Result<
    (serial_line_ip::Encoder, usize, usize),
    SlipError,
>)
    ensures
        match r {
            Ok((_, read, written)) => {
                &&& old(output)@.len() >= 1
                &&& read <= input@.len()
                &&& written == 1 + stuffed(input@.take(read as int)).len()
                &&& written <= old(output)@.len()
                &&& read < input@.len() ==> written + escaped(input@[read as int]).len() > old(
                    output,
                )@.len()
                &&& final(output)@ == splice(
                    old(output)@,
                    0,
                    seq![END] + stuffed(input@.take(read as int)),
                )
            },
            Err(e) => {
                &&& e == SlipError::NoOutputSpaceForHeader
                &&& old(output)@.len() == 0
                &&& final(output)@ == old(output)@
            },
        },
{
    let mut encoder = serial_line_ip::Encoder::new();
    match encoder.encode(input, output) {
        Ok(totals) => Ok((encoder, totals.read, totals.written)),
        Err(serial_line_ip::Error::NoOutputSpaceForHeader) => Err(SlipError::NoOutputSpaceForHeader),
        Err(serial_line_ip::Error::NoOutputSpaceForEndByte) => Err(
            SlipError::NoOutputSpaceForEndByte,
        ),
        Err(serial_line_ip::Error::BadHeaderDecode) => Err(SlipError::BadHeaderDecode),
        Err(serial_line_ip::Error::BadEscapeSequenceDecode) => Err(
            SlipError::BadEscapeSequenceDecode,
        ),
    }
}

/// `Encoder::finish` of serial-line-ip, on the part of `output` that starts
/// at `at`: it writes the end byte that closes a frame there and returns 1,
/// the number of bytes written; nothing else changes. Where no byte is left
/// at `at`, it fails for want of room.
#[verifier::external_body]
pub(crate) fn slip_finish(encoder: serial_line_ip::Encoder, output: &mut [u8], at: usize) -> (r:
    Result<usize, SlipError>)
    requires
        at <= old(output)@.len(),
    ensures
        match r {
            Ok(written) => {
                &&& written == 1
                &&& at < old(output)@.len()
                &&& final(output)@ == splice(old(output)@, at as int, seq![END])
            },
            Err(e) => {
                &&& e == SlipError::NoOutputSpaceForEndByte
                &&& at == old(output)@.len()
                &&& final(output)@ == old(output)@
            },
        },
{
    match encoder.finish(&mut output[at..]) {
        Ok(totals) => Ok(totals.written),
        Err(serial_line_ip::Error::NoOutputSpaceForHeader) => Err(SlipError::NoOutputSpaceForHeader),
        Err(serial_line_ip::Error::NoOutputSpaceForEndByte) => Err(
            SlipError::NoOutputSpaceForEndByte,
        ),
        Err(serial_line_ip::Error::BadHeaderDecode) => Err(SlipError::BadHeaderDecode),
        Err(serial_line_ip::Error::BadEscapeSequenceDecode) => Err(
            SlipError::BadEscapeSequenceDecode,
        ),
    }
}

/// `Decoder::decode` of serial-line-ip, on a new decoder: the number of input
/// bytes processed, the number of decoded bytes, which stand at the front of
/// `output`, and whether the end of a frame was reached. It processes no more
/// bytes than `input` has and decodes no more than `output` holds, and leaves
/// what lies behind the decoded bytes as it was. As long as the data is
/// shorter than `output`:
/// an input that does not start with the end byte fails on its header;
/// of an input that starts with a whole frame, that frame is processed and
/// its end reported;
/// an input that holds the start of a frame and not yet its end is processed
/// to its last byte, and no end is reported;
/// an input in which an escape byte is followed by a byte that completes no
/// escape sequence fails on that sequence.
#[verifier::external_body]
pub(crate) fn slip_decode(input: &[u8], output: &mut [u8]) -> (r: Result<
    (usize, usize, bool),
    SlipError,
>)
    ensures
        final(output)@.len() == old(output)@.len(),
        match r {
            Ok((read, len, end)) => {
                &&& input@.len() > 0 && input@[0] == END
                &&& read <= input@.len()
                &&& len <= old(output)@.len()
                &&& slip_decoded(input@, old(output)@.len()) == Ok::<
                    (nat, Seq<u8>, bool),
                    SlipError,
                >((read as nat, final(output)@.take(len as int), end))
                &&& final(output)@.skip(len as int) == old(output)@.skip(len as int)
            },
            Err(e) => {
                &&& slip_decoded(input@, old(output)@.len()) == Err::<
                    (nat, Seq<u8>, bool),
                    SlipError,
                >(e)
                &&& !(input@.len() > 0 && input@[0] == END) ==> e == SlipError::BadHeaderDecode
            },
        },
        forall|data: Seq<u8>, rest: Seq<u8>|
            #![trigger framed(data) + rest]
            input@ == framed(data) + rest && data.len() < old(output)@.len() ==> {
                &&& r == Ok::<(usize, usize, bool), SlipError>(
                    (framed(data).len() as usize, data.len() as usize, true),
                )
                &&& final(output)@.take(data.len() as int) == data
            },
        forall|data: Seq<u8>, held: bool|
            #![trigger unfinished(data, held)]
            input@ == unfinished(data, held) && data.len() < old(output)@.len() ==> {
                &&& r == Ok::<(usize, usize, bool), SlipError>(
                    (input@.len() as usize, data.len() as usize, false),
                )
                &&& final(output)@.take(data.len() as int) == data
            },
        forall|data: Seq<u8>, next: u8, rest: Seq<u8>|
            #![trigger broken(data, next) + rest]
            input@ == broken(data, next) + rest && next != ESC_END && next != ESC_ESC
                && data.len() < old(output)@.len() ==> (r matches Err(e) && e
                == SlipError::BadEscapeSequenceDecode),
{
    let mut decoder = serial_line_ip::Decoder::new();
    match decoder.decode(input, output) {
        Ok((read, data, end)) => Ok((read, data.len(), end)),
        Err(serial_line_ip::Error::NoOutputSpaceForHeader) => Err(SlipError::NoOutputSpaceForHeader),
        Err(serial_line_ip::Error::NoOutputSpaceForEndByte) => Err(
            SlipError::NoOutputSpaceForEndByte,
        ),
        Err(serial_line_ip::Error::BadHeaderDecode) => Err(SlipError::BadHeaderDecode),
        Err(serial_line_ip::Error::BadEscapeSequenceDecode) => Err(
            SlipError::BadEscapeSequenceDecode,
        ),
    }
}

} // verus!
