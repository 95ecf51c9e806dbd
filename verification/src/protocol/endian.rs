//! Little-endian integers in byte sequences: what the bytes mean, and the
//! calls that read and write them.

use vstd::prelude::*;
use vstd::arithmetic::div_mod::lemma_breakdown;
use byteorder::ByteOrder;
use byteorder::LittleEndian;

verus! {

/// `256` to the power `n`.
pub open spec fn pow256(n: nat) -> nat
    decreases n,
{
    if n == 0 {
        1
    } else {
        256 * pow256((n - 1) as nat)
    }
}

/// The unsigned integer that the bytes of `s` spell, least significant first.
pub open spec fn le_value(s: Seq<u8>) -> nat
    decreases s.len(),
{
    if s.len() == 0 {
        0
    } else {
        s[0] as nat + 256 * le_value(s.skip(1))
    }
}

/// The `width` low bytes of `v`, least significant first.
pub open spec fn le_bytes(v: nat, width: nat) -> Seq<u8>
    decreases width,
{
    if width == 0 {
        Seq::empty()
    } else {
        seq![(v % 256) as u8] + le_bytes(v / 256, (width - 1) as nat)
    }
}

/// `s` with the bytes from `at` on overwritten by `part`.
pub open spec fn splice(s: Seq<u8>, at: int, part: Seq<u8>) -> Seq<u8> {
    s.take(at) + part + s.skip(at + part.len())
}

pub proof fn lemma_pow256_positive(n: nat)
    ensures
        pow256(n) > 0,
    decreases n,
{
    if n > 0 {
        lemma_pow256_positive((n - 1) as nat);
    }
}

/// The first eight powers, as numbers.
pub proof fn lemma_pow256_values()
    ensures
        pow256(0) == 1,
        pow256(1) == 0x100,
        pow256(2) == 0x1_0000,
        pow256(3) == 0x100_0000,
        pow256(4) == 0x1_0000_0000,
        pow256(5) == 0x100_0000_0000,
        pow256(6) == 0x1_0000_0000_0000,
        pow256(7) == 0x100_0000_0000_0000,
        pow256(8) == 0x1_0000_0000_0000_0000,
{
    reveal_with_fuel(pow256, 9);
}

pub proof fn lemma_le_bytes_len(v: nat, width: nat)
    ensures
        le_bytes(v, width).len() == width,
    decreases width,
{
    if width > 0 {
        lemma_le_bytes_len(v / 256, (width - 1) as nat);
    }
}

/// A sequence of `n` bytes spells a number below `256^n`.
pub proof fn lemma_le_value_bound(s: Seq<u8>)
    ensures
        le_value(s) < pow256(s.len()),
    decreases s.len(),
{
    if s.len() > 0 {
        lemma_le_value_bound(s.skip(1));
    }
}

/// Reading back what was written gives the value, cut to the width written.
pub proof fn lemma_le_value_of_bytes(v: nat, width: nat)
    ensures
        le_value(le_bytes(v, width)) == v % pow256(width),
    decreases width,
{
    if width > 0 {
        let rest = le_bytes(v / 256, (width - 1) as nat);
        let all = le_bytes(v, width);
        lemma_le_value_of_bytes(v / 256, (width - 1) as nat);
        lemma_le_bytes_len(v / 256, (width - 1) as nat);
        lemma_pow256_positive((width - 1) as nat);
        assert(all.skip(1) =~= rest);
        assert(all[0] == (v % 256) as u8);
        lemma_breakdown(v as int, 256, pow256((width - 1) as nat) as int);
    }
}

/// Two bytes, written out.
pub proof fn lemma_le_two(s: Seq<u8>)
    requires
        s.len() == 2,
    ensures
        le_value(s) == s[0] as nat + 256 * (s[1] as nat),
{
    reveal_with_fuel(le_value, 3);
    assert(s.skip(1)[0] == s[1]);
    assert(s.skip(1).skip(1).len() == 0);
}

/// A 16-bit value, written out.
pub proof fn lemma_le_bytes_two(v: nat)
    ensures
        le_bytes(v, 2) == seq![(v % 256) as u8, ((v / 256) % 256) as u8],
{
    reveal_with_fuel(le_bytes, 3);
    assert(le_bytes(v, 2) =~= seq![(v % 256) as u8, ((v / 256) % 256) as u8]);
}

/// `LittleEndian::read_u16` of byteorder: the first two bytes of `buf` as a
/// little-endian integer. It panics on a shorter slice, which `requires`
/// leaves out.
#[verifier::external_body]
pub(crate) fn read_u16(buf: &[u8]) -> (v: u16)
    requires
        buf@.len() >= 2,
    ensures
        v == le_value(buf@.take(2)),
{
    LittleEndian::read_u16(buf)
}

/// `LittleEndian::read_u64` of byteorder: the first eight bytes of `buf` as a
/// little-endian integer. It panics on a shorter slice, which `requires`
/// leaves out.
#[verifier::external_body]
pub(crate) fn read_u64(buf: &[u8]) -> (v: u64)
    requires
        buf@.len() >= 8,
    ensures
        v == le_value(buf@.take(8)),
{
    LittleEndian::read_u64(buf)
}

/// `LittleEndian::read_uint` of byteorder: the first `nbytes` bytes of `buf`
/// as a little-endian integer. It panics unless `nbytes` is between 1 and 8
/// and `buf` is that long.
#[verifier::external_body]
pub(crate) fn read_uint(buf: &[u8], nbytes: usize) -> (v: u64)
    requires
        1 <= nbytes <= 8,
        nbytes <= buf@.len(),
    ensures
        v == le_value(buf@.take(nbytes as int)),
{
    LittleEndian::read_uint(buf, nbytes)
}

/// `LittleEndian::write_u16` of byteorder, on the part of `out` that starts
/// at `at`: the two bytes there become `n`, least significant first, and
/// nothing else changes. It panics where fewer than two bytes are left.
#[verifier::external_body]
pub(crate) fn write_u16(out: &mut [u8], at: usize, n: u16)
    requires
        at + 2 <= old(out)@.len(),
    ensures
        final(out)@ == splice(old(out)@, at as int, le_bytes(n as nat, 2)),
{
    LittleEndian::write_u16(&mut out[at..], n)
}

/// `LittleEndian::write_u64` of byteorder, on the part of `out` that starts
/// at `at`: the eight bytes there become `n`, least significant first, and
/// nothing else changes. It panics where fewer than eight bytes are left.
#[verifier::external_body]
pub(crate) fn write_u64(out: &mut [u8], at: usize, n: u64)
    requires
        at + 8 <= old(out)@.len(),
    ensures
        final(out)@ == splice(old(out)@, at as int, le_bytes(n as nat, 8)),
{
    LittleEndian::write_u64(&mut out[at..], n)
}

/// `LittleEndian::write_uint` of byteorder, on the part of `out` that starts
/// at `at`: the `nbytes` bytes there become `n`, least significant first, and
/// nothing else changes. It panics unless `nbytes` is between 1 and 8, `n`
/// fits in that many bytes and that many bytes are left.
#[verifier::external_body]
pub(crate) fn write_uint(out: &mut [u8], at: usize, n: u64, nbytes: usize)
    requires
        1 <= nbytes <= 8,
        n < pow256(nbytes as nat),
        at + nbytes <= old(out)@.len(),
    ensures
        final(out)@ == splice(old(out)@, at as int, le_bytes(n as nat, nbytes as nat)),
{
    LittleEndian::write_uint(&mut out[at..], n, nbytes)
}

/// The 16-bit little-endian integer at `at` in `input`.
pub fn get_u16(input: &[u8], at: usize) -> (v: u16)
    requires
        at + 2 <= input.len(),
    ensures
        v == le_value(input@.subrange(at as int, at + 2)),
{
    let part = &input[at..at + 2];
    assert(part@.take(2) =~= input@.subrange(at as int, at + 2));
    read_u16(part)
}

/// The 64-bit little-endian integer at `at` in `input`.
pub fn get_u64(input: &[u8], at: usize) -> (v: u64)
    requires
        at + 8 <= input.len(),
    ensures
        v == le_value(input@.subrange(at as int, at + 8)),
{
    let part = &input[at..at + 8];
    assert(part@.take(8) =~= input@.subrange(at as int, at + 8));
    read_u64(part)
}

/// The little-endian integer of `width` bytes at `at` in `input`.
pub fn get_uint(input: &[u8], at: usize, width: usize) -> (v: u64)
    requires
        1 <= width <= 8,
        at + width <= input.len(),
    ensures
        v == le_value(input@.subrange(at as int, at + width)),
{
    let part = &input[at..at + width];
    assert(part@.take(width as int) =~= input@.subrange(at as int, at + width));
    read_uint(part, width)
}

/// Overwriting behind what was overwritten is overwriting with both parts.
pub proof fn lemma_splice_append(s: Seq<u8>, at: int, done: Seq<u8>, part: Seq<u8>)
    requires
        0 <= at,
        at + done.len() + part.len() <= s.len(),
    ensures
        splice(splice(s, at, done), at + done.len(), part) == splice(s, at, done + part),
{
    assert(splice(splice(s, at, done), at + done.len(), part) =~= splice(s, at, done + part));
}

/// Sets the byte at `at`.
pub fn put_u8(out: &mut [u8], at: usize, value: u8)
    requires
        at < old(out)@.len(),
    ensures
        final(out)@ == splice(old(out)@, at as int, seq![value]),
{
    out[at] = value;
    assert(out@ =~= splice(old(out)@, at as int, seq![value]));
}

} // verus!
