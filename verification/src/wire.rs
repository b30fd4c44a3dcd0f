//! Little-endian field encodings, and a writer and reader for them.

use vstd::prelude::*;

verus! {

/// The two bytes of `x`, least significant first.
pub open spec fn u16_le(x: u16) -> Seq<u8> {
    seq![(x % 256) as u8, (x / 256) as u8]
}

/// The four bytes of `x`, least significant first.
pub open spec fn u32_le(x: u32) -> Seq<u8> {
    seq![
        (x % 256) as u8,
        (x / 0x100 % 256) as u8,
        (x / 0x1_0000 % 256) as u8,
        (x / 0x100_0000) as u8,
    ]
}

/// The eight bytes of `x`, least significant first.
pub open spec fn u64_le(x: u64) -> Seq<u8> {
    seq![
        (x % 256) as u8,
        (x / 0x100 % 256) as u8,
        (x / 0x1_0000 % 256) as u8,
        (x / 0x100_0000 % 256) as u8,
        (x / 0x1_0000_0000 % 256) as u8,
        (x / 0x100_0000_0000 % 256) as u8,
        (x / 0x1_0000_0000_0000 % 256) as u8,
        (x / 0x100_0000_0000_0000) as u8,
    ]
}

/// The unsigned number with the same sixteen bits as `x` in two's complement.
pub open spec fn i16_bits(x: i16) -> u16 {
    if x < 0 {
        (x + 0x1_0000) as u16
    } else {
        x as u16
    }
}

/// The two bytes of `x` in two's complement, least significant first.
pub open spec fn i16_le(x: i16) -> Seq<u8> {
    u16_le(i16_bits(x))
}

/// The number that two little-endian bytes stand for.
pub open spec fn u16_from_le(s: Seq<u8>) -> u16
    recommends
        s.len() == 2,
{
    (s[0] + 0x100 * s[1]) as u16
}

/// The number that four little-endian bytes stand for.
pub open spec fn u32_from_le(s: Seq<u8>) -> u32
    recommends
        s.len() == 4,
{
    (s[0] + 0x100 * s[1] + 0x1_0000 * s[2] + 0x100_0000 * s[3]) as u32
}

/// The number that eight little-endian bytes stand for.
pub open spec fn u64_from_le(s: Seq<u8>) -> u64
    recommends
        s.len() == 8,
{
    (s[0] + 0x100 * s[1] + 0x1_0000 * s[2] + 0x100_0000 * s[3] + 0x1_0000_0000 * s[4]
        + 0x100_0000_0000 * s[5] + 0x1_0000_0000_0000 * s[6] + 0x100_0000_0000_0000 * s[7]) as u64
}

/// Reading back what was written gives the number that was written.
pub proof fn lemma_u16_round_trip(x: u16)
    ensures
        u16_le(x).len() == 2,
        u16_from_le(u16_le(x)) == x,
{
}

/// Reading back what was written gives the number that was written.
pub proof fn lemma_u32_round_trip(x: u32)
    ensures
        u32_le(x).len() == 4,
        u32_from_le(u32_le(x)) == x,
{
}

/// Reading back what was written gives the number that was written.
pub proof fn lemma_u64_round_trip(x: u64)
    ensures
        u64_le(x).len() == 8,
        u64_from_le(u64_le(x)) == x,
{
    assert(x == (x % 256) + 0x100 * (x / 0x100 % 256) + 0x1_0000 * (x / 0x1_0000 % 256)
        + 0x100_0000 * (x / 0x100_0000 % 256) + 0x1_0000_0000 * (x / 0x1_0000_0000 % 256)
        + 0x100_0000_0000 * (x / 0x100_0000_0000 % 256) + 0x1_0000_0000_0000 * (x
        / 0x1_0000_0000_0000 % 256) + 0x100_0000_0000_0000 * (x / 0x100_0000_0000_0000))
        by (bit_vector);
}

/// Writing what was read gives the bytes that were read.
pub proof fn lemma_u16_bytes_round_trip(s: Seq<u8>)
    requires
        s.len() == 2,
    ensures
        u16_le(u16_from_le(s)) == s,
{
    assert(u16_le(u16_from_le(s)) =~= s);
}

/// Writing what was read gives the bytes that were read.
pub proof fn lemma_u32_bytes_round_trip(s: Seq<u8>)
    requires
        s.len() == 4,
    ensures
        u32_le(u32_from_le(s)) == s,
{
    assert(u32_le(u32_from_le(s)) =~= s);
}

/// Writing what was read gives the bytes that were read.
pub proof fn lemma_u64_bytes_round_trip(s: Seq<u8>)
    requires
        s.len() == 8,
    ensures
        u64_le(u64_from_le(s)) == s,
{
    let x = u64_from_le(s);
    let b0 = s[0] as u64;
    let b1 = s[1] as u64;
    let b2 = s[2] as u64;
    let b3 = s[3] as u64;
    let b4 = s[4] as u64;
    let b5 = s[5] as u64;
    let b6 = s[6] as u64;
    let b7 = s[7] as u64;
    assert(x % 256 == b0 && x / 0x100 % 256 == b1 && x / 0x1_0000 % 256 == b2 && x / 0x100_0000
        % 256 == b3 && x / 0x1_0000_0000 % 256 == b4 && x / 0x100_0000_0000 % 256 == b5 && x
        / 0x1_0000_0000_0000 % 256 == b6 && x / 0x100_0000_0000_0000 == b7) by (bit_vector)
        requires
            b0 < 256 && b1 < 256 && b2 < 256 && b3 < 256 && b4 < 256 && b5 < 256 && b6 < 256 && b7
                < 256,
            x == b0 + 0x100 * b1 + 0x1_0000 * b2 + 0x100_0000 * b3 + 0x1_0000_0000 * b4
                + 0x100_0000_0000 * b5 + 0x1_0000_0000_0000 * b6 + 0x100_0000_0000_0000 * b7,
    ;
    assert(u64_le(x) =~= s);
}

/// Appends one byte.
pub fn put_u8(buf: &mut Vec<u8>, x: u8)
    ensures
        final(buf)@ == old(buf)@.push(x),
{
    buf.push(x);
}

/// Appends `x` as two little-endian bytes.
pub fn put_u16_le(buf: &mut Vec<u8>, x: u16)
    ensures
        final(buf)@ == old(buf)@ + u16_le(x),
{
    buf.push((x % 256) as u8);
    buf.push((x / 256) as u8);
}

/// Appends `x` as two little-endian bytes in two's complement.
pub fn put_i16_le(buf: &mut Vec<u8>, x: i16)
    ensures
        final(buf)@ == old(buf)@ + i16_le(x),
{
    let bits: u16 = x as u16;
    assert(bits == i16_bits(x)) by (bit_vector)
        requires
            bits == x as u16,
    ;
    put_u16_le(buf, bits);
}

/// Appends `x` as four little-endian bytes.
pub fn put_u32_le(buf: &mut Vec<u8>, x: u32)
    ensures
        final(buf)@ == old(buf)@ + u32_le(x),
{
    buf.push((x % 256) as u8);
    buf.push((x / 0x100 % 256) as u8);
    buf.push((x / 0x1_0000 % 256) as u8);
    buf.push((x / 0x100_0000) as u8);
}

/// Appends `x` as eight little-endian bytes.
pub fn put_u64_le(buf: &mut Vec<u8>, x: u64)
    ensures
        final(buf)@ == old(buf)@ + u64_le(x),
{
    buf.push((x % 256) as u8);
    buf.push((x / 0x100 % 256) as u8);
    buf.push((x / 0x1_0000 % 256) as u8);
    buf.push((x / 0x100_0000 % 256) as u8);
    buf.push((x / 0x1_0000_0000 % 256) as u8);
    buf.push((x / 0x100_0000_0000 % 256) as u8);
    buf.push((x / 0x1_0000_0000_0000 % 256) as u8);
    buf.push((x / 0x100_0000_0000_0000) as u8);
}

/// Appends a run of bytes as it stands.
pub fn put_bytes(buf: &mut Vec<u8>, bytes: &[u8])
    ensures
        final(buf)@ == old(buf)@ + bytes@,
{
    buf.extend_from_slice(bytes);
}

/// Reads the two little-endian bytes at `at`.
pub fn get_u16_le(bytes: &[u8], at: usize) -> (x: u16)
    requires
        at + 2 <= bytes@.len(),
    ensures
        x == u16_from_le(bytes@.subrange(at as int, at + 2)),
{
    let b0: u16 = bytes[at] as u16;
    let b1: u16 = bytes[at + 1] as u16;
    b0 + 0x100 * b1
}

/// Reads the four little-endian bytes at `at`.
pub fn get_u32_le(bytes: &[u8], at: usize) -> (x: u32)
    requires
        at + 4 <= bytes@.len(),
    ensures
        x == u32_from_le(bytes@.subrange(at as int, at + 4)),
{
    let b0: u32 = bytes[at] as u32;
    let b1: u32 = bytes[at + 1] as u32;
    let b2: u32 = bytes[at + 2] as u32;
    let b3: u32 = bytes[at + 3] as u32;
    b0 + 0x100 * b1 + 0x1_0000 * b2 + 0x100_0000 * b3
}

/// Reads the eight little-endian bytes at `at`.
pub fn get_u64_le(bytes: &[u8], at: usize) -> (x: u64)
    requires
        at + 8 <= bytes@.len(),
    ensures
        x == u64_from_le(bytes@.subrange(at as int, at + 8)),
{
    let b0: u64 = bytes[at] as u64;
    let b1: u64 = bytes[at + 1] as u64;
    let b2: u64 = bytes[at + 2] as u64;
    let b3: u64 = bytes[at + 3] as u64;
    let b4: u64 = bytes[at + 4] as u64;
    let b5: u64 = bytes[at + 5] as u64;
    let b6: u64 = bytes[at + 6] as u64;
    let b7: u64 = bytes[at + 7] as u64;
    b0 + 0x100 * b1 + 0x1_0000 * b2 + 0x100_0000 * b3 + 0x1_0000_0000 * b4 + 0x100_0000_0000 * b5
        + 0x1_0000_0000_0000 * b6 + 0x100_0000_0000_0000 * b7
}

} // verus!
