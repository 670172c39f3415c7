//! Little-endian integers as they stand in a payload's header.

use vstd::prelude::*;

verus! {

/// The two bytes of a 16-bit integer, low byte first.
pub open spec fn le16(x: u16) -> Seq<u8> {
    seq![(x % 256) as u8, (x / 256) as u8]
}

/// The 16-bit integer that two bytes stand for, low byte first.
pub open spec fn from_le16(b0: u8, b1: u8) -> u16 {
    (b0 + b1 * 256) as u16
}

/// The four bytes of a 32-bit integer, low byte first.
pub open spec fn le32(x: u32) -> Seq<u8> {
    seq![
        (x % 256) as u8,
        (x / 256 % 256) as u8,
        (x / 65536 % 256) as u8,
        (x / 16777216) as u8,
    ]
}

/// The 32-bit integer that four bytes stand for, low byte first.
pub open spec fn from_le32(b0: u8, b1: u8, b2: u8, b3: u8) -> u32 {
    (b0 + b1 * 256 + b2 * 65536 + b3 * 16777216) as u32
}

/// Reading back what was written gives the integer again.
pub proof fn lemma_le16_round_trip(x: u16)
    ensures
        le16(x).len() == 2,
        from_le16(le16(x)[0], le16(x)[1]) == x,
{
}

/// Writing what was read gives the bytes again.
pub proof fn lemma_le16_bytes(b0: u8, b1: u8)
    ensures
        le16(from_le16(b0, b1)) == seq![b0, b1],
{
    let x = from_le16(b0, b1);
    assert(x % 256 == b0 && x / 256 == b1);
    assert(le16(x) =~= seq![b0, b1]);
}

/// Reading back what was written gives the integer again.
pub proof fn lemma_le32_round_trip(x: u32)
    ensures
        le32(x).len() == 4,
        from_le32(le32(x)[0], le32(x)[1], le32(x)[2], le32(x)[3]) == x,
{
    let high = x / 256;
    let higher = high / 256;
    assert(x == x % 256 + 256 * high);
    assert(high == high % 256 + 256 * higher);
    assert(higher == higher % 256 + 256 * (higher / 256));
    assert(high == x / 256 && higher == x / 65536 && higher / 256 == x / 16777216);
}

/// Writing what was read gives the bytes again.
pub proof fn lemma_le32_bytes(b0: u8, b1: u8, b2: u8, b3: u8)
    ensures
        le32(from_le32(b0, b1, b2, b3)) == seq![b0, b1, b2, b3],
{
    let x = from_le32(b0, b1, b2, b3);
    assert(x == b0 + 256 * (b1 + 256 * (b2 + 256 * b3)));
    assert(x % 256 == b0 && x / 256 == b1 + 256 * (b2 + 256 * b3));
    assert(x / 256 % 256 == b1 && x / 65536 == b2 + 256 * b3);
    assert(x / 65536 % 256 == b2 && x / 16777216 == b3);
    assert(le32(x) =~= seq![b0, b1, b2, b3]);
}

/// Appends a 16-bit integer to a buffer, low byte first.
pub fn push_le16(bytes: &mut Vec<u8>, x: u16)
    ensures
        final(bytes)@ == old(bytes)@ + le16(x),
{
    bytes.push((x % 256) as u8);
    bytes.push((x / 256) as u8);
    assert(bytes@ =~= old(bytes)@ + le16(x));
}

/// Appends a 32-bit integer to a buffer, low byte first.
pub fn push_le32(bytes: &mut Vec<u8>, x: u32)
    ensures
        final(bytes)@ == old(bytes)@ + le32(x),
{
    bytes.push((x % 256) as u8);
    bytes.push((x / 256 % 256) as u8);
    bytes.push((x / 65536 % 256) as u8);
    bytes.push((x / 16777216) as u8);
    assert(bytes@ =~= old(bytes)@ + le32(x));
}

/// Reads a 16-bit integer from two bytes, low byte first.
pub fn read_le16(b0: u8, b1: u8) -> (x: u16)
    ensures
        x == from_le16(b0, b1),
{
    b0 as u16 + b1 as u16 * 256
}

/// Reads a 32-bit integer from four bytes, low byte first.
pub fn read_le32(b0: u8, b1: u8, b2: u8, b3: u8) -> (x: u32)
    ensures
        x == from_le32(b0, b1, b2, b3),
{
    b0 as u32 + b1 as u32 * 256 + b2 as u32 * 65536 + b3 as u32 * 16777216
}

} // verus!
