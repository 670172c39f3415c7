//! The 32-bit checksum that the remote side reports for a file: its bit-level
//! definition, and the lookup table that computes it a byte at a time.

use vstd::prelude::*;

verus! {

/// The generator polynomial, bit-reversed.
pub const CRC32_POLY: u32 = 0xedb88320;

/// One step of the shift register: the lowest bit leaves, and where it was
/// set the polynomial is folded in.
pub open spec fn crc_shift(reg: u32) -> u32 {
    if reg & 1 == 1 {
        (reg >> 1) ^ CRC32_POLY
    } else {
        reg >> 1
    }
}

/// Eight steps of the shift register.
pub open spec fn crc_shift8(reg: u32) -> u32 {
    crc_shift(crc_shift(crc_shift(crc_shift(crc_shift(crc_shift(crc_shift(crc_shift(reg))))))))
}

/// The register after one more byte has been fed into it.
pub open spec fn crc_feed(reg: u32, byte: u8) -> u32 {
    crc_shift8(reg ^ (byte as u32))
}

/// The checksum of a byte sequence: the register starts at zero, takes the
/// bytes in order, and is reported as it stands, without a final inversion.
pub open spec fn crc32(bytes: Seq<u8>) -> u32
    decreases bytes.len(),
{
    if bytes.len() == 0 {
        0
    } else {
        crc_feed(crc32(bytes.drop_last()), bytes.last())
    }
}

/// Feeding a byte is one table lookup: the low eight bits of the register,
/// mixed with the byte, select the entry, and the rest of the register is
/// folded over it.
pub proof fn lemma_feed_by_table(reg: u32, byte: u8)
    ensures
        (reg ^ (byte as u32)) & 0xff < 256,
        crc_feed(reg, byte) == crc_shift8((reg ^ (byte as u32)) & 0xff) ^ (reg >> 8),
{
    assert((reg ^ (byte as u32)) & 0xff < 256) by (bit_vector);
    assert(crc_shift8(reg ^ (byte as u32)) == crc_shift8((reg ^ (byte as u32)) & 0xff) ^ (reg
        >> 8)) by (bit_vector);
}

/// The table entry for one index: the register after eight steps from it.
pub fn table_entry(index: u8) -> (entry: u32)
    ensures
        entry == crc_shift8(index as u32),
{
    let mut reg: u32 = index as u32;
    let mut step: u8 = 0;
    let ghost start: u32 = reg;
    while step < 8
        invariant
            step <= 8,
            start == index as u32,
            step == 0 ==> reg == start,
            step == 1 ==> reg == crc_shift(start),
            step == 2 ==> reg == crc_shift(crc_shift(start)),
            step == 3 ==> reg == crc_shift(crc_shift(crc_shift(start))),
            step == 4 ==> reg == crc_shift(crc_shift(crc_shift(crc_shift(start)))),
            step == 5 ==> reg == crc_shift(crc_shift(crc_shift(crc_shift(crc_shift(start))))),
            step == 6 ==> reg == crc_shift(
                crc_shift(crc_shift(crc_shift(crc_shift(crc_shift(start))))),
            ),
            step == 7 ==> reg == crc_shift(
                crc_shift(crc_shift(crc_shift(crc_shift(crc_shift(crc_shift(start)))))),
            ),
            step == 8 ==> reg == crc_shift8(start),
        decreases 8 - step,
    {
        reg = if reg & 1 == 1 {
            (reg >> 1) ^ CRC32_POLY
        } else {
            reg >> 1
        };
        step = step + 1;
    }
    reg
}

/// The lookup table: one entry for each value of a byte.
pub fn crc32_table() -> (table: Vec<u32>)
    ensures
        table.len() == 256,
        forall|i: int| 0 <= i < 256 ==> table[i] == crc_shift8(i as u32),
{
    let mut table: Vec<u32> = Vec::with_capacity(256);
    let mut index: u8 = 0;
    while index < 255
        invariant
            table.len() == index,
            forall|i: int| 0 <= i < index ==> table[i] == crc_shift8(i as u32),
        decreases 255 - index,
    {
        table.push(table_entry(index));
        index = index + 1;
    }
    table.push(table_entry(255));
    table
}

} // verus!
