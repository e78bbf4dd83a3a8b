//! Little-endian field readers over raw control-block snapshots.
//!
//! The OS control blocks this crate interprets are handed in as plain byte
//! snapshots.  Every field is read here, at a named offset and with an
//! explicit width, so that the whole structure-overlay surface of the
//! detector reduces to a handful of bounded reads.

use vstd::prelude::*;

verus! {

/// The one-byte field at `off`.
pub open spec fn spec_u8_at(s: Seq<u8>, off: int) -> u8 {
    s[off]
}

/// The two-byte little-endian field at `off`.
pub open spec fn spec_le_u16_at(s: Seq<u8>, off: int) -> u16 {
    (s[off] as int + s[off + 1] as int * 0x100) as u16
}

/// The four-byte little-endian field at `off`.
pub open spec fn spec_le_u32_at(s: Seq<u8>, off: int) -> u32 {
    (s[off] as int + s[off + 1] as int * 0x100 + s[off + 2] as int * 0x10000
        + s[off + 3] as int * 0x1000000) as u32
}

/// The eight-byte little-endian field at `off`.
pub open spec fn spec_le_u64_at(s: Seq<u8>, off: int) -> u64 {
    (s[off] as int + s[off + 1] as int * 0x100 + s[off + 2] as int * 0x10000
        + s[off + 3] as int * 0x1000000 + s[off + 4] as int * 0x100000000
        + s[off + 5] as int * 0x10000000000 + s[off + 6] as int * 0x1000000000000
        + s[off + 7] as int * 0x100000000000000) as u64
}

pub fn read_u8_at(bytes: &Vec<u8>, off: usize) -> (r: u8)
    requires
        off < bytes.len(),
    ensures
        r == spec_u8_at(bytes@, off as int),
{
    bytes[off]
}

pub fn read_le_u16_at(bytes: &Vec<u8>, off: usize) -> (r: u16)
    requires
        off + 2 <= bytes.len(),
    ensures
        r == spec_le_u16_at(bytes@, off as int),
{
    let b0 = bytes[off] as u16;
    let b1 = bytes[off + 1] as u16;
    b0 + b1 * 0x100
}

pub fn read_le_u32_at(bytes: &Vec<u8>, off: usize) -> (r: u32)
    requires
        off + 4 <= bytes.len(),
    ensures
        r == spec_le_u32_at(bytes@, off as int),
{
    let b0 = bytes[off] as u32;
    let b1 = bytes[off + 1] as u32;
    let b2 = bytes[off + 2] as u32;
    let b3 = bytes[off + 3] as u32;
    b0 + b1 * 0x100 + b2 * 0x10000 + b3 * 0x1000000
}

pub fn read_le_u64_at(bytes: &Vec<u8>, off: usize) -> (r: u64)
    requires
        off + 8 <= bytes.len(),
    ensures
        r == spec_le_u64_at(bytes@, off as int),
{
    let b0 = bytes[off] as u64;
    let b1 = bytes[off + 1] as u64;
    let b2 = bytes[off + 2] as u64;
    let b3 = bytes[off + 3] as u64;
    let b4 = bytes[off + 4] as u64;
    let b5 = bytes[off + 5] as u64;
    let b6 = bytes[off + 6] as u64;
    let b7 = bytes[off + 7] as u64;
    b0 + b1 * 0x100 + b2 * 0x10000 + b3 * 0x1000000 + b4 * 0x100000000 + b5 * 0x10000000000
        + b6 * 0x1000000000000 + b7 * 0x100000000000000
}

} // verus!
