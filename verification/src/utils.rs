//! Readers for the little-endian integers of the wire format.

use vstd::prelude::*;

verus! {

/// The 16-bit value whose little-endian encoding starts `s`.
pub open spec fn word_of(s: Seq<u8>) -> u16 {
    (s[0] as int + 256 * (s[1] as int)) as u16
}

/// The 32-bit value whose little-endian encoding starts `s`.
pub open spec fn long_of(s: Seq<u8>) -> u32 {
    (s[0] as int + 256 * (s[1] as int) + 65536 * (s[2] as int) + 16777216 * (s[3] as int)) as u32
}

/// Reads a little-endian `u16` from the first two bytes of `data`.
pub fn parse_word(data: &[u8]) -> (value: u16)
    requires
        data@.len() >= 2,
    ensures
        value == word_of(data@),
{
    let low: u16 = data[0] as u16;
    let high: u16 = data[1] as u16;
    low + 256 * high
}

/// Reads a little-endian `u32` from the first four bytes of `data`.
pub fn parse_long(data: &[u8]) -> (value: u32)
    requires
        data@.len() >= 4,
    ensures
        value == long_of(data@),
{
    let b0: u32 = data[0] as u32;
    let b1: u32 = data[1] as u32;
    let b2: u32 = data[2] as u32;
    let b3: u32 = data[3] as u32;
    b0 + 256 * b1 + 65536 * b2 + 16777216 * b3
}

} // verus!
