//! Bytes, half bytes and 16-bit words, with their arithmetic meaning.

use vstd::prelude::*;

verus! {

/// The 16-bit word with the given low and high byte.
pub fn word(low: u8, high: u8) -> (w: u16)
    ensures
        w == high * 256 + low,
{
    let w: u16 = (low as u16) | ((high as u16) << 8);
    assert(((low as u16) | ((high as u16) << 8u16)) == (high as u16) * 256 + (low as u16))
        by (bit_vector);
    w
}

/// The low four bits of a byte.
pub fn low_nibble(byte: u8) -> (n: u8)
    ensures
        n == byte % 16,
{
    assert(byte & 0x0F == byte % 16) by (bit_vector);
    byte & 0x0F
}

/// A word without its low three bits: divided by eight, rounded down.
pub fn drop_three_bits(w: u16) -> (q: u16)
    ensures
        q == w / 8,
{
    assert(w >> 3u16 == w / 8) by (bit_vector);
    w >> 3
}

} // verus!
