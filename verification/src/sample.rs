//! Decoding of a raw sample: six bytes, three signed 16-bit counts.
use vstd::prelude::*;

verus! {

/// The signed 16-bit number whose little-endian bytes are `lo`, `hi`.
pub open spec fn le_i16(lo: u8, hi: u8) -> int {
    let unsigned = lo + 256 * hi;
    if unsigned >= 32768 {
        unsigned - 65536
    } else {
        unsigned
    }
}

/// The three counts that six output bytes hold: X, Y and Z, low byte first.
pub open spec fn sample_of(bytes: Seq<u8>) -> (i16, i16, i16) {
    (
        le_i16(bytes[0], bytes[1]) as i16,
        le_i16(bytes[2], bytes[3]) as i16,
        le_i16(bytes[4], bytes[5]) as i16,
    )
}

/// A pair of bytes always holds a number that a signed 16-bit count can be:
/// nothing is lost in `sample_of`. The high byte's top bit is the sign.
pub proof fn lemma_le_i16_range(lo: u8, hi: u8)
    ensures
        -32768 <= le_i16(lo, hi) <= 32767,
        le_i16(lo, hi) < 0 <==> hi >= 128,
        le_i16(lo, hi) == lo + 256 * hi - if hi >= 128 { 65536int } else { 0 },
{
}

/// Assembles a signed 16-bit number from its low and high byte.
pub fn i16_from_le(lo: u8, hi: u8) -> (v: i16)
    ensures
        v == le_i16(lo, hi),
{
    let unsigned: u16 = lo as u16 + 256 * (hi as u16);
    if unsigned >= 32768 {
        let low: i16 = (unsigned - 32768) as i16;
        low + i16::MIN
    } else {
        unsigned as i16
    }
}

/// Decodes the six output bytes of one sample into raw counts (x, y, z). No
/// scale is applied.
pub fn decode_sample(bytes: &[u8; 6]) -> (s: (i16, i16, i16))
    ensures
        s == sample_of(bytes@),
{
    (
        i16_from_le(bytes[0], bytes[1]),
        i16_from_le(bytes[2], bytes[3]),
        i16_from_le(bytes[4], bytes[5]),
    )
}

} // verus!
