use byteorder::ByteOrder;
use vstd::prelude::*;

verus! {

/// The little-endian reading of a byte pair: `low` is the low byte.
pub open spec fn le_word(low: u8, high: u8) -> u16 {
    (low as int + 256 * (high as int)) as u16
}

/// Calls `byteorder::LittleEndian::read_u16`, which takes the first two bytes
/// of `bytes` as a little-endian word (`u16::from_le_bytes(buf[..2])`) and
/// panics when fewer than two bytes are given.
#[verifier::external_body]
pub(crate) fn read_u16_le(bytes: &[u8]) -> (r: u16)
    requires
        bytes@.len() >= 2,
    ensures
        r == le_word(bytes@[0], bytes@[1]),
{
    byteorder::LittleEndian::read_u16(bytes)
}

/// Reads the little-endian word made of `low` and `high` through the byte-order reader.
pub fn word_from_le_bytes(low: u8, high: u8) -> (r: u16)
    ensures
        r == le_word(low, high),
        r as int == low as int + 256 * (high as int),
{
    let pair: [u8; 2] = [low, high];
    let r = read_u16_le(pair.as_slice());
    r
}

} // verus!
