//! How 16-bit integers lie on the wire.
//!
//! The controller reads the command header in big-endian order and the
//! coordinates in little-endian order. Both orders are defined here over
//! plain arithmetic, with the lemmas that make them invertible.

use vstd::prelude::*;

verus! {

/// The sixteen bits of `value` in two's complement, read as an unsigned
/// number.
pub open spec fn bits_of_i16(value: i16) -> u16 {
    if value < 0 {
        (value + 0x1_0000) as u16
    } else {
        value as u16
    }
}

/// The signed number whose two's complement bits are `bits`.
pub open spec fn i16_of_bits(bits: u16) -> i16 {
    if bits >= 0x8000 {
        (bits - 0x1_0000) as i16
    } else {
        bits as i16
    }
}

/// The more significant byte of `value`.
pub open spec fn high_byte(value: u16) -> u8 {
    (value / 256) as u8
}

/// The less significant byte of `value`.
pub open spec fn low_byte(value: u16) -> u8 {
    (value % 256) as u8
}

/// The number made of a more and a less significant byte.
pub open spec fn u16_of_bytes(high: u8, low: u8) -> u16 {
    (high * 256 + low) as u16
}

/// `value` in big-endian order: the more significant byte first.
pub open spec fn be_bytes_u16(value: u16) -> Seq<u8> {
    seq![high_byte(value), low_byte(value)]
}

/// `value` in little-endian order: the less significant byte first.
pub open spec fn le_bytes_u16(value: u16) -> Seq<u8> {
    seq![low_byte(value), high_byte(value)]
}

/// `value` in two's complement and big-endian order.
pub open spec fn be_bytes_i16(value: i16) -> Seq<u8> {
    be_bytes_u16(bits_of_i16(value))
}

/// `value` in two's complement and little-endian order.
pub open spec fn le_bytes_i16(value: i16) -> Seq<u8> {
    le_bytes_u16(bits_of_i16(value))
}

/// The unsigned number that two bytes hold in big-endian order.
pub open spec fn u16_of_be_bytes(bytes: Seq<u8>) -> u16
    recommends
        bytes.len() >= 2,
{
    u16_of_bytes(bytes[0], bytes[1])
}

/// The unsigned number that two bytes hold in little-endian order.
pub open spec fn u16_of_le_bytes(bytes: Seq<u8>) -> u16
    recommends
        bytes.len() >= 2,
{
    u16_of_bytes(bytes[1], bytes[0])
}

/// The signed number that two bytes hold in big-endian order.
pub open spec fn i16_of_be_bytes(bytes: Seq<u8>) -> i16
    recommends
        bytes.len() >= 2,
{
    i16_of_bits(u16_of_be_bytes(bytes))
}

/// The signed number that two bytes hold in little-endian order.
pub open spec fn i16_of_le_bytes(bytes: Seq<u8>) -> i16
    recommends
        bytes.len() >= 2,
{
    i16_of_bits(u16_of_le_bytes(bytes))
}

/// An unsigned number is read back from either byte order as it was
/// written.
pub proof fn lemma_u16_bytes_round_trip(value: u16)
    ensures
        be_bytes_u16(value).len() == 2,
        le_bytes_u16(value).len() == 2,
        u16_of_be_bytes(be_bytes_u16(value)) == value,
        u16_of_le_bytes(le_bytes_u16(value)) == value,
{
}

/// A signed number is read back from either byte order as it was written.
pub proof fn lemma_i16_bytes_round_trip(value: i16)
    ensures
        be_bytes_i16(value).len() == 2,
        le_bytes_i16(value).len() == 2,
        i16_of_be_bytes(be_bytes_i16(value)) == value,
        i16_of_le_bytes(le_bytes_i16(value)) == value,
{
    lemma_u16_bytes_round_trip(bits_of_i16(value));
}

} // verus!
