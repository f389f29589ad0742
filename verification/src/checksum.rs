//! The checksum that closes every frame.

use vstd::prelude::*;

verus! {

/// The CRC-16/XMODEM value of `message`: polynomial `0x1021`, initial value
/// `0x0000`, neither input nor output reflected, nothing xored onto the
/// result.
///
/// The value is the one that the `crc16` crate computes. It depends on the
/// bytes alone, and on nothing else.
pub uninterp spec fn xmodem_crc(message: Seq<u8>) -> u16;

/// `crc16::State::<XMODEM>::calculate`: the checksum of the whole message in
/// one pass. Claimed of it: the result is `xmodem_crc` of the bytes given.
#[verifier::external_body]
fn calculate_xmodem(message: &[u8]) -> (crc: u16)
    ensures
        crc == xmodem_crc(message@),
{
    crc16::State::<crc16::XMODEM>::calculate(message)
}

/// The CRC-16/XMODEM checksum of `bytes`. Every byte sequence has one, the
/// empty sequence too.
pub fn checksum(bytes: &[u8]) -> (crc: u16)
    ensures
        crc == xmodem_crc(bytes@),
{
    calculate_xmodem(bytes)
}

} // verus!
