//! Inbound responses: the status word and what it means.
//!
//! A response is a buffer of fixed size whose first two bytes hold the
//! status word in little-endian order. The bytes after it are reserved and
//! not looked at.

use crate::wire::u16_of_le_bytes;
use byteorder::ByteOrder;
use byteorder::LittleEndian;
use vstd::prelude::*;

verus! {

/// Number of bytes that the status word takes at the start of a response.
pub const STATUS_LEN: usize = 2;

/// Status word by which the firmware rejects the command code.
pub const STATUS_INVALID_COMMAND: u16 = 0x0000;

/// Status word by which the firmware reports that the checksum it computed
/// differs from the one it received.
pub const STATUS_CHECKSUM_MISMATCH: u16 = 0x0001;

/// What the controller answered to a command.
#[derive(Clone, Copy, Debug, PartialEq, Eq, Structural)]
pub enum Outcome {
    /// The controller carried the command out.
    Success,
    /// The controller does not know the command code.
    InvalidCommand,
    /// The frame arrived damaged, or was encoded wrongly.
    ChecksumMismatch,
}

/// Why a response could not be decoded.
#[derive(Clone, Copy, Debug, PartialEq, Eq, Structural)]
pub enum ProtocolViolation {
    /// The response is too short to hold a status word.
    ShortResponse,
}

/// The status word at the start of a response.
pub open spec fn status_word(response: Seq<u8>) -> u16
    recommends
        response.len() >= STATUS_LEN,
{
    u16_of_le_bytes(response)
}

/// The meaning of a status word: two values report a failure, every other
/// value reports success.
pub open spec fn outcome_of(word: u16) -> Outcome {
    if word == STATUS_INVALID_COMMAND {
        Outcome::InvalidCommand
    } else if word == STATUS_CHECKSUM_MISMATCH {
        Outcome::ChecksumMismatch
    } else {
        Outcome::Success
    }
}

/// `LittleEndian::read_u16` of `byteorder`: the number that the first two
/// bytes hold, the less significant byte first. It panics on fewer than two
/// bytes, which the precondition rules out.
#[verifier::external_body]
fn read_u16_le(bytes: &[u8]) -> (word: u16)
    requires
        bytes@.len() >= 2,
    ensures
        word == u16_of_le_bytes(bytes@),
{
    LittleEndian::read_u16(bytes)
}

/// Tells what a status word means.
pub fn interpret_status(word: u16) -> (outcome: Outcome)
    ensures
        outcome == outcome_of(word),
        outcome == Outcome::InvalidCommand <==> word == 0x0000,
        outcome == Outcome::ChecksumMismatch <==> word == 0x0001,
        outcome == Outcome::Success <==> word >= 0x0002,
{
    if word == STATUS_INVALID_COMMAND {
        Outcome::InvalidCommand
    } else if word == STATUS_CHECKSUM_MISMATCH {
        Outcome::ChecksumMismatch
    } else {
        Outcome::Success
    }
}

/// Reads the status word of a response and tells what it means.
///
/// Only a response of fewer than two bytes is refused. On every longer one
/// the answer depends on the first two bytes alone: `00 00` is an invalid
/// command, `01 00` a checksum mismatch, and anything else a success.
pub fn decode_status(response: &[u8]) -> (decoded: Result<Outcome, ProtocolViolation>)
    ensures
        decoded is Err <==> response@.len() < STATUS_LEN,
        decoded is Err ==> decoded == Err::<Outcome, ProtocolViolation>(
            ProtocolViolation::ShortResponse,
        ),
        decoded is Ok ==> decoded == Ok::<Outcome, ProtocolViolation>(
            outcome_of(status_word(response@)),
        ),
        decoded == Ok::<Outcome, ProtocolViolation>(Outcome::InvalidCommand) <==> response@.len()
            >= 2 && response@[0] == 0x00 && response@[1] == 0x00,
        decoded == Ok::<Outcome, ProtocolViolation>(Outcome::ChecksumMismatch) <==> response@.len()
            >= 2 && response@[0] == 0x01 && response@[1] == 0x00,
        decoded == Ok::<Outcome, ProtocolViolation>(Outcome::Success) <==> response@.len() >= 2
            && !(response@[0] <= 0x01 && response@[1] == 0x00),
{
    if response.len() < STATUS_LEN {
        Err(ProtocolViolation::ShortResponse)
    } else {
        Ok(interpret_status(read_u16_le(response)))
    }
}

} // verus!
