//! Outbound frames: header, region and checksum.
//!
//! | offset | size | field        | order         |
//! |--------|------|--------------|---------------|
//! | 0      | 2    | command code | big-endian    |
//! | 2      | 2    | parameter    | big-endian    |
//! | 4      | 1    | padding      | always `0x00` |
//! | 5      | 2    | `x0`         | little-endian |
//! | 7      | 2    | `y0`         | little-endian |
//! | 9      | 2    | `x1`         | little-endian |
//! | 11     | 2    | `y1`         | little-endian |
//! | 13     | 2    | checksum     | big-endian    |
//!
//! The two byte orders are the firmware's and are kept as they are.

use crate::buffer::buffer_bytes;
use crate::buffer::buffer_contents;
use crate::buffer::buffer_with_capacity;
use crate::buffer::put_i16;
use crate::buffer::put_i16_le;
use crate::buffer::put_u16;
use crate::buffer::put_u8;
use crate::checksum::checksum;
use crate::checksum::xmodem_crc;
use crate::rect::Rect;
use crate::wire::be_bytes_i16;
use crate::wire::be_bytes_u16;
use crate::wire::i16_of_be_bytes;
use crate::wire::i16_of_le_bytes;
use crate::wire::le_bytes_i16;
use crate::wire::lemma_i16_bytes_round_trip;
use crate::wire::lemma_u16_bytes_round_trip;
use crate::wire::u16_of_be_bytes;
use bytes::BytesMut;
use vstd::prelude::*;
use vstd::slice::slice_to_vec;

verus! {

/// Length of a frame before its checksum.
pub const PAYLOAD_LEN: usize = 13;

/// Length of a whole frame.
pub const FRAME_LEN: usize = 15;

/// The byte between the parameter and the region. The firmware decodes the
/// alignment of the fields that follow wrongly without it.
pub const PADDING: u8 = 0x00;

/// Capacity that a frame's buffer is allocated with.
pub const BUFFER_CAPACITY: usize = 16;

/// The bytes of a frame that the checksum covers.
pub open spec fn frame_payload(command_code: i16, param: i16, area: Rect) -> Seq<u8> {
    be_bytes_i16(command_code) + be_bytes_i16(param) + seq![PADDING] + le_bytes_i16(area.x0)
        + le_bytes_i16(area.y0) + le_bytes_i16(area.x1) + le_bytes_i16(area.y1)
}

/// A payload followed by a checksum in big-endian order.
pub open spec fn sealed(payload: Seq<u8>, crc: u16) -> Seq<u8> {
    payload + be_bytes_u16(crc)
}

/// The whole frame of a command: its payload, sealed with the payload's own
/// checksum.
pub open spec fn frame_bytes(command_code: i16, param: i16, area: Rect) -> Seq<u8> {
    sealed(frame_payload(command_code, param, area), xmodem_crc(frame_payload(command_code, param, area)))
}

/// Whether `frame` has the length of a frame and holds each field at its
/// offset: command code and parameter in big-endian order in bytes 0 to 3,
/// the padding in byte 4, and the four coordinates in little-endian order in
/// bytes 5 to 12.
pub open spec fn holds_fields(frame: Seq<u8>, command_code: i16, param: i16, area: Rect) -> bool {
    &&& frame.len() == FRAME_LEN
    &&& i16_of_be_bytes(frame.subrange(0, 2)) == command_code
    &&& i16_of_be_bytes(frame.subrange(2, 4)) == param
    &&& frame[4] == PADDING
    &&& i16_of_le_bytes(frame.subrange(5, 7)) == area.x0
    &&& i16_of_le_bytes(frame.subrange(7, 9)) == area.y0
    &&& i16_of_le_bytes(frame.subrange(9, 11)) == area.x1
    &&& i16_of_le_bytes(frame.subrange(11, 13)) == area.y1
}

/// Whether the last two bytes of `frame` hold, in big-endian order, the
/// checksum of all the bytes before them.
pub open spec fn checksum_matches(frame: Seq<u8>) -> bool {
    &&& frame.len() == FRAME_LEN
    &&& u16_of_be_bytes(frame.subrange(PAYLOAD_LEN as int, FRAME_LEN as int)) == xmodem_crc(
        frame.subrange(0, PAYLOAD_LEN as int),
    )
}

/// Every frame is fifteen bytes long, and each field of the command is read
/// back from its offset in the frame, in the byte order of that field.
pub proof fn lemma_frame_holds_fields(command_code: i16, param: i16, area: Rect)
    ensures
        frame_payload(command_code, param, area).len() == PAYLOAD_LEN,
        frame_bytes(command_code, param, area).len() == FRAME_LEN,
        holds_fields(frame_bytes(command_code, param, area), command_code, param, area),
{
    let frame = frame_bytes(command_code, param, area);
    lemma_i16_bytes_round_trip(command_code);
    lemma_i16_bytes_round_trip(param);
    lemma_i16_bytes_round_trip(area.x0);
    lemma_i16_bytes_round_trip(area.y0);
    lemma_i16_bytes_round_trip(area.x1);
    lemma_i16_bytes_round_trip(area.y1);
    assert(frame.subrange(0, 2) =~= be_bytes_i16(command_code));
    assert(frame.subrange(2, 4) =~= be_bytes_i16(param));
    assert(frame.subrange(5, 7) =~= le_bytes_i16(area.x0));
    assert(frame.subrange(7, 9) =~= le_bytes_i16(area.y0));
    assert(frame.subrange(9, 11) =~= le_bytes_i16(area.x1));
    assert(frame.subrange(11, 13) =~= le_bytes_i16(area.y1));
}

/// The checksum of the first thirteen bytes of a frame is the number that
/// its last two bytes hold.
pub proof fn lemma_frame_checksum_matches(command_code: i16, param: i16, area: Rect)
    ensures
        checksum_matches(frame_bytes(command_code, param, area)),
        frame_bytes(command_code, param, area).subrange(0, PAYLOAD_LEN as int) == frame_payload(
            command_code,
            param,
            area,
        ),
{
    let payload = frame_payload(command_code, param, area);
    let frame = frame_bytes(command_code, param, area);
    lemma_u16_bytes_round_trip(xmodem_crc(payload));
    assert(frame.subrange(0, PAYLOAD_LEN as int) =~= payload);
    assert(frame.subrange(PAYLOAD_LEN as int, FRAME_LEN as int) =~= be_bytes_u16(
        xmodem_crc(payload),
    ));
}

/// Encoding keeps no counter and reads no clock: two frames that encode the
/// same command are the same bytes.
pub proof fn lemma_same_command_same_frame(
    first: Seq<u8>,
    second: Seq<u8>,
    command_code: i16,
    param: i16,
    area: Rect,
)
    requires
        first == frame_bytes(command_code, param, area),
        second == frame_bytes(command_code, param, area),
    ensures
        first == second,
{
}

/// A frame encodes one command only: frames with the same bytes come from
/// the same command code, parameter and region.
pub proof fn lemma_same_frame_same_command(
    command_code: i16,
    param: i16,
    area: Rect,
    other_code: i16,
    other_param: i16,
    other_area: Rect,
)
    requires
        frame_bytes(command_code, param, area) == frame_bytes(other_code, other_param, other_area),
    ensures
        command_code == other_code,
        param == other_param,
        area == other_area,
{
    lemma_frame_holds_fields(command_code, param, area);
    lemma_frame_holds_fields(other_code, other_param, other_area);
}

/// Writes the part of a frame that the checksum covers into a new buffer.
pub fn begin_frame(command_code: i16, param: i16, area: &Rect) -> (buffer: BytesMut)
    ensures
        buffer_contents(buffer) == frame_payload(command_code, param, *area),
        buffer_contents(buffer).len() == PAYLOAD_LEN,
{
    let mut buffer = buffer_with_capacity(BUFFER_CAPACITY);
    put_i16(&mut buffer, command_code);
    put_i16(&mut buffer, param);
    put_u8(&mut buffer, PADDING);
    put_i16_le(&mut buffer, area.x0);
    put_i16_le(&mut buffer, area.y0);
    put_i16_le(&mut buffer, area.x1);
    put_i16_le(&mut buffer, area.y1);
    buffer
}

/// Appends `crc` to what `buffer` holds and hands the bytes out.
pub fn finish_frame(buffer: BytesMut, crc: u16) -> (frame: Vec<u8>)
    requires
        buffer_contents(buffer).len() + 2 <= isize::MAX,
    ensures
        frame@ == sealed(buffer_contents(buffer), crc),
{
    let mut buffer = buffer;
    put_u16(&mut buffer, crc);
    slice_to_vec(buffer_bytes(&buffer))
}

/// Encodes one command as the frame that goes out on the wire.
pub fn encode_frame(command_code: i16, param: i16, area: &Rect) -> (frame: Vec<u8>)
    ensures
        frame@ == frame_bytes(command_code, param, *area),
        holds_fields(frame@, command_code, param, *area),
        checksum_matches(frame@),
{
    let buffer = begin_frame(command_code, param, area);
    let crc = checksum(buffer_bytes(&buffer));
    proof {
        lemma_frame_holds_fields(command_code, param, *area);
        lemma_frame_checksum_matches(command_code, param, *area);
    }
    finish_frame(buffer, crc)
}

} // verus!
