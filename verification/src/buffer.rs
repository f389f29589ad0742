//! The growable byte buffer in which frames are assembled.
//!
//! The buffer is `bytes::BytesMut`. Verus sees none of its fields, so what it
//! holds has a name, `buffer_contents`, and each operation that the codec
//! uses is declared here with the effect that the `bytes` crate documents.
//! Nothing in this file is proved.

use crate::wire::be_bytes_i16;
use crate::wire::be_bytes_u16;
use crate::wire::le_bytes_i16;
use bytes::BufMut;
use bytes::BytesMut;
use vstd::prelude::*;

verus! {

/// `bytes::BytesMut`, carried through as a value that Verus does not look
/// into.
#[verifier::external_type_specification]
#[verifier::external_body]
pub struct ExBytesMut(bytes::BytesMut);

/// The bytes that `buffer` holds, in the order in which they were written.
pub uninterp spec fn buffer_contents(buffer: BytesMut) -> Seq<u8>;

/// `BytesMut::with_capacity`: a buffer that holds no byte yet. The capacity
/// is a hint for the allocation and bounds nothing: the buffer grows when
/// more is written.
#[verifier::external_body]
pub(crate) fn buffer_with_capacity(capacity: usize) -> (buffer: BytesMut)
    requires
        capacity <= isize::MAX,
    ensures
        buffer_contents(buffer) == Seq::<u8>::empty(),
{
    BytesMut::with_capacity(capacity)
}

/// `BufMut::put_u8` on a `BytesMut`: appends the byte.
#[verifier::external_body]
pub(crate) fn put_u8(buffer: &mut BytesMut, value: u8)
    requires
        buffer_contents(*old(buffer)).len() + 1 <= isize::MAX,
    ensures
        buffer_contents(*final(buffer)) == buffer_contents(*old(buffer)).push(value),
{
    buffer.put_u8(value)
}

/// `BufMut::put_u16` on a `BytesMut`: appends the two bytes of `value`, the
/// more significant first.
#[verifier::external_body]
pub(crate) fn put_u16(buffer: &mut BytesMut, value: u16)
    requires
        buffer_contents(*old(buffer)).len() + 2 <= isize::MAX,
    ensures
        buffer_contents(*final(buffer)) == buffer_contents(*old(buffer)) + be_bytes_u16(value),
{
    buffer.put_u16(value)
}

/// `BufMut::put_i16` on a `BytesMut`: appends the two bytes of `value` in
/// two's complement, the more significant first.
#[verifier::external_body]
pub(crate) fn put_i16(buffer: &mut BytesMut, value: i16)
    requires
        buffer_contents(*old(buffer)).len() + 2 <= isize::MAX,
    ensures
        buffer_contents(*final(buffer)) == buffer_contents(*old(buffer)) + be_bytes_i16(value),
{
    buffer.put_i16(value)
}

/// `BufMut::put_i16_le` on a `BytesMut`: appends the two bytes of `value` in
/// two's complement, the less significant first.
#[verifier::external_body]
pub(crate) fn put_i16_le(buffer: &mut BytesMut, value: i16)
    requires
        buffer_contents(*old(buffer)).len() + 2 <= isize::MAX,
    ensures
        buffer_contents(*final(buffer)) == buffer_contents(*old(buffer)) + le_bytes_i16(value),
{
    buffer.put_i16_le(value)
}

/// `AsRef<[u8]>` of `BytesMut`: the bytes written so far, as a slice.
#[verifier::external_body]
pub(crate) fn buffer_bytes(buffer: &BytesMut) -> (bytes: &[u8])
    ensures
        bytes@ == buffer_contents(*buffer),
{
    buffer.as_ref()
}

} // verus!
