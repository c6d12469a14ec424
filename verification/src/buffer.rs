//! The growable byte buffer of the `bytes` crate, as the codec uses it.
//!
//! Verus does not read the `bytes` crate. What the codec relies on is stated
//! here, one contract for each operation, over [`buffer_bytes`]: the bytes
//! that a buffer holds, first to last. As with `Vec`, running out of memory
//! is outside what these contracts speak of.

use bytes::BufMut;
use bytes::BytesMut;
use vstd::prelude::*;

verus! {

/// `bytes::BytesMut`, an opaque value to the verifier.
#[verifier::external_type_specification]
#[verifier::external_body]
pub struct ExBytesMut(bytes::BytesMut);

/// The bytes that a buffer holds, in order.
pub uninterp spec fn buffer_bytes(buffer: BytesMut) -> Seq<u8>;

/// The two bytes of `value`, most significant first.
pub open spec fn be16(value: u16) -> Seq<u8> {
    seq![(value / 256) as u8, (value % 256) as u8]
}

/// `BytesMut::new`: the new buffer holds no bytes.
#[verifier::external_body]
pub(crate) fn new_buffer() -> (buffer: BytesMut)
    ensures
        buffer_bytes(buffer) == Seq::<u8>::empty(),
{
    BytesMut::new()
}

/// `BytesMut::len`: the number of bytes that the buffer holds.
#[verifier::external_body]
pub(crate) fn buffer_len(buffer: &BytesMut) -> (len: usize)
    ensures
        len == buffer_bytes(*buffer).len(),
{
    buffer.len()
}

/// `BufMut::put_u8` on a `BytesMut`: the byte is appended.
#[verifier::external_body]
pub(crate) fn put_u8(buffer: &mut BytesMut, byte: u8)
    ensures
        buffer_bytes(*final(buffer)) == buffer_bytes(*old(buffer)).push(byte),
{
    buffer.put_u8(byte);
}

/// `BufMut::put_u16` on a `BytesMut`: the value is appended as two bytes in
/// big-endian order.
#[verifier::external_body]
pub(crate) fn put_u16(buffer: &mut BytesMut, value: u16)
    ensures
        buffer_bytes(*final(buffer)) == buffer_bytes(*old(buffer)) + be16(value),
{
    buffer.put_u16(value);
}

/// `BytesMut::extend_from_slice`: the bytes of the slice are appended in order.
#[verifier::external_body]
pub(crate) fn extend_from_slice(buffer: &mut BytesMut, bytes: &[u8])
    ensures
        buffer_bytes(*final(buffer)) == buffer_bytes(*old(buffer)) + bytes@,
{
    buffer.extend_from_slice(bytes);
}

/// `AsRef<[u8]>` of a `BytesMut`: the slice holds the buffer's bytes.
#[verifier::external_body]
pub(crate) fn as_slice(buffer: &BytesMut) -> (bytes: &[u8])
    ensures
        bytes@ == buffer_bytes(*buffer),
{
    buffer.as_ref()
}

} // verus!
