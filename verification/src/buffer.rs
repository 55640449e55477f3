//! The buffer in which outbound frames are assembled.
//!
//! Frames travel over the replication stream as `bytes` buffers, so outbound
//! frames are built in a `bytes::BytesMut`. Its code is not verified here:
//! the contracts below are taken on trust, and are the only things the rest of
//! the crate knows about the buffer.
use crate::frame::be_bytes;
use vstd::prelude::*;

verus! {

#[verifier::external_type_specification]
#[verifier::external_body]
pub struct ExBytesMut(bytes::BytesMut);

/// The bytes that a buffer holds, in the order in which they were written.
pub uninterp spec fn buffer_bytes(buf: bytes::BytesMut) -> Seq<u8>;

/// `bytes::BytesMut::with_capacity`: a buffer that holds no bytes yet. The
/// capacity only reserves room; it is kept within what an allocation may ask
/// for.
#[verifier::external_body]
pub(crate) fn with_capacity(capacity: usize) -> (buf: bytes::BytesMut)
    requires
        capacity <= isize::MAX,
    ensures
        buffer_bytes(buf) == Seq::<u8>::empty(),
{
    bytes::BytesMut::with_capacity(capacity)
}

/// `bytes::BufMut::put_u8` on a `BytesMut`: appends one byte, growing the
/// buffer when it is full.
#[verifier::external_body]
pub(crate) fn put_u8(buf: &mut bytes::BytesMut, byte: u8)
    requires
        buffer_bytes(*old(buf)).len() + 1 <= isize::MAX,
    ensures
        buffer_bytes(*final(buf)) == buffer_bytes(*old(buf)).push(byte),
{
    bytes::BufMut::put_u8(buf, byte)
}

/// `bytes::BufMut::put_u64` on a `BytesMut`: appends the eight bytes of `n`,
/// most significant first, growing the buffer when it is full.
#[verifier::external_body]
pub(crate) fn put_u64(buf: &mut bytes::BytesMut, n: u64)
    requires
        buffer_bytes(*old(buf)).len() + 8 <= isize::MAX,
    ensures
        buffer_bytes(*final(buf)) == buffer_bytes(*old(buf)) + be_bytes(n),
{
    bytes::BufMut::put_u64(buf, n)
}

} // verus!
