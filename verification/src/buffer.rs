//! Trusted boundary around the `bytes` crate: a mutable input buffer
//! (`BytesMut`) and the immutable, cheaply-shareable view (`Bytes`) produced
//! by freezing a prefix of it. Contracts speak of the byte sequences the two
//! buffer types hold.

use vstd::prelude::*;
use bytes::{Bytes, BytesMut};

verus! {

#[verifier::external_type_specification]
#[verifier::external_body]
pub struct ExBytes(Bytes);

#[verifier::external_type_specification]
#[verifier::external_body]
pub struct ExBytesMut(BytesMut);

/// The bytes a mutable buffer currently holds.
pub uninterp spec fn buf_bytes(b: BytesMut) -> Seq<u8>;

/// The bytes a frozen buffer holds.
pub uninterp spec fn frozen_bytes(b: Bytes) -> Seq<u8>;

/// Relies on `BytesMut::len`: the number of bytes the buffer holds.
#[verifier::external_body]
pub fn buf_len(b: &BytesMut) -> (n: usize)
    ensures
        n == buf_bytes(*b).len(),
{
    b.len()
}

/// Relies on `BytesMut::split_to`: afterwards `b` holds the bytes from `at`
/// on, and the returned buffer holds the first `at` bytes. Panics when `at`
/// exceeds the length, so that case is excluded here.
#[verifier::external_body]
pub fn buf_split_to(b: &mut BytesMut, at: usize) -> (r: BytesMut)
    requires
        at <= buf_bytes(*old(b)).len(),
    ensures
        buf_bytes(r) == buf_bytes(*old(b)).take(at as int),
        buf_bytes(*final(b)) == buf_bytes(*old(b)).skip(at as int),
{
    b.split_to(at)
}

/// Relies on `BytesMut::freeze`: converts the buffer into an immutable view
/// of the same bytes.
#[verifier::external_body]
pub fn buf_freeze(b: BytesMut) -> (r: Bytes)
    ensures
        frozen_bytes(r) == buf_bytes(b),
{
    b.freeze()
}

/// Relies on `BytesMut::extend_from_slice`: appends the given bytes to the
/// buffer.
#[verifier::external_body]
pub fn buf_extend(b: &mut BytesMut, data: &[u8])
    ensures
        buf_bytes(*final(b)) == buf_bytes(*old(b)) + data@,
{
    b.extend_from_slice(data)
}

/// Relies on `Bytes` dereferencing to a byte slice: copies out the bytes at
/// `[start, end)`. Out-of-range indices would panic and are excluded here.
#[verifier::external_body]
pub fn frozen_slice(b: &Bytes, start: usize, end: usize) -> (r: Vec<u8>)
    requires
        start <= end <= frozen_bytes(*b).len(),
    ensures
        r@ == frozen_bytes(*b).subrange(start as int, end as int),
{
    b[start..end].to_vec()
}

} // verus!
