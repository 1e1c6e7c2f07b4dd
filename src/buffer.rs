//! The growable byte buffer that frames are read from and written to.
use bytes::{Buf, BufMut, BytesMut};
use vstd::prelude::*;

verus! {

/// `bytes::BytesMut`, opaque here: its contents are `bytes_of`.
#[verifier::external_type_specification]
#[verifier::external_body]
pub struct ExBytesMut(BytesMut);

/// The bytes that a buffer currently holds, front first.
pub uninterp spec fn bytes_of(b: BytesMut) -> Seq<u8>;

/// Relies on `BytesMut::new`: a new, empty buffer.
#[verifier::external_body]
pub(crate) fn buf_new() -> (r: BytesMut)
    ensures
        bytes_of(r).len() == 0,
{
    BytesMut::new()
}

/// Relies on `AsRef<[u8]> for BytesMut`: the slice is the buffer's contents.
#[verifier::external_body]
pub(crate) fn buf_as_slice(b: &BytesMut) -> (r: &[u8])
    ensures
        r@ == bytes_of(*b),
{
    b.as_ref()
}

/// Relies on `Buf::advance for BytesMut`: drops the first `n` bytes
/// (it panics when `n` exceeds the length).
#[verifier::external_body]
pub(crate) fn buf_advance(b: &mut BytesMut, n: usize)
    requires
        n <= bytes_of(*old(b)).len(),
    ensures
        bytes_of(*final(b)) == bytes_of(*old(b)).skip(n as int),
{
    b.advance(n)
}

/// Relies on `Clone for BytesMut`: a new buffer with the same contents.
#[verifier::external_body]
pub(crate) fn buf_clone(b: &BytesMut) -> (r: BytesMut)
    ensures
        bytes_of(r) == bytes_of(*b),
{
    b.clone()
}

/// Relies on `BytesMut::split_off`: the buffer keeps `[0, at)` and the
/// result holds `[at, len)` (it panics when `at` exceeds the capacity).
#[verifier::external_body]
pub(crate) fn buf_split_off(b: &mut BytesMut, at: usize) -> (r: BytesMut)
    requires
        at <= bytes_of(*old(b)).len(),
    ensures
        bytes_of(*final(b)) == bytes_of(*old(b)).take(at as int),
        bytes_of(r) == bytes_of(*old(b)).skip(at as int),
{
    b.split_off(at)
}

/// Relies on `BytesMut::split_to`: the result holds `[0, at)` and the buffer
/// keeps `[at, len)` (it panics when `at` exceeds the length).
#[verifier::external_body]
pub(crate) fn buf_split_to(b: &mut BytesMut, at: usize) -> (r: BytesMut)
    requires
        at <= bytes_of(*old(b)).len(),
    ensures
        bytes_of(r) == bytes_of(*old(b)).take(at as int),
        bytes_of(*final(b)) == bytes_of(*old(b)).skip(at as int),
{
    b.split_to(at)
}

/// Relies on `BufMut::put_u8 for BytesMut`: appends one byte.
#[verifier::external_body]
pub(crate) fn buf_put_u8(b: &mut BytesMut, v: u8)
    ensures
        bytes_of(*final(b)) == bytes_of(*old(b)).push(v),
{
    b.put_u8(v)
}

/// Relies on `BytesMut::extend_from_slice`: appends the slice's bytes.
#[verifier::external_body]
pub(crate) fn buf_extend(b: &mut BytesMut, s: &[u8])
    ensures
        bytes_of(*final(b)) == bytes_of(*old(b)) + s@,
{
    b.extend_from_slice(s)
}

} // verus!
