//! Trusted boundary around `bytes::BytesMut`, the byte buffer the codecs
//! work on.
//!
//! The buffer's contents are named by [`bytes_view`]; every wrapper states
//! over that name what the `bytes` crate's documentation promises of the one
//! method its body calls. Verified code reads and consumes buffered bytes
//! only through these wrappers.

use vstd::prelude::*;

verus! {

/// `bytes::BytesMut`, declared opaque: verified code sees its contents only
/// through [`bytes_view`].
#[verifier::external_type_specification]
#[verifier::external_body]
pub struct ExBytesMut(bytes::BytesMut);

/// The bytes a `bytes::BytesMut` holds, front to back.
pub uninterp spec fn bytes_view(b: bytes::BytesMut) -> Seq<u8>;

/// Relies on `bytes::BytesMut::new`: the new buffer is empty.
#[verifier::external_body]
pub(crate) fn bytes_new() -> (r: bytes::BytesMut)
    ensures
        bytes_view(r) == Seq::<u8>::empty(),
{
    bytes::BytesMut::new()
}

/// Relies on `bytes::BytesMut::len`: the number of bytes in the buffer.
#[verifier::external_body]
pub(crate) fn bytes_len(b: &bytes::BytesMut) -> (r: usize)
    ensures
        r == bytes_view(*b).len(),
{
    b.len()
}

/// Relies on `bytes::BytesMut`'s `Deref` to `[u8]` and the slice index: the
/// byte at position `i`.
#[verifier::external_body]
pub(crate) fn bytes_at(b: &bytes::BytesMut, i: usize) -> (r: u8)
    requires
        i < bytes_view(*b).len(),
    ensures
        r == bytes_view(*b)[i as int],
{
    b[i]
}

/// Relies on `bytes::BytesMut::extend_from_slice`: appends the slice to the
/// back of the buffer.
#[verifier::external_body]
pub(crate) fn bytes_extend(b: &mut bytes::BytesMut, s: &[u8])
    requires
        bytes_view(*old(b)).len() + s@.len() <= usize::MAX,
    ensures
        bytes_view(*final(b)) == bytes_view(*old(b)) + s@,
{
    b.extend_from_slice(s)
}

/// Relies on `bytes::BytesMut::split_to`: the first `at` bytes move to the
/// returned buffer, the rest stay; panics if `at` exceeds the length, which
/// the precondition rules out.
#[verifier::external_body]
pub(crate) fn bytes_split_to(b: &mut bytes::BytesMut, at: usize) -> (r: bytes::BytesMut)
    requires
        at <= bytes_view(*old(b)).len(),
    ensures
        bytes_view(r) == bytes_view(*old(b)).take(at as int),
        bytes_view(*final(b)) == bytes_view(*old(b)).skip(at as int),
{
    b.split_to(at)
}

/// Relies on `bytes::BytesMut`'s `Deref` to `[u8]` and `[u8]::to_vec`: copies
/// the buffer's bytes out in order.
#[verifier::external_body]
pub(crate) fn bytes_to_vec(b: &bytes::BytesMut) -> (r: Vec<u8>)
    ensures
        r@ == bytes_view(*b),
{
    b.to_vec()
}

} // verus!
