//! The byte buffers of the `bytes` crate that the codecs read from and write
//! to, behind trusted wrappers.

use bytes::{Bytes, BytesMut};
use vstd::prelude::*;

verus! {

/// `bytes::BytesMut`, the growable receive and send buffer.
#[verifier::external_type_specification]
#[verifier::external_body]
pub struct ExBytesMut(BytesMut);

/// `bytes::Bytes`, an immutable shared byte string.
#[verifier::external_type_specification]
#[verifier::external_body]
pub struct ExBytes(Bytes);

/// The bytes that a `BytesMut` holds.
pub uninterp spec fn buf_content(b: BytesMut) -> Seq<u8>;

/// The bytes that a `Bytes` holds.
pub uninterp spec fn bytes_content(b: Bytes) -> Seq<u8>;

/// `BytesMut` as a slice (`Deref`): the slice holds the buffer's bytes.
#[verifier::external_body]
pub(crate) fn buf_as_slice(b: &BytesMut) -> (r: &[u8])
    ensures
        r@ == buf_content(*b),
{
    &b[..]
}

/// `BytesMut::split_to`: the first `at` bytes leave the buffer and are
/// returned; the buffer keeps the rest. It panics when `at` exceeds the
/// length, which the precondition rules out.
#[verifier::external_body]
pub(crate) fn buf_split_to(b: &mut BytesMut, at: usize) -> (r: BytesMut)
    requires
        at <= buf_content(*old(b)).len(),
    ensures
        buf_content(r) == buf_content(*old(b)).take(at as int),
        buf_content(*final(b)) == buf_content(*old(b)).skip(at as int),
{
    b.split_to(at)
}

/// `BytesMut::freeze`: the same bytes, now immutable.
#[verifier::external_body]
pub(crate) fn buf_freeze(b: BytesMut) -> (r: Bytes)
    ensures
        bytes_content(r) == buf_content(b),
{
    b.freeze()
}

/// `BytesMut::extend_from_slice`: appends `s`, growing the buffer as needed.
/// Growing panics when the new capacity overflows, which the precondition
/// rules out.
#[verifier::external_body]
pub(crate) fn buf_extend(b: &mut BytesMut, s: &[u8])
    requires
        buf_content(*old(b)).len() + s@.len() <= isize::MAX,
    ensures
        buf_content(*final(b)) == buf_content(*old(b)) + s@,
{
    b.extend_from_slice(s)
}

/// `Bytes` as a slice (`Deref`): the slice holds the same bytes.
#[verifier::external_body]
pub(crate) fn bytes_as_slice(b: &Bytes) -> (r: &[u8])
    ensures
        r@ == bytes_content(*b),
{
    &b[..]
}

/// `Bytes::from(Vec<u8>)`: a byte string holding the vector's bytes.
#[verifier::external_body]
pub(crate) fn bytes_from_vec(v: Vec<u8>) -> (r: Bytes)
    ensures
        bytes_content(r) == v@,
{
    Bytes::from(v)
}

/// `Bytes::new`: an empty byte string.
#[verifier::external_body]
pub(crate) fn bytes_empty() -> (r: Bytes)
    ensures
        bytes_content(r) == Seq::<u8>::empty(),
{
    Bytes::new()
}

} // verus!
