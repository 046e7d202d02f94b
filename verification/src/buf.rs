//! The byte buffer that framed transports read into and write from.
//!
//! The buffer is `bytes::BytesMut`. Verus sees it as an opaque value whose
//! contents are named by `bytes_view`; every operation the library performs on
//! a buffer goes through one of the trusted wrappers below.
use vstd::prelude::*;

verus! {

#[verifier::external_type_specification]
#[verifier::external_body]
pub struct ExBytesMut(bytes::BytesMut);

/// The bytes a `BytesMut` currently holds, first byte first.
pub uninterp spec fn bytes_view(b: bytes::BytesMut) -> Seq<u8>;

/// `BytesMut::new`: the documentation says the result has length 0; it holds no bytes.
#[verifier::external_body]
pub fn bytes_new() -> (b: bytes::BytesMut)
    ensures
        bytes_view(b) == Seq::<u8>::empty(),
{
    bytes::BytesMut::new()
}

/// `BytesMut::len`: the number of bytes the buffer holds.
#[verifier::external_body]
pub fn bytes_len(b: &bytes::BytesMut) -> (n: usize)
    ensures
        n == bytes_view(*b).len(),
{
    b.len()
}

/// `BytesMut::extend_from_slice`: appends `data` after the bytes already held.
/// The source reserves room for `data` first, which panics when the capacity
/// it needs overflows (a `Vec` holds at most `isize::MAX` bytes); `requires`
/// leaves out the inputs whose new length is past that. Left unsaid: a buffer
/// that keeps room before its first byte (after `split_to`) counts that room
/// too when it grows, so one whose allocation and new bytes together pass
/// `isize::MAX` bytes would panic as well; no memory holds such a buffer.
#[verifier::external_body]
pub fn bytes_extend(b: &mut bytes::BytesMut, data: &[u8])
    requires
        bytes_view(*old(b)).len() + data@.len() <= isize::MAX,
    ensures
        bytes_view(*final(b)) == bytes_view(*old(b)) + data@,
{
    b.extend_from_slice(data)
}

/// `BytesMut::split_to`: removes the first `at` bytes from the buffer and
/// returns them in a buffer of their own. The source asserts `at <= len`.
#[verifier::external_body]
pub fn bytes_split_to(b: &mut bytes::BytesMut, at: usize) -> (front: bytes::BytesMut)
    requires
        at <= bytes_view(*old(b)).len(),
    ensures
        bytes_view(front) == bytes_view(*old(b)).subrange(0, at as int),
        bytes_view(*final(b)) == bytes_view(*old(b)).subrange(at as int, bytes_view(*old(b)).len() as int),
{
    b.split_to(at)
}

} // verus!
