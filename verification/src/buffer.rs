//! The byte queue under a session, kept in a `bytes::BytesMut`.
//!
//! Verus does not look inside a `BytesMut`. What the buffer holds is given a
//! name, [`contents`], and each method that a session calls is stated over
//! that name. These statements are taken on trust from the `bytes` crate.

use vstd::prelude::*;
use bytes::BufMut;

verus! {

/// `bytes::BytesMut`, made known as a type whose inside is not looked at.
#[verifier::external_type_specification]
#[verifier::external_body]
pub struct ExBytesMut(bytes::BytesMut);

/// The bytes that a buffer holds, in order, the oldest first.
pub uninterp spec fn contents(buf: bytes::BytesMut) -> Seq<u8>;

/// `BytesMut::new`: a buffer of length 0.
#[verifier::external_body]
pub(crate) fn new_buffer() -> (buf: bytes::BytesMut)
    ensures
        contents(buf) == Seq::<u8>::empty(),
{
    bytes::BytesMut::new()
}

/// `BytesMut::len`: the number of bytes held.
#[verifier::external_body]
pub(crate) fn buffer_len(buf: &bytes::BytesMut) -> (len: usize)
    ensures
        len == contents(*buf).len(),
{
    buf.len()
}

/// `BufMut::put_slice` on a `BytesMut`: the bytes of `src` are appended after
/// those already held, the buffer growing as needed. `BytesMut` reports
/// `isize::MAX - len` as the room that is left, and the call panics on a
/// slice longer than that. Memory that the allocator cannot give is not
/// spoken of here, as vstd does not speak of it for `Vec`.
#[verifier::external_body]
pub(crate) fn buffer_put_slice(buf: &mut bytes::BytesMut, src: &[u8])
    requires
        contents(*old(buf)).len() + src@.len() <= isize::MAX,
    ensures
        contents(*final(buf)) == contents(*old(buf)) + src@,
{
    buf.put_slice(src)
}

/// `BytesMut::split_to`: the first `at` bytes leave in a buffer of their own,
/// and the rest stay, both in their order. The call panics where `at` is more
/// than the length.
#[verifier::external_body]
pub(crate) fn buffer_split_to(buf: &mut bytes::BytesMut, at: usize) -> (head: bytes::BytesMut)
    requires
        at <= contents(*old(buf)).len(),
    ensures
        contents(head) == contents(*old(buf)).take(at as int),
        contents(*final(buf)) == contents(*old(buf)).skip(at as int),
{
    buf.split_to(at)
}

/// `AsRef<[u8]>` of a `BytesMut`: the bytes held, as a slice.
#[verifier::external_body]
pub(crate) fn buffer_bytes(buf: &bytes::BytesMut) -> (bytes: &[u8])
    ensures
        bytes@ == contents(*buf),
{
    buf.as_ref()
}

} // verus!
