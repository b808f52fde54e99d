//! Byte buffers of the `bytes` crate, as the framing code sees them.
use bytes::BytesMut;
use vstd::prelude::*;

verus! {

/// The growable byte buffer of the `bytes` crate.
#[verifier::external_type_specification]
#[verifier::external_body]
pub struct ExBytesMut(bytes::BytesMut);

/// The bytes a `BytesMut` currently holds, in order.
pub uninterp spec fn bytes_mut_contents(buf: BytesMut) -> Seq<u8>;

/// `BytesMut::new`: the new buffer holds no bytes.
#[verifier::external_body]
pub(crate) fn bytes_mut_new() -> (r: BytesMut)
    ensures
        bytes_mut_contents(r) == Seq::<u8>::empty(),
{
    BytesMut::new()
}

/// `BytesMut::len`: the number of bytes held.
#[verifier::external_body]
pub(crate) fn bytes_mut_len(buf: &BytesMut) -> (r: usize)
    ensures
        r == bytes_mut_contents(*buf).len(),
{
    buf.len()
}

/// Indexing through `Deref<Target = [u8]>`: the byte at position `i`.
#[verifier::external_body]
pub(crate) fn bytes_mut_byte(buf: &BytesMut, i: usize) -> (r: u8)
    requires
        i < bytes_mut_contents(*buf).len(),
    ensures
        r == bytes_mut_contents(*buf)[i as int],
{
    buf[i]
}

/// `Deref<Target = [u8]>`: the held bytes as a slice.
#[verifier::external_body]
pub(crate) fn bytes_mut_as_slice(buf: &BytesMut) -> (r: &[u8])
    ensures
        r@ == bytes_mut_contents(*buf),
{
    buf.as_ref()
}

/// `Buf::advance`: drops the first `cnt` bytes (the crate panics when `cnt`
/// exceeds the length, which `requires` rules out).
#[verifier::external_body]
pub(crate) fn bytes_mut_advance(buf: &mut BytesMut, cnt: usize)
    requires
        cnt <= bytes_mut_contents(*old(buf)).len(),
    ensures
        bytes_mut_contents(*final(buf)) == bytes_mut_contents(*old(buf)).skip(cnt as int),
{
    bytes::Buf::advance(buf, cnt)
}

/// `BytesMut::split_to`: returns the first `at` bytes and keeps the rest
/// (the crate panics when `at` exceeds the length).
#[verifier::external_body]
pub(crate) fn bytes_mut_split_to(buf: &mut BytesMut, at: usize) -> (r: BytesMut)
    requires
        at <= bytes_mut_contents(*old(buf)).len(),
    ensures
        bytes_mut_contents(r) == bytes_mut_contents(*old(buf)).take(at as int),
        bytes_mut_contents(*final(buf)) == bytes_mut_contents(*old(buf)).skip(at as int),
{
    buf.split_to(at)
}

/// `BytesMut::truncate`: keeps the first `len` bytes; no effect when `len`
/// is not below the current length.
#[verifier::external_body]
pub(crate) fn bytes_mut_truncate(buf: &mut BytesMut, len: usize)
    ensures
        bytes_mut_contents(*final(buf)) == (if len < bytes_mut_contents(*old(buf)).len() {
            bytes_mut_contents(*old(buf)).take(len as int)
        } else {
            bytes_mut_contents(*old(buf))
        }),
{
    buf.truncate(len)
}

/// `BytesMut::extend_from_slice`: appends the slice (the crate panics when the
/// new length cannot be allocated, past `isize::MAX` bytes).
#[verifier::external_body]
pub(crate) fn bytes_mut_extend_from_slice(buf: &mut BytesMut, s: &[u8])
    requires
        bytes_mut_contents(*old(buf)).len() + s@.len() <= isize::MAX,
    ensures
        bytes_mut_contents(*final(buf)) == bytes_mut_contents(*old(buf)) + s@,
{
    buf.extend_from_slice(s)
}

/// `BufMut::put_u8`: appends one byte (same allocation limit).
#[verifier::external_body]
pub(crate) fn bytes_mut_put_u8(buf: &mut BytesMut, b: u8)
    requires
        bytes_mut_contents(*old(buf)).len() + 1 <= isize::MAX,
    ensures
        bytes_mut_contents(*final(buf)) == bytes_mut_contents(*old(buf)).push(b),
{
    bytes::BufMut::put_u8(buf, b)
}

} // verus!
