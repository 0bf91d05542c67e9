//! Byte buffers of the `bytes` crate, as the packet encoders use them.
//!
//! `BytesMut` is the growable buffer that packets are written into and
//! `Bytes` the frozen, immutable result. Their contents are named by
//! `bytes_mut_contents` and `bytes_contents`; every operation the library
//! performs on them is a wrapper below whose contract states how it changes
//! or reads those contents.

use vstd::prelude::*;

verus! {

#[verifier::external_type_specification]
#[verifier::external_body]
pub struct ExBytesMut(bytes::BytesMut);

#[verifier::external_type_specification]
#[verifier::external_body]
pub struct ExBytes(bytes::Bytes);

/// The bytes held by a `bytes::BytesMut`, in order.
pub uninterp spec fn bytes_mut_contents(b: bytes::BytesMut) -> Seq<u8>;

/// The bytes held by a `bytes::Bytes`, in order.
pub uninterp spec fn bytes_contents(b: bytes::Bytes) -> Seq<u8>;

/// Big-endian bytes of a `u16`, as `u16::to_be_bytes` gives them.
pub open spec fn u16_be_bytes(n: u16) -> Seq<u8> {
    seq![(n / 256) as u8, (n % 256) as u8]
}

/// `BytesMut::new`: an empty buffer.
#[verifier::external_body]
pub(crate) fn new_bytes_mut() -> (b: bytes::BytesMut)
    ensures
        bytes_mut_contents(b) == Seq::<u8>::empty(),
{
    bytes::BytesMut::new()
}

/// `BufMut::put_u8` on a `BytesMut`: appends one byte. The buffer panics
/// ("overflow") only where its length plus one would exceed `usize::MAX`.
#[verifier::external_body]
pub(crate) fn put_u8(w: &mut bytes::BytesMut, n: u8)
    requires
        bytes_mut_contents(*old(w)).len() + 1 <= usize::MAX,
    ensures
        bytes_mut_contents(*final(w)) == bytes_mut_contents(*old(w)).push(n),
{
    bytes::BufMut::put_u8(w, n)
}

/// `BufMut::put_u16` on a `BytesMut`: appends the two bytes of `n`,
/// most significant first.
#[verifier::external_body]
pub(crate) fn put_u16(w: &mut bytes::BytesMut, n: u16)
    requires
        bytes_mut_contents(*old(w)).len() + 2 <= usize::MAX,
    ensures
        bytes_mut_contents(*final(w)) == bytes_mut_contents(*old(w)) + u16_be_bytes(n),
{
    bytes::BufMut::put_u16(w, n)
}

/// `BufMut::put_slice` on a `BytesMut`: appends the bytes of `src`.
#[verifier::external_body]
pub(crate) fn put_slice(w: &mut bytes::BytesMut, src: &[u8])
    requires
        bytes_mut_contents(*old(w)).len() + src@.len() <= usize::MAX,
    ensures
        bytes_mut_contents(*final(w)) == bytes_mut_contents(*old(w)) + src@,
{
    bytes::BufMut::put_slice(w, src)
}

/// `BufMut::put` of a `Bytes` into a `BytesMut`: appends all bytes of `src`.
#[verifier::external_body]
pub(crate) fn put_bytes(w: &mut bytes::BytesMut, src: bytes::Bytes)
    requires
        bytes_mut_contents(*old(w)).len() + bytes_contents(src).len() <= usize::MAX,
    ensures
        bytes_mut_contents(*final(w)) == bytes_mut_contents(*old(w)) + bytes_contents(src),
{
    bytes::BufMut::put(w, src)
}

/// `BytesMut::freeze`: the same bytes as an immutable `Bytes`.
#[verifier::external_body]
pub(crate) fn freeze(w: bytes::BytesMut) -> (b: bytes::Bytes)
    ensures
        bytes_contents(b) == bytes_mut_contents(w),
{
    w.freeze()
}

/// `Bytes::new`: an empty `Bytes`.
#[verifier::external_body]
pub(crate) fn empty_bytes() -> (b: bytes::Bytes)
    ensures
        bytes_contents(b) == Seq::<u8>::empty(),
{
    bytes::Bytes::new()
}

/// `Bytes::from(Vec<u8>)`: the same bytes, in order.
#[verifier::external_body]
pub(crate) fn bytes_from_vec(v: Vec<u8>) -> (b: bytes::Bytes)
    ensures
        bytes_contents(b) == v@,
{
    bytes::Bytes::from(v)
}

/// `Bytes::len`: the number of bytes held.
#[verifier::external_body]
pub(crate) fn bytes_len(b: &bytes::Bytes) -> (n: usize)
    ensures
        n == bytes_contents(*b).len(),
{
    b.len()
}

/// `BytesMut::len`: the number of bytes held.
#[verifier::external_body]
pub(crate) fn bytes_mut_len(b: &bytes::BytesMut) -> (n: usize)
    ensures
        n == bytes_mut_contents(*b).len(),
{
    b.len()
}

/// An empty buffer to write packets and fields into.
pub fn new_buffer() -> (b: bytes::BytesMut)
    ensures
        bytes_mut_contents(b) == Seq::<u8>::empty(),
{
    new_bytes_mut()
}

/// The number of bytes a buffer holds, for callers that must meet a
/// length stated over its contents.
pub fn buffer_byte_count(b: &bytes::BytesMut) -> (n: usize)
    ensures
        n == bytes_mut_contents(*b).len(),
{
    bytes_mut_len(b)
}

/// The number of bytes a `Bytes` holds, for callers that must meet a
/// length stated over its contents.
pub fn byte_count(b: &bytes::Bytes) -> (n: usize)
    ensures
        n == bytes_contents(*b).len(),
{
    bytes_len(b)
}

/// Indexing a `Bytes` (through its `Deref` to `[u8]`): the byte at `i`.
/// Indexing panics out of range, which `requires` leaves out.
#[verifier::external_body]
pub(crate) fn bytes_at(b: &bytes::Bytes, i: usize) -> (x: u8)
    requires
        i < bytes_contents(*b).len(),
    ensures
        x == bytes_contents(*b)[i as int],
{
    b[i]
}

/// `Bytes::clone`: another handle to the same bytes.
#[verifier::external_body]
pub(crate) fn bytes_clone(b: &bytes::Bytes) -> (c: bytes::Bytes)
    ensures
        bytes_contents(c) == bytes_contents(*b),
{
    b.clone()
}

} // verus!
