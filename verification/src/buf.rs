//! The byte buffers of the `bytes` crate, as the encoding reads and writes them.
//!
//! `Bytes` is the read side: every `get_*` call takes bytes from its front.
//! `BytesMut` is the write side: every `put_*` call appends to its end.
//! The contents of each are named by `bytes_view` and `bytes_mut_view`, and
//! each wrapper below states what one method of the crate does to them.

use bytes::{Buf, BufMut, Bytes, BytesMut};
use vstd::bytes::*;
use vstd::prelude::*;

verus! {

#[verifier::external_type_specification]
#[verifier::external_body]
pub struct ExBytes(Bytes);

#[verifier::external_type_specification]
#[verifier::external_body]
pub struct ExBytesMut(BytesMut);

/// The bytes that a `Bytes` handle still holds (from its read position to its end).
pub uninterp spec fn bytes_view(b: Bytes) -> Seq<u8>;

/// The bytes written so far into a `BytesMut`.
pub uninterp spec fn bytes_mut_view(b: BytesMut) -> Seq<u8>;

/// `Buf::remaining` on `Bytes`: the number of bytes left to read.
#[verifier::external_body]
pub(crate) fn remaining(buf: &Bytes) -> (n: usize)
    ensures
        n == bytes_view(*buf).len(),
{
    buf.remaining()
}

/// `Buf::chunk` on `Bytes`: all the bytes left to read, as one slice.
#[verifier::external_body]
pub(crate) fn chunk(buf: &Bytes) -> (s: &[u8])
    ensures
        s@ == bytes_view(*buf),
{
    buf.chunk()
}

/// `BytesMut::new`: an empty buffer.
#[verifier::external_body]
fn bytes_mut_new() -> (buf: BytesMut)
    ensures
        bytes_mut_view(buf) == Seq::<u8>::empty(),
{
    BytesMut::new()
}

/// `BytesMut::len`: the number of bytes written so far.
#[verifier::external_body]
fn bytes_mut_len(buf: &BytesMut) -> (n: usize)
    ensures
        n == bytes_mut_view(*buf).len(),
{
    buf.len()
}

/// A new, empty write buffer.
pub fn new_write_buffer() -> (buf: BytesMut)
    ensures
        bytes_mut_view(buf) == Seq::<u8>::empty(),
{
    bytes_mut_new()
}

/// How many bytes have been written into `buf` (what bounds further writes,
/// see `Serialize::serialize`).
pub fn written_len(buf: &BytesMut) -> (n: usize)
    ensures
        n == bytes_mut_view(*buf).len(),
{
    bytes_mut_len(buf)
}

/// How many bytes are left to read in `buf`.
pub fn readable_len(buf: &Bytes) -> (n: usize)
    ensures
        n == bytes_view(*buf).len(),
{
    remaining(buf)
}

/// `Buf::get_u8`: takes the first byte (it panics on an empty buffer, hence the `requires`).
#[verifier::external_body]
pub(crate) fn get_u8(buf: &mut Bytes) -> (v: u8)
    requires
        bytes_view(*old(buf)).len() >= 1,
    ensures
        v == bytes_view(*old(buf))[0],
        bytes_view(*final(buf)) == bytes_view(*old(buf)).skip(1),
{
    buf.get_u8()
}

/// `Buf::get_i8`: takes the first byte, read as a signed number.
#[verifier::external_body]
pub(crate) fn get_i8(buf: &mut Bytes) -> (v: i8)
    requires
        bytes_view(*old(buf)).len() >= 1,
    ensures
        v == bytes_view(*old(buf))[0] as i8,
        bytes_view(*final(buf)) == bytes_view(*old(buf)).skip(1),
{
    buf.get_i8()
}

/// `Buf::get_u16_le`: takes two bytes and reads them as a little-endian `u16`.
#[verifier::external_body]
pub(crate) fn get_u16_le(buf: &mut Bytes) -> (v: u16)
    requires
        bytes_view(*old(buf)).len() >= 2,
    ensures
        v == spec_u16_from_le_bytes(bytes_view(*old(buf)).take(2)),
        bytes_view(*final(buf)) == bytes_view(*old(buf)).skip(2),
{
    buf.get_u16_le()
}

/// `Buf::get_i16_le`: takes two bytes and reads them as a little-endian `i16`.
#[verifier::external_body]
pub(crate) fn get_i16_le(buf: &mut Bytes) -> (v: i16)
    requires
        bytes_view(*old(buf)).len() >= 2,
    ensures
        v == spec_u16_from_le_bytes(bytes_view(*old(buf)).take(2)) as i16,
        bytes_view(*final(buf)) == bytes_view(*old(buf)).skip(2),
{
    buf.get_i16_le()
}

/// `Buf::get_u32_le`: takes four bytes and reads them as a little-endian `u32`.
#[verifier::external_body]
pub(crate) fn get_u32_le(buf: &mut Bytes) -> (v: u32)
    requires
        bytes_view(*old(buf)).len() >= 4,
    ensures
        v == spec_u32_from_le_bytes(bytes_view(*old(buf)).take(4)),
        bytes_view(*final(buf)) == bytes_view(*old(buf)).skip(4),
{
    buf.get_u32_le()
}

/// `Buf::get_i32_le`: takes four bytes and reads them as a little-endian `i32`.
#[verifier::external_body]
pub(crate) fn get_i32_le(buf: &mut Bytes) -> (v: i32)
    requires
        bytes_view(*old(buf)).len() >= 4,
    ensures
        v == spec_u32_from_le_bytes(bytes_view(*old(buf)).take(4)) as i32,
        bytes_view(*final(buf)) == bytes_view(*old(buf)).skip(4),
{
    buf.get_i32_le()
}

/// `Buf::get_u64_le`: takes eight bytes and reads them as a little-endian `u64`.
#[verifier::external_body]
pub(crate) fn get_u64_le(buf: &mut Bytes) -> (v: u64)
    requires
        bytes_view(*old(buf)).len() >= 8,
    ensures
        v == spec_u64_from_le_bytes(bytes_view(*old(buf)).take(8)),
        bytes_view(*final(buf)) == bytes_view(*old(buf)).skip(8),
{
    buf.get_u64_le()
}

/// `Buf::get_i64_le`: takes eight bytes and reads them as a little-endian `i64`.
#[verifier::external_body]
pub(crate) fn get_i64_le(buf: &mut Bytes) -> (v: i64)
    requires
        bytes_view(*old(buf)).len() >= 8,
    ensures
        v == spec_u64_from_le_bytes(bytes_view(*old(buf)).take(8)) as i64,
        bytes_view(*final(buf)) == bytes_view(*old(buf)).skip(8),
{
    buf.get_i64_le()
}

/// `Bytes::slice(..len)`: a new handle on the first `len` bytes; `buf` itself is not advanced.
#[verifier::external_body]
pub(crate) fn slice_prefix(buf: &Bytes, len: usize) -> (b: Bytes)
    requires
        len <= bytes_view(*buf).len(),
    ensures
        bytes_view(b) == bytes_view(*buf).take(len as int),
{
    buf.slice(..len)
}

/// `Buf::advance` on `Bytes`: drops the first `cnt` bytes (it panics past the end).
#[verifier::external_body]
pub(crate) fn advance(buf: &mut Bytes, cnt: usize)
    requires
        cnt <= bytes_view(*old(buf)).len(),
    ensures
        bytes_view(*final(buf)) == bytes_view(*old(buf)).skip(cnt as int),
{
    buf.advance(cnt)
}

/// `Buf::copy_to_slice`: fills `dst` with the first `dst.len()` bytes and advances past them.
#[verifier::external_body]
pub(crate) fn copy_to_slice(buf: &mut Bytes, dst: &mut Vec<u8>)
    requires
        old(dst)@.len() <= bytes_view(*old(buf)).len(),
    ensures
        final(dst)@ == bytes_view(*old(buf)).take(old(dst)@.len() as int),
        bytes_view(*final(buf)) == bytes_view(*old(buf)).skip(old(dst)@.len() as int),
{
    buf.copy_to_slice(dst.as_mut_slice())
}

/// `BufMut::put_u8` on `BytesMut`: appends one byte. The buffer panics when it
/// would grow past `isize::MAX` bytes, hence the `requires`.
#[verifier::external_body]
pub(crate) fn put_u8(buf: &mut BytesMut, n: u8)
    requires
        bytes_mut_view(*old(buf)).len() + 1 <= isize::MAX,
    ensures
        bytes_mut_view(*final(buf)) == bytes_mut_view(*old(buf)).push(n),
{
    buf.put_u8(n)
}

/// `BufMut::put_i8` on `BytesMut`: appends the byte of `n`.
#[verifier::external_body]
pub(crate) fn put_i8(buf: &mut BytesMut, n: i8)
    requires
        bytes_mut_view(*old(buf)).len() + 1 <= isize::MAX,
    ensures
        bytes_mut_view(*final(buf)) == bytes_mut_view(*old(buf)).push(n as u8),
{
    buf.put_i8(n)
}

/// `BufMut::put_u16_le` on `BytesMut`: appends the two little-endian bytes of `n`.
#[verifier::external_body]
pub(crate) fn put_u16_le(buf: &mut BytesMut, n: u16)
    requires
        bytes_mut_view(*old(buf)).len() + 2 <= isize::MAX,
    ensures
        bytes_mut_view(*final(buf)) == bytes_mut_view(*old(buf)) + spec_u16_to_le_bytes(n),
{
    buf.put_u16_le(n)
}

/// `BufMut::put_i16_le` on `BytesMut`: appends the two little-endian bytes of `n`.
#[verifier::external_body]
pub(crate) fn put_i16_le(buf: &mut BytesMut, n: i16)
    requires
        bytes_mut_view(*old(buf)).len() + 2 <= isize::MAX,
    ensures
        bytes_mut_view(*final(buf)) == bytes_mut_view(*old(buf)) + spec_u16_to_le_bytes(n as u16),
{
    buf.put_i16_le(n)
}

/// `BufMut::put_u32_le` on `BytesMut`: appends the four little-endian bytes of `n`.
#[verifier::external_body]
pub(crate) fn put_u32_le(buf: &mut BytesMut, n: u32)
    requires
        bytes_mut_view(*old(buf)).len() + 4 <= isize::MAX,
    ensures
        bytes_mut_view(*final(buf)) == bytes_mut_view(*old(buf)) + spec_u32_to_le_bytes(n),
{
    buf.put_u32_le(n)
}

/// `BufMut::put_i32_le` on `BytesMut`: appends the four little-endian bytes of `n`.
#[verifier::external_body]
pub(crate) fn put_i32_le(buf: &mut BytesMut, n: i32)
    requires
        bytes_mut_view(*old(buf)).len() + 4 <= isize::MAX,
    ensures
        bytes_mut_view(*final(buf)) == bytes_mut_view(*old(buf)) + spec_u32_to_le_bytes(n as u32),
{
    buf.put_i32_le(n)
}

/// `BufMut::put_u64_le` on `BytesMut`: appends the eight little-endian bytes of `n`.
#[verifier::external_body]
pub(crate) fn put_u64_le(buf: &mut BytesMut, n: u64)
    requires
        bytes_mut_view(*old(buf)).len() + 8 <= isize::MAX,
    ensures
        bytes_mut_view(*final(buf)) == bytes_mut_view(*old(buf)) + spec_u64_to_le_bytes(n),
{
    buf.put_u64_le(n)
}

/// `BufMut::put_i64_le` on `BytesMut`: appends the eight little-endian bytes of `n`.
#[verifier::external_body]
pub(crate) fn put_i64_le(buf: &mut BytesMut, n: i64)
    requires
        bytes_mut_view(*old(buf)).len() + 8 <= isize::MAX,
    ensures
        bytes_mut_view(*final(buf)) == bytes_mut_view(*old(buf)) + spec_u64_to_le_bytes(n as u64),
{
    buf.put_i64_le(n)
}

/// `BufMut::put_slice` on `BytesMut`: appends the bytes of `src`.
#[verifier::external_body]
pub(crate) fn put_slice(buf: &mut BytesMut, src: &[u8])
    requires
        bytes_mut_view(*old(buf)).len() + src@.len() <= isize::MAX,
    ensures
        bytes_mut_view(*final(buf)) == bytes_mut_view(*old(buf)) + src@,
{
    buf.put_slice(src)
}

} // verus!
