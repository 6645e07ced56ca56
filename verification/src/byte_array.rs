//! `bytes`: a `dynint` length followed by that many raw bytes.

use crate::buf::{advance, bytes_mut_view, bytes_view, copy_to_slice, put_slice, remaining, slice_prefix};
use crate::dynint::{dynint_readable, dynint_parse, dynint_wire, lemma_dynint_roundtrip, DynInt};
use crate::traits::{Deserialize, Serialize};
use bytes::{Bytes, BytesMut};
use vstd::prelude::*;

verus! {

/// The encoding of a byte string: its length as a `dynint`, then the bytes.
pub open spec fn byte_array_wire(data: Seq<u8>) -> Seq<u8> {
    dynint_wire(data.len() as u64) + data
}

impl Serialize for [u8] {
    open spec fn wire(&self) -> Seq<u8> {
        byte_array_wire(self@)
    }

    fn serialize(&self, buf: &mut BytesMut) {
        let len = DynInt(self.len() as u64);
        len.serialize(buf);
        put_slice(buf, self);
        assert(bytes_mut_view(*buf) =~= bytes_mut_view(*old(buf)) + self.wire());
    }
}

impl Serialize for Vec<u8> {
    open spec fn wire(&self) -> Seq<u8> {
        byte_array_wire(self@)
    }

    fn serialize(&self, buf: &mut BytesMut) {
        self.as_slice().serialize(buf);
    }
}

/// Reading a length-prefixed byte string as a `Bytes` handle on the payload;
/// the payload is consumed.
pub open spec fn bytes_handle_parses(input: Seq<u8>, result: Result<Bytes, ()>, rest: Seq<u8>) -> bool {
    match dynint_parse(input) {
        (Err(()), t) => result is Err && rest == t,
        (Ok(n), t) => if t.len() < n.0 {
            result is Err && rest == t
        } else {
            &&& result matches Ok(b) && bytes_view(b) == t.take(n.0 as int)
            &&& rest == t.skip(n.0 as int)
        },
    }
}

/// Reading a length-prefixed byte string into a `Vec`: the payload is copied
/// out and consumed.
pub open spec fn byte_vec_parses(input: Seq<u8>, result: Result<Vec<u8>, ()>, rest: Seq<u8>) -> bool {
    match dynint_parse(input) {
        (Err(()), t) => result is Err && rest == t,
        (Ok(n), t) => if t.len() < n.0 {
            result is Err && rest == t
        } else {
            &&& result matches Ok(v) && v@ == t.take(n.0 as int)
            &&& rest == t.skip(n.0 as int)
        },
    }
}

impl Deserialize for Bytes {
    open spec fn accepts(input: Seq<u8>) -> bool {
        DynInt::accepts(input)
    }

    open spec fn parses(input: Seq<u8>, result: Result<Self, ()>, rest: Seq<u8>) -> bool {
        bytes_handle_parses(input, result, rest)
    }

    fn can_deserialize(buf: &Bytes) -> (b: bool) {
        dynint_readable(buf)
    }

    fn deserialize(buf: &mut Bytes) -> (r: Result<Self, ()>) {
        let len = match DynInt::deserialize(buf) {
            Ok(n) => n.0,
            Err(e) => return Err(e),
        };
        if (remaining(buf) as u64) < len {
            return Err(());
        }
        let payload = slice_prefix(buf, len as usize);
        advance(buf, len as usize);
        Ok(payload)
    }
}

impl Deserialize for Vec<u8> {
    open spec fn accepts(input: Seq<u8>) -> bool {
        DynInt::accepts(input)
    }

    open spec fn parses(input: Seq<u8>, result: Result<Self, ()>, rest: Seq<u8>) -> bool {
        byte_vec_parses(input, result, rest)
    }

    fn can_deserialize(buf: &Bytes) -> (b: bool) {
        dynint_readable(buf)
    }

    fn deserialize(buf: &mut Bytes) -> (r: Result<Self, ()>) {
        let len = match DynInt::deserialize(buf) {
            Ok(n) => n.0,
            Err(e) => return Err(e),
        };
        if (remaining(buf) as u64) < len {
            return Err(());
        }
        let mut data = vec![0u8; len as usize];
        copy_to_slice(buf, &mut data);
        Ok(data)
    }
}

/// Reading back, as a `Bytes` handle, what `serialize` wrote for a byte string
/// gives the same bytes and leaves what followed it in the buffer.
pub proof fn lemma_bytes_roundtrip(data: Seq<u8>, rest: Seq<u8>, r: Result<Bytes, ()>, after: Seq<u8>)
    requires
        data.len() <= u64::MAX,
        <Bytes as Deserialize>::parses(byte_array_wire(data) + rest, r, after),
    ensures
        <Bytes as Deserialize>::accepts(byte_array_wire(data) + rest),
        r matches Ok(b) && bytes_view(b) == data,
        after == rest,
{
    lemma_dynint_roundtrip(DynInt(data.len() as u64), data + rest);
    assert(byte_array_wire(data) + rest =~= dynint_wire(data.len() as u64) + (data + rest));
    assert((data + rest).take(data.len() as int) =~= data);
    assert((data + rest).skip(data.len() as int) =~= rest);
}

/// Reading back, into a `Vec`, what `serialize` wrote for a byte string gives
/// the same bytes and leaves what followed it in the buffer.
pub proof fn lemma_byte_vec_roundtrip(data: Seq<u8>, rest: Seq<u8>, r: Result<Vec<u8>, ()>, after: Seq<u8>)
    requires
        data.len() <= u64::MAX,
        <Vec<u8> as Deserialize>::parses(byte_array_wire(data) + rest, r, after),
    ensures
        <Vec<u8> as Deserialize>::accepts(byte_array_wire(data) + rest),
        r matches Ok(v) && v@ == data,
        after == rest,
{
    lemma_dynint_roundtrip(DynInt(data.len() as u64), data + rest);
    assert(byte_array_wire(data) + rest =~= dynint_wire(data.len() as u64) + (data + rest));
    assert((data + rest).take(data.len() as int) =~= data);
    assert((data + rest).skip(data.len() as int) =~= rest);
}

} // verus!
