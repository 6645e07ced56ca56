//! `bool` (one byte, any non-zero byte reads as `true`) and `()` (no bytes).

use crate::buf::{bytes_mut_view, bytes_view};
use crate::fixed_int::fixed_parse;
use crate::traits::{Deserialize, Serialize};
use bytes::{Bytes, BytesMut};
use vstd::prelude::*;

verus! {

impl Serialize for bool {
    open spec fn wire(&self) -> Seq<u8> {
        seq![if *self { 1u8 } else { 0u8 }]
    }

    fn serialize(&self, buf: &mut BytesMut) {
        let byte: u8 = if *self { 1 } else { 0 };
        byte.serialize(buf);
    }
}

impl Deserialize for bool {
    open spec fn accepts(input: Seq<u8>) -> bool {
        true
    }

    open spec fn parses(input: Seq<u8>, result: Result<Self, ()>, rest: Seq<u8>) -> bool {
        (result, rest) == fixed_parse(input, 1, input[0] != 0)
    }

    fn can_deserialize(buf: &Bytes) -> (b: bool) {
        true
    }

    fn deserialize(buf: &mut Bytes) -> (r: Result<Self, ()>) {
        match u8::deserialize(buf) {
            Ok(i) => Ok(i != 0),
            Err(e) => Err(e),
        }
    }
}

impl Serialize for () {
    open spec fn wire(&self) -> Seq<u8> {
        Seq::empty()
    }

    fn serialize(&self, buf: &mut BytesMut) {
        assert(bytes_mut_view(*buf) =~= bytes_mut_view(*buf) + self.wire());
    }
}

impl Deserialize for () {
    open spec fn accepts(input: Seq<u8>) -> bool {
        true
    }

    open spec fn parses(input: Seq<u8>, result: Result<Self, ()>, rest: Seq<u8>) -> bool {
        result == Ok::<(), ()>(()) && rest == input
    }

    fn can_deserialize(buf: &Bytes) -> (b: bool) {
        true
    }

    fn deserialize(buf: &mut Bytes) -> (r: Result<Self, ()>) {
        Ok(())
    }
}

/// Reading back what `serialize` wrote for a `bool` gives the same value and
/// leaves what followed it in the buffer.
pub proof fn lemma_bool_roundtrip(b: bool, rest: Seq<u8>)
    ensures
        <bool as Deserialize>::parses(b.wire() + rest, Ok(b), rest),
{
    assert((b.wire() + rest).skip(1) =~= rest);
}

/// `()` is written as nothing, and reading it consumes nothing.
pub proof fn lemma_unit_roundtrip(rest: Seq<u8>)
    ensures
        <() as Deserialize>::parses(().wire() + rest, Ok(()), rest),
{
    assert(().wire() + rest =~= rest);
}

} // verus!
