//! Fixed-size integers: one byte for `u8`/`i8`, otherwise little-endian
//! two's complement of the type's width.

use crate::buf::{
    get_i16_le, get_i32_le, get_i64_le, get_i8, get_u16_le, get_u32_le, get_u64_le, get_u8,
    put_i16_le, put_i32_le, put_i64_le, put_i8, put_u16_le, put_u32_le, put_u64_le, put_u8,
    remaining,
};
use crate::dynint::lemma_wire_lengths;
use crate::traits::{Deserialize, Serialize};
use bytes::{Bytes, BytesMut};
use vstd::bytes::*;
use vstd::prelude::*;

verus! {

/// Reading a fixed-size value of `width` bytes: it fails, consuming nothing,
/// when fewer than `width` bytes are left; otherwise it returns `value` and
/// consumes `width` bytes.
pub open spec fn fixed_parse<T>(input: Seq<u8>, width: int, value: T) -> (Result<T, ()>, Seq<u8>) {
    if input.len() < width {
        (Err(()), input)
    } else {
        (Ok(value), input.skip(width))
    }
}

impl Serialize for u8 {
    open spec fn wire(&self) -> Seq<u8> {
        seq![*self]
    }

    fn serialize(&self, buf: &mut BytesMut) {
        proof {
            lemma_wire_lengths();
        }
        put_u8(buf, *self);
    }
}

impl Deserialize for u8 {
    open spec fn accepts(input: Seq<u8>) -> bool {
        true
    }

    open spec fn parses(input: Seq<u8>, result: Result<Self, ()>, rest: Seq<u8>) -> bool {
        (result, rest) == fixed_parse(input, 1, input[0])
    }

    fn can_deserialize(buf: &Bytes) -> (b: bool) {
        true
    }

    fn deserialize(buf: &mut Bytes) -> (r: Result<Self, ()>) {
        if remaining(buf) < 1 {
            return Err(());
        }
        Ok(get_u8(buf))
    }
}

impl Serialize for i8 {
    open spec fn wire(&self) -> Seq<u8> {
        seq![*self as u8]
    }

    fn serialize(&self, buf: &mut BytesMut) {
        proof {
            lemma_wire_lengths();
        }
        put_i8(buf, *self);
    }
}

impl Deserialize for i8 {
    open spec fn accepts(input: Seq<u8>) -> bool {
        true
    }

    open spec fn parses(input: Seq<u8>, result: Result<Self, ()>, rest: Seq<u8>) -> bool {
        (result, rest) == fixed_parse(input, 1, input[0] as i8)
    }

    fn can_deserialize(buf: &Bytes) -> (b: bool) {
        true
    }

    fn deserialize(buf: &mut Bytes) -> (r: Result<Self, ()>) {
        if remaining(buf) < 1 {
            return Err(());
        }
        Ok(get_i8(buf))
    }
}

impl Serialize for u16 {
    open spec fn wire(&self) -> Seq<u8> {
        spec_u16_to_le_bytes(*self)
    }

    fn serialize(&self, buf: &mut BytesMut) {
        proof {
            lemma_wire_lengths();
        }
        put_u16_le(buf, *self);
    }
}

impl Deserialize for u16 {
    open spec fn accepts(input: Seq<u8>) -> bool {
        true
    }

    open spec fn parses(input: Seq<u8>, result: Result<Self, ()>, rest: Seq<u8>) -> bool {
        (result, rest) == fixed_parse(input, 2, spec_u16_from_le_bytes(input.take(2)))
    }

    fn can_deserialize(buf: &Bytes) -> (b: bool) {
        true
    }

    fn deserialize(buf: &mut Bytes) -> (r: Result<Self, ()>) {
        if remaining(buf) < 2 {
            return Err(());
        }
        Ok(get_u16_le(buf))
    }
}

impl Serialize for i16 {
    open spec fn wire(&self) -> Seq<u8> {
        spec_u16_to_le_bytes(*self as u16)
    }

    fn serialize(&self, buf: &mut BytesMut) {
        proof {
            lemma_wire_lengths();
        }
        put_i16_le(buf, *self);
    }
}

impl Deserialize for i16 {
    open spec fn accepts(input: Seq<u8>) -> bool {
        true
    }

    open spec fn parses(input: Seq<u8>, result: Result<Self, ()>, rest: Seq<u8>) -> bool {
        (result, rest) == fixed_parse(input, 2, spec_u16_from_le_bytes(input.take(2)) as i16)
    }

    fn can_deserialize(buf: &Bytes) -> (b: bool) {
        true
    }

    fn deserialize(buf: &mut Bytes) -> (r: Result<Self, ()>) {
        if remaining(buf) < 2 {
            return Err(());
        }
        Ok(get_i16_le(buf))
    }
}

impl Serialize for u32 {
    open spec fn wire(&self) -> Seq<u8> {
        spec_u32_to_le_bytes(*self)
    }

    fn serialize(&self, buf: &mut BytesMut) {
        proof {
            lemma_wire_lengths();
        }
        put_u32_le(buf, *self);
    }
}

impl Deserialize for u32 {
    open spec fn accepts(input: Seq<u8>) -> bool {
        true
    }

    open spec fn parses(input: Seq<u8>, result: Result<Self, ()>, rest: Seq<u8>) -> bool {
        (result, rest) == fixed_parse(input, 4, spec_u32_from_le_bytes(input.take(4)))
    }

    fn can_deserialize(buf: &Bytes) -> (b: bool) {
        true
    }

    fn deserialize(buf: &mut Bytes) -> (r: Result<Self, ()>) {
        if remaining(buf) < 4 {
            return Err(());
        }
        Ok(get_u32_le(buf))
    }
}

impl Serialize for i32 {
    open spec fn wire(&self) -> Seq<u8> {
        spec_u32_to_le_bytes(*self as u32)
    }

    fn serialize(&self, buf: &mut BytesMut) {
        proof {
            lemma_wire_lengths();
        }
        put_i32_le(buf, *self);
    }
}

impl Deserialize for i32 {
    open spec fn accepts(input: Seq<u8>) -> bool {
        true
    }

    open spec fn parses(input: Seq<u8>, result: Result<Self, ()>, rest: Seq<u8>) -> bool {
        (result, rest) == fixed_parse(input, 4, spec_u32_from_le_bytes(input.take(4)) as i32)
    }

    fn can_deserialize(buf: &Bytes) -> (b: bool) {
        true
    }

    fn deserialize(buf: &mut Bytes) -> (r: Result<Self, ()>) {
        if remaining(buf) < 4 {
            return Err(());
        }
        Ok(get_i32_le(buf))
    }
}

impl Serialize for u64 {
    open spec fn wire(&self) -> Seq<u8> {
        spec_u64_to_le_bytes(*self)
    }

    fn serialize(&self, buf: &mut BytesMut) {
        proof {
            lemma_wire_lengths();
        }
        put_u64_le(buf, *self);
    }
}

impl Deserialize for u64 {
    open spec fn accepts(input: Seq<u8>) -> bool {
        true
    }

    open spec fn parses(input: Seq<u8>, result: Result<Self, ()>, rest: Seq<u8>) -> bool {
        (result, rest) == fixed_parse(input, 8, spec_u64_from_le_bytes(input.take(8)))
    }

    fn can_deserialize(buf: &Bytes) -> (b: bool) {
        true
    }

    fn deserialize(buf: &mut Bytes) -> (r: Result<Self, ()>) {
        if remaining(buf) < 8 {
            return Err(());
        }
        Ok(get_u64_le(buf))
    }
}

impl Serialize for i64 {
    open spec fn wire(&self) -> Seq<u8> {
        spec_u64_to_le_bytes(*self as u64)
    }

    fn serialize(&self, buf: &mut BytesMut) {
        proof {
            lemma_wire_lengths();
        }
        put_i64_le(buf, *self);
    }
}

impl Deserialize for i64 {
    open spec fn accepts(input: Seq<u8>) -> bool {
        true
    }

    open spec fn parses(input: Seq<u8>, result: Result<Self, ()>, rest: Seq<u8>) -> bool {
        (result, rest) == fixed_parse(input, 8, spec_u64_from_le_bytes(input.take(8)) as i64)
    }

    fn can_deserialize(buf: &Bytes) -> (b: bool) {
        true
    }

    fn deserialize(buf: &mut Bytes) -> (r: Result<Self, ()>) {
        if remaining(buf) < 8 {
            return Err(());
        }
        Ok(get_i64_le(buf))
    }
}

/// Reading back what `serialize` wrote for a `u8` gives the same number and
/// leaves what followed it in the buffer.
pub proof fn lemma_u8_roundtrip(x: u8, rest: Seq<u8>)
    ensures
        <u8 as Deserialize>::parses(x.wire() + rest, Ok(x), rest),
{
    let s = x.wire() + rest;
    assert(s.skip(1) =~= rest);
}

/// Reading back what `serialize` wrote for a `i8` gives the same number and
/// leaves what followed it in the buffer.
pub proof fn lemma_i8_roundtrip(x: i8, rest: Seq<u8>)
    ensures
        <i8 as Deserialize>::parses(x.wire() + rest, Ok(x), rest),
{
    let s = x.wire() + rest;
    assert(s.skip(1) =~= rest);
    assert((x as u8) as i8 == x) by (bit_vector);
}

/// Reading back what `serialize` wrote for a `u16` gives the same number and
/// leaves what followed it in the buffer.
pub proof fn lemma_u16_roundtrip(x: u16, rest: Seq<u8>)
    ensures
        <u16 as Deserialize>::parses(x.wire() + rest, Ok(x), rest),
{
    lemma_wire_lengths();
    let s = x.wire() + rest;
    assert(s.take(2) =~= x.wire());
    assert(s.skip(2) =~= rest);
}

/// Reading back what `serialize` wrote for a `i16` gives the same number and
/// leaves what followed it in the buffer.
pub proof fn lemma_i16_roundtrip(x: i16, rest: Seq<u8>)
    ensures
        <i16 as Deserialize>::parses(x.wire() + rest, Ok(x), rest),
{
    lemma_wire_lengths();
    let s = x.wire() + rest;
    assert(s.take(2) =~= x.wire());
    assert(s.skip(2) =~= rest);
    assert((x as u16) as i16 == x) by (bit_vector);
}

/// Reading back what `serialize` wrote for a `u32` gives the same number and
/// leaves what followed it in the buffer.
pub proof fn lemma_u32_roundtrip(x: u32, rest: Seq<u8>)
    ensures
        <u32 as Deserialize>::parses(x.wire() + rest, Ok(x), rest),
{
    lemma_wire_lengths();
    let s = x.wire() + rest;
    assert(s.take(4) =~= x.wire());
    assert(s.skip(4) =~= rest);
}

/// Reading back what `serialize` wrote for a `i32` gives the same number and
/// leaves what followed it in the buffer.
pub proof fn lemma_i32_roundtrip(x: i32, rest: Seq<u8>)
    ensures
        <i32 as Deserialize>::parses(x.wire() + rest, Ok(x), rest),
{
    lemma_wire_lengths();
    let s = x.wire() + rest;
    assert(s.take(4) =~= x.wire());
    assert(s.skip(4) =~= rest);
    assert((x as u32) as i32 == x) by (bit_vector);
}

/// Reading back what `serialize` wrote for a `u64` gives the same number and
/// leaves what followed it in the buffer.
pub proof fn lemma_u64_roundtrip(x: u64, rest: Seq<u8>)
    ensures
        <u64 as Deserialize>::parses(x.wire() + rest, Ok(x), rest),
{
    lemma_wire_lengths();
    let s = x.wire() + rest;
    assert(s.take(8) =~= x.wire());
    assert(s.skip(8) =~= rest);
}

/// Reading back what `serialize` wrote for a `i64` gives the same number and
/// leaves what followed it in the buffer.
pub proof fn lemma_i64_roundtrip(x: i64, rest: Seq<u8>)
    ensures
        <i64 as Deserialize>::parses(x.wire() + rest, Ok(x), rest),
{
    lemma_wire_lengths();
    let s = x.wire() + rest;
    assert(s.take(8) =~= x.wire());
    assert(s.skip(8) =~= rest);
    assert((x as u64) as i64 == x) by (bit_vector);
}

} // verus!
