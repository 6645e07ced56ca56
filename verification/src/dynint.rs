//! `dynint`: an unsigned integer written in 1, 3, 5 or 9 bytes.
//!
//! A head byte of 0 to 250 is the number itself; 251, 252 and 253 announce
//! a little-endian `u16`, `u32` or `u64` that follows.

use crate::buf::{bytes_view, chunk, get_u16_le, get_u32_le, get_u64_le, get_u8, put_u16_le, put_u32_le, put_u64_le, put_u8, remaining};
use crate::traits::{Deserialize, Serialize};
use bytes::{Bytes, BytesMut};
use vstd::bytes::*;
use vstd::prelude::*;

verus! {

/// An unsigned integer in the variable-length `dynint` encoding.
#[derive(Debug, Clone, Copy, PartialEq, Eq, PartialOrd, Ord, Hash)]
pub struct DynInt(pub u64);

/// Head byte announcing a little-endian `u16`.
pub const DYNINT_U16_HEAD: u8 = 251;
/// Head byte announcing a little-endian `u32`.
pub const DYNINT_U32_HEAD: u8 = 252;
/// Head byte announcing a little-endian `u64`.
pub const DYNINT_U64_HEAD: u8 = 253;

/// The encoding of `n`: the shortest of the four forms that holds it.
pub open spec fn dynint_wire(n: u64) -> Seq<u8> {
    if n <= 250 {
        seq![n as u8]
    } else if n < 0x1_0000 {
        seq![DYNINT_U16_HEAD].add(spec_u16_to_le_bytes(n as u16))
    } else if n < 0x1_0000_0000 {
        seq![DYNINT_U32_HEAD].add(spec_u32_to_le_bytes(n as u32))
    } else {
        seq![DYNINT_U64_HEAD].add(spec_u64_to_le_bytes(n))
    }
}

/// Reading a `dynint` panics on a head byte of 254 or 255.
pub open spec fn dynint_accepts(s: Seq<u8>) -> bool {
    s.len() == 0 || s[0] <= DYNINT_U64_HEAD
}

/// What reading a `dynint` from `s` returns, and what it leaves unread.
/// An empty input fails without consuming anything; a head byte followed by
/// too few bytes fails after consuming the head.
pub open spec fn dynint_parse(s: Seq<u8>) -> (Result<DynInt, ()>, Seq<u8>) {
    if s.len() == 0 {
        (Err(()), s)
    } else {
        let head = s[0];
        let t = s.skip(1);
        if head <= 250 {
            (Ok(DynInt(head as u64)), t)
        } else if head == DYNINT_U16_HEAD {
            if t.len() < 2 {
                (Err(()), t)
            } else {
                (Ok(DynInt(spec_u16_from_le_bytes(t.take(2)) as u64)), t.skip(2))
            }
        } else if head == DYNINT_U32_HEAD {
            if t.len() < 4 {
                (Err(()), t)
            } else {
                (Ok(DynInt(spec_u32_from_le_bytes(t.take(4)) as u64)), t.skip(4))
            }
        } else {
            if t.len() < 8 {
                (Err(()), t)
            } else {
                (Ok(DynInt(spec_u64_from_le_bytes(t.take(8)))), t.skip(8))
            }
        }
    }
}

/// Whether a `dynint` can be read from `buf` without panicking.
pub fn dynint_readable(buf: &Bytes) -> (b: bool)
    ensures
        b == dynint_accepts(bytes_view(*buf)),
{
    let s = chunk(buf);
    s.len() == 0 || s[0] <= DYNINT_U64_HEAD
}

impl Serialize for DynInt {
    open spec fn wire(&self) -> Seq<u8> {
        dynint_wire(self.0)
    }

    fn serialize(&self, buf: &mut BytesMut) {
        let number = self.0;
        proof {
            lemma_wire_lengths();
        }
        if number <= 250 {
            put_u8(buf, number as u8);
        } else if number < 0x1_0000 {
            put_u8(buf, DYNINT_U16_HEAD);
            put_u16_le(buf, number as u16);
        } else if number < 0x1_0000_0000 {
            put_u8(buf, DYNINT_U32_HEAD);
            put_u32_le(buf, number as u32);
        } else {
            put_u8(buf, DYNINT_U64_HEAD);
            put_u64_le(buf, number);
        }
    }
}

impl Deserialize for DynInt {
    open spec fn accepts(input: Seq<u8>) -> bool {
        dynint_accepts(input)
    }

    open spec fn parses(input: Seq<u8>, result: Result<Self, ()>, rest: Seq<u8>) -> bool {
        (result, rest) == dynint_parse(input)
    }

    fn can_deserialize(buf: &Bytes) -> (b: bool) {
        dynint_readable(buf)
    }

    fn deserialize(buf: &mut Bytes) -> (r: Result<Self, ()>) {
        if remaining(buf) == 0 {
            return Err(());
        }
        let head = get_u8(buf);
        if head <= 250 {
            Ok(DynInt(head as u64))
        } else if head == DYNINT_U16_HEAD {
            if remaining(buf) < 2 {
                return Err(());
            }
            Ok(DynInt(get_u16_le(buf) as u64))
        } else if head == DYNINT_U32_HEAD {
            if remaining(buf) < 4 {
                return Err(());
            }
            Ok(DynInt(get_u32_le(buf) as u64))
        } else {
            if remaining(buf) < 8 {
                return Err(());
            }
            Ok(DynInt(get_u64_le(buf)))
        }
    }
}

/// The fixed-size little-endian encodings have the lengths of their types and
/// read back to the number they encode.
pub proof fn lemma_wire_lengths()
    ensures
        forall|x: u16|
            #![trigger spec_u16_to_le_bytes(x)]
            spec_u16_to_le_bytes(x).len() == 2 && spec_u16_from_le_bytes(spec_u16_to_le_bytes(x)) == x,
        forall|x: u32|
            #![trigger spec_u32_to_le_bytes(x)]
            spec_u32_to_le_bytes(x).len() == 4 && spec_u32_from_le_bytes(spec_u32_to_le_bytes(x)) == x,
        forall|x: u64|
            #![trigger spec_u64_to_le_bytes(x)]
            spec_u64_to_le_bytes(x).len() == 8 && spec_u64_from_le_bytes(spec_u64_to_le_bytes(x)) == x,
{
    lemma_auto_spec_u16_to_from_le_bytes();
    lemma_auto_spec_u32_to_from_le_bytes();
    lemma_auto_spec_u64_to_from_le_bytes();
}

/// Reading back what `serialize` wrote gives the same number, and leaves
/// whatever followed it in the buffer untouched.
pub proof fn lemma_dynint_roundtrip(n: DynInt, rest: Seq<u8>)
    ensures
        dynint_accepts(n.wire() + rest),
        dynint_parse(n.wire() + rest) == (Ok::<DynInt, ()>(n), rest),
{
    lemma_wire_lengths();
    let s = n.wire() + rest;
    let t = s.skip(1);
    let x = n.0;
    if x <= 250 {
        assert(t =~= rest);
    } else if x < 0x1_0000 {
        let w = spec_u16_to_le_bytes(x as u16);
        assert(t =~= w + rest);
        assert(t.take(2) =~= w);
        assert(t.skip(2) =~= rest);
    } else if x < 0x1_0000_0000 {
        let w = spec_u32_to_le_bytes(x as u32);
        assert(t =~= w + rest);
        assert(t.take(4) =~= w);
        assert(t.skip(4) =~= rest);
    } else {
        let w = spec_u64_to_le_bytes(x);
        assert(t =~= w + rest);
        assert(t.take(8) =~= w);
        assert(t.skip(8) =~= rest);
    }
}

} // verus!
