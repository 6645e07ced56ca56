//! Strings: the UTF-8 bytes of the string, written as a byte string.

use crate::byte_array::byte_array_wire;
use crate::dynint::{dynint_readable, dynint_parse, dynint_wire, lemma_dynint_roundtrip, DynInt};
use crate::stdlib::string_from_utf8;
use crate::traits::{Deserialize, Serialize};
use bytes::{Bytes, BytesMut};
use vstd::prelude::*;
use vstd::string::StringSliceAdditionalSpecFns;
use vstd::utf8::{decode_utf8, encode_utf8_decode_utf8, encode_utf8_valid_utf8, valid_utf8};

verus! {

impl Serialize for str {
    open spec fn wire(&self) -> Seq<u8> {
        byte_array_wire(self.spec_bytes())
    }

    fn serialize(&self, buf: &mut BytesMut) {
        self.as_bytes().serialize(buf);
    }
}

/// Reading a string: a byte string that must be valid UTF-8; the string holds
/// the characters the bytes encode. Invalid UTF-8 is an error after the bytes
/// have been consumed.
pub open spec fn string_parses(input: Seq<u8>, result: Result<String, ()>, rest: Seq<u8>) -> bool {
    match dynint_parse(input) {
        (Err(()), t) => result is Err && rest == t,
        (Ok(n), t) => if t.len() < n.0 {
            result is Err && rest == t
        } else {
            let bytes = t.take(n.0 as int);
            &&& rest == t.skip(n.0 as int)
            &&& if valid_utf8(bytes) {
                result matches Ok(s) && s@ == decode_utf8(bytes)
            } else {
                result is Err
            }
        },
    }
}

impl Deserialize for String {
    open spec fn accepts(input: Seq<u8>) -> bool {
        DynInt::accepts(input)
    }

    open spec fn parses(input: Seq<u8>, result: Result<Self, ()>, rest: Seq<u8>) -> bool {
        string_parses(input, result, rest)
    }

    fn can_deserialize(buf: &Bytes) -> (b: bool) {
        dynint_readable(buf)
    }

    fn deserialize(buf: &mut Bytes) -> (r: Result<Self, ()>) {
        let bytes = match Vec::<u8>::deserialize(buf) {
            Ok(v) => v,
            Err(e) => return Err(e),
        };
        match string_from_utf8(bytes) {
            Ok(s) => Ok(s),
            Err(_) => Err(()),
        }
    }
}

/// Reading back what `serialize` wrote for a string gives a string with the
/// same characters, and leaves what followed it in the buffer.
pub proof fn lemma_string_roundtrip(s: &str, rest: Seq<u8>, r: Result<String, ()>, after: Seq<u8>)
    requires
        s.spec_bytes().len() <= u64::MAX,
        <String as Deserialize>::parses(s.wire() + rest, r, after),
    ensures
        <String as Deserialize>::accepts(s.wire() + rest),
        r matches Ok(t) && t@ == s@,
        after == rest,
{
    let data = s.spec_bytes();
    lemma_dynint_roundtrip(DynInt(data.len() as u64), data + rest);
    assert(s.wire() + rest =~= dynint_wire(data.len() as u64) + (data + rest));
    assert((data + rest).take(data.len() as int) =~= data);
    assert((data + rest).skip(data.len() as int) =~= rest);
    encode_utf8_valid_utf8(s@);
    encode_utf8_decode_utf8(s@);
}

} // verus!
