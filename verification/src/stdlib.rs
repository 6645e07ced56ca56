//! The few calls into `std` that vstd gives no contract: UTF-8 decoding and
//! exact reads from a byte slice, with the error types they return.

use std::string::FromUtf8Error;
use vstd::prelude::*;
use vstd::slice::slice_subrange;
use vstd::utf8::{decode_utf8, valid_utf8};

verus! {

#[verifier::external_type_specification]
#[verifier::external_body]
pub struct ExFromUtf8Error(FromUtf8Error);

#[verifier::external_type_specification]
#[verifier::external_body]
pub struct ExIoError(std::io::Error);

/// `String::from_utf8`: succeeds exactly when the bytes are valid UTF-8, and the
/// string then holds the characters those bytes encode.
#[verifier::external_body]
pub(crate) fn string_from_utf8(v: Vec<u8>) -> (r: Result<String, FromUtf8Error>)
    ensures
        r is Ok <==> valid_utf8(v@),
        r matches Ok(s) ==> s@ == decode_utf8(v@),
{
    String::from_utf8(v)
}

/// `Read::read_exact` on a byte slice, into a fresh buffer of `n` bytes: it
/// succeeds exactly when `src` holds at least `n` bytes, and then the buffer
/// holds the first `n` of them. (On failure std returns an `UnexpectedEof` error.)
#[verifier::external_body]
pub(crate) fn read_exact_prefix(src: &[u8], n: usize) -> (r: Result<Vec<u8>, std::io::Error>)
    ensures
        r is Ok <==> n <= src@.len(),
        r matches Ok(v) ==> v@ == src@.take(n as int),
{
    let mut reader = src;
    let mut out = vec![0u8; n];
    std::io::Read::read_exact(&mut reader, &mut out).map(|_| out)
}

/// The bytes of `s` from `start` to its end.
pub(crate) fn tail_of(s: &[u8], start: usize) -> (t: &[u8])
    requires
        start <= s@.len(),
    ensures
        t@ == s@.skip(start as int),
{
    let t = slice_subrange(s, start, s.len());
    assert(t@ =~= s@.skip(start as int));
    t
}

} // verus!
