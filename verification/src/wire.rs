//! Big-endian `u32` fields, as the frame and RPC headers carry them.

use vstd::prelude::*;

verus! {

/// The four big-endian bytes of `x`.
pub open spec fn be_u32_bytes(x: u32) -> Seq<u8> {
    seq![(x >> 24u32) as u8, ((x >> 16u32) & 0xff) as u8, ((x >> 8u32) & 0xff) as u8, (x & 0xff) as u8]
}

/// The number that four big-endian bytes stand for.
pub open spec fn be_u32_value(s: Seq<u8>) -> u32 {
    ((s[0] as u32) << 24u32) | ((s[1] as u32) << 16u32) | ((s[2] as u32) << 8u32) | (s[3] as u32)
}

/// Reading the four big-endian bytes of a number gives the number back.
pub proof fn lemma_be_u32_roundtrip(x: u32)
    ensures
        be_u32_bytes(x).len() == 4,
        be_u32_value(be_u32_bytes(x)) == x,
{
    let s = be_u32_bytes(x);
    let b0 = s[0];
    let b1 = s[1];
    let b2 = s[2];
    let b3 = s[3];
    assert(((b0 as u32) << 24u32) | ((b1 as u32) << 16u32) | ((b2 as u32) << 8u32) | (b3 as u32) == x)
        by (bit_vector)
        requires
            b0 == (x >> 24u32) as u8,
            b1 == ((x >> 16u32) & 0xff) as u8,
            b2 == ((x >> 8u32) & 0xff) as u8,
            b3 == (x & 0xff) as u8,
    ;
}

/// Appends the four big-endian bytes of `x` (what `x.to_be_bytes()` gives).
pub fn push_be_u32(v: &mut Vec<u8>, x: u32)
    ensures
        final(v)@ == old(v)@ + be_u32_bytes(x),
{
    v.push((x >> 24u32) as u8);
    v.push(((x >> 16u32) & 0xff) as u8);
    v.push(((x >> 8u32) & 0xff) as u8);
    v.push((x & 0xff) as u8);
    assert(v@ =~= old(v)@ + be_u32_bytes(x));
}

/// Reads a big-endian `u32` from `s` at `at` (what `Buf::get_u32` reads).
pub fn read_be_u32(s: &[u8], at: usize) -> (x: u32)
    requires
        at + 4 <= s@.len(),
    ensures
        x == be_u32_value(s@.subrange(at as int, at + 4)),
{
    let x = ((s[at] as u32) << 24u32) | ((s[at + 1] as u32) << 16u32) | ((s[at + 2] as u32) << 8u32)
        | (s[at + 3] as u32);
    let ghost w = s@.subrange(at as int, at + 4);
    assert(w[0] == s[at as int] && w[1] == s[at + 1] && w[2] == s[at + 2] && w[3] == s[at + 3]);
    x
}

/// Appends all of `src` to `v`.
pub fn append_bytes(v: &mut Vec<u8>, src: &[u8])
    ensures
        final(v)@ == old(v)@ + src@,
{
    let mut i: usize = 0;
    while i < src.len()
        invariant
            i <= src@.len(),
            v@ == old(v)@ + src@.take(i as int),
        decreases src@.len() - i,
    {
        v.push(src[i]);
        i = i + 1;
        assert(v@ =~= old(v)@ + src@.take(i as int));
    }
    assert(src@.take(i as int) =~= src@);
}

} // verus!
