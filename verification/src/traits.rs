//! The two traits of the `aren` encoding.

use crate::buf::{bytes_mut_view, bytes_view};
use bytes::{Bytes, BytesMut};
use vstd::prelude::*;

verus! {

/// A value that can be written in the `aren` encoding.
pub trait Serialize {
    /// The bytes that `serialize` appends for this value.
    spec fn wire(&self) -> Seq<u8>;

    /// Appends the encoding of `self` to `buf`.
    /// The buffer cannot grow past `isize::MAX` bytes.
    fn serialize(&self, buf: &mut BytesMut)
        requires
            bytes_mut_view(*old(buf)).len() + self.wire().len() <= isize::MAX,
        ensures
            bytes_mut_view(*final(buf)) == bytes_mut_view(*old(buf)) + self.wire(),
    ;
}

/// A value that can be read back from the `aren` encoding.
pub trait Deserialize: Sized {
    /// The inputs on which `deserialize` returns (on the others it panics).
    spec fn accepts(input: Seq<u8>) -> bool;

    /// `parses(input, result, rest)` holds when `deserialize`, reading a buffer
    /// that holds `input`, returns `result` and leaves `rest` in the buffer.
    spec fn parses(input: Seq<u8>, result: Result<Self, ()>, rest: Seq<u8>) -> bool;

    /// Whether `deserialize` can be called on `buf` (whether it returns there).
    fn can_deserialize(buf: &Bytes) -> (b: bool)
        ensures
            b == Self::accepts(bytes_view(*buf)),
    ;

    /// Reads one value from the front of `buf`.
    fn deserialize(buf: &mut Bytes) -> (r: Result<Self, ()>)
        requires
            Self::accepts(bytes_view(*old(buf))),
        ensures
            Self::parses(bytes_view(*old(buf)), r, bytes_view(*final(buf))),
    ;
}

} // verus!
