//! Frames: the unit that a connection sends and receives.
//!
//! On the wire a frame is its length (a big-endian `u32` counting the bytes
//! after it), the length of its protocol name, the protocol name in UTF-8,
//! and the body.

use crate::stdlib::{read_exact_prefix, string_from_utf8, tail_of};
use crate::wire::{append_bytes, be_u32_bytes, be_u32_value, lemma_be_u32_roundtrip, push_be_u32, read_be_u32};
use std::string::FromUtf8Error;
use vstd::prelude::*;
use vstd::string::StringSliceAdditionalSpecFns;
use vstd::utf8::{decode_utf8, encode_utf8, encode_utf8_decode_utf8, encode_utf8_valid_utf8, valid_utf8};

verus! {

/// A message of some protocol ("rpc", "close", ...), with its body.
#[derive(Debug)]
pub struct Frame {
    pub protocol: String,
    pub body: Vec<u8>,
}

/// Why a frame could not be read.
#[derive(Debug)]
pub enum RecvFrameError {
    /// The stream ended early, or the frame's fields do not fit in it.
    IoError(std::io::Error),
    /// The protocol name is not valid UTF-8.
    InvalidProtocol(FromUtf8Error),
}

/// The frame's encoding, length prefix included.
pub open spec fn frame_wire(f: Frame) -> Seq<u8> {
    be_u32_bytes(f.wire_len() as u32) + be_u32_bytes(f.protocol_bytes().len() as u32)
        + f.protocol_bytes() + f.body@
}

/// The protocol-length field of what follows a frame's length prefix.
pub open spec fn payload_protocol_len(d: Seq<u8>) -> int {
    be_u32_value(d.take(4)) as int
}

/// Whether the protocol name announced in `d` fits in it.
pub open spec fn payload_protocol_fits(d: Seq<u8>) -> bool {
    payload_protocol_len(d) <= d.len() - 4
}

/// The bytes of the protocol name in `d`.
pub open spec fn payload_protocol(d: Seq<u8>) -> Seq<u8> {
    d.skip(4).take(payload_protocol_len(d))
}

/// The bytes of the body in `d`.
pub open spec fn payload_body(d: Seq<u8>) -> Seq<u8> {
    d.skip(4).skip(payload_protocol_len(d))
}

impl Frame {
    /// The UTF-8 bytes of the protocol name.
    pub open spec fn protocol_bytes(&self) -> Seq<u8> {
        encode_utf8(self.protocol@)
    }

    /// The frame's size on the network, not counting its own length prefix.
    pub open spec fn wire_len(&self) -> int {
        (4 + self.protocol_bytes().len() + self.body@.len()) as int
    }

    /// The frame's size on the network, not counting its own length prefix.
    #[allow(clippy::len_without_is_empty)]
    pub fn len(&self) -> (n: usize)
        requires
            self.wire_len() <= usize::MAX,
        ensures
            n == self.wire_len(),
    {
        4 + self.protocol.as_str().len() + self.body.len()
    }

    /// The bytes that are written to the stream for this frame. Lengths that do
    /// not fit in 32 bits are cut to their low 32 bits.
    pub fn to_wire(&self) -> (w: Vec<u8>)
        requires
            self.wire_len() + 4 <= usize::MAX,
        ensures
            w@ == frame_wire(*self),
    {
        let len = self.len();
        let protocol = self.protocol.as_str().as_bytes();
        let mut buffer: Vec<u8> = Vec::new();
        push_be_u32(&mut buffer, len as u32);
        push_be_u32(&mut buffer, protocol.len() as u32);
        append_bytes(&mut buffer, protocol);
        append_bytes(&mut buffer, self.body.as_slice());
        assert(buffer@ =~= frame_wire(*self));
        buffer
    }

    /// Reads a frame from what followed its length prefix on the stream.
    /// There must be at least the 4 bytes of the protocol length (reading it
    /// panics otherwise).
    pub fn from_wire(data: &[u8]) -> (r: Result<Frame, RecvFrameError>)
        requires
            4 <= data@.len() <= u32::MAX,
        ensures
            !payload_protocol_fits(data@) <==> r matches Err(RecvFrameError::IoError(_)),
            payload_protocol_fits(data@) && !valid_utf8(payload_protocol(data@))
                <==> r matches Err(RecvFrameError::InvalidProtocol(_)),
            r is Ok <==> payload_protocol_fits(data@) && valid_utf8(payload_protocol(data@)),
            r matches Ok(f) ==> f.protocol@ == decode_utf8(payload_protocol(data@)) && f.body@
                == payload_body(data@),
    {
        let protocol_len = read_be_u32(data, 0);
        assert(data@.subrange(0, 4) =~= data@.take(4));
        let rest = tail_of(data, 4);
        let protocol = match read_exact_prefix(rest, protocol_len as usize) {
            Ok(p) => p,
            Err(e) => return Err(RecvFrameError::IoError(e)),
        };
        let body_len = data.len() - 4 - protocol_len as usize;
        let after = tail_of(rest, protocol_len as usize);
        let body = match read_exact_prefix(after, body_len) {
            Ok(b) => b,
            Err(e) => return Err(RecvFrameError::IoError(e)),
        };
        assert(after@.take(body_len as int) =~= after@);
        match string_from_utf8(protocol) {
            Ok(protocol) => Ok(Frame { protocol, body }),
            Err(e) => Err(RecvFrameError::InvalidProtocol(e)),
        }
    }
}

/// A frame as written can be read back: the length prefix counts exactly the
/// bytes after it, and reading those gives the same protocol and body.
/// (Frames whose size does not fit in 32 bits are left out: their length
/// fields are cut.)
pub proof fn lemma_frame_roundtrip(f: Frame)
    requires
        f.wire_len() <= u32::MAX,
    ensures
        be_u32_value(frame_wire(f).take(4)) == frame_wire(f).len() - 4,
        payload_protocol_fits(frame_wire(f).skip(4)),
        valid_utf8(payload_protocol(frame_wire(f).skip(4))),
        decode_utf8(payload_protocol(frame_wire(f).skip(4))) == f.protocol@,
        payload_body(frame_wire(f).skip(4)) == f.body@,
{
    let w = frame_wire(f);
    let p = f.protocol_bytes();
    let d = w.skip(4);
    lemma_be_u32_roundtrip(f.wire_len() as u32);
    lemma_be_u32_roundtrip(p.len() as u32);
    assert(w.take(4) =~= be_u32_bytes(f.wire_len() as u32));
    assert(d =~= be_u32_bytes(p.len() as u32) + p + f.body@);
    assert(d.take(4) =~= be_u32_bytes(p.len() as u32));
    assert(d.skip(4) =~= p + f.body@);
    assert(payload_protocol(d) =~= p);
    assert(payload_body(d) =~= f.body@);
    encode_utf8_valid_utf8(f.protocol@);
    encode_utf8_decode_utf8(f.protocol@);
}

} // verus!
