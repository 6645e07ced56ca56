//! Streams: chunks of items sent to a receiver registered under a stream id,
//! carried by calls of a dedicated RPC function.

use crate::pipelining::MaybePipelinedValue;
use vstd::prelude::*;

verus! {

/// Identifies one stream on a connection.
#[derive(Clone, Copy, PartialEq, Eq, Structural, Hash, Debug)]
pub struct StreamID(pub u32);

impl From<u32> for StreamID {
    fn from(v: u32) -> StreamID {
        StreamID(v)
    }
}

impl vstd::std_specs::convert::FromSpecImpl<u32> for StreamID {
    open spec fn obeys_from_spec() -> bool {
        true
    }

    open spec fn from_spec(v: u32) -> StreamID {
        StreamID(v)
    }
}

/// The RPC function that carries stream chunks.
pub struct StreamRpc;

impl StreamRpc {
    /// The function id under which stream chunks are received.
    pub const FUNCTION_ID: u32 = 1;
}

/// A request carrying one chunk of a stream: the stream id and the encoded items.
#[derive(Debug)]
pub struct Stream {
    pub arg0: u32,
    pub arg1: Vec<u8>,
}

impl Stream {
    pub const FUNCTION_ID: u32 = 1;
    pub const IS_PIPELINED: bool = false;

    /// The request that sends `items_wire` (the encoded items) on stream `stream_id`.
    pub fn for_chunk(stream_id: StreamID, items_wire: Vec<u8>) -> (s: Stream)
        ensures
            s.arg0 == stream_id.0,
            s.arg1@ == items_wire@,
    {
        Stream { arg0: stream_id.0, arg1: items_wire }
    }
}

/// The same request as `Stream`, with arguments that may be pipelined.
#[derive(Debug)]
pub struct StreamPipelined {
    pub arg0: MaybePipelinedValue<u32>,
    pub arg1: MaybePipelinedValue<Vec<u8>>,
}

impl StreamPipelined {
    pub const FUNCTION_ID: u32 = 1;
    pub const IS_PIPELINED: bool = true;
}

} // verus!
