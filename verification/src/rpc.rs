//! The RPC protocol: call identifiers and the layout of the bodies of `rpc` frames.
//!
//! A call body is a flags byte (bit 0: call, bit 1: pipelined, bit 2: drop the
//! answer), the function id and the call id as big-endian `u32`s, then the
//! encoded arguments. A response body is a zero flags byte, the call id, then
//! the encoded response.

use crate::pipelining::MaybePipelinedValue;
use crate::wire::{append_bytes, be_u32_bytes, be_u32_value, lemma_be_u32_roundtrip, push_be_u32, read_be_u32};
use vstd::prelude::*;
use vstd::slice::{slice_subrange, slice_to_vec};

verus! {

/// Identifies one call on a connection.
#[derive(Clone, Copy, PartialEq, Eq, Structural, Hash, Debug)]
pub struct CallID(pub u32);

impl CallID {
    /// Refers to the result of this call, to be used as an argument of a pipelined call.
    pub fn pipeline<T>(self) -> (v: MaybePipelinedValue<T>)
        ensures
            v == MaybePipelinedValue::<T>::Pipelined(self),
    {
        MaybePipelinedValue::Pipelined(self)
    }
}

impl From<u32> for CallID {
    fn from(v: u32) -> CallID {
        CallID(v)
    }
}

impl vstd::std_specs::convert::FromSpecImpl<u32> for CallID {
    open spec fn obeys_from_spec() -> bool {
        true
    }

    open spec fn from_spec(v: u32) -> CallID {
        CallID(v)
    }
}

/// The answer of a call whose handler panicked or was cancelled.
#[derive(Clone, Copy, PartialEq, Eq, Structural, Debug)]
pub struct InternalServerError;

/// What a call produces: the encoded return value, or an internal error.
pub type RpcResponse = Result<Vec<u8>, InternalServerError>;

/// Hands out call ids: 1, 2, 3, ... in order.
pub struct CallIdCounter {
    next: u32,
}

impl CallIdCounter {
    #[verifier::type_invariant]
    spec fn starts_at_one(&self) -> bool {
        self.next >= 1
    }

    /// The id that the next call will get.
    pub closed spec fn next_id(&self) -> u32 {
        self.next
    }

    /// A counter whose first id is 1.
    pub fn new() -> (c: CallIdCounter)
        ensures
            c.next_id() == 1,
    {
        CallIdCounter { next: 1 }
    }

    /// Whether another id can be handed out (the counter stops at `u32::MAX`).
    pub fn can_issue(&self) -> (b: bool)
        ensures
            b == (self.next_id() < u32::MAX),
    {
        self.next < u32::MAX
    }

    /// Takes the next id; every later id is larger.
    pub fn next_call_id(&mut self) -> (id: CallID)
        requires
            old(self).next_id() < u32::MAX,
        ensures
            id.0 == old(self).next_id(),
            final(self).next_id() == old(self).next_id() + 1,
            id.0 < final(self).next_id(),
    {
        let prev = self.next;
        self.next = prev + 1;
        CallID(prev)
    }

    /// The id handed out last (0 when none was).
    pub fn last_issued(&self) -> (id: CallID)
        ensures
            id.0 == self.next_id() - 1,
    {
        proof {
            use_type_invariant(self);
        }
        CallID(self.next - 1)
    }
}

/// Flag bit of a call (a body without it is a response).
pub const CALL_FLAG: u8 = 0b1;
/// Flag bit of a call whose arguments may refer to earlier results.
pub const PIPELINED_FLAG: u8 = 0b10;
/// Flag bit of a call whose caller does not want the answer.
pub const DROP_ANSWER_FLAG: u8 = 0b100;

/// The flags byte of a call.
pub open spec fn call_flags(is_pipelined: bool, drop_answer: bool) -> u8 {
    CALL_FLAG | (if is_pipelined { PIPELINED_FLAG } else { 0u8 }) | (if drop_answer {
        DROP_ANSWER_FLAG
    } else {
        0u8
    })
}

/// The body of a call frame.
pub open spec fn call_body(
    function_id: u32,
    call_id: u32,
    is_pipelined: bool,
    drop_answer: bool,
    args: Seq<u8>,
) -> Seq<u8> {
    seq![call_flags(is_pipelined, drop_answer)] + be_u32_bytes(function_id) + be_u32_bytes(call_id)
        + args
}

/// The body of a response frame.
pub open spec fn response_body(call_id: u32, payload: Seq<u8>) -> Seq<u8> {
    seq![0u8] + be_u32_bytes(call_id) + payload
}

/// What an `rpc` frame body says.
pub enum MessageView {
    Call { function_id: u32, call_id: u32, is_pipelined: bool, drop_answer: bool, args: Seq<u8> },
    Response { call_id: u32, payload: Seq<u8> },
}

/// The bodies that can be read without running out of bytes: a flags byte, and
/// then 8 header bytes for a call or 4 for a response.
pub open spec fn body_parsable(b: Seq<u8>) -> bool {
    &&& b.len() >= 1
    &&& (b[0] & CALL_FLAG != 0 ==> b.len() >= 9)
    &&& (b[0] & CALL_FLAG == 0 ==> b.len() >= 5)
}

/// How a frame body is read.
pub open spec fn parse_message(b: Seq<u8>) -> MessageView {
    let flags = b[0];
    if flags & CALL_FLAG != 0 {
        MessageView::Call {
            function_id: be_u32_value(b.subrange(1, 5)),
            call_id: be_u32_value(b.subrange(5, 9)),
            is_pipelined: flags & PIPELINED_FLAG != 0,
            drop_answer: flags & DROP_ANSWER_FLAG != 0,
            args: b.skip(9),
        }
    } else {
        MessageView::Response { call_id: be_u32_value(b.subrange(1, 5)), payload: b.skip(5) }
    }
}

/// A decoded `rpc` frame body.
pub enum RpcMessage {
    Call { function_id: u32, call_id: CallID, is_pipelined: bool, drop_answer: bool, args: Vec<u8> },
    Response { call_id: CallID, payload: Vec<u8> },
}

impl View for RpcMessage {
    type V = MessageView;

    open spec fn view(&self) -> MessageView {
        match self {
            RpcMessage::Call { function_id, call_id, is_pipelined, drop_answer, args } => MessageView::Call {
                function_id: *function_id,
                call_id: call_id.0,
                is_pipelined: *is_pipelined,
                drop_answer: *drop_answer,
                args: args@,
            },
            RpcMessage::Response { call_id, payload } => MessageView::Response {
                call_id: call_id.0,
                payload: payload@,
            },
        }
    }
}

/// Builds the body of a call frame.
pub fn encode_call_body(
    function_id: u32,
    call_id: CallID,
    is_pipelined: bool,
    drop_answer: bool,
    args: Vec<u8>,
) -> (body: Vec<u8>)
    ensures
        body@ == call_body(function_id, call_id.0, is_pipelined, drop_answer, args@),
{
    let flags: u8 = CALL_FLAG | (if is_pipelined { PIPELINED_FLAG } else { 0 }) | (if drop_answer {
        DROP_ANSWER_FLAG
    } else {
        0
    });
    let mut body: Vec<u8> = Vec::new();
    body.push(flags);
    push_be_u32(&mut body, function_id);
    push_be_u32(&mut body, call_id.0);
    append_bytes(&mut body, args.as_slice());
    assert(body@ =~= call_body(function_id, call_id.0, is_pipelined, drop_answer, args@));
    body
}

/// Builds the body of a response frame, around the encoded response.
pub fn encode_response_body(call_id: CallID, response_wire: &[u8]) -> (body: Vec<u8>)
    ensures
        body@ == response_body(call_id.0, response_wire@),
{
    let mut body: Vec<u8> = Vec::new();
    body.push(0u8);
    push_be_u32(&mut body, call_id.0);
    append_bytes(&mut body, response_wire);
    assert(body@ =~= response_body(call_id.0, response_wire@));
    body
}

/// Reads the bodies of `rpc` frames.
pub struct RpcProtocolHandler;

impl RpcProtocolHandler {
    /// Whether `parse_frame_body` can read `body` (on the others reading runs
    /// out of bytes and panics).
    pub fn frame_body_parsable(body: &[u8]) -> (ok: bool)
        ensures
            ok == body_parsable(body@),
    {
        if body.len() < 1 {
            return false;
        }
        if body[0] & CALL_FLAG != 0 {
            body.len() >= 9
        } else {
            body.len() >= 5
        }
    }

    /// What a call produces, from how its handler ended: the encoded return
    /// value when it completed (`Some`), an internal error when it panicked or
    /// was cancelled (`None`).
    pub fn call_response(outcome: Option<Vec<u8>>) -> (r: RpcResponse)
        ensures
            match outcome {
                Some(v) => r matches Ok(b) && b@ == v@,
                None => r == Err::<Vec<u8>, InternalServerError>(InternalServerError),
            },
    {
        match outcome {
            Some(v) => Ok(v),
            None => Err(InternalServerError),
        }
    }

    /// The body of the response frame that answers a call, around the encoded
    /// response; none when the caller asked for the answer to be dropped.
    pub fn reply_body(call_id: CallID, drop_answer: bool, response_wire: &[u8]) -> (r: Option<Vec<u8>>)
        ensures
            r is None <==> drop_answer,
            r matches Some(b) ==> b@ == response_body(call_id.0, response_wire@),
    {
        if drop_answer {
            None
        } else {
            Some(encode_response_body(call_id, response_wire))
        }
    }

    /// Splits a frame body into its header fields and its payload.
    pub fn parse_frame_body(body: &[u8]) -> (m: RpcMessage)
        requires
            body_parsable(body@),
        ensures
            m@ == parse_message(body@),
    {
        let flags = body[0];
        let is_call = flags & CALL_FLAG != 0;
        let is_pipelined = flags & PIPELINED_FLAG != 0;
        let drop_answer = flags & DROP_ANSWER_FLAG != 0;
        if is_call {
            let function_id = read_be_u32(body, 1);
            let call_id = CallID(read_be_u32(body, 5));
            let args = slice_to_vec(slice_subrange(body, 9, body.len()));
            assert(args@ =~= body@.skip(9));
            RpcMessage::Call { function_id, call_id, is_pipelined, drop_answer, args }
        } else {
            let call_id = CallID(read_be_u32(body, 1));
            let payload = slice_to_vec(slice_subrange(body, 5, body.len()));
            assert(payload@ =~= body@.skip(5));
            RpcMessage::Response { call_id, payload }
        }
    }
}

proof fn lemma_call_flags(is_pipelined: bool, drop_answer: bool)
    ensures
        call_flags(is_pipelined, drop_answer) & CALL_FLAG != 0,
        (call_flags(is_pipelined, drop_answer) & PIPELINED_FLAG != 0) == is_pipelined,
        (call_flags(is_pipelined, drop_answer) & DROP_ANSWER_FLAG != 0) == drop_answer,
{
    let f = call_flags(is_pipelined, drop_answer);
    assert(f & 1u8 != 0 && ((f & 2u8 != 0) == is_pipelined) && ((f & 4u8 != 0) == drop_answer))
        by (bit_vector)
        requires
            f == 1u8 | (if is_pipelined { 2u8 } else { 0u8 }) | (if drop_answer { 4u8 } else { 0u8 }),
    ;
}

/// Reading the body of a call frame gives back every field that went into it.
pub proof fn lemma_call_body_roundtrip(
    function_id: u32,
    call_id: u32,
    is_pipelined: bool,
    drop_answer: bool,
    args: Seq<u8>,
)
    ensures
        body_parsable(call_body(function_id, call_id, is_pipelined, drop_answer, args)),
        parse_message(call_body(function_id, call_id, is_pipelined, drop_answer, args))
            == (MessageView::Call { function_id, call_id, is_pipelined, drop_answer, args }),
{
    let b = call_body(function_id, call_id, is_pipelined, drop_answer, args);
    lemma_call_flags(is_pipelined, drop_answer);
    lemma_be_u32_roundtrip(function_id);
    lemma_be_u32_roundtrip(call_id);
    assert(b.subrange(1, 5) =~= be_u32_bytes(function_id));
    assert(b.subrange(5, 9) =~= be_u32_bytes(call_id));
    assert(b.skip(9) =~= args);
}

/// Reading the body of a response frame gives back its call id and payload.
pub proof fn lemma_response_body_roundtrip(call_id: u32, payload: Seq<u8>)
    ensures
        body_parsable(response_body(call_id, payload)),
        parse_message(response_body(call_id, payload)) == (MessageView::Response { call_id, payload }),
{
    let b = response_body(call_id, payload);
    lemma_be_u32_roundtrip(call_id);
    assert(0u8 & 1u8 == 0u8) by (bit_vector);
    assert(b.subrange(1, 5) =~= be_u32_bytes(call_id));
    assert(b.skip(5) =~= payload);
}

} // verus!
