use kvlr::connection::{check_handshake_data, classify_protocol, handshake_magic, FrameProtocol, HandshakeError};
use kvlr::frame::{Frame, RecvFrameError};
use kvlr::pipelining::{clone_response, pipelined_payload, MaybePipelinedValue, PipeliningState, Wish};
use kvlr::registry::Registry;
use kvlr::requests::{Add, AppendString, CallMeToPanic, RangeVecPipelined};
use kvlr::rpc::{
    encode_call_body, encode_response_body, CallID, CallIdCounter, InternalServerError, RpcMessage,
    RpcProtocolHandler,
};
use kvlr::streaming::{Stream, StreamID, StreamRpc};

#[test]
fn frame_len_counts_header_protocol_and_body() {
    let frame = Frame { protocol: "rpc".to_string(), body: vec![1, 2] };
    assert_eq!(frame.len(), 9);
    let frame = Frame { protocol: "é".to_string(), body: vec![] };
    assert_eq!(frame.len(), 6);
}

#[test]
fn frame_wire_layout() {
    let frame = Frame { protocol: "rpc".to_string(), body: vec![1, 2] };
    assert_eq!(frame.to_wire(), vec![0, 0, 0, 9, 0, 0, 0, 3, b'r', b'p', b'c', 1, 2]);
}

#[test]
fn frame_roundtrip() {
    let frame = Frame { protocol: "close".to_string(), body: vec![9; 300] };
    let wire = frame.to_wire();
    let len = u32::from_be_bytes([wire[0], wire[1], wire[2], wire[3]]) as usize;
    assert_eq!(len, wire.len() - 4);
    let back = Frame::from_wire(&wire[4..]).unwrap();
    assert_eq!(back.protocol, "close");
    assert_eq!(back.body, vec![9; 300]);
}

#[test]
fn frame_errors() {
    // The protocol name claims 10 bytes, only 2 follow.
    let data = [0u8, 0, 0, 10, b'a', b'b'];
    assert!(matches!(Frame::from_wire(&data), Err(RecvFrameError::IoError(_))));
    // The protocol name is not UTF-8.
    let data = [0u8, 0, 0, 1, 0xff, 7];
    assert!(matches!(Frame::from_wire(&data), Err(RecvFrameError::InvalidProtocol(_))));
    // An empty protocol and an empty body.
    let frame = Frame::from_wire(&[0u8, 0, 0, 0]).unwrap();
    assert_eq!(frame.protocol, "");
    assert!(frame.body.is_empty());
}

#[test]
fn call_body_layout() {
    let body = encode_call_body(1337, CallID(2), true, false, vec![0xaa, 0xbb]);
    assert_eq!(body, vec![0b011, 0, 0, 0x05, 0x39, 0, 0, 0, 2, 0xaa, 0xbb]);
    let body = encode_call_body(1, CallID(0x01020304), false, true, vec![]);
    assert_eq!(body, vec![0b101, 0, 0, 0, 1, 1, 2, 3, 4]);
}

#[test]
fn call_body_roundtrip() {
    let body = encode_call_body(2000, CallID(77), true, true, vec![1, 2, 3]);
    assert!(RpcProtocolHandler::frame_body_parsable(&body));
    match RpcProtocolHandler::parse_frame_body(&body) {
        RpcMessage::Call { function_id, call_id, is_pipelined, drop_answer, args } => {
            assert_eq!(function_id, 2000);
            assert_eq!(call_id, CallID(77));
            assert!(is_pipelined);
            assert!(drop_answer);
            assert_eq!(args, vec![1, 2, 3]);
        }
        RpcMessage::Response { .. } => panic!("a call was read as a response"),
    }
}

#[test]
fn response_body_roundtrip() {
    let body = encode_response_body(CallID(5), &[0x91, 0x2a]);
    assert_eq!(body, vec![0, 0, 0, 0, 5, 0x91, 0x2a]);
    match RpcProtocolHandler::parse_frame_body(&body) {
        RpcMessage::Response { call_id, payload } => {
            assert_eq!(call_id, CallID(5));
            assert_eq!(payload, vec![0x91, 0x2a]);
        }
        RpcMessage::Call { .. } => panic!("a response was read as a call"),
    }
}

#[test]
fn short_bodies_are_not_parsable() {
    assert!(!RpcProtocolHandler::frame_body_parsable(&[]));
    assert!(!RpcProtocolHandler::frame_body_parsable(&[1, 0, 0, 0, 1, 0, 0, 0]));
    assert!(RpcProtocolHandler::frame_body_parsable(&[1, 0, 0, 0, 1, 0, 0, 0, 1]));
    assert!(!RpcProtocolHandler::frame_body_parsable(&[0, 0, 0, 0]));
    assert!(RpcProtocolHandler::frame_body_parsable(&[0, 0, 0, 0, 1]));
}

#[test]
fn call_ids_count_up_from_one() {
    let mut counter = CallIdCounter::new();
    assert!(counter.can_issue());
    assert_eq!(counter.last_issued(), CallID(0));
    assert_eq!(counter.next_call_id(), CallID(1));
    assert_eq!(counter.next_call_id(), CallID(2));
    assert_eq!(counter.last_issued(), CallID(2));
    assert_eq!(counter.next_call_id(), CallID(3));
}

#[test]
fn call_id_conversions() {
    assert_eq!(CallID::from(4u32), CallID(4));
    assert!(matches!(CallID(9).pipeline::<u32>(), MaybePipelinedValue::Pipelined(CallID(9))));
    assert!(matches!(MaybePipelinedValue::from(3u32), MaybePipelinedValue::Direct(3)));
    assert_eq!(StreamID::from(8u32), StreamID(8));
}

#[test]
fn registry_hands_out_entries_once() {
    let mut table: Registry<&str> = Registry::new();
    assert_eq!(table.register(7, "first"), None);
    assert_eq!(table.register(7, "second"), Some("first"));
    assert_eq!(table.get(7), Some(&"second"));
    assert_eq!(table.get(8), None);
    assert_eq!(table.take(7), Some("second"));
    assert_eq!(table.take(7), None);
}

#[test]
fn pipelined_waiters_get_the_result() {
    let mut state = PipeliningState::new();
    assert!(state.can_queue());
    assert!(matches!(state.wishlist(CallID(3)), Wish::Queued(0)));
    assert!(matches!(state.wishlist(CallID(3)), Wish::Queued(1)));
    assert!(matches!(state.wishlist(CallID(4)), Wish::Queued(2)));
    let result: Result<Vec<u8>, InternalServerError> = Ok(vec![42]);
    assert_eq!(state.add_result(CallID(3), &result), vec![0, 1]);
    match state.wishlist(CallID(3)) {
        Wish::Ready(r) => assert_eq!(r, Ok(vec![42])),
        Wish::Queued(_) => panic!("a recorded result was not served"),
    }
    // Nobody waits for call 3 any more.
    assert_eq!(state.add_result(CallID(3), &Err(InternalServerError)), Vec::<u64>::new());
    match state.wishlist(CallID(3)) {
        Wish::Ready(r) => assert_eq!(r, Err(InternalServerError)),
        Wish::Queued(_) => panic!("a recorded result was not served"),
    }
    assert_eq!(state.add_result(CallID(4), &result), vec![2]);
    // Waiter numbers are never reused.
    assert!(matches!(state.wishlist(CallID(9)), Wish::Queued(3)));
}

#[test]
fn pipelined_arguments() {
    let direct: MaybePipelinedValue<u32> = MaybePipelinedValue::Direct(1);
    assert_eq!(direct.awaited_call(), None);
    let later: MaybePipelinedValue<u32> = CallID(6).pipeline();
    assert_eq!(later.awaited_call(), Some(CallID(6)));
    assert_eq!(pipelined_payload(Some(Ok(vec![1, 2]))), Ok(vec![1, 2]));
    assert_eq!(pipelined_payload(Some(Err(InternalServerError))), Err(()));
    assert_eq!(pipelined_payload(None), Err(()));
    assert_eq!(clone_response(&Ok(vec![5])), Ok(vec![5]));
}

#[test]
fn handshake() {
    let magic = handshake_magic();
    assert_eq!(magic, b"KVLR".to_vec());
    assert_eq!(check_handshake_data(&magic, b"KVLR"), Ok(()));
    assert_eq!(check_handshake_data(&magic, b"KVLX"), Err(HandshakeError::InvalidData));
    assert_eq!(check_handshake_data(&magic, b"KVL"), Err(HandshakeError::InvalidData));
}

#[test]
fn protocol_dispatch() {
    assert_eq!(classify_protocol("close"), FrameProtocol::Close);
    assert_eq!(classify_protocol("rpc"), FrameProtocol::Rpc);
    assert_eq!(classify_protocol("rpcs"), FrameProtocol::Other);
    assert_eq!(classify_protocol("clos"), FrameProtocol::Other);
    assert_eq!(classify_protocol("cloze"), FrameProtocol::Other);
    assert_eq!(classify_protocol(""), FrameProtocol::Other);
}

#[test]
fn request_metadata() {
    assert_eq!(Add::FUNCTION_ID, 1337);
    assert!(!Add::IS_PIPELINED);
    assert_eq!(AppendString::FUNCTION_ID, 1234);
    assert_eq!(RangeVecPipelined::FUNCTION_ID, 4321);
    assert!(RangeVecPipelined::IS_PIPELINED);
    assert_eq!(CallMeToPanic::FUNCTION_ID, 1111);
    assert_eq!(StreamRpc::FUNCTION_ID, Stream::FUNCTION_ID);
    let chunk = Stream::for_chunk(StreamID(42), vec![1, 2]);
    assert_eq!(chunk.arg0, 42);
    assert_eq!(chunk.arg1, vec![1, 2]);
}

#[test]
fn call_answers() {
    assert_eq!(RpcProtocolHandler::call_response(Some(vec![7])), Ok(vec![7]));
    assert_eq!(RpcProtocolHandler::call_response(None), Err(InternalServerError));
    assert_eq!(RpcProtocolHandler::reply_body(CallID(5), true, &[1]), None);
    assert_eq!(
        RpcProtocolHandler::reply_body(CallID(5), false, &[1]),
        Some(vec![0, 0, 0, 0, 5, 1])
    );
}
