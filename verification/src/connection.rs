//! What a connection decides on its own: the handshake check and which
//! protocol handler a received frame goes to.

use vstd::prelude::*;
use vstd::string::StrSliceExecFns;

verus! {

/// Why a handshake failed.
#[derive(Debug, Clone, Copy, PartialEq, Eq, Structural)]
pub enum HandshakeError {
    /// The stream could not be read.
    ReadError,
    /// The peer sent something else than the handshake bytes.
    InvalidData,
    /// The stream could not be written.
    WriteError,
}

/// The handshake bytes, "KVLR", sent by each side.
pub open spec fn handshake_magic_spec() -> Seq<u8> {
    seq![0x4bu8, 0x56u8, 0x4cu8, 0x52u8]
}

/// The handshake bytes, "KVLR".
pub fn handshake_magic() -> (m: Vec<u8>)
    ensures
        m@ == handshake_magic_spec(),
{
    let m: Vec<u8> = vec![0x4bu8, 0x56u8, 0x4cu8, 0x52u8];
    assert(m@ =~= handshake_magic_spec());
    m
}

/// Compares the bytes received during the handshake with those expected.
pub fn check_handshake_data(expected: &[u8], received: &[u8]) -> (r: Result<(), HandshakeError>)
    ensures
        r == (if expected@ == received@ {
            Ok::<(), HandshakeError>(())
        } else {
            Err(HandshakeError::InvalidData)
        }),
{
    if expected.len() != received.len() {
        return Err(HandshakeError::InvalidData);
    }
    let mut i: usize = 0;
    while i < expected.len()
        invariant
            i <= expected@.len(),
            expected@.len() == received@.len(),
            expected@.take(i as int) == received@.take(i as int),
        decreases expected@.len() - i,
    {
        if expected[i] != received[i] {
            assert(expected@[i as int] != received@[i as int]);
            return Err(HandshakeError::InvalidData);
        }
        i = i + 1;
        assert(expected@.take(i as int) =~= expected@.take(i - 1) + seq![expected@[i - 1]]);
        assert(received@.take(i as int) =~= received@.take(i - 1) + seq![received@[i - 1]]);
    }
    assert(expected@ =~= expected@.take(i as int));
    assert(received@ =~= received@.take(i as int));
    Ok(())
}

/// The protocols that a connection dispatches on.
#[derive(Debug, Clone, Copy, PartialEq, Eq, Structural)]
pub enum FrameProtocol {
    /// "close": the peer closes the connection; reading stops.
    Close,
    /// "rpc": a call or a response.
    Rpc,
    /// Any other protocol: the frame is ignored.
    Other,
}

/// The name of the closing protocol.
pub open spec fn close_protocol_name() -> Seq<char> {
    seq!['c', 'l', 'o', 's', 'e']
}

/// The name of the RPC protocol.
pub open spec fn rpc_protocol_name() -> Seq<char> {
    seq!['r', 'p', 'c']
}

/// Which handler a frame with this protocol name goes to.
pub fn classify_protocol(protocol: &str) -> (k: FrameProtocol)
    ensures
        k == (if protocol@ == close_protocol_name() {
            FrameProtocol::Close
        } else if protocol@ == rpc_protocol_name() {
            FrameProtocol::Rpc
        } else {
            FrameProtocol::Other
        }),
{
    let n = protocol.unicode_len();
    if n == 5 {
        let c0 = protocol.get_char(0);
        let c1 = protocol.get_char(1);
        let c2 = protocol.get_char(2);
        let c3 = protocol.get_char(3);
        let c4 = protocol.get_char(4);
        if c0 == 'c' && c1 == 'l' && c2 == 'o' && c3 == 's' && c4 == 'e' {
            assert(protocol@ =~= close_protocol_name());
            return FrameProtocol::Close;
        }
        assert(protocol@ != close_protocol_name()) by {
            if protocol@ == close_protocol_name() {
                assert(protocol@[0] == 'c' && protocol@[1] == 'l' && protocol@[2] == 'o');
                assert(protocol@[3] == 's' && protocol@[4] == 'e');
            }
        }
        return FrameProtocol::Other;
    }
    if n == 3 {
        let c0 = protocol.get_char(0);
        let c1 = protocol.get_char(1);
        let c2 = protocol.get_char(2);
        if c0 == 'r' && c1 == 'p' && c2 == 'c' {
            assert(protocol@ =~= rpc_protocol_name());
            return FrameProtocol::Rpc;
        }
        assert(protocol@ != rpc_protocol_name()) by {
            if protocol@ == rpc_protocol_name() {
                assert(protocol@[0] == 'r' && protocol@[1] == 'p' && protocol@[2] == 'c');
            }
        }
        return FrameProtocol::Other;
    }
    FrameProtocol::Other
}

} // verus!
