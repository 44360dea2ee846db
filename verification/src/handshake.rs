//! The datagram a legacy server broadcasts to announce its port, and the check
//! a legacy client makes of what it receives.
use vstd::prelude::*;

verus! {

/// The bytes of `clipshare`.
pub open spec fn handshake_bytes() -> Seq<u8> {
    seq![0x63u8, 0x6c, 0x69, 0x70, 0x73, 0x68, 0x61, 0x72, 0x65]
}

/// The length of the announcement, which is also the size of the receive buffer.
pub const HANDSHAKE_LEN: usize = 9;

/// The announcement a legacy server broadcasts.
pub fn handshake() -> (bytes: Vec<u8>)
    ensures
        bytes@ == handshake_bytes(),
        bytes@.len() == HANDSHAKE_LEN,
{
    let bytes = vec![0x63u8, 0x6c, 0x69, 0x70, 0x73, 0x68, 0x61, 0x72, 0x65];
    assert(bytes@ =~= handshake_bytes());
    bytes
}

/// Whether a received datagram is exactly the announcement.
pub fn is_handshake(received: &[u8]) -> (accepted: bool)
    ensures
        accepted == (received@ == handshake_bytes()),
{
    let expected = handshake();
    if received.len() != expected.len() {
        return false;
    }
    let mut i: usize = 0;
    while i < expected.len()
        invariant
            expected@ == handshake_bytes(),
            received@.len() == expected@.len(),
            i <= expected@.len(),
            forall|k: int| 0 <= k < i ==> received@[k] == expected@[k],
        decreases expected@.len() - i,
    {
        if received[i] != expected[i] {
            return false;
        }
        i = i + 1;
    }
    assert(received@ =~= handshake_bytes());
    true
}

} // verus!
