//! Protocol version negotiation at connection setup.
//!
//! During the transport handshake the peer advertises subprotocol
//! tokens. The server accepts the connection's application protocol
//! only when one token exactly equals its own protocol-version string
//! — no version ranging — and then echoes that token back. With no
//! match the handshake still completes, with no agreed subprotocol;
//! whether the peer walks away is the transport layer's decision.

use vstd::prelude::*;

use crate::text::str_eq;

verus! {

/// The exact protocol-version string this server speaks.
pub open spec fn protocol_version() -> Seq<char> {
    "shahmaat_protocol_0.1.1"@
}

/// The protocol-version string, for handing to the transport.
pub fn protocol_version_str() -> (s: &'static str)
    ensures
        s@ == protocol_version(),
{
    "shahmaat_protocol_0.1.1"
}

/// Picks the subprotocol to agree on: the first offered token that
/// exactly equals the server's protocol-version string, if any.
/// Returns its index, so the caller can echo that very token back;
/// `None` means no token matched and no subprotocol is agreed.
pub fn negotiate(offered: &Vec<String>) -> (r: Option<usize>)
    ensures
        match r {
            Some(i) => i < offered@.len() && offered@[i as int]@ == protocol_version() && (forall|
                j: int,
            |
                0 <= j < i ==> offered@[j]@ != protocol_version()),
            None => forall|j: int| 0 <= j < offered@.len() ==> offered@[j]@ != protocol_version(),
        },
{
    let mut i: usize = 0;
    while i < offered.len()
        invariant
            i <= offered@.len(),
            forall|j: int| 0 <= j < i ==> offered@[j]@ != protocol_version(),
        decreases offered@.len() - i,
    {
        if str_eq(offered[i].as_str(), "shahmaat_protocol_0.1.1") {
            return Some(i);
        }
        i = i + 1;
    }
    None
}

} // verus!
