use vstd::prelude::*;

verus! {

/// Longest path, in hops, that a routing entry can describe.
pub const MAX_HOPS: usize = 32;

/// Number of destinations in a routing table.
pub const DEST_COUNT: usize = 256;

/// The global routing table: for each destination, the hops from the root.
pub struct RoutingTable(pub [[u8; MAX_HOPS]; DEST_COUNT]);

/// The control packets of the auxiliary channel that a repeater sends or
/// recognises. Every other packet of the protocol is `Other`.
#[derive(Clone, Copy, Debug)]
pub enum Packet {
    EchoRequest,
    EchoReply,
    TSCAck,
    RoutingSetPath { destination: u8, hops: [u8; MAX_HOPS] },
    RoutingSetRank { rank: u8 },
    RoutingAck,
    Other,
}

/// A fault of the auxiliary channel: a malformed packet or a channel error.
#[derive(Clone, Copy, Debug, PartialEq, Eq, Structural)]
pub struct TransportError;

/// Why a request to the downstream node did not succeed.
#[derive(Clone, Copy, Debug, PartialEq, Eq, Structural)]
pub enum AuxError {
    /// The physical link lost its receive signal during the wait.
    LinkDown,
    /// No packet came within the budget.
    Timeout,
    /// The auxiliary channel reported a fault.
    Transport,
    /// A packet came, but not the acknowledgment that was asked for.
    UnexpectedReply,
}

impl AuxError {
    /// A short description, for logs.
    pub fn message(&self) -> (r: &'static str)
        ensures
            r@.len() > 0,
    {
        let r = match self {
            AuxError::LinkDown => "link went down",
            AuxError::Timeout => "timeout",
            AuxError::Transport => "aux packet error",
            AuxError::UnexpectedReply => "unexpected reply",
        };
        proof {
            reveal_strlit("link went down");
            reveal_strlit("timeout");
            reveal_strlit("aux packet error");
            reveal_strlit("unexpected reply");
        }
        r
    }
}

} // verus!
