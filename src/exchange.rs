use vstd::prelude::*;
use crate::packet::{AuxError, Packet, TransportError, MAX_HOPS};

verus! {

/// Budget for the clock-sync acknowledgment, in milliseconds.
pub const TSC_ACK_TIMEOUT_MS: u32 = 10000;

/// Budget for a routing or rank acknowledgment, in milliseconds.
pub const ROUTING_ACK_TIMEOUT_MS: u32 = 200;

/// A bounded wait for one packet on the auxiliary channel.
///
/// The caller polls: each round it asks `check` with the link status and the
/// time, and, when that lets the wait go on, receives once and hands the
/// outcome to `on_receive`.
pub struct Exchange {
    deadline: u64,
}

impl Exchange {
    /// The last millisecond at which the wait may still receive.
    pub closed spec fn deadline(&self) -> u64 {
        self.deadline
    }

    /// Starts a wait of `timeout_ms` milliseconds at time `now_ms`.
    pub fn start(now_ms: u64, timeout_ms: u32) -> (r: Exchange)
        requires
            now_ms + timeout_ms <= u64::MAX,
        ensures
            r.deadline() == now_ms + timeout_ms,
    {
        Exchange { deadline: now_ms + timeout_ms as u64 }
    }

    /// What a poll round decides before it receives: the wait fails if the
    /// link is down, else if the deadline has passed; otherwise it goes on.
    pub fn check(&self, link_up: bool, now_ms: u64) -> (r: Option<AuxError>)
        ensures
            r == (if !link_up {
                Some(AuxError::LinkDown)
            } else if now_ms > self.deadline() {
                Some(AuxError::Timeout)
            } else {
                None
            }),
    {
        if !link_up {
            Some(AuxError::LinkDown)
        } else if now_ms > self.deadline {
            Some(AuxError::Timeout)
        } else {
            None
        }
    }

    /// What a non-blocking receive means for the wait: any packet ends it
    /// with that packet, a channel fault ends it with an error, and nothing
    /// received lets it go on (`None`).
    pub fn on_receive(received: Result<Option<Packet>, TransportError>) -> (r: Option<
        Result<Packet, AuxError>,
    >)
        ensures
            r == match received {
                Ok(Some(p)) => Some(Ok(p)),
                Ok(None) => None,
                Err(_) => Some(Err(AuxError::Transport)),
            },
    {
        match received {
            Ok(Some(p)) => Some(Ok(p)),
            Ok(None) => None,
            Err(_) => Some(Err(AuxError::Transport)),
        }
    }
}

/// One request to the downstream node and the acknowledgment it needs.
#[derive(Clone, Copy, Debug)]
pub enum Step {
    /// Broadcast the local timestamp counter down the link (a hardware
    /// trigger, no packet), then wait for the peer's unsolicited `TSCAck`.
    SyncTsc,
    /// Send `RoutingSetPath` and wait for `RoutingAck`.
    SetPath { destination: u8, hops: [u8; MAX_HOPS] },
    /// Send `RoutingSetRank` and wait for `RoutingAck`.
    SetRank { rank: u8 },
}

impl Step {
    pub open spec fn spec_request(self) -> Option<Packet> {
        match self {
            Step::SyncTsc => None,
            Step::SetPath { destination, hops } => Some(
                Packet::RoutingSetPath { destination, hops },
            ),
            Step::SetRank { rank } => Some(Packet::RoutingSetRank { rank }),
        }
    }

    pub open spec fn spec_timeout_ms(self) -> u32 {
        match self {
            Step::SyncTsc => TSC_ACK_TIMEOUT_MS,
            _ => ROUTING_ACK_TIMEOUT_MS,
        }
    }

    pub open spec fn spec_accepts(self, p: Packet) -> bool {
        match self {
            Step::SyncTsc => p is TSCAck,
            _ => p is RoutingAck,
        }
    }

    /// The packet to send, or `None` where the step starts with the
    /// timestamp broadcast instead.
    pub fn request(&self) -> (r: Option<Packet>)
        ensures
            r == self.spec_request(),
    {
        match self {
            Step::SyncTsc => None,
            Step::SetPath { destination, hops } => Some(
                Packet::RoutingSetPath { destination: *destination, hops: *hops },
            ),
            Step::SetRank { rank } => Some(Packet::RoutingSetRank { rank: *rank }),
        }
    }

    /// How long to wait for the acknowledgment, in milliseconds.
    pub fn timeout_ms(&self) -> (r: u32)
        ensures
            r == self.spec_timeout_ms(),
    {
        match self {
            Step::SyncTsc => TSC_ACK_TIMEOUT_MS,
            _ => ROUTING_ACK_TIMEOUT_MS,
        }
    }

    /// Whether `p` is the acknowledgment this step waits for.
    pub fn accepts(&self, p: &Packet) -> (r: bool)
        ensures
            r == self.spec_accepts(*p),
    {
        match self {
            Step::SyncTsc => matches!(p, Packet::TSCAck),
            _ => matches!(p, Packet::RoutingAck),
        }
    }
}

} // verus!
