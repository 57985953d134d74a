//! Link bring-up and control for one repeater port of a tree-structured
//! real-time I/O network.
//!
//! The library decides; the caller performs. Each operation is a verified
//! state machine over plain values: it says what to send, how long to wait
//! and what to do with the outcome, and the caller talks to the hardware and
//! the auxiliary packet channel and hands the results back.

mod exchange;
mod packet;
mod plan;
mod repeater;

pub use exchange::{Exchange, Step, ROUTING_ACK_TIMEOUT_MS, TSC_ACK_TIMEOUT_MS};
pub use packet::{AuxError, Packet, RoutingTable, TransportError, DEST_COUNT, MAX_HOPS};
pub use plan::{lemma_plan_stops_at_failure, step_outcome, Plan};
pub use repeater::{
    after_bring_up, after_silence, bring_up_steps, is_echo_reply, lemma_bring_up_all_or_nothing,
    lemma_idle_plan_succeeds, lemma_link_loss_resets, lemma_probe_count,
    lemma_routing_load_bounded, path_steps, ping_count_of, state_wf, tick, Action, Repeater,
    RepeaterState, MAX_PING_COUNT, PING_TIMEOUT_MS,
};
