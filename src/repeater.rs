use vstd::prelude::*;
use crate::exchange::Step;
use crate::packet::{AuxError, Packet, RoutingTable, TransportError, DEST_COUNT, MAX_HOPS};
use crate::plan::Plan;

verus! {

/// How long a probe waits for its reply before the next one, in milliseconds.
pub const PING_TIMEOUT_MS: u64 = 100;

/// Probes past this count that go unanswered fail the link.
pub const MAX_PING_COUNT: u16 = 200;

/// Where a repeater's link stands.
#[derive(Clone, Copy, Debug, PartialEq, Eq, Structural)]
pub enum RepeaterState {
    /// No attempt in progress.
    Down,
    /// About to send a probe; `ping_count` probes were counted so far.
    SendPing { ping_count: u16 },
    /// A probe is out; its reply is due by `timeout` (monotonic milliseconds).
    WaitPingReply { ping_count: u16, timeout: u64 },
    /// Established, synchronised and configured.
    Up,
    /// Bring-up gave up; only a loss of the link leaves this state.
    Failed,
}

/// What the caller does after a tick of `Repeater::service`.
#[derive(Clone, Copy, Debug, PartialEq, Eq, Structural)]
pub enum Action {
    /// Nothing.
    Idle,
    /// Send `EchoRequest` on the repeater's auxiliary channel.
    SendEchoRequest,
    /// Receive once on the auxiliary channel (without blocking), read the
    /// clock, and hand both to `Repeater::ping_reply`.
    PollEchoReply,
}

/// The probe count that a state carries, zero where it carries none.
pub open spec fn ping_count_of(s: RepeaterState) -> int {
    match s {
        RepeaterState::SendPing { ping_count } => ping_count as int,
        RepeaterState::WaitPingReply { ping_count, .. } => ping_count as int,
        _ => 0,
    }
}

/// The bounds that the probe count keeps: a probe about to be sent has at
/// most the cap counted before it, and one in flight is counted.
pub open spec fn state_wf(s: RepeaterState) -> bool {
    match s {
        RepeaterState::SendPing { ping_count } => ping_count <= MAX_PING_COUNT,
        RepeaterState::WaitPingReply { ping_count, .. } => 1 <= ping_count <= MAX_PING_COUNT + 1,
        _ => true,
    }
}

/// One tick of the state machine: the next state and what the caller does.
/// A lost link always leads to `Down`.
pub open spec fn tick(s: RepeaterState, link_up: bool, now_ms: u64) -> (RepeaterState, Action) {
    if !link_up {
        (RepeaterState::Down, Action::Idle)
    } else {
        match s {
            RepeaterState::Down => (RepeaterState::SendPing { ping_count: 0 }, Action::Idle),
            RepeaterState::SendPing { ping_count } => (
                RepeaterState::WaitPingReply {
                    ping_count: (ping_count + 1) as u16,
                    timeout: (now_ms + PING_TIMEOUT_MS) as u64,
                },
                Action::SendEchoRequest,
            ),
            RepeaterState::WaitPingReply { .. } => (s, Action::PollEchoReply),
            RepeaterState::Up => (RepeaterState::Up, Action::Idle),
            RepeaterState::Failed => (RepeaterState::Failed, Action::Idle),
        }
    }
}

/// Whether a receive on the auxiliary channel brought the probe's reply.
pub open spec fn is_echo_reply(received: Result<Option<Packet>, TransportError>) -> bool {
    received matches Ok(Some(Packet::EchoReply))
}

/// The state after a poll of a pending probe that brought no reply: past
/// the deadline the probe is sent again, unless the count is past the cap.
/// The count is not raised here; only sending raises it.
pub open spec fn after_silence(s: RepeaterState, now_ms: u64) -> RepeaterState {
    match s {
        RepeaterState::WaitPingReply { ping_count, timeout } => if now_ms > timeout {
            if ping_count > MAX_PING_COUNT {
                RepeaterState::Failed
            } else {
                RepeaterState::SendPing { ping_count }
            }
        } else {
            s
        },
        _ => s,
    }
}

/// A `RoutingSetPath` step for every destination of the table, in order.
pub open spec fn path_steps(table: [[u8; MAX_HOPS]; DEST_COUNT]) -> Seq<Step> {
    Seq::new(
        DEST_COUNT as nat,
        |i: int| Step::SetPath { destination: i as u8, hops: table@[i] },
    )
}

/// Bring-up after the handshake: clock sync, the routing table, the rank.
pub open spec fn bring_up_steps(table: [[u8; MAX_HOPS]; DEST_COUNT], rank: u8) -> Seq<Step> {
    seq![Step::SyncTsc] + path_steps(table) + seq![Step::SetRank { rank }]
}

/// The state that a finished bring-up leaves: `Up` only if every step
/// succeeded.
pub open spec fn after_bring_up(plan: Plan) -> RepeaterState {
    if plan.succeeded() {
        RepeaterState::Up
    } else {
        RepeaterState::Failed
    }
}

/// Appends a `RoutingSetPath` step for every destination of the table.
fn push_path_steps(steps: &mut Vec<Step>, routing_table: &RoutingTable)
    ensures
        final(steps)@ == old(steps)@ + path_steps(routing_table.0),
{
    let ghost start = steps@;
    let mut i: usize = 0;
    while i < DEST_COUNT
        invariant
            i <= DEST_COUNT,
            steps@ == start + path_steps(routing_table.0).take(i as int),
        decreases DEST_COUNT - i,
    {
        steps.push(Step::SetPath { destination: i as u8, hops: routing_table.0[i] });
        i = i + 1;
        assert(path_steps(routing_table.0).take(i as int) =~= path_steps(routing_table.0).take(
            (i - 1) as int,
        ).push(Step::SetPath { destination: (i - 1) as u8, hops: routing_table.0@[i - 1] }));
    }
    assert(path_steps(routing_table.0).take(DEST_COUNT as int) =~= path_steps(routing_table.0));
}

/// The bring-up plan: clock sync, then the routing table, then the rank.
fn bring_up_plan(routing_table: &RoutingTable, rank: u8) -> (r: Plan)
    ensures
        r.wf(),
        r.fresh(bring_up_steps(routing_table.0, rank)),
{
    let mut steps: Vec<Step> = Vec::new();
    steps.push(Step::SyncTsc);
    push_path_steps(&mut steps, routing_table);
    steps.push(Step::SetRank { rank });
    assert(steps@ =~= bring_up_steps(routing_table.0, rank));
    Plan::new(steps)
}

/// One downstream port: its link, its auxiliary channel and its state.
pub struct Repeater {
    repno: u8,
    auxno: u8,
    state: RepeaterState,
}

impl Repeater {
    pub closed spec fn spec_repno(&self) -> u8 {
        self.repno
    }

    pub closed spec fn spec_auxno(&self) -> u8 {
        self.auxno
    }

    pub closed spec fn spec_state(&self) -> RepeaterState {
        self.state
    }

    /// The auxiliary channel is the one after the link's index, and the
    /// probe count keeps its bounds.
    pub open spec fn wf(&self) -> bool {
        &&& self.spec_auxno() == self.spec_repno() + 1
        &&& state_wf(self.spec_state())
    }

    /// Whether the link is established, so that requests go out.
    pub open spec fn is_up(&self) -> bool {
        self.spec_state() is Up
    }

    /// A plan of `steps` when the link is up, of nothing otherwise.
    pub open spec fn gated(&self, steps: Seq<Step>) -> Seq<Step> {
        if self.is_up() {
            steps
        } else {
            Seq::empty()
        }
    }

    /// The repeater of link `repno`, whose auxiliary channel is `repno + 1`.
    pub fn new(repno: u8) -> (r: Repeater)
        requires
            repno < u8::MAX,
        ensures
            r.wf(),
            r.spec_repno() == repno,
            r.spec_state() == RepeaterState::Down,
    {
        Repeater { repno, auxno: repno + 1, state: RepeaterState::Down }
    }

    /// The index of the physical link.
    pub fn repno(&self) -> (r: u8)
        ensures
            r == self.spec_repno(),
    {
        self.repno
    }

    /// The auxiliary channel reached through the link.
    pub fn auxno(&self) -> (r: u8)
        ensures
            r == self.spec_auxno(),
    {
        self.auxno
    }

    /// The current state.
    pub fn state(&self) -> (r: RepeaterState)
        ensures
            r == self.spec_state(),
    {
        self.state
    }

    /// Advances one polling tick, given whether the link's receive signal is
    /// present and the time. A lost link leads to `Down` from any state.
    /// A link that comes up starts the probe handshake; a probe that is due
    /// is counted and its deadline set, and the caller sends it.
    pub fn service(&mut self, link_up: bool, now_ms: u64) -> (r: Action)
        requires
            old(self).wf(),
            now_ms <= u64::MAX - PING_TIMEOUT_MS,
        ensures
            final(self).wf(),
            final(self).spec_repno() == old(self).spec_repno(),
            final(self).spec_auxno() == old(self).spec_auxno(),
            (final(self).spec_state(), r) == tick(old(self).spec_state(), link_up, now_ms),
    {
        if !link_up {
            self.state = RepeaterState::Down;
            return Action::Idle;
        }
        match self.state {
            RepeaterState::Down => {
                self.state = RepeaterState::SendPing { ping_count: 0 };
                Action::Idle
            },
            RepeaterState::SendPing { ping_count } => {
                self.state = RepeaterState::WaitPingReply {
                    ping_count: ping_count + 1,
                    timeout: now_ms + PING_TIMEOUT_MS,
                };
                Action::SendEchoRequest
            },
            RepeaterState::WaitPingReply { .. } => Action::PollEchoReply,
            RepeaterState::Up => Action::Idle,
            RepeaterState::Failed => Action::Idle,
        }
    }

    /// Handles the poll of a pending probe: what one non-blocking receive
    /// brought and the time after it. The probe's reply makes the link `Up`
    /// and hands back the bring-up plan, which the caller carries out and
    /// then reports through `bring_up_finished`. Anything else is no reply.
    /// In any other state there is no probe to answer, and nothing changes.
    pub fn ping_reply(
        &mut self,
        received: Result<Option<Packet>, TransportError>,
        now_ms: u64,
        routing_table: &RoutingTable,
        rank: u8,
    ) -> (r: Option<Plan>)
        requires
            old(self).wf(),
        ensures
            final(self).wf(),
            final(self).spec_repno() == old(self).spec_repno(),
            final(self).spec_auxno() == old(self).spec_auxno(),
            old(self).spec_state() is WaitPingReply && is_echo_reply(received) ==> {
                &&& final(self).spec_state() == RepeaterState::Up
                &&& r matches Some(p) && p.wf() && p.fresh(bring_up_steps(routing_table.0, rank))
            },
            !(old(self).spec_state() is WaitPingReply && is_echo_reply(received)) ==> {
                &&& r is None
                &&& final(self).spec_state() == after_silence(old(self).spec_state(), now_ms)
            },
    {
        if let RepeaterState::WaitPingReply { ping_count, timeout } = self.state {
            if let Ok(Some(Packet::EchoReply)) = received {
                self.state = RepeaterState::Up;
                return Some(bring_up_plan(routing_table, rank));
            }
            if now_ms > timeout {
                if ping_count > MAX_PING_COUNT {
                    self.state = RepeaterState::Failed;
                } else {
                    self.state = RepeaterState::SendPing { ping_count };
                }
            }
        }
        None
    }

    /// Ends bring-up with the plan that `ping_reply` handed out, once it is
    /// finished: the link stays `Up` if every step succeeded and is `Failed`
    /// otherwise. Returns how the plan ended.
    pub fn bring_up_finished(&mut self, plan: &Plan) -> (r: Result<(), AuxError>)
        requires
            old(self).wf(),
            old(self).spec_state() is Up,
            plan.wf(),
            plan.finished(),
        ensures
            final(self).wf(),
            final(self).spec_repno() == old(self).spec_repno(),
            final(self).spec_auxno() == old(self).spec_auxno(),
            final(self).spec_state() == after_bring_up(*plan),
            r == plan.spec_result(),
            r is Ok <==> plan.succeeded(),
    {
        let r = plan.result();
        if r.is_err() {
            self.state = RepeaterState::Failed;
        }
        r
    }

    /// Synchronises the downstream clock: when the link is up, one step that
    /// broadcasts the timestamp counter and waits for `TSCAck`; otherwise
    /// nothing, which ends at once in success.
    pub fn sync_tsc(&self) -> (r: Plan)
        ensures
            r.wf(),
            r.fresh(self.gated(seq![Step::SyncTsc])),
    {
        let mut steps: Vec<Step> = Vec::new();
        if self.state == RepeaterState::Up {
            steps.push(Step::SyncTsc);
        }
        assert(steps@ =~= self.gated(seq![Step::SyncTsc]));
        Plan::new(steps)
    }

    /// Sets the path to one destination on the downstream node, when the
    /// link is up; otherwise does nothing.
    pub fn set_path(&self, destination: u8, hops: &[u8; MAX_HOPS]) -> (r: Plan)
        ensures
            r.wf(),
            r.fresh(self.gated(seq![Step::SetPath { destination, hops: *hops }])),
    {
        let mut steps: Vec<Step> = Vec::new();
        if self.state == RepeaterState::Up {
            steps.push(Step::SetPath { destination, hops: *hops });
        }
        assert(steps@ =~= self.gated(seq![Step::SetPath { destination, hops: *hops }]));
        Plan::new(steps)
    }

    /// Loads the whole routing table into the downstream node, destination
    /// by destination, when the link is up; otherwise does nothing. Carried
    /// out as a plan, it stops at the first entry that is not acknowledged.
    pub fn load_routing_table(&self, routing_table: &RoutingTable) -> (r: Plan)
        ensures
            r.wf(),
            r.fresh(self.gated(path_steps(routing_table.0))),
    {
        let mut steps: Vec<Step> = Vec::new();
        if self.state == RepeaterState::Up {
            push_path_steps(&mut steps, routing_table);
        }
        assert(steps@ =~= self.gated(path_steps(routing_table.0)));
        Plan::new(steps)
    }

    /// Sets this node's rank on the downstream node, when the link is up;
    /// otherwise does nothing.
    pub fn set_rank(&self, rank: u8) -> (r: Plan)
        ensures
            r.wf(),
            r.fresh(self.gated(seq![Step::SetRank { rank }])),
    {
        let mut steps: Vec<Step> = Vec::new();
        if self.state == RepeaterState::Up {
            steps.push(Step::SetRank { rank });
        }
        assert(steps@ =~= self.gated(seq![Step::SetRank { rank }]));
        Plan::new(steps)
    }
}

/// Losing the link sends every state to `Down` on the next tick, with
/// nothing for the caller to do.
pub proof fn lemma_link_loss_resets(s: RepeaterState, now_ms: u64)
    ensures
        tick(s, false, now_ms) == (RepeaterState::Down, Action::Idle),
{
}

/// A finished bring-up leaves the link `Up` only when the clock sync, every
/// routing entry and the rank were all acknowledged; any failure leaves it
/// `Failed`, never waiting for a probe again.
pub proof fn lemma_bring_up_all_or_nothing(
    plan: Plan,
    table: [[u8; MAX_HOPS]; DEST_COUNT],
    rank: u8,
)
    requires
        plan.wf(),
        plan.finished(),
        plan.steps() == bring_up_steps(table, rank),
    ensures
        after_bring_up(plan) is Up || after_bring_up(plan) is Failed,
        after_bring_up(plan) is Up <==> plan.failure() is None && plan.done() == DEST_COUNT + 2,
        plan.failure() is Some ==> after_bring_up(plan) is Failed,
{
}

/// Every probe sent raises the count by exactly one, nothing else raises
/// it, and it never passes the cap plus one: a probe counted past the cap
/// that goes unanswered fails the link instead of being sent again.
pub proof fn lemma_probe_count(s: RepeaterState, link_up: bool, now_ms: u64)
    requires
        state_wf(s),
        now_ms <= u64::MAX - PING_TIMEOUT_MS,
    ensures
        ping_count_of(s) <= MAX_PING_COUNT + 1,
        state_wf(tick(s, link_up, now_ms).0),
        tick(s, link_up, now_ms).1 == Action::SendEchoRequest ==> ping_count_of(
            tick(s, link_up, now_ms).0,
        ) == ping_count_of(s) + 1,
        tick(s, link_up, now_ms).1 != Action::SendEchoRequest ==> ping_count_of(
            tick(s, link_up, now_ms).0,
        ) <= ping_count_of(s),
        state_wf(after_silence(s, now_ms)),
        ping_count_of(after_silence(s, now_ms)) <= ping_count_of(s),
        (s matches RepeaterState::WaitPingReply { ping_count, timeout } && ping_count
            > MAX_PING_COUNT && now_ms > timeout) ==> after_silence(s, now_ms)
            == RepeaterState::Failed,
{
}

/// On a link that is not up, clock sync, routing and rank plans hold no
/// step: they start nothing, send nothing and end at once in success.
pub proof fn lemma_idle_plan_succeeds(r: Repeater, plan: Plan, steps: Seq<Step>)
    requires
        !r.is_up(),
        plan.wf(),
        plan.fresh(r.gated(steps)),
    ensures
        plan.finished(),
        plan.succeeded(),
        plan.started() == 0,
{
}

/// Loading a routing table starts at most one `RoutingSetPath` per
/// destination, only such steps, and none after the first that fails.
pub proof fn lemma_routing_load_bounded(plan: Plan, table: [[u8; MAX_HOPS]; DEST_COUNT])
    requires
        plan.wf(),
        plan.steps() == path_steps(table),
    ensures
        plan.started() <= DEST_COUNT,
        forall|i: int| 0 <= i < plan.started() ==> (#[trigger] plan.steps()[i]) is SetPath,
        plan.failure() is Some ==> plan.finished(),
{
}

} // verus!
