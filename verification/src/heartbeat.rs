//! The heartbeat broadcast engine: on a fixed cadence, one message per tick
//! to every gateway, and no next tick before all of them have completed.

use vstd::prelude::*;
use crate::addr::{to_host_addr, HostAddr, PersistableHostAddr};
use crate::clock::{millis, saturating_add_time, saturating_sum, spec_millis};
use crate::fanout::{
    all_ready, fan_out, flags, in_flight, mark_ready, spec_fan_out, spec_flags, spec_mark_ready,
    Action, ActionView,
};
use crate::message::{ExecutionId, Heartbeat, NodeType, Timestamp};

verus! {

/// The identifier after `id`, starting over at 0 past the largest value.
pub open spec fn next_id(id: u64) -> u64 {
    if id == u64::MAX {
        0
    } else {
        (id + 1) as u64
    }
}

/// Sequence counter of one engine: hands out 0, 1, 2, ... in turn.
#[derive(Debug)]
pub struct SequenceCounter {
    next: u64,
}

impl SequenceCounter {
    /// The value that the next call of `fetch_increment` returns.
    pub closed spec fn peek(&self) -> u64 {
        self.next
    }

    /// A counter that starts at 0.
    pub fn new() -> (counter: Self)
        ensures
            counter.peek() == 0,
    {
        SequenceCounter { next: 0 }
    }

    /// Returns the current value and moves on to the one after it.
    pub fn fetch_increment(&mut self) -> (id: u64)
        ensures
            id == old(self).peek(),
            final(self).peek() == next_id(old(self).peek()),
    {
        let id: u64 = self.next;
        self.next = if id == u64::MAX {
            0
        } else {
            id + 1
        };
        id
    }
}

/// What one gateway is made from: the node's address and the two timeouts,
/// in seconds.
#[derive(Clone, Debug)]
pub struct GatewayArgs {
    pub addr: HostAddr,
    pub connection_timeout: u64,
    pub rpc_timeout: u64,
}

/// Settings of a heartbeat engine.
#[derive(Clone, Debug)]
pub struct HeartbeatBuilder {
    pub node_addrs: Vec<PersistableHostAddr>,
    /// Period of the heartbeat, in seconds.
    pub period: u64,
    /// Timeout of a gateway's connection, in seconds.
    pub connection_timeout: u64,
    /// Timeout of a gateway's request, in seconds.
    pub rpc_timeout: u64,
}

/// State of a heartbeat engine, as contracts see it.
pub struct HeartbeatState {
    /// Period of the heartbeat, in seconds.
    pub period: u64,
    /// Milliseconds since start at which the next tick is due.
    pub next_tick: u64,
    pub execution_id: Option<ExecutionId>,
    /// Identifier of the next heartbeat.
    pub next_heartbeat_id: u64,
    /// Per gateway: whether its invocation of the current tick has completed.
    pub ready: Seq<bool>,
}

/// What can happen to a heartbeat engine.
pub enum HeartbeatEvent {
    /// The engine is polled `elapsed` milliseconds after start, at wall time
    /// `now`.
    Poll { elapsed: u64, now: Timestamp },
    /// The invocation at `gateway` has completed.
    Completed { gateway: usize },
    /// The owner sets the execution id.
    Update { execution_id: ExecutionId },
}

/// A heartbeat with the time, in milliseconds since start, at which its tick
/// fired.
pub struct Emission {
    pub at: u64,
    pub message: Heartbeat,
}

impl HeartbeatState {
    /// The state of an engine that was just built for `gateways` gateways.
    pub open spec fn fresh(period: u64, gateways: nat) -> Self {
        HeartbeatState {
            period,
            next_tick: spec_millis(period),
            execution_id: None,
            next_heartbeat_id: 0,
            ready: spec_flags(gateways, true),
        }
    }

    pub open spec fn gateways(self) -> nat {
        self.ready.len()
    }

    /// An invocation of the current tick is still running.
    pub open spec fn busy(self) -> bool {
        !all_ready(self.ready)
    }

    /// A poll at `elapsed` fires a tick.
    pub open spec fn due(self, elapsed: u64) -> bool {
        !self.busy() && elapsed >= self.next_tick
    }

    /// The heartbeat of a tick that fires at wall time `now`.
    pub open spec fn message(self, now: Timestamp) -> Heartbeat {
        Heartbeat {
            heartbeat_id: self.next_heartbeat_id,
            timestamp: now,
            node_type: NodeType::JobManager,
            execution_id: self.execution_id,
        }
    }

    /// The state after a tick has fired: the next tick is one period after
    /// the last deadline, the counter has moved on, every invocation is
    /// running.
    pub open spec fn fired(self) -> Self {
        HeartbeatState {
            next_tick: saturating_sum(self.next_tick, spec_millis(self.period)),
            next_heartbeat_id: next_id(self.next_heartbeat_id),
            ready: spec_flags(self.gateways(), false),
            ..self
        }
    }

    /// State and action of a poll.
    pub open spec fn poll(self, elapsed: u64, now: Timestamp) -> (Self, ActionView<Heartbeat>) {
        if self.busy() {
            (self, ActionView::AwaitCompletion)
        } else if elapsed < self.next_tick {
            (self, ActionView::Sleep { until: self.next_tick })
        } else {
            (
                self.fired(),
                ActionView::Send { dispatches: spec_fan_out(self.message(now), self.gateways()) },
            )
        }
    }

    /// The state after the invocation at `gateway` has completed.
    pub open spec fn completed(self, gateway: usize) -> Self {
        HeartbeatState { ready: spec_mark_ready(self.ready, gateway), ..self }
    }

    /// The state after the owner has set the execution id.
    pub open spec fn updated(self, execution_id: ExecutionId) -> Self {
        HeartbeatState { execution_id: Some(execution_id), ..self }
    }

    /// The state after one event.
    pub open spec fn apply(self, event: HeartbeatEvent) -> Self {
        match event {
            HeartbeatEvent::Poll { elapsed, now } => self.poll(elapsed, now).0,
            HeartbeatEvent::Completed { gateway } => self.completed(gateway),
            HeartbeatEvent::Update { execution_id } => self.updated(execution_id),
        }
    }

    /// The heartbeat that one event sends to the gateways, if it sends one.
    pub open spec fn emission(self, event: HeartbeatEvent) -> Option<Emission> {
        match event {
            HeartbeatEvent::Poll { elapsed, now } => if self.due(elapsed) {
                Some(Emission { at: elapsed, message: self.message(now) })
            } else {
                None
            },
            _ => None,
        }
    }

    /// The state after a sequence of events.
    pub open spec fn run(self, events: Seq<HeartbeatEvent>) -> Self
        decreases events.len(),
    {
        if events.len() == 0 {
            self
        } else {
            self.run(events.drop_last()).apply(events.last())
        }
    }

    /// The heartbeats that a sequence of events sends, in order.
    pub open spec fn trace(self, events: Seq<HeartbeatEvent>) -> Seq<Emission>
        decreases events.len(),
    {
        if events.len() == 0 {
            Seq::empty()
        } else {
            let sent = self.trace(events.drop_last());
            match self.run(events.drop_last()).emission(events.last()) {
                Some(emission) => sent.push(emission),
                None => sent,
            }
        }
    }
}

impl HeartbeatBuilder {
    /// Builds the engine: one gateway per configured node, the first tick
    /// one period after start, no execution id, the counter at 0.
    pub fn build(&self) -> (sender: HeartbeatSender)
        requires
            self.period > 0,
        ensures
            sender@ == HeartbeatState::fresh(self.period, self.node_addrs@.len()),
    {
        let sender = HeartbeatSender {
            period: self.period,
            next_tick: millis(self.period),
            execution_id: None,
            current_heartbeat_id: SequenceCounter::new(),
            ready: flags(self.node_addrs.len(), true),
        };
        assert(sender@ =~= HeartbeatState::fresh(self.period, self.node_addrs@.len()));
        sender
    }

    /// What each gateway is made from, in the order of the configured nodes:
    /// the node's address in its wire form, and the two timeouts.
    pub fn gateway_args(&self) -> (args: Vec<GatewayArgs>)
        ensures
            args@.len() == self.node_addrs@.len(),
            forall|i: int|
                0 <= i < args@.len() ==> {
                    &&& (#[trigger] args@[i]).addr.host@ == self.node_addrs@[i].host@
                    &&& args@[i].addr.port == self.node_addrs@[i].port
                    &&& args@[i].connection_timeout == self.connection_timeout
                    &&& args@[i].rpc_timeout == self.rpc_timeout
                },
    {
        let mut args: Vec<GatewayArgs> = Vec::new();
        let mut i: usize = 0;
        while i < self.node_addrs.len()
            invariant
                i <= self.node_addrs@.len(),
                args@.len() == i,
                forall|j: int|
                    0 <= j < i ==> {
                        &&& (#[trigger] args@[j]).addr.host@ == self.node_addrs@[j].host@
                        &&& args@[j].addr.port == self.node_addrs@[j].port
                        &&& args@[j].connection_timeout == self.connection_timeout
                        &&& args@[j].rpc_timeout == self.rpc_timeout
                    },
            decreases self.node_addrs@.len() - i,
        {
            args.push(
                GatewayArgs {
                    addr: to_host_addr(&self.node_addrs[i]),
                    connection_timeout: self.connection_timeout,
                    rpc_timeout: self.rpc_timeout,
                },
            );
            i += 1;
        }
        args
    }
}

/// A heartbeat engine. The caller polls it with the milliseconds elapsed
/// since it was built, starts the invocations it asks for and reports each
/// completion.
#[derive(Debug)]
pub struct HeartbeatSender {
    period: u64,
    next_tick: u64,
    execution_id: Option<ExecutionId>,
    current_heartbeat_id: SequenceCounter,
    ready: Vec<bool>,
}

impl View for HeartbeatSender {
    type V = HeartbeatState;

    closed spec fn view(&self) -> HeartbeatState {
        HeartbeatState {
            period: self.period,
            next_tick: self.next_tick,
            execution_id: self.execution_id,
            next_heartbeat_id: self.current_heartbeat_id.peek(),
            ready: self.ready@,
        }
    }
}

impl HeartbeatSender {
    /// Sets the execution id that every later heartbeat carries.
    pub fn update_execution_id(&mut self, execution_id: ExecutionId)
        ensures
            final(self)@ == old(self)@.updated(execution_id),
    {
        self.execution_id = Some(execution_id)
    }

    /// Polls the engine `elapsed` milliseconds after it was built, at wall time
    /// `now`. While an invocation of the current tick is running, nothing
    /// changes and the caller is told to wait for it. Before the next tick is
    /// due, nothing changes and the caller is told until when to sleep.
    /// Otherwise the tick fires: one heartbeat, with the next identifier,
    /// for every gateway.
    pub fn poll(&mut self, elapsed: u64, now: Timestamp) -> (action: Action<Heartbeat>)
        ensures
            final(self)@ == old(self)@.poll(elapsed, now).0,
            action@ == old(self)@.poll(elapsed, now).1,
    {
        if in_flight(&self.ready) {
            return Action::AwaitCompletion;
        }
        if elapsed < self.next_tick {
            return Action::Sleep { until: self.next_tick };
        }
        let ghost before = self@;
        let gateways: usize = self.ready.len();
        let heartbeat_id: u64 = self.current_heartbeat_id.fetch_increment();
        let message = Heartbeat {
            heartbeat_id,
            timestamp: now,
            node_type: NodeType::JobManager,
            execution_id: self.execution_id,
        };
        self.next_tick = saturating_add_time(self.next_tick, millis(self.period));
        self.ready = flags(gateways, false);
        assert(self@ =~= before.fired());
        Action::Send { dispatches: fan_out(message, gateways) }
    }

    /// Reports that the invocation at `gateway` has completed. Its outcome
    /// plays no part.
    pub fn complete(&mut self, gateway: usize)
        ensures
            final(self)@ == old(self)@.completed(gateway),
    {
        mark_ready(&mut self.ready, gateway);
    }
}

/// Milliseconds since start at which tick number `tick` (counted from 0) is
/// due: `tick + 1` periods of `period` seconds, held at the largest time
/// that fits.
pub open spec fn deadline(period: u64, tick: nat) -> int {
    if (tick + 1) * (period * 1000) > u64::MAX {
        u64::MAX as int
    } else {
        (tick + 1) * (period * 1000)
    }
}

/// No event but an update touches the execution id.
pub open spec fn no_update(events: Seq<HeartbeatEvent>) -> bool {
    forall|i: int| 0 <= i < events.len() ==> !(#[trigger] events[i] is Update)
}

proof fn lemma_push(state: HeartbeatState, events: Seq<HeartbeatEvent>, event: HeartbeatEvent)
    ensures
        state.run(events.push(event)) == state.run(events).apply(event),
        state.trace(events.push(event)) == (match state.run(events).emission(event) {
            Some(emission) => state.trace(events).push(emission),
            None => state.trace(events),
        }),
{
    assert(events.push(event).drop_last() =~= events);
}

proof fn lemma_deadline_step(period: u64, tick: nat)
    ensures
        deadline(period, tick + 1) == saturating_sum(
            deadline(period, tick) as u64,
            spec_millis(period),
        ),
        0 <= deadline(period, tick) <= u64::MAX,
        deadline(period, 0) == spec_millis(period),
{
    let step = period * 1000;
    assert((tick + 2) * step == (tick + 1) * step + step) by (nonlinear_arith);
    assert((tick + 1) * step >= step) by (nonlinear_arith)
        requires
            step >= 0,
    ;
    assert(1 * step == step);
}

/// A tick reaches every gateway once: where a poll fires, it asks for as many
/// invocations as there are gateways, the one at position `i` for gateway
/// `i`, and all of them carry the same heartbeat, with one identifier and one
/// timestamp.
pub proof fn lemma_tick_reaches_every_gateway(state: HeartbeatState, elapsed: u64, now: Timestamp)
    requires
        state.due(elapsed),
        state.gateways() <= usize::MAX,
    ensures
        state.poll(elapsed, now).1 is Send,
        state.poll(elapsed, now).1->dispatches.len() == state.gateways(),
        forall|i: int|
            0 <= i < state.gateways() ==> {
                &&& (#[trigger] state.poll(elapsed, now).1->dispatches[i]).gateway == i
                &&& state.poll(elapsed, now).1->dispatches[i].message == state.message(now)
            },
        state.message(now).heartbeat_id == state.next_heartbeat_id,
        state.message(now).timestamp == now,
        state.emission(HeartbeatEvent::Poll { elapsed, now }) == Some(
            Emission { at: elapsed, message: state.message(now) },
        ),
        state.poll(elapsed, now).0.busy() <==> state.gateways() > 0,
{
    let after = state.poll(elapsed, now).0;
    if state.gateways() > 0 {
        assert(!after.ready[0]);
    }
}

/// A poll that does not fire asks for no invocation and leaves the engine
/// as it was.
pub proof fn lemma_no_tick_no_invocation(state: HeartbeatState, elapsed: u64, now: Timestamp)
    requires
        !state.due(elapsed),
    ensures
        !(state.poll(elapsed, now).1 is Send),
        state.poll(elapsed, now).0 == state,
        state.emission(HeartbeatEvent::Poll { elapsed, now }) is None,
{
}

/// Whatever happens to a freshly built engine, the heartbeats it sends carry
/// the identifiers 0, 1, 2, ... in the order in which they are sent, up to
/// the largest identifier.
pub proof fn lemma_heartbeat_ids_count_up(
    period: u64,
    gateways: nat,
    events: Seq<HeartbeatEvent>,
)
    ensures
        forall|i: int|
            0 <= i < HeartbeatState::fresh(period, gateways).trace(events).len() && i <= u64::MAX
                ==> (#[trigger] HeartbeatState::fresh(period, gateways).trace(
                events,
            )[i]).message.heartbeat_id == i,
        HeartbeatState::fresh(period, gateways).trace(events).len() <= u64::MAX
            ==> HeartbeatState::fresh(period, gateways).run(events).next_heartbeat_id
            == HeartbeatState::fresh(period, gateways).trace(events).len(),
    decreases events.len(),
{
    if events.len() > 0 {
        lemma_heartbeat_ids_count_up(period, gateways, events.drop_last());
    }
}

/// Whatever happens to a freshly built engine, tick number `i` fires no
/// earlier than `i + 1` periods after start, and after `n` ticks the next one
/// is due `n + 1` periods after start: the first after one period, each
/// later one a period after the deadline before it.
pub proof fn lemma_ticks_keep_the_period(
    period: u64,
    gateways: nat,
    events: Seq<HeartbeatEvent>,
)
    ensures
        forall|i: int|
            0 <= i < HeartbeatState::fresh(period, gateways).trace(events).len() ==> (
            #[trigger] HeartbeatState::fresh(period, gateways).trace(events)[i]).at >= deadline(
                period,
                i as nat,
            ),
        HeartbeatState::fresh(period, gateways).run(events).next_tick == deadline(
            period,
            HeartbeatState::fresh(period, gateways).trace(events).len(),
        ),
        HeartbeatState::fresh(period, gateways).run(events).period == period,
    decreases events.len(),
{
    let start = HeartbeatState::fresh(period, gateways);
    if events.len() > 0 {
        let earlier = events.drop_last();
        lemma_ticks_keep_the_period(period, gateways, earlier);
        lemma_deadline_step(period, start.trace(earlier).len());
    } else {
        lemma_deadline_step(period, 0);
    }
}

/// An update of the execution id between two ticks leaves the heartbeats
/// sent before it as they were, and every heartbeat sent after it, until the
/// next update, carries the new id.
pub proof fn lemma_update_applies_from_next_tick(
    state: HeartbeatState,
    before: Seq<HeartbeatEvent>,
    execution_id: ExecutionId,
    after: Seq<HeartbeatEvent>,
)
    requires
        no_update(after),
    ensures
        state.run(before.push(HeartbeatEvent::Update { execution_id }) + after).execution_id
            == Some(execution_id),
        state.trace(before).len() <= state.trace(
            before.push(HeartbeatEvent::Update { execution_id }) + after,
        ).len(),
        forall|i: int|
            0 <= i < state.trace(before).len() ==> (#[trigger] state.trace(
                before.push(HeartbeatEvent::Update { execution_id }) + after,
            )[i]) == state.trace(before)[i],
        forall|i: int|
            state.trace(before).len() <= i < state.trace(
                before.push(HeartbeatEvent::Update { execution_id }) + after,
            ).len() ==> (#[trigger] state.trace(
                before.push(HeartbeatEvent::Update { execution_id }) + after,
            )[i]).message.execution_id == Some(execution_id),
    decreases after.len(),
{
    let update = HeartbeatEvent::Update { execution_id };
    let all = before.push(update) + after;
    if after.len() == 0 {
        assert(all =~= before.push(update));
        lemma_push(state, before, update);
    } else {
        let shorter = after.drop_last();
        assert(no_update(shorter)) by {
            assert forall|i: int| 0 <= i < shorter.len() implies !(#[trigger] shorter[i]
                is Update) by {
                assert(shorter[i] == after[i]);
            }
        }
        lemma_update_applies_from_next_tick(state, before, execution_id, shorter);
        assert(all.drop_last() =~= before.push(update) + shorter);
        assert(all.last() == after.last());
        assert(!(after[after.len() - 1] is Update));
    }
}

/// A heartbeat carries the execution id that the engine holds when its tick
/// fires: none for an engine on which no update was made.
pub proof fn lemma_no_update_no_execution_id(
    period: u64,
    gateways: nat,
    events: Seq<HeartbeatEvent>,
)
    requires
        no_update(events),
    ensures
        HeartbeatState::fresh(period, gateways).run(events).execution_id is None,
        forall|i: int|
            0 <= i < HeartbeatState::fresh(period, gateways).trace(events).len() ==> (
            #[trigger] HeartbeatState::fresh(period, gateways).trace(
                events,
            )[i]).message.execution_id is None,
    decreases events.len(),
{
    if events.len() > 0 {
        let shorter = events.drop_last();
        assert(no_update(shorter)) by {
            assert forall|i: int| 0 <= i < shorter.len() implies !(#[trigger] shorter[i]
                is Update) by {
                assert(shorter[i] == events[i]);
            }
        }
        lemma_no_update_no_execution_id(period, gateways, shorter);
        assert(!(events[events.len() - 1] is Update));
    }
}

} // verus!
