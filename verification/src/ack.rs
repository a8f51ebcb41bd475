//! The acknowledgment broadcast engine: callers submit messages to a bounded
//! queue, and the engine delivers at most one per flush to every gateway,
//! with flushes at least one delay apart.

use vstd::prelude::*;
use tokio::sync::mpsc::error::TryRecvError;
use tokio::sync::mpsc::{Receiver, Sender};
use crate::addr::PersistableHostAddr;
use crate::fanout::{
    all_ready, fan_out, flags, in_flight, mark_ready, spec_fan_out, spec_flags, spec_mark_ready,
    Action, ActionView,
};
use crate::clock::{millis, saturating_add_time, saturating_sum, spec_millis};
use crate::message::Ack;

verus! {

/// The receiving end of tokio's bounded channel. Nothing inside is visible.
#[verifier::external_type_specification]
#[verifier::external_body]
#[verifier::reject_recursive_types(T)]
pub struct ExReceiver<T>(Receiver<T>);

/// The sending end of tokio's bounded channel. Nothing inside is visible.
#[verifier::external_type_specification]
#[verifier::external_body]
#[verifier::reject_recursive_types(T)]
pub struct ExSender<T>(Sender<T>);

/// The largest capacity that a queue can be made with: the most permits
/// that tokio's semaphore holds, `usize::MAX` shifted right by three bits.
pub const MAX_BUFFER: usize = usize::MAX / 8;

/// The number of messages that the channel behind `sender` was made to hold,
/// as `Sender::max_capacity` reports it.
pub uninterp spec fn channel_bound(sender: &Sender<Ack>) -> nat;

/// What an attempt to take a message from the queue found.
#[derive(Clone, Copy, Debug, PartialEq, Eq, Structural)]
pub enum Dequeued {
    /// The message at the head of the queue, now removed from it.
    Message(Ack),
    /// The queue holds nothing at the moment.
    Empty,
    /// The queue holds nothing and no submission handle is left.
    Closed,
}

/// Calls `tokio::sync::mpsc::channel`, which makes a bounded channel and
/// panics on a capacity of 0 or above the semaphore's limit. Claimed: the
/// sending end reports the capacity it was made with.
#[verifier::external_body]
fn bounded_channel(capacity: usize) -> (ends: (Sender<Ack>, Receiver<Ack>))
    requires
        0 < capacity <= MAX_BUFFER,
    ensures
        channel_bound(&ends.0) == capacity,
{
    tokio::sync::mpsc::channel(capacity)
}

/// Calls `Receiver::try_recv`, which takes the message at the head of the
/// channel without suspending. Nothing is claimed of the outcome: it depends
/// on what the holders of the sending end have done.
#[verifier::external_body]
fn try_take(recv: &mut Receiver<Ack>) -> (taken: Dequeued) {
    match recv.try_recv() {
        Ok(ack) => Dequeued::Message(ack),
        Err(TryRecvError::Empty) => Dequeued::Empty,
        Err(TryRecvError::Disconnected) => Dequeued::Closed,
    }
}

/// Settings of an ack engine.
#[derive(Clone, Debug)]
pub struct AckResponderBuilder {
    /// Delay between two flushes, in seconds.
    pub delay: u64,
    /// Capacity of the queue.
    pub buf_size: usize,
    /// The nodes that acknowledgments go to.
    pub nodes: Vec<PersistableHostAddr>,
    /// Timeout of a gateway's connection, in seconds.
    pub connection_timeout: u64,
    /// Timeout of a gateway's request, in seconds.
    pub rpc_timeout: u64,
}

/// State of an ack engine, as contracts see it. The queue is not part of it:
/// its content changes whenever a holder of the handle submits.
pub struct AckState {
    /// Delay between two flushes, in seconds.
    pub delay: u64,
    /// Milliseconds since start at which the next flush is due.
    pub next_flush: u64,
    /// Per gateway: whether its invocation of the current flush has completed.
    pub ready: Seq<bool>,
}

/// What can happen to an ack engine.
pub enum AckEvent {
    /// The engine is polled `elapsed` milliseconds after start, with `taken` being
    /// what the queue gives if the engine asks it.
    Poll { elapsed: u64, taken: Dequeued },
    /// The invocation at `gateway` has completed.
    Completed { gateway: usize },
}

/// A flush: when it happened, in milliseconds since start, and what the queue
/// gave.
pub struct Flush {
    pub at: u64,
    pub taken: Dequeued,
}

impl AckState {
    /// The state of an engine that was just built for `gateways` gateways.
    pub open spec fn fresh(delay: u64, gateways: nat) -> Self {
        AckState { delay, next_flush: spec_millis(delay), ready: spec_flags(gateways, true) }
    }

    pub open spec fn gateways(self) -> nat {
        self.ready.len()
    }

    /// An invocation of the current flush is still running.
    pub open spec fn busy(self) -> bool {
        !all_ready(self.ready)
    }

    /// A poll at `elapsed` flushes.
    pub open spec fn due(self, elapsed: u64) -> bool {
        !self.busy() && elapsed >= self.next_flush
    }

    /// State and action of a poll that does not flush.
    pub open spec fn waiting(self) -> (Self, ActionView<Ack>) {
        if self.busy() {
            (self, ActionView::AwaitCompletion)
        } else {
            (self, ActionView::Sleep { until: self.next_flush })
        }
    }

    /// State and action of a flush at `elapsed` that found `taken` in the
    /// queue. The timer is reset first: the next flush is one delay after
    /// this one. A message goes to every gateway; without one the flush is
    /// idle, whether the queue is empty for now or for good.
    pub open spec fn flushed(self, elapsed: u64, taken: Dequeued) -> (Self, ActionView<Ack>) {
        let next_flush = saturating_sum(elapsed, spec_millis(self.delay));
        match taken {
            Dequeued::Message(ack) => (
                AckState { next_flush, ready: spec_flags(self.gateways(), false), ..self },
                ActionView::Send { dispatches: spec_fan_out(ack, self.gateways()) },
            ),
            _ => (AckState { next_flush, ..self }, ActionView::Idle),
        }
    }

    /// State and action of a poll at `elapsed`, where the queue gives `taken`
    /// if it is asked.
    pub open spec fn poll(self, elapsed: u64, taken: Dequeued) -> (Self, ActionView<Ack>) {
        if self.due(elapsed) {
            self.flushed(elapsed, taken)
        } else {
            self.waiting()
        }
    }

    /// The state after the invocation at `gateway` has completed.
    pub open spec fn completed(self, gateway: usize) -> Self {
        AckState { ready: spec_mark_ready(self.ready, gateway), ..self }
    }

    /// The state after one event.
    pub open spec fn apply(self, event: AckEvent) -> Self {
        match event {
            AckEvent::Poll { elapsed, taken } => self.poll(elapsed, taken).0,
            AckEvent::Completed { gateway } => self.completed(gateway),
        }
    }

    /// The flush that one event brings about, if it brings one.
    pub open spec fn flush_of(self, event: AckEvent) -> Option<Flush> {
        match event {
            AckEvent::Poll { elapsed, taken } => if self.due(elapsed) {
                Some(Flush { at: elapsed, taken })
            } else {
                None
            },
            AckEvent::Completed { .. } => None,
        }
    }

    /// The state after a sequence of events.
    pub open spec fn run(self, events: Seq<AckEvent>) -> Self
        decreases events.len(),
    {
        if events.len() == 0 {
            self
        } else {
            self.run(events.drop_last()).apply(events.last())
        }
    }

    /// The flushes that a sequence of events brings about, in order.
    pub open spec fn flushes(self, events: Seq<AckEvent>) -> Seq<Flush>
        decreases events.len(),
    {
        if events.len() == 0 {
            Seq::empty()
        } else {
            let earlier = self.flushes(events.drop_last());
            match self.run(events.drop_last()).flush_of(events.last()) {
                Some(flush) => earlier.push(flush),
                None => earlier,
            }
        }
    }
}

/// An ack engine. The caller polls it with the milliseconds elapsed since it
/// was built, starts the invocations it asks for and reports each completion.
pub struct AckResponder {
    delay: u64,
    next_flush: u64,
    recv: Receiver<Ack>,
    ready: Vec<bool>,
}

impl View for AckResponder {
    type V = AckState;

    closed spec fn view(&self) -> AckState {
        AckState { delay: self.delay, next_flush: self.next_flush, ready: self.ready@ }
    }
}

impl AckResponderBuilder {
    /// Builds the engine and the handle through which messages are
    /// submitted: a queue of `buf_size` messages, one gateway per configured
    /// node, the first flush one delay after start.
    pub fn build(&self) -> (built: (AckResponder, Sender<Ack>))
        requires
            0 < self.buf_size <= MAX_BUFFER,
        ensures
            built.0@ == AckState::fresh(self.delay, self.nodes@.len()),
            channel_bound(&built.1) == self.buf_size,
    {
        let (tx, rx) = bounded_channel(self.buf_size);
        let responder = AckResponder {
            delay: self.delay,
            next_flush: millis(self.delay),
            recv: rx,
            ready: flags(self.nodes.len(), true),
        };
        assert(responder@ =~= AckState::fresh(self.delay, self.nodes@.len()));
        (responder, tx)
    }
}

impl AckResponder {
    /// Carries out a flush at `elapsed` for which the queue gave `taken`.
    pub fn flush(&mut self, elapsed: u64, taken: Dequeued) -> (action: Action<Ack>)
        ensures
            final(self)@ == old(self)@.flushed(elapsed, taken).0,
            action@ == old(self)@.flushed(elapsed, taken).1,
    {
        let ghost before = self@;
        self.next_flush = saturating_add_time(elapsed, millis(self.delay));
        match taken {
            Dequeued::Message(ack) => {
                let gateways: usize = self.ready.len();
                self.ready = flags(gateways, false);
                assert(self@ =~= before.flushed(elapsed, taken).0);
                Action::Send { dispatches: fan_out(ack, gateways) }
            },
            _ => {
                assert(self@ =~= before.flushed(elapsed, taken).0);
                Action::Idle
            },
        }
    }

    /// Polls the engine `elapsed` milliseconds after it was built. While an
    /// invocation of the current flush is running, or before the next flush
    /// is due, nothing changes and the queue is left alone. Otherwise the
    /// engine takes at most one message from the queue and flushes with what
    /// it found.
    pub fn poll(&mut self, elapsed: u64) -> (action: Action<Ack>)
        ensures
            exists|taken: Dequeued|
                final(self)@ == (#[trigger] old(self)@.poll(elapsed, taken)).0 && action@ == old(
                    self,
                )@.poll(elapsed, taken).1,
            !old(self)@.due(elapsed) ==> final(self)@ == old(self)@.waiting().0 && action@ == old(
                self,
            )@.waiting().1,
    {
        if in_flight(&self.ready) {
            assert(self@ == self@.poll(elapsed, Dequeued::Empty).0);
            return Action::AwaitCompletion;
        }
        if elapsed < self.next_flush {
            assert(self@ == self@.poll(elapsed, Dequeued::Empty).0);
            return Action::Sleep { until: self.next_flush };
        }
        let taken = try_take(&mut self.recv);
        let action = self.flush(elapsed, taken);
        assert(self@ == old(self)@.poll(elapsed, taken).0);
        action
    }

    /// Reports that the invocation at `gateway` has completed. Its outcome
    /// plays no part.
    pub fn complete(&mut self, gateway: usize)
        ensures
            final(self)@ == old(self)@.completed(gateway),
    {
        mark_ready(&mut self.ready, gateway);
    }
}

/// A flush that finds no message in the queue asks for no invocation, and
/// the timer still moves on: the next flush is due one delay later.
pub proof fn lemma_empty_queue_idle_flush(state: AckState, elapsed: u64, taken: Dequeued)
    requires
        !(taken is Message),
    ensures
        state.flushed(elapsed, taken).1 == ActionView::<Ack>::Idle,
        state.flushed(elapsed, taken).0.ready == state.ready,
        state.flushed(elapsed, taken).0.delay == state.delay,
        state.flushed(elapsed, taken).0.next_flush == saturating_sum(
            elapsed,
            spec_millis(state.delay),
        ),
{
}

/// A flush that finds a message asks for one invocation per gateway, the one
/// at position `i` for gateway `i`, each with that message.
pub proof fn lemma_message_reaches_every_gateway(state: AckState, elapsed: u64, ack: Ack)
    requires
        state.gateways() <= usize::MAX,
    ensures
        state.flushed(elapsed, Dequeued::Message(ack)).1 is Send,
        state.flushed(elapsed, Dequeued::Message(ack)).1->dispatches.len() == state.gateways(),
        forall|i: int|
            0 <= i < state.gateways() ==> {
                &&& (#[trigger] state.flushed(
                    elapsed,
                    Dequeued::Message(ack),
                ).1->dispatches[i]).gateway == i
                &&& state.flushed(elapsed, Dequeued::Message(ack)).1->dispatches[i].message == ack
            },
{
}

/// Whatever happens to a freshly built engine: the first flush comes no
/// earlier than one delay after start, each later one no earlier than one
/// delay after the flush before it, and the next is due one delay after the
/// last.
pub proof fn lemma_flushes_keep_the_delay(delay: u64, gateways: nat, events: Seq<AckEvent>)
    ensures
        forall|i: int|
            0 <= i < AckState::fresh(delay, gateways).flushes(events).len() ==> (
            #[trigger] AckState::fresh(delay, gateways).flushes(events)[i]).at >= (if i == 0 {
                spec_millis(delay)
            } else {
                saturating_sum(
                    AckState::fresh(delay, gateways).flushes(events)[i - 1].at,
                    spec_millis(delay),
                )
            }),
        AckState::fresh(delay, gateways).run(events).next_flush == (if AckState::fresh(
            delay,
            gateways,
        ).flushes(events).len() == 0 {
            spec_millis(delay)
        } else {
            saturating_sum(
                AckState::fresh(delay, gateways).flushes(events).last().at,
                spec_millis(delay),
            )
        }),
        AckState::fresh(delay, gateways).run(events).delay == delay,
    decreases events.len(),
{
    if events.len() > 0 {
        lemma_flushes_keep_the_delay(delay, gateways, events.drop_last());
    }
}

/// A poll that does not flush asks for no invocation and leaves the engine
/// as it was, whatever the queue holds.
pub proof fn lemma_no_flush_no_invocation(state: AckState, elapsed: u64, taken: Dequeued)
    requires
        !state.due(elapsed),
    ensures
        state.poll(elapsed, taken).0 == state,
        !(state.poll(elapsed, taken).1 is Send),
        state.flush_of(AckEvent::Poll { elapsed, taken }) is None,
{
}

} // verus!
