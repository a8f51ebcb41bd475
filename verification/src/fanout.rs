//! Fan-out of one message to every gateway, and the join that tells when all
//! of a tick's invocations have completed.

use vstd::prelude::*;

verus! {

/// One invocation that the caller owes: hand `message` to the gateway at
/// position `gateway`.
#[derive(Clone, Copy, Debug, PartialEq, Eq)]
pub struct Dispatch<M> {
    pub gateway: usize,
    pub message: M,
}

/// What an engine asks of its caller after a poll.
#[derive(Debug)]
pub enum Action<M> {
    /// Nothing is due: suspend until `until` milliseconds have elapsed since
    /// start.
    Sleep { until: u64 },
    /// Invocations of the current tick are still running: suspend until one
    /// completes and report it.
    AwaitCompletion,
    /// The tick fired with nothing to deliver: poll again.
    Idle,
    /// The tick fired: start every invocation listed, then poll again.
    Send { dispatches: Vec<Dispatch<M>> },
}

/// An [`Action`] with its invocations as a sequence.
pub enum ActionView<M> {
    Sleep { until: u64 },
    AwaitCompletion,
    Idle,
    Send { dispatches: Seq<Dispatch<M>> },
}

impl<M> View for Action<M> {
    type V = ActionView<M>;

    open spec fn view(&self) -> ActionView<M> {
        match self {
            Action::Sleep { until } => ActionView::Sleep { until: *until },
            Action::AwaitCompletion => ActionView::AwaitCompletion,
            Action::Idle => ActionView::Idle,
            Action::Send { dispatches } => ActionView::Send { dispatches: dispatches@ },
        }
    }
}

/// One invocation per gateway, in gateway order, all with the same message.
pub open spec fn spec_fan_out<M>(message: M, gateways: nat) -> Seq<Dispatch<M>> {
    Seq::new(gateways, |i: int| Dispatch { gateway: i as usize, message })
}

/// Builds the invocations of one tick.
pub fn fan_out<M: Copy>(message: M, gateways: usize) -> (dispatches: Vec<Dispatch<M>>)
    ensures
        dispatches@ == spec_fan_out(message, gateways as nat),
{
    let mut dispatches: Vec<Dispatch<M>> = Vec::new();
    let mut i: usize = 0;
    while i < gateways
        invariant
            i <= gateways,
            dispatches@ =~= spec_fan_out(message, i as nat),
        decreases gateways - i,
    {
        dispatches.push(Dispatch { gateway: i, message });
        i += 1;
    }
    dispatches
}

/// Every invocation has completed. Holds of a tick without gateways.
pub open spec fn all_ready(ready: Seq<bool>) -> bool {
    forall|i: int| 0 <= i < ready.len() ==> ready[i]
}

/// The readiness flags combined with logical AND; nothing where there are none.
pub open spec fn spec_join(ready: Seq<bool>) -> Option<bool> {
    if ready.len() == 0 {
        None
    } else {
        Some(all_ready(ready))
    }
}

/// Combines the readiness of a tick's invocations with logical AND.
pub fn join(ready: &Vec<bool>) -> (joined: Option<bool>)
    ensures
        joined == spec_join(ready@),
{
    if ready.len() == 0 {
        return None;
    }
    let mut all: bool = true;
    let mut i: usize = 0;
    while i < ready.len()
        invariant
            i <= ready.len(),
            all == all_ready(ready@.take(i as int)),
        decreases ready.len() - i,
    {
        if !ready[i] {
            all = false;
        }
        proof {
            let before = ready@.take(i as int);
            let after = ready@.take(i + 1);
            assert(forall|j: int| 0 <= j < before.len() ==> before[j] == after[j]);
            assert(after[i as int] == ready@[i as int]);
            if all_ready(before) && ready@[i as int] {
                assert(all_ready(after));
            }
        }
        i += 1;
    }
    assert(ready@.take(i as int) =~= ready@);
    Some(all)
}

/// Whether some invocation of the current tick is still running.
pub fn in_flight(ready: &Vec<bool>) -> (busy: bool)
    ensures
        busy == !all_ready(ready@),
{
    match join(ready) {
        Some(all) => !all,
        None => false,
    }
}

/// Readiness flags of `gateways` invocations, each set to `value`.
pub open spec fn spec_flags(gateways: nat, value: bool) -> Seq<bool> {
    Seq::new(gateways, |i: int| value)
}

/// Makes the readiness flags of `gateways` invocations, each set to `value`.
pub fn flags(gateways: usize, value: bool) -> (ready: Vec<bool>)
    ensures
        ready@ == spec_flags(gateways as nat, value),
{
    let mut ready: Vec<bool> = Vec::new();
    let mut i: usize = 0;
    while i < gateways
        invariant
            i <= gateways,
            ready@ =~= spec_flags(i as nat, value),
        decreases gateways - i,
    {
        ready.push(value);
        i += 1;
    }
    ready
}

/// The flags after the invocation at `gateway` has completed. A position
/// that names no gateway changes nothing.
pub open spec fn spec_mark_ready(ready: Seq<bool>, gateway: usize) -> Seq<bool> {
    if gateway < ready.len() {
        ready.update(gateway as int, true)
    } else {
        ready
    }
}

/// Records that the invocation at `gateway` has completed, whatever its
/// outcome was.
pub fn mark_ready(ready: &mut Vec<bool>, gateway: usize)
    ensures
        final(ready)@ == spec_mark_ready(old(ready)@, gateway),
{
    if gateway < ready.len() {
        ready.set(gateway, true);
    }
}

} // verus!
