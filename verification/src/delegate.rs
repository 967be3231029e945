//! The op forwarder and the interactive delegation it composes into.
//!
//! An interactive delegation runs two independent tasks per sub-agent:
//! the event forwarder of `forwarder` and the op forwarder here, which
//! drains the caller's outbound channel and resubmits each operation into
//! the sub-agent under a fresh id. `run_interactive` is both tasks over
//! finished streams, proved against the same specifications their loops
//! carry.

use vstd::prelude::*;

use crate::forwarder::approval_count;
use crate::forwarder::kept;
use crate::forwarder::lemma_forwarder_ordering;
use crate::forwarder::replies_of;
use crate::forwarder::run_forwarder;
use crate::forwarder::split_trace;
use crate::forwarder::trace_of;
use crate::protocol::Event;
use crate::protocol::Op;
use crate::protocol::ReviewDecision;
use crate::protocol::Submission;

verus! {

/// What one raced receive on the caller's outbound channel yielded.
pub enum OpPoll {
    /// A submission arrived.
    Received(Submission),
    /// The channel closed or errored.
    Closed,
    /// The forwarder's scoped token was cancelled.
    Cancelled,
}

/// What the op forwarder does next.
#[derive(Clone, Debug, PartialEq, Eq)]
pub enum OpRelayAction {
    /// Resubmit this operation into the sub-agent; the caller-supplied id
    /// is discarded, the sub-agent handle assigns a fresh one. A failed
    /// resubmission is swallowed — the forwarder has nobody to report to.
    Relay(Op),
    /// Exit silently; the forwarder's end is observed only through the
    /// channels it leaves closed.
    Stop,
}

pub open spec fn spec_forward_op(p: OpPoll) -> OpRelayAction {
    match p {
        OpPoll::Received(s) => OpRelayAction::Relay(s.op),
        _ => OpRelayAction::Stop,
    }
}

/// One step of the op forwarder loop.
pub fn forward_ops_step(p: OpPoll) -> (a: OpRelayAction)
    ensures
        a == spec_forward_op(p),
{
    match p {
        OpPoll::Received(s) => OpRelayAction::Relay(s.op),
        OpPoll::Closed => OpRelayAction::Stop,
        OpPoll::Cancelled => OpRelayAction::Stop,
    }
}

/// The op forwarder over a finished outbound stream: every operation, in
/// the order the caller submitted it, stripped of its submission id.
pub fn relay_ops(subs: Vec<Submission>) -> (ops: Vec<Op>)
    ensures
        ops@ == subs@.map_values(|s: Submission| s.op),
{
    let ghost whole = subs@;
    let mut subs = subs;
    let mut ops: Vec<Op> = Vec::new();
    while subs.len() > 0
        invariant
            whole.map_values(|s: Submission| s.op) =~= ops@ + subs@.map_values(
                |s: Submission| s.op,
            ),
        decreases subs.len(),
    {
        let ghost pre = subs@;
        let ghost pre_ops = ops@;
        let s = subs.remove(0);
        match forward_ops_step(OpPoll::Received(s)) {
            OpRelayAction::Relay(op) => {
                ops.push(op);
            },
            OpRelayAction::Stop => {},
        }
        proof {
            assert(pre.map_values(|s: Submission| s.op) =~= seq![pre[0].op] + subs@.map_values(
                |s: Submission| s.op,
            ));
            assert(pre_ops + (seq![pre[0].op] + subs@.map_values(|s: Submission| s.op)) =~= ops@
                + subs@.map_values(|s: Submission| s.op));
        }
    }
    proof {
        assert(whole.map_values(|s: Submission| s.op) =~= ops@);
    }
    ops
}

/// The observable outcome of an interactive delegation's two forwarders.
pub struct InteractiveRun {
    /// What the caller's event channel received, in order.
    pub delivered: Vec<Event>,
    /// The approval replies answered into the sub-agent, in order.
    pub replies: Vec<Op>,
    /// The caller's operations as resubmitted into the sub-agent, in order.
    pub relayed_ops: Vec<Op>,
}

/// An interactive delegation over finished streams: the event forwarder
/// delivers exactly the deliverable events in order, answering every
/// approval through the relay's decisions, while the op forwarder passes
/// the caller's operations through in submission order.
pub fn run_interactive(
    events: Vec<Event>,
    decisions: Vec<ReviewDecision>,
    caller_subs: Vec<Submission>,
) -> (r: InteractiveRun)
    requires
        decisions@.len() == approval_count(events@),
    ensures
        r.delivered@ == kept(events@),
        r.replies@ == replies_of(trace_of(events@, decisions@)),
        r.relayed_ops@ == caller_subs@.map_values(|s: Submission| s.op),
{
    let ghost evs = events@;
    let ghost ds = decisions@;
    let t = run_forwarder(events, decisions);
    let (delivered, replies) = split_trace(t);
    proof {
        lemma_forwarder_ordering(evs, ds);
    }
    let relayed_ops = relay_ops(caller_subs);
    InteractiveRun { delivered, replies, relayed_ops }
}

} // verus!
