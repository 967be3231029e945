//! The one-shot wrapper: a delegated conversation scoped to exactly one
//! caller-supplied input, self-terminating on completion.
//!
//! Two decisions make a delegation one-shot. First, the handle handed back
//! carries an outbound channel whose receiving end was dropped before the
//! caller ever saw it, so no second operation can reach the sub-agent.
//! Second, a bridge watches the delegation's event stream and, on the first
//! terminal event (`TaskComplete` or `TurnAborted`), forwards that event,
//! submits exactly one `Shutdown` into the sub-agent, cancels its own
//! scoped token, and stops — nothing after the terminal event is ever
//! delivered.

use vstd::prelude::*;
use vstd::string::StringExecFns;

use crate::SUBMISSION_CHANNEL_CAPACITY;
use crate::channel::BoundedChan;
use crate::conversation::Llmx;
use crate::forwarder::approval_count;
use crate::forwarder::kept;
use crate::forwarder::lemma_forwarder_ordering;
use crate::forwarder::replies_of;
use crate::forwarder::run_forwarder;
use crate::forwarder::split_trace;
use crate::forwarder::trace_of;
use crate::protocol::Event;
use crate::protocol::EventMsg;
use crate::protocol::Op;
use crate::protocol::ReviewDecision;
use crate::protocol::Submission;

verus! {

/// A turn's terminal events: after one of these the one-shot bridge shuts
/// the delegation down. An aborted turn is treated like a completed one —
/// it still gets a graceful `Shutdown`.
pub open spec fn is_terminal(m: EventMsg) -> bool {
    m is TaskComplete || m is TurnAborted
}

pub fn is_terminal_event(e: &Event) -> (b: bool)
    ensures
        b == is_terminal(e.msg),
{
    match &e.msg {
        EventMsg::TaskComplete(_) => true,
        EventMsg::TurnAborted(_) => true,
        _ => false,
    }
}

pub open spec fn has_terminal(events: Seq<Event>) -> bool
    decreases events.len(),
{
    if events.len() == 0 {
        false
    } else {
        is_terminal(events[0].msg) || has_terminal(events.skip(1))
    }
}

/// What the bridge delivers: the stream up to and including its first
/// terminal event, or all of it when no turn ever ends.
pub open spec fn bridge_forwarded(events: Seq<Event>) -> Seq<Event>
    decreases events.len(),
{
    if events.len() == 0 {
        Seq::empty()
    } else if is_terminal(events[0].msg) {
        seq![events[0]]
    } else {
        seq![events[0]] + bridge_forwarded(events.skip(1))
    }
}

/// The observable outcome of the completion bridge.
pub struct BridgeRun {
    /// What reached the one-shot caller, in order.
    pub forwarded: Vec<Event>,
    /// The shutdown submitted into the sub-agent — exactly one when a
    /// terminal event arrived, none otherwise.
    pub shutdown_ops: Vec<Submission>,
    /// Whether the bridge cancelled its scoped token, tearing down the
    /// delegation's forwarder tasks.
    pub cancelled: bool,
}

/// The completion bridge over a finished delegation stream: forward each
/// event in order; on the first terminal event, forward it too, submit one
/// `Shutdown`, cancel the scoped token, and read no further.
pub fn run_bridge(events: Vec<Event>) -> (r: BridgeRun)
    ensures
        r.forwarded@ == bridge_forwarded(events@),
        r.cancelled == has_terminal(events@),
        has_terminal(events@) ==> r.shutdown_ops@.len() == 1 && r.shutdown_ops@[0].op
            == Op::Shutdown && r.shutdown_ops@[0].id@ == "shutdown"@,
        !has_terminal(events@) ==> r.shutdown_ops@.len() == 0,
{
    let ghost evs = events@;
    let mut events = events;
    let mut forwarded: Vec<Event> = Vec::new();
    let mut shutdown_ops: Vec<Submission> = Vec::new();
    let mut cancelled = false;
    while !cancelled && events.len() > 0
        invariant
            !cancelled ==> bridge_forwarded(evs) == forwarded@ + bridge_forwarded(events@)
                && has_terminal(evs) == has_terminal(events@) && shutdown_ops@.len() == 0,
            cancelled ==> forwarded@ == bridge_forwarded(evs) && has_terminal(evs)
                && shutdown_ops@.len() == 1 && shutdown_ops@[0].op == Op::Shutdown
                && shutdown_ops@[0].id@ == "shutdown"@,
        decreases events.len(),
    {
        let ghost pre_events = events@;
        let ghost pre_forwarded = forwarded@;
        let e = events.remove(0);
        let terminal = is_terminal_event(&e);
        forwarded.push(e);
        proof {
            assert(forwarded@ =~= pre_forwarded + seq![pre_events[0]]);
        }
        if terminal {
            shutdown_ops.push(Submission { id: String::from_str("shutdown"), op: Op::Shutdown });
            cancelled = true;
            proof {
                assert(bridge_forwarded(pre_events) == seq![pre_events[0]]);
                assert(forwarded@ =~= pre_forwarded + bridge_forwarded(pre_events));
            }
        } else {
            proof {
                assert(bridge_forwarded(pre_events) == seq![pre_events[0]] + bridge_forwarded(
                    events@,
                ));
                assert(pre_forwarded + (seq![pre_events[0]] + bridge_forwarded(events@))
                    =~= forwarded@ + bridge_forwarded(events@));
            }
        }
    }
    proof {
        if !cancelled {
            assert(bridge_forwarded(events@) =~= Seq::<Event>::empty());
            assert(forwarded@ + bridge_forwarded(events@) =~= forwarded@);
        }
    }
    BridgeRun { forwarded, shutdown_ops, cancelled }
}

/// Auto-shutdown law: if the stream's first terminal event sits at
/// position `i`, the bridge delivers exactly the first `i + 1` events —
/// nothing after the terminal event is ever observed — and, by
/// `run_bridge`'s contract, exactly one `Shutdown` and the scoped
/// cancellation follow.
pub proof fn lemma_bridge_stops_at_terminal(events: Seq<Event>, i: int)
    requires
        0 <= i < events.len(),
        is_terminal(events[i].msg),
        forall|j: int| 0 <= j < i ==> !is_terminal(events[j].msg),
    ensures
        bridge_forwarded(events) == events.take(i + 1),
        has_terminal(events),
    decreases i,
{
    if i == 0 {
        assert(bridge_forwarded(events) == seq![events[0]]);
        assert(seq![events[0]] =~= events.take(1));
    } else {
        let rest = events.skip(1);
        assert(forall|j: int| 0 <= j < i - 1 ==> !is_terminal(rest[j].msg));
        lemma_bridge_stops_at_terminal(rest, i - 1);
        assert(bridge_forwarded(events) == seq![events[0]] + rest.take(i));
        assert(seq![events[0]] + rest.take(i) =~= events.take(i + 1));
    }
}

/// Without a terminal event the bridge is transparent: everything is
/// delivered and nothing is shut down or cancelled.
pub proof fn lemma_bridge_forwards_all(events: Seq<Event>)
    requires
        !has_terminal(events),
    ensures
        bridge_forwarded(events) == events,
    decreases events.len(),
{
    if events.len() == 0 {
        assert(bridge_forwarded(events) =~= events);
    } else {
        lemma_bridge_forwards_all(events.skip(1));
        assert(seq![events[0]] + events.skip(1) =~= events);
    }
}

/// An outbound channel born closed: its receiving end is dropped before
/// anyone can submit through it.
pub fn closed_ops_channel() -> (c: BoundedChan<Submission>)
    ensures
        c.wf(),
        !c.receiver_open,
        c.contents() == Seq::<Submission>::empty(),
{
    let mut c = BoundedChan::new(SUBMISSION_CHANNEL_CAPACITY);
    c.close_receiver();
    c
}

/// The handle a one-shot launch returns. Its event side is the bridge
/// channel; its operation side is already closed, so by `Llmx::submit`'s
/// contract every submission attempted after construction reports
/// `ChannelClosed` and leaves the handle untouched — a one-shot caller
/// cannot inject a second turn.
pub fn one_shot_handle(rx_event: BoundedChan<Event>) -> (h: Llmx)
    requires
        rx_event.wf(),
    ensures
        h.wf(),
        h.ops_closed(),
        h.rx_event == rx_event,
        h.next_id == 0,
{
    Llmx { next_id: 0, tx_sub: closed_ops_channel(), rx_event }
}

/// The observable outcome of a whole one-shot delegation.
pub struct OneShotRun {
    /// What the one-shot caller saw, in order.
    pub delivered: Vec<Event>,
    /// The approval replies answered back into the sub-agent, in order.
    pub replies: Vec<Op>,
    /// The bridge's shutdown submission, when a turn ended.
    pub shutdown_ops: Vec<Submission>,
    /// Whether the bridge cancelled its scoped token.
    pub cancelled: bool,
}

/// A one-shot delegation, end to end, over a finished sub-agent stream:
/// the event forwarder filters and answers approvals, the completion
/// bridge delivers the remainder up to the first terminal event and then
/// shuts the sub-agent down.
pub fn run_one_shot(events: Vec<Event>, decisions: Vec<ReviewDecision>) -> (r: OneShotRun)
    requires
        decisions@.len() == approval_count(events@),
    ensures
        r.delivered@ == bridge_forwarded(kept(events@)),
        r.replies@ == replies_of(trace_of(events@, decisions@)),
        r.cancelled == has_terminal(kept(events@)),
        has_terminal(kept(events@)) ==> r.shutdown_ops@.len() == 1 && r.shutdown_ops@[0].op
            == Op::Shutdown,
        !has_terminal(kept(events@)) ==> r.shutdown_ops@.len() == 0,
{
    let ghost evs = events@;
    let ghost ds = decisions@;
    let t = run_forwarder(events, decisions);
    let (delivered, replies) = split_trace(t);
    proof {
        lemma_forwarder_ordering(evs, ds);
    }
    let b = run_bridge(delivered);
    OneShotRun {
        delivered: b.forwarded,
        replies,
        shutdown_ops: b.shutdown_ops,
        cancelled: b.cancelled,
    }
}

} // verus!
