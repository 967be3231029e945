//! The event forwarder: the single sequential consumer of a sub-agent's
//! event stream.
//!
//! Per event, in arrival order, it decides one of three things: drop it
//! (streaming deltas and session boilerplate), intercept it (the two
//! approval requests, which are resolved through the parent and answered
//! back into the sub-agent), or deliver it unchanged to the caller. While
//! an approval is pending no later event is read: the reply to event K
//! always precedes the delivery of event K+1 in the forwarder's trace.
//!
//! `trace_of` is the forwarder's whole observable behaviour as one
//! mathematical function of the event stream and the relay's decisions;
//! `run_forwarder` is the loop, proved equal to it.

use vstd::prelude::*;

use crate::protocol::Event;
use crate::protocol::EventMsg;
use crate::protocol::Op;
use crate::protocol::ReviewDecision;

verus! {

/// What the forwarder does with one event.
#[derive(Clone, Copy, Debug, PartialEq, Eq, Structural)]
pub enum EventDisposition {
    /// Never surfaced: streaming deltas and session boilerplate.
    Discard,
    /// Resolved through the parent as a command approval, never surfaced.
    InterceptExec,
    /// Resolved through the parent as a patch approval, never surfaced.
    InterceptPatch,
    /// Forwarded unchanged to the caller.
    Deliver,
}

pub open spec fn disposition_of(m: EventMsg) -> EventDisposition {
    match m {
        EventMsg::AgentMessageDelta(_) => EventDisposition::Discard,
        EventMsg::AgentReasoningDelta(_) => EventDisposition::Discard,
        EventMsg::SessionConfigured(_) => EventDisposition::Discard,
        EventMsg::ExecApprovalRequest(_) => EventDisposition::InterceptExec,
        EventMsg::ApplyPatchApprovalRequest(_) => EventDisposition::InterceptPatch,
        _ => EventDisposition::Deliver,
    }
}

pub open spec fn is_approval(m: EventMsg) -> bool {
    disposition_of(m) is InterceptExec || disposition_of(m) is InterceptPatch
}

/// Decide an event's fate. Everything that is not named here is delivered:
/// the final arm is the explicit default, so event kinds added later are
/// forwarded rather than silently dropped.
pub fn classify_event(e: &Event) -> (d: EventDisposition)
    ensures
        d == disposition_of(e.msg),
{
    match &e.msg {
        EventMsg::AgentMessageDelta(_) => EventDisposition::Discard,
        EventMsg::AgentReasoningDelta(_) => EventDisposition::Discard,
        EventMsg::SessionConfigured(_) => EventDisposition::Discard,
        EventMsg::ExecApprovalRequest(_) => EventDisposition::InterceptExec,
        EventMsg::ApplyPatchApprovalRequest(_) => EventDisposition::InterceptPatch,
        _ => EventDisposition::Deliver,
    }
}

/// The operation answered into the sub-agent once the approval for `e` is
/// resolved as `d`: the decision, correlated by the *sub-agent's* original
/// event id. Meaningful only when `is_approval(e.msg)`.
pub open spec fn reply_op(e: Event, d: ReviewDecision) -> Op {
    match e.msg {
        EventMsg::ApplyPatchApprovalRequest(_) => Op::PatchApproval { id: e.id, decision: d },
        _ => Op::ExecApproval { id: e.id, decision: d },
    }
}

/// Build the reply operation for an intercepted approval event.
pub fn make_reply_op(e: &Event, d: ReviewDecision) -> (op: Op)
    ensures
        op == reply_op(*e, d),
{
    match &e.msg {
        EventMsg::ApplyPatchApprovalRequest(_) => Op::PatchApproval {
            id: e.id.clone(),
            decision: d,
        },
        _ => Op::ExecApproval { id: e.id.clone(), decision: d },
    }
}

/// How many events of the stream are approval requests — the number of
/// relay decisions one pass consumes.
pub open spec fn approval_count(events: Seq<Event>) -> nat
    decreases events.len(),
{
    if events.len() == 0 {
        0
    } else {
        (if is_approval(events[0].msg) {
            1nat
        } else {
            0nat
        }) + approval_count(events.skip(1))
    }
}

/// One observable act of the forwarder.
#[derive(Clone, Debug, PartialEq, Eq)]
pub enum ForwardStep {
    /// An event reached the caller-facing channel.
    Delivered(Event),
    /// An approval reply was submitted back into the sub-agent.
    Replied(Op),
}

/// The forwarder's entire observable behaviour on a finished stream:
/// events are handled strictly in arrival order, each approval consumes
/// the next relay decision and is answered before anything later is
/// touched, and everything deliverable passes through unchanged.
pub open spec fn trace_of(events: Seq<Event>, decisions: Seq<ReviewDecision>) -> Seq<ForwardStep>
    decreases events.len(),
{
    if events.len() == 0 {
        Seq::empty()
    } else {
        let e = events[0];
        let rest = events.skip(1);
        match disposition_of(e.msg) {
            EventDisposition::Discard => trace_of(rest, decisions),
            EventDisposition::Deliver => seq![ForwardStep::Delivered(e)] + trace_of(
                rest,
                decisions,
            ),
            _ => {
                if decisions.len() > 0 {
                    seq![ForwardStep::Replied(reply_op(e, decisions[0]))] + trace_of(
                        rest,
                        decisions.skip(1),
                    )
                } else {
                    seq![ForwardStep::Replied(reply_op(e, ReviewDecision::Abort))] + trace_of(
                        rest,
                        decisions,
                    )
                }
            },
        }
    }
}

/// The events a trace delivered, in order.
pub open spec fn delivered_of(t: Seq<ForwardStep>) -> Seq<Event>
    decreases t.len(),
{
    if t.len() == 0 {
        Seq::empty()
    } else {
        match t[0] {
            ForwardStep::Delivered(e) => seq![e] + delivered_of(t.skip(1)),
            ForwardStep::Replied(_) => delivered_of(t.skip(1)),
        }
    }
}

/// The approval replies a trace submitted back, in order.
pub open spec fn replies_of(t: Seq<ForwardStep>) -> Seq<Op>
    decreases t.len(),
{
    if t.len() == 0 {
        Seq::empty()
    } else {
        match t[0] {
            ForwardStep::Delivered(_) => replies_of(t.skip(1)),
            ForwardStep::Replied(op) => seq![op] + replies_of(t.skip(1)),
        }
    }
}

/// The deliverable events of a stream, in their original order.
pub open spec fn kept(events: Seq<Event>) -> Seq<Event>
    decreases events.len(),
{
    if events.len() == 0 {
        Seq::empty()
    } else if disposition_of(events[0].msg) is Deliver {
        seq![events[0]] + kept(events.skip(1))
    } else {
        kept(events.skip(1))
    }
}

/// The forwarder loop over a finished stream, given the decisions the relay
/// produced for its approval events, in order. Its behaviour is exactly
/// `trace_of`.
pub fn run_forwarder(events: Vec<Event>, decisions: Vec<ReviewDecision>) -> (t: Vec<ForwardStep>)
    requires
        decisions@.len() == approval_count(events@),
    ensures
        t@ == trace_of(events@, decisions@),
{
    let ghost evs = events@;
    let ghost ds = decisions@;
    let mut events = events;
    let mut decisions = decisions;
    let mut t: Vec<ForwardStep> = Vec::new();
    while events.len() > 0
        invariant
            decisions@.len() == approval_count(events@),
            trace_of(evs, ds) == t@ + trace_of(events@, decisions@),
        decreases events.len(),
    {
        let ghost pre_events = events@;
        let ghost pre_decisions = decisions@;
        let e = events.remove(0);
        match classify_event(&e) {
            EventDisposition::Discard => {
                proof {
                    assert(trace_of(pre_events, pre_decisions) == trace_of(
                        events@,
                        decisions@,
                    ));
                }
            },
            EventDisposition::Deliver => {
                let ghost pre_t = t@;
                t.push(ForwardStep::Delivered(e));
                proof {
                    assert(trace_of(pre_events, pre_decisions) == seq![
                        ForwardStep::Delivered(pre_events[0]),
                    ] + trace_of(events@, decisions@));
                    assert(t@ =~= pre_t + seq![ForwardStep::Delivered(pre_events[0])]);
                    assert(pre_t + (seq![ForwardStep::Delivered(pre_events[0])] + trace_of(
                        events@,
                        decisions@,
                    )) =~= t@ + trace_of(events@, decisions@));
                }
            },
            _ => {
                proof {
                    assert(is_approval(pre_events[0].msg));
                    assert(approval_count(pre_events) >= 1);
                }
                let d = decisions.remove(0);
                let ghost pre_t = t@;
                let op = make_reply_op(&e, d);
                t.push(ForwardStep::Replied(op));
                proof {
                    assert(trace_of(pre_events, pre_decisions) == seq![
                        ForwardStep::Replied(reply_op(pre_events[0], pre_decisions[0])),
                    ] + trace_of(events@, decisions@));
                    assert(t@ =~= pre_t + seq![
                        ForwardStep::Replied(reply_op(pre_events[0], pre_decisions[0])),
                    ]);
                    assert(pre_t + (seq![
                        ForwardStep::Replied(reply_op(pre_events[0], pre_decisions[0])),
                    ] + trace_of(events@, decisions@)) =~= t@ + trace_of(events@, decisions@));
                }
            },
        }
    }
    proof {
        assert(trace_of(events@, decisions@) =~= Seq::<ForwardStep>::empty());
        assert(t@ + trace_of(events@, decisions@) =~= t@);
    }
    t
}

/// Split a trace into what the caller saw and what went back into the
/// sub-agent.
pub fn split_trace(t: Vec<ForwardStep>) -> (r: (Vec<Event>, Vec<Op>))
    ensures
        r.0@ == delivered_of(t@),
        r.1@ == replies_of(t@),
{
    let ghost whole = t@;
    let mut t = t;
    let mut delivered: Vec<Event> = Vec::new();
    let mut replies: Vec<Op> = Vec::new();
    while t.len() > 0
        invariant
            delivered_of(whole) == delivered@ + delivered_of(t@),
            replies_of(whole) == replies@ + replies_of(t@),
        decreases t.len(),
    {
        let ghost pre = t@;
        let ghost pre_delivered = delivered@;
        let ghost pre_replies = replies@;
        let step = t.remove(0);
        match step {
            ForwardStep::Delivered(e) => {
                delivered.push(e);
                proof {
                    assert(delivered_of(pre) == seq![pre[0]->Delivered_0] + delivered_of(t@));
                    assert(pre_delivered + (seq![pre[0]->Delivered_0] + delivered_of(t@))
                        =~= delivered@ + delivered_of(t@));
                    assert(replies_of(pre) == replies_of(t@));
                }
            },
            ForwardStep::Replied(op) => {
                replies.push(op);
                proof {
                    assert(replies_of(pre) == seq![pre[0]->Replied_0] + replies_of(t@));
                    assert(pre_replies + (seq![pre[0]->Replied_0] + replies_of(t@)) =~= replies@
                        + replies_of(t@));
                    assert(delivered_of(pre) == delivered_of(t@));
                }
            },
        }
    }
    proof {
        assert(delivered_of(whole) =~= delivered@);
        assert(replies_of(whole) =~= replies@);
    }
    (delivered, replies)
}

/// Ordering law: whatever decisions the relay produces, the caller-facing
/// stream is exactly the deliverable events of the sub-agent's stream, in
/// their original relative order — the streaming deltas and session
/// boilerplate are absent, and approval requests never leak through.
pub proof fn lemma_forwarder_ordering(events: Seq<Event>, decisions: Seq<ReviewDecision>)
    ensures
        delivered_of(trace_of(events, decisions)) == kept(events),
    decreases events.len(),
{
    if events.len() == 0 {
    } else {
        let e = events[0];
        let rest = events.skip(1);
        match disposition_of(e.msg) {
            EventDisposition::Discard => {
                lemma_forwarder_ordering(rest, decisions);
            },
            EventDisposition::Deliver => {
                lemma_forwarder_ordering(rest, decisions);
                let tail = trace_of(rest, decisions);
                let t = seq![ForwardStep::Delivered(e)] + tail;
                assert(t[0] == ForwardStep::Delivered(e));
                assert(t.skip(1) =~= tail);
                assert(delivered_of(t) == seq![e] + delivered_of(tail));
            },
            _ => {
                if decisions.len() > 0 {
                    lemma_forwarder_ordering(rest, decisions.skip(1));
                    let tail = trace_of(rest, decisions.skip(1));
                    let t = seq![ForwardStep::Replied(reply_op(e, decisions[0]))] + tail;
                    assert(t.skip(1) =~= tail);
                    assert(delivered_of(t) == delivered_of(tail));
                } else {
                    lemma_forwarder_ordering(rest, decisions);
                    let tail = trace_of(rest, decisions);
                    let t = seq![ForwardStep::Replied(reply_op(e, ReviewDecision::Abort))] + tail;
                    assert(t.skip(1) =~= tail);
                    assert(delivered_of(t) == delivered_of(tail));
                }
            },
        }
    }
}

/// Interception law: nothing the caller sees is an approval request or a
/// dropped streaming event — every delivered event is one the forwarder
/// deems deliverable, so approvals can never leak through verbatim.
pub proof fn lemma_nothing_intercepted_leaks(events: Seq<Event>)
    ensures
        forall|i: int|
            0 <= i < kept(events).len() ==> disposition_of(#[trigger] kept(events)[i].msg)
                is Deliver,
    decreases events.len(),
{
    if events.len() == 0 {
    } else {
        let rest = events.skip(1);
        lemma_nothing_intercepted_leaks(rest);
        if disposition_of(events[0].msg) is Deliver {
            assert(forall|i: int|
                1 <= i < kept(events).len() ==> kept(events)[i] == kept(rest)[i - 1]);
        }
    }
}

pub proof fn lemma_approval_count_concat(a: Seq<Event>, b: Seq<Event>)
    ensures
        approval_count(a + b) == approval_count(a) + approval_count(b),
    decreases a.len(),
{
    if a.len() == 0 {
        assert(a + b =~= b);
    } else {
        lemma_approval_count_concat(a.skip(1), b);
        assert((a + b).skip(1) =~= a.skip(1) + b);
        assert((a + b)[0] == a[0]);
    }
}

/// The forwarder's trace of a split stream is the trace of the first part
/// followed by the trace of the rest, each on its own share of the
/// decisions: nothing of a later event's handling ever precedes the
/// complete handling of an earlier one.
pub proof fn lemma_trace_concat(a: Seq<Event>, b: Seq<Event>, decisions: Seq<ReviewDecision>)
    requires
        decisions.len() >= approval_count(a),
    ensures
        trace_of(a + b, decisions) == trace_of(a, decisions.take(approval_count(a) as int))
            + trace_of(b, decisions.skip(approval_count(a) as int)),
    decreases a.len(),
{
    if a.len() == 0 {
        assert(a + b =~= b);
        assert(decisions.skip(0) =~= decisions);
        assert(trace_of(a, decisions.take(0)) =~= Seq::<ForwardStep>::empty());
        assert(Seq::<ForwardStep>::empty() + trace_of(b, decisions) =~= trace_of(b, decisions));
    } else {
        let e = a[0];
        let resta = a.skip(1);
        assert((a + b)[0] == e);
        assert((a + b).skip(1) =~= resta + b);
        let ac = approval_count(a) as int;
        match disposition_of(e.msg) {
            EventDisposition::Discard => {
                lemma_trace_concat(resta, b, decisions);
                assert(approval_count(a) == approval_count(resta));
            },
            EventDisposition::Deliver => {
                lemma_trace_concat(resta, b, decisions);
                assert(approval_count(a) == approval_count(resta));
                assert(seq![ForwardStep::Delivered(e)] + (trace_of(resta, decisions.take(ac))
                    + trace_of(b, decisions.skip(ac))) =~= (seq![ForwardStep::Delivered(e)]
                    + trace_of(resta, decisions.take(ac))) + trace_of(b, decisions.skip(ac)));
            },
            _ => {
                assert(approval_count(a) == 1 + approval_count(resta));
                assert(decisions.skip(1).len() >= approval_count(resta));
                lemma_trace_concat(resta, b, decisions.skip(1));
                assert(decisions.take(ac).len() == ac);
                assert(decisions.take(ac)[0] == decisions[0]);
                assert(decisions.take(ac).skip(1) =~= decisions.skip(1).take(ac - 1));
                assert(decisions.skip(ac) =~= decisions.skip(1).skip(ac - 1));
                assert(seq![ForwardStep::Replied(reply_op(e, decisions[0]))] + (trace_of(
                    resta,
                    decisions.skip(1).take(ac - 1),
                ) + trace_of(b, decisions.skip(ac))) =~= (seq![
                    ForwardStep::Replied(reply_op(e, decisions[0])),
                ] + trace_of(resta, decisions.skip(1).take(ac - 1))) + trace_of(
                    b,
                    decisions.skip(ac),
                ));
            },
        }
    }
}

/// Head-of-line law: when event K asks for an approval and event K+1 is
/// deliverable, the trace submits the reply for K strictly before it
/// delivers K+1 — the caller can never observe K+1 while K's approval is
/// unresolved.
pub proof fn lemma_approval_head_of_line(
    events: Seq<Event>,
    decisions: Seq<ReviewDecision>,
    k: int,
)
    requires
        decisions.len() == approval_count(events),
        0 <= k,
        k + 1 < events.len(),
        is_approval(events[k].msg),
        disposition_of(events[k + 1].msg) is Deliver,
    ensures
        ({
            let t = trace_of(events, decisions);
            let dk = approval_count(events.take(k)) as int;
            let p = trace_of(
                events.take(k + 1),
                decisions.take(approval_count(events.take(k + 1)) as int),
            ).len() as int;
            &&& 1 <= p < t.len()
            &&& t[p - 1] == ForwardStep::Replied(reply_op(events[k], decisions[dk]))
            &&& t[p] == ForwardStep::Delivered(events[k + 1])
        }),
{
    let a = events.take(k + 1);
    let b = events.skip(k + 1);
    assert(events =~= a + b);
    lemma_approval_count_concat(a, b);
    lemma_trace_concat(a, b, decisions);
    let ac = approval_count(a) as int;
    let da = decisions.take(ac);
    let a0 = events.take(k);
    let ek = seq![events[k]];
    assert(a =~= a0 + ek);
    lemma_approval_count_concat(a0, ek);
    assert(ek.skip(1) =~= Seq::<Event>::empty());
    assert(ek[0] == events[k]);
    assert(approval_count(Seq::<Event>::empty()) == 0);
    assert(approval_count(ek) == 1);
    let dk = approval_count(a0) as int;
    assert(ac == dk + 1);
    assert(da.len() == ac);
    lemma_trace_concat(a0, ek, da);
    let dtail = da.skip(dk);
    assert(dtail.len() == 1);
    assert(trace_of(ek.skip(1), dtail.skip(1)) =~= Seq::<ForwardStep>::empty());
    assert(trace_of(ek, dtail) =~= seq![ForwardStep::Replied(reply_op(ek[0], dtail[0]))] + trace_of(
        ek.skip(1),
        dtail.skip(1),
    ));
    assert(trace_of(ek, dtail) =~= seq![ForwardStep::Replied(reply_op(events[k], dtail[0]))]);
    assert(dtail[0] == decisions[dk]);
    let ta = trace_of(a, da);
    assert(ta == trace_of(a0, da.take(dk)) + trace_of(ek, dtail));
    assert(ta.len() >= 1);
    assert(ta[ta.len() - 1] == ForwardStep::Replied(reply_op(events[k], decisions[dk])));
    assert(b[0] == events[k + 1]);
    let db = decisions.skip(ac);
    assert(trace_of(b, db)[0] == ForwardStep::Delivered(b[0]));
    assert(trace_of(b, db).len() >= 1);
    let t = trace_of(events, decisions);
    assert(t == ta + trace_of(b, db));
    assert(t[ta.len() - 1] == ta[ta.len() - 1]);
    assert(t[ta.len() as int] == trace_of(b, db)[0]);
}

} // verus!
