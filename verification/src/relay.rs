//! The approval relay: an intercepted approval request is resolved through
//! the parent session, racing the pending decision against cancellation.
//!
//! The race is a *priority* race: cancellation wins even when both sides
//! are ready at the same instant. That tie-break is a contract, not a
//! scheduling accident, so it stands here as a verified decision over the
//! race's resolved state; the plumbing only builds that state.

use vstd::prelude::*;

use crate::protocol::ReviewDecision;

verus! {

/// The resolved state of the race between cancellation and the pending
/// decision, as observed at the relay's single decision point.
#[derive(Clone, Copy, Debug, PartialEq, Eq)]
pub struct ApprovalRace {
    /// The scope's cancellation token has fired.
    pub cancel_ready: bool,
    /// The decision the parent session produced, if its future resolved.
    pub decision: Option<ReviewDecision>,
}

/// What the relay does with a resolved race.
#[derive(Clone, Copy, Debug, PartialEq, Eq)]
pub struct RelayResolution {
    /// The decision answered back into the sub-agent.
    pub decision: ReviewDecision,
    /// Whether an out-of-band `Abort` notification is sent to the parent
    /// session, dismissing its pending approval prompt. By construction at
    /// most one is ever sent per relay invocation.
    pub notify_abort: bool,
}

/// The relay's decision rule. Meaningful when the race has resolved, that
/// is when `race.cancel_ready || race.decision is Some`.
pub open spec fn spec_resolve(race: ApprovalRace) -> RelayResolution {
    if race.cancel_ready {
        RelayResolution { decision: ReviewDecision::Abort, notify_abort: true }
    } else {
        match race.decision {
            Some(d) => RelayResolution { decision: d, notify_abort: false },
            None => RelayResolution { decision: ReviewDecision::Abort, notify_abort: false },
        }
    }
}

/// Resolve a raced approval. Cancellation is terminal: it yields `Abort`
/// and notifies the parent exactly once, whatever the decision future was
/// about to say; an uncancelled relay passes the parent's decision through
/// untouched and notifies nobody.
pub fn resolve_approval(race: ApprovalRace) -> (r: RelayResolution)
    requires
        race.cancel_ready || race.decision is Some,
    ensures
        r == spec_resolve(race),
        race.cancel_ready ==> r.decision == ReviewDecision::Abort && r.notify_abort,
        !race.cancel_ready ==> !r.notify_abort && race.decision == Some(r.decision),
{
    if race.cancel_ready {
        RelayResolution { decision: ReviewDecision::Abort, notify_abort: true }
    } else {
        match race.decision {
            Some(d) => RelayResolution { decision: d, notify_abort: false },
            None => vstd::pervasive::unreached(),
        }
    }
}

/// A patch approval's decision arrives on a dedicated channel; when that
/// channel closes before yielding a value, fail closed to the default —
/// deny — rather than surfacing an error.
pub fn patch_decision_or_default(received: Option<ReviewDecision>) -> (d: ReviewDecision)
    ensures
        received matches Some(x) ==> d == x,
        received is None ==> d == ReviewDecision::Denied,
{
    match received {
        Some(x) => x,
        None => ReviewDecision::default(),
    }
}

/// Cancellation-precedence law: when cancellation and the pending decision
/// become ready together, the relay resolves to `Abort`, and the parent is
/// told to abort its pending approval — exactly once, whatever decision the
/// future produced.
pub proof fn lemma_cancellation_precedence(d: ReviewDecision)
    ensures
        spec_resolve(ApprovalRace { cancel_ready: true, decision: Some(d) })
            == (RelayResolution { decision: ReviewDecision::Abort, notify_abort: true }),
{
}

/// An uncancelled relay never fabricates an abort notification and never
/// alters the parent's decision.
pub proof fn lemma_uncancelled_passthrough(d: ReviewDecision)
    ensures
        spec_resolve(ApprovalRace { cancel_ready: false, decision: Some(d) })
            == (RelayResolution { decision: d, notify_abort: false }),
{
}

} // verus!
