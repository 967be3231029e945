//! The data carried between a caller, this subsystem and a sub-agent:
//! operations going in, events coming out, and the review decisions that
//! resolve approval requests.

use vstd::prelude::*;

verus! {

/// Verdict of an approval flow.
///
/// `Abort` is the designated fallback when cancellation preempts a pending
/// decision; `Denied` is the fail-closed fallback for malformed or missing
/// replies.
#[derive(Clone, Copy, Debug, PartialEq, Eq, Structural)]
pub enum ReviewDecision {
    Approved,
    ApprovedForSession,
    Denied,
    Abort,
}

impl Default for ReviewDecision {
    /// The conservative decision: deny.
    fn default() -> (d: Self)
        ensures
            d == ReviewDecision::Denied,
    {
        ReviewDecision::Denied
    }
}

/// Payload of an event asking for permission to run a command.
#[derive(Clone, Debug, PartialEq, Eq)]
pub struct ExecApprovalRequestEvent {
    pub command: Vec<String>,
    pub cwd: String,
    pub reason: Option<String>,
    pub risk: Option<String>,
}

/// Payload of an event asking for permission to apply a patch.
#[derive(Clone, Debug, PartialEq, Eq)]
pub struct ApplyPatchApprovalRequestEvent {
    pub changes: Vec<String>,
    pub reason: Option<String>,
    pub grant_root: Option<String>,
}

/// A unit of output produced by an agent.
///
/// The two approval variants are the ones a delegation must intercept; the
/// three streaming variants are dropped; everything else is forwarded
/// opaquely. `Other` stands for the open set of remaining kinds, which new
/// variants join by default.
#[derive(Clone, Debug, PartialEq, Eq)]
pub enum EventMsg {
    AgentMessageDelta(String),
    AgentReasoningDelta(String),
    SessionConfigured(String),
    ExecApprovalRequest(ExecApprovalRequestEvent),
    ApplyPatchApprovalRequest(ApplyPatchApprovalRequestEvent),
    AgentMessage(String),
    TaskComplete(String),
    TurnAborted(String),
    Other(String),
}

/// A unit of output, correlated by `id` to the submission or turn that
/// produced it.
#[derive(Clone, Debug, PartialEq, Eq)]
pub struct Event {
    pub id: String,
    pub msg: EventMsg,
}

/// A unit of work submitted into an agent's input stream.
#[derive(Clone, Debug, PartialEq, Eq)]
pub enum Op {
    UserInput { items: Vec<String> },
    UserTurn { items: Vec<String> },
    ExecApproval { id: String, decision: ReviewDecision },
    PatchApproval { id: String, decision: ReviewDecision },
    Shutdown,
    Other(String),
}

/// An operation together with the id it was submitted under.
#[derive(Clone, Debug, PartialEq, Eq)]
pub struct Submission {
    pub id: String,
    pub op: Op,
}

/// Where a conversation comes from: a top-level session, or a delegation
/// spawned by a parent turn.
#[derive(Clone, Copy, Debug, PartialEq, Eq, Structural)]
pub enum ConversationSource {
    TopLevel,
    SubAgent,
}

/// The history a fresh sub-agent starts from.
#[derive(Clone, Debug, PartialEq, Eq)]
pub enum InitialHistory {
    New,
    Resumed(Vec<String>),
}

} // verus!
