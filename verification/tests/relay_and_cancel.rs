use llmx_delegate::cancel::CancelTree;
use llmx_delegate::delegate::OpPoll;
use llmx_delegate::delegate::OpRelayAction;
use llmx_delegate::delegate::forward_ops_step;
use llmx_delegate::delegate::relay_ops;
use llmx_delegate::delegate::run_interactive;
use llmx_delegate::protocol::Event;
use llmx_delegate::protocol::EventMsg;
use llmx_delegate::protocol::Op;
use llmx_delegate::protocol::ReviewDecision;
use llmx_delegate::protocol::Submission;
use llmx_delegate::relay::ApprovalRace;
use llmx_delegate::relay::RelayResolution;
use llmx_delegate::relay::patch_decision_or_default;
use llmx_delegate::relay::resolve_approval;

#[test]
fn cancellation_wins_a_tie() {
    // The decision future resolved in the same instant as the cancellation:
    // the relay must still abort and notify the parent exactly once.
    let r = resolve_approval(ApprovalRace {
        cancel_ready: true,
        decision: Some(ReviewDecision::Approved),
    });
    assert_eq!(
        r,
        RelayResolution { decision: ReviewDecision::Abort, notify_abort: true }
    );
}

#[test]
fn cancellation_without_decision_aborts() {
    let r = resolve_approval(ApprovalRace { cancel_ready: true, decision: None });
    assert_eq!(
        r,
        RelayResolution { decision: ReviewDecision::Abort, notify_abort: true }
    );
}

#[test]
fn uncancelled_relay_passes_decision_through() {
    let r = resolve_approval(ApprovalRace {
        cancel_ready: false,
        decision: Some(ReviewDecision::ApprovedForSession),
    });
    assert_eq!(
        r,
        RelayResolution { decision: ReviewDecision::ApprovedForSession, notify_abort: false }
    );
}

#[test]
fn closed_patch_channel_fails_closed_to_denied() {
    assert_eq!(patch_decision_or_default(None), ReviewDecision::Denied);
    assert_eq!(
        patch_decision_or_default(Some(ReviewDecision::Approved)),
        ReviewDecision::Approved
    );
}

#[test]
fn child_cancel_spares_parent_and_sibling() {
    let mut tree = CancelTree::new();
    let root = tree.new_root();
    let events_task = tree.child_token(root);
    let ops_task = tree.child_token(root);
    tree.cancel(events_task);
    assert!(tree.is_cancelled(events_task));
    assert!(!tree.is_cancelled(ops_task));
    assert!(!tree.is_cancelled(root));
}

#[test]
fn ancestor_cancel_reaches_descendants() {
    let mut tree = CancelTree::new();
    let root = tree.new_root();
    let child = tree.child_token(root);
    let grandchild = tree.child_token(child);
    let other_root = tree.new_root();
    tree.cancel(root);
    assert!(tree.is_cancelled(root));
    assert!(tree.is_cancelled(child));
    assert!(tree.is_cancelled(grandchild));
    assert!(!tree.is_cancelled(other_root));
}

#[test]
fn op_forwarder_steps() {
    let sub = Submission { id: "caller-7".to_string(), op: Op::Shutdown };
    assert_eq!(forward_ops_step(OpPoll::Received(sub)), OpRelayAction::Relay(Op::Shutdown));
    assert_eq!(forward_ops_step(OpPoll::Closed), OpRelayAction::Stop);
    assert_eq!(forward_ops_step(OpPoll::Cancelled), OpRelayAction::Stop);
}

#[test]
fn relay_ops_keeps_order_and_strips_ids() {
    let subs = vec![
        Submission {
            id: "a".to_string(),
            op: Op::UserInput { items: vec!["one".to_string()] },
        },
        Submission { id: "b".to_string(), op: Op::Shutdown },
    ];
    let ops = relay_ops(subs);
    assert_eq!(
        ops,
        vec![Op::UserInput { items: vec!["one".to_string()] }, Op::Shutdown]
    );
}

#[test]
fn interactive_run_composes_both_forwarders() {
    let events = vec![
        Event { id: "1".to_string(), msg: EventMsg::SessionConfigured("s".to_string()) },
        Event { id: "2".to_string(), msg: EventMsg::AgentMessage("hello".to_string()) },
    ];
    let subs = vec![Submission {
        id: "x".to_string(),
        op: Op::UserTurn { items: vec!["go".to_string()] },
    }];
    let run = run_interactive(events, vec![], subs);
    assert_eq!(run.delivered.len(), 1);
    assert_eq!(run.delivered[0].id, "2");
    assert!(run.replies.is_empty());
    assert_eq!(run.relayed_ops, vec![Op::UserTurn { items: vec!["go".to_string()] }]);
}
