use llmx_delegate::forwarder::EventDisposition;
use llmx_delegate::forwarder::ForwardStep;
use llmx_delegate::forwarder::classify_event;
use llmx_delegate::forwarder::run_forwarder;
use llmx_delegate::forwarder::split_trace;
use llmx_delegate::protocol::ApplyPatchApprovalRequestEvent;
use llmx_delegate::protocol::Event;
use llmx_delegate::protocol::EventMsg;
use llmx_delegate::protocol::ExecApprovalRequestEvent;
use llmx_delegate::protocol::Op;
use llmx_delegate::protocol::ReviewDecision;

fn ev(id: &str, msg: EventMsg) -> Event {
    Event { id: id.to_string(), msg }
}

fn exec_request(command: &[&str], cwd: &str) -> EventMsg {
    EventMsg::ExecApprovalRequest(ExecApprovalRequestEvent {
        command: command.iter().map(|s| s.to_string()).collect(),
        cwd: cwd.to_string(),
        reason: None,
        risk: None,
    })
}

fn patch_request() -> EventMsg {
    EventMsg::ApplyPatchApprovalRequest(ApplyPatchApprovalRequestEvent {
        changes: vec!["src/lib.rs".to_string()],
        reason: Some("edit".to_string()),
        grant_root: None,
    })
}

#[test]
fn classify_dispositions() {
    let drop_cases = [
        EventMsg::AgentMessageDelta("d".to_string()),
        EventMsg::AgentReasoningDelta("r".to_string()),
        EventMsg::SessionConfigured("s".to_string()),
    ];
    for msg in drop_cases {
        assert_eq!(classify_event(&ev("e", msg)), EventDisposition::Discard);
    }
    assert_eq!(
        classify_event(&ev("e", exec_request(&["ls"], "/"))),
        EventDisposition::InterceptExec
    );
    assert_eq!(classify_event(&ev("e", patch_request())), EventDisposition::InterceptPatch);
    let deliver_cases = [
        EventMsg::AgentMessage("m".to_string()),
        EventMsg::TaskComplete("done".to_string()),
        EventMsg::TurnAborted("why".to_string()),
        EventMsg::Other("unknown-kind".to_string()),
    ];
    for msg in deliver_cases {
        assert_eq!(classify_event(&ev("e", msg)), EventDisposition::Deliver);
    }
}

#[test]
fn ordering_preserved_and_deltas_absent() {
    let events = vec![
        ev("1", EventMsg::AgentMessageDelta("a".to_string())),
        ev("2", EventMsg::AgentMessage("first".to_string())),
        ev("3", EventMsg::AgentReasoningDelta("b".to_string())),
        ev("4", EventMsg::Other("second".to_string())),
        ev("5", EventMsg::SessionConfigured("c".to_string())),
        ev("6", EventMsg::TaskComplete("third".to_string())),
    ];
    let trace = run_forwarder(events, vec![]);
    let (delivered, replies) = split_trace(trace);
    assert!(replies.is_empty());
    let ids: Vec<&str> = delivered.iter().map(|e| e.id.as_str()).collect();
    assert_eq!(ids, vec!["2", "4", "6"]);
    assert_eq!(delivered[0].msg, EventMsg::AgentMessage("first".to_string()));
    assert_eq!(delivered[2].msg, EventMsg::TaskComplete("third".to_string()));
}

#[test]
fn approval_reply_precedes_next_event() {
    let events = vec![
        ev("e7", exec_request(&["rm", "-rf", "x"], "/work")),
        ev("e8", EventMsg::TaskComplete("done".to_string())),
    ];
    let trace = run_forwarder(events, vec![ReviewDecision::Approved]);
    assert_eq!(trace.len(), 2);
    assert_eq!(
        trace[0],
        ForwardStep::Replied(Op::ExecApproval {
            id: "e7".to_string(),
            decision: ReviewDecision::Approved,
        })
    );
    assert_eq!(
        trace[1],
        ForwardStep::Delivered(ev("e8", EventMsg::TaskComplete("done".to_string())))
    );
}

#[test]
fn approvals_consume_decisions_in_order() {
    let events = vec![
        ev("a", exec_request(&["ls"], "/")),
        ev("m", EventMsg::AgentMessage("between".to_string())),
        ev("b", patch_request()),
    ];
    let decisions = vec![ReviewDecision::Denied, ReviewDecision::ApprovedForSession];
    let trace = run_forwarder(events, decisions);
    let (delivered, replies) = split_trace(trace);
    assert_eq!(delivered.len(), 1);
    assert_eq!(delivered[0].id, "m");
    assert_eq!(
        replies,
        vec![
            Op::ExecApproval { id: "a".to_string(), decision: ReviewDecision::Denied },
            Op::PatchApproval {
                id: "b".to_string(),
                decision: ReviewDecision::ApprovedForSession,
            },
        ]
    );
}

#[test]
fn approval_ids_correlate_to_originating_event() {
    let events = vec![ev("sub-agent-event-42", exec_request(&["true"], "/"))];
    let trace = run_forwarder(events, vec![ReviewDecision::Abort]);
    assert_eq!(
        trace,
        vec![ForwardStep::Replied(Op::ExecApproval {
            id: "sub-agent-event-42".to_string(),
            decision: ReviewDecision::Abort,
        })]
    );
}
