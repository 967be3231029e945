use llmx_delegate::SUBMISSION_CHANNEL_CAPACITY;
use llmx_delegate::channel::BoundedChan;
use llmx_delegate::conversation::LlmxErr;
use llmx_delegate::one_shot::is_terminal_event;
use llmx_delegate::one_shot::one_shot_handle;
use llmx_delegate::one_shot::run_bridge;
use llmx_delegate::one_shot::run_one_shot;
use llmx_delegate::protocol::Event;
use llmx_delegate::protocol::EventMsg;
use llmx_delegate::protocol::ExecApprovalRequestEvent;
use llmx_delegate::protocol::Op;
use llmx_delegate::protocol::ReviewDecision;

fn ev(id: &str, msg: EventMsg) -> Event {
    Event { id: id.to_string(), msg }
}

#[test]
fn one_shot_handle_rejects_every_submit() {
    let mut events = BoundedChan::new(SUBMISSION_CHANNEL_CAPACITY);
    let attempt = events.try_send(ev("1", EventMsg::AgentMessage("hi".to_string())));
    assert_eq!(attempt, llmx_delegate::channel::SendAttempt::Sent);
    let mut handle = one_shot_handle(events);

    assert_eq!(
        handle.submit(Op::UserInput { items: vec!["again".to_string()] }),
        Err(LlmxErr::ChannelClosed)
    );
    assert_eq!(handle.submit(Op::Shutdown), Err(LlmxErr::ChannelClosed));
    // The event side still works: one-shot callers read, they never write.
    assert_eq!(
        handle.next_event(),
        Ok(ev("1", EventMsg::AgentMessage("hi".to_string())))
    );
}

#[test]
fn terminal_events_recognized() {
    assert!(is_terminal_event(&ev("1", EventMsg::TaskComplete(String::new()))));
    assert!(is_terminal_event(&ev("1", EventMsg::TurnAborted("cancelled".to_string()))));
    assert!(!is_terminal_event(&ev("1", EventMsg::AgentMessage("x".to_string()))));
    assert!(!is_terminal_event(&ev("1", EventMsg::Other("TaskCompleteLookalike".to_string()))));
}

#[test]
fn bridge_shuts_down_after_task_complete() {
    let events = vec![
        ev("1", EventMsg::AgentMessage("answer".to_string())),
        ev("2", EventMsg::TaskComplete("done".to_string())),
        ev("3", EventMsg::AgentMessage("late".to_string())),
    ];
    let run = run_bridge(events);
    let ids: Vec<&str> = run.forwarded.iter().map(|e| e.id.as_str()).collect();
    assert_eq!(ids, vec!["1", "2"]);
    assert_eq!(run.shutdown_ops.len(), 1);
    assert_eq!(run.shutdown_ops[0].op, Op::Shutdown);
    assert_eq!(run.shutdown_ops[0].id, "shutdown");
    assert!(run.cancelled);
}

#[test]
fn bridge_treats_turn_aborted_as_terminal() {
    let events = vec![ev("1", EventMsg::TurnAborted("interrupted".to_string()))];
    let run = run_bridge(events);
    assert_eq!(run.forwarded.len(), 1);
    assert_eq!(run.shutdown_ops.len(), 1);
    assert!(run.cancelled);
}

#[test]
fn bridge_without_terminal_forwards_everything() {
    let events = vec![
        ev("1", EventMsg::AgentMessage("a".to_string())),
        ev("2", EventMsg::Other("b".to_string())),
    ];
    let run = run_bridge(events);
    assert_eq!(run.forwarded.len(), 2);
    assert!(run.shutdown_ops.is_empty());
    assert!(!run.cancelled);
}

#[test]
fn one_shot_end_to_end() {
    let events = vec![
        ev("1", EventMsg::AgentMessageDelta("d".to_string())),
        ev("2", EventMsg::AgentMessage("working".to_string())),
        ev(
            "3",
            EventMsg::ExecApprovalRequest(ExecApprovalRequestEvent {
                command: vec!["make".to_string()],
                cwd: "/repo".to_string(),
                reason: None,
                risk: None,
            }),
        ),
        ev("4", EventMsg::TaskComplete("done".to_string())),
        ev("5", EventMsg::AgentMessage("never seen".to_string())),
    ];
    let run = run_one_shot(events, vec![ReviewDecision::Denied]);
    let ids: Vec<&str> = run.delivered.iter().map(|e| e.id.as_str()).collect();
    assert_eq!(ids, vec!["2", "4"]);
    assert_eq!(
        run.replies,
        vec![Op::ExecApproval { id: "3".to_string(), decision: ReviewDecision::Denied }]
    );
    assert_eq!(run.shutdown_ops.len(), 1);
    assert_eq!(run.shutdown_ops[0].op, Op::Shutdown);
    assert!(run.cancelled);
}
