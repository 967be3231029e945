use llmx_delegate::channel::BoundedChan;
use llmx_delegate::channel::RecvAttempt;
use llmx_delegate::channel::SendAttempt;
use llmx_delegate::conversation::Llmx;
use llmx_delegate::conversation::LlmxConversation;
use llmx_delegate::conversation::LlmxErr;
use llmx_delegate::protocol::Event;
use llmx_delegate::protocol::EventMsg;
use llmx_delegate::protocol::Op;
use llmx_delegate::protocol::Submission;

fn ev(id: &str, msg: EventMsg) -> Event {
    Event { id: id.to_string(), msg }
}

#[test]
fn backpressure_refuses_without_loss_until_drained() {
    let mut ch: BoundedChan<u64> = BoundedChan::new(2);
    assert_eq!(ch.try_send(10), SendAttempt::Sent);
    assert_eq!(ch.try_send(11), SendAttempt::Sent);
    // At capacity: the value comes back, nothing is dropped or errored.
    assert_eq!(ch.try_send(12), SendAttempt::Full(12));
    assert_eq!(ch.items, vec![10, 11]);
    // One round of the verified backpressure discipline: drain one, resend.
    let drained = ch.resend_after_drain(12);
    assert_eq!(drained, 10);
    assert_eq!(ch.items, vec![11, 12]);
}

#[test]
fn fifo_order_is_kept() {
    let mut ch: BoundedChan<u64> = BoundedChan::new(4);
    for v in [1, 2, 3] {
        assert_eq!(ch.try_send(v), SendAttempt::Sent);
    }
    assert_eq!(ch.try_recv(), RecvAttempt::Received(1));
    assert_eq!(ch.try_recv(), RecvAttempt::Received(2));
    assert_eq!(ch.try_recv(), RecvAttempt::Received(3));
    assert_eq!(ch.try_recv(), RecvAttempt::Empty);
}

#[test]
fn send_after_receiver_dropped_is_refused() {
    let mut ch: BoundedChan<u64> = BoundedChan::new(2);
    ch.close_receiver();
    assert_eq!(ch.try_send(7), SendAttempt::Disconnected(7));
}

#[test]
fn recv_drains_then_reports_stream_end() {
    let mut ch: BoundedChan<u64> = BoundedChan::new(2);
    assert_eq!(ch.try_send(5), SendAttempt::Sent);
    ch.close_sender();
    assert_eq!(ch.try_recv(), RecvAttempt::Received(5));
    assert_eq!(ch.try_recv(), RecvAttempt::Disconnected);
}

fn fresh_handle() -> Llmx {
    Llmx {
        next_id: 0,
        tx_sub: BoundedChan::new(8),
        rx_event: BoundedChan::new(8),
    }
}

#[test]
fn submit_assigns_fresh_decimal_ids() {
    let mut h = fresh_handle();
    assert_eq!(h.submit(Op::UserInput { items: vec!["hi".to_string()] }), Ok("0".to_string()));
    assert_eq!(h.submit(Op::Shutdown), Ok("1".to_string()));
    assert_eq!(h.tx_sub.items.len(), 2);
    assert_eq!(h.tx_sub.items[0].id, "0");
    assert_eq!(h.tx_sub.items[1].id, "1");
    assert_eq!(h.tx_sub.items[1].op, Op::Shutdown);
}

#[test]
fn submit_with_id_preserves_the_id() {
    let mut h = fresh_handle();
    let sub = Submission { id: "shutdown".to_string(), op: Op::Shutdown };
    assert_eq!(h.submit_with_id(sub), Ok(()));
    assert_eq!(h.next_id, 0);
    assert_eq!(h.tx_sub.items[0].id, "shutdown");
}

#[test]
fn submit_reports_channel_closed() {
    let mut h = fresh_handle();
    h.tx_sub.close_receiver();
    assert_eq!(h.submit(Op::Shutdown), Err(LlmxErr::ChannelClosed));
    assert_eq!(
        h.submit_with_id(Submission { id: "x".to_string(), op: Op::Shutdown }),
        Err(LlmxErr::ChannelClosed)
    );
}

#[test]
fn next_event_yields_in_order_then_stream_ends() {
    let mut h = fresh_handle();
    let a = ev("a", EventMsg::AgentMessage("1".to_string()));
    let b = ev("b", EventMsg::Other("2".to_string()));
    assert_eq!(h.rx_event.try_send(a.clone()), SendAttempt::Sent);
    assert_eq!(h.rx_event.try_send(b.clone()), SendAttempt::Sent);
    h.rx_event.close_sender();
    assert_eq!(h.next_event(), Ok(a));
    assert_eq!(h.next_event(), Ok(b));
    assert_eq!(h.next_event(), Err(LlmxErr::StreamEnded));
}

#[test]
fn conversation_wraps_handle_and_rollout_path() {
    let mut c = LlmxConversation::new(fresh_handle(), "/tmp/rollout.jsonl".to_string());
    assert_eq!(c.rollout_path(), "/tmp/rollout.jsonl");
    assert_eq!(c.submit(Op::Shutdown), Ok("0".to_string()));
    c.llmx.rx_event.close_sender();
    assert_eq!(c.next_event(), Err(LlmxErr::StreamEnded));
}
