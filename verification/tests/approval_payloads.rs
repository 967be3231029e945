use llmx_delegate::approval_wire::approval_prompt;
use llmx_delegate::approval_wire::approval_reply_op;
use llmx_delegate::approval_wire::build_exec_approval_params;
use llmx_delegate::approval_wire::join_spaces;
use llmx_delegate::approval_wire::parse_approval_reply;
use llmx_delegate::protocol::Op;
use llmx_delegate::protocol::ReviewDecision;

fn words(parts: &[&str]) -> Vec<String> {
    parts.iter().map(|s| s.to_string()).collect()
}

#[test]
fn prompt_shell_quotes_the_command() {
    let m = approval_prompt(&words(&["echo", "hello world"]), &"/tmp".to_string());
    // shlex quotes the word with the space; a pass-through would not.
    assert_eq!(m, "Allow LLMX to run `echo 'hello world'` in `/tmp`?");
}

#[test]
fn prompt_plain_command_stays_plain() {
    let m = approval_prompt(&words(&["cargo", "build"]), &"/repo".to_string());
    assert_eq!(m, "Allow LLMX to run `cargo build` in `/repo`?");
}

#[test]
fn prompt_falls_back_to_space_join_on_nul() {
    let m = approval_prompt(&words(&["od", "a\u{0}b"]), &"/x".to_string());
    assert_eq!(m, "Allow LLMX to run `od a\u{0}b` in `/x`?");
}

#[test]
fn join_spaces_matches_plain_join() {
    assert_eq!(join_spaces(&words(&[])), "");
    assert_eq!(join_spaces(&words(&["one"])), "one");
    assert_eq!(join_spaces(&words(&["a", "b", "c"])), "a b c");
}

#[test]
fn elicitation_params_carry_everything_through() {
    let p = build_exec_approval_params(
        words(&["git", "push"]),
        "/repo".to_string(),
        "tool-1".to_string(),
        "event-2".to_string(),
        "call-3".to_string(),
        words(&["git push"]),
        Some("low".to_string()),
    );
    assert_eq!(p.message, "Allow LLMX to run `git push` in `/repo`?");
    assert_eq!(p.requested_schema.schema_type, "object");
    assert_eq!(p.llmx_elicitation, "exec-approval");
    assert_eq!(p.llmx_mcp_tool_call_id, "tool-1");
    assert_eq!(p.llmx_event_id, "event-2");
    assert_eq!(p.llmx_call_id, "call-3");
    assert_eq!(p.llmx_command, words(&["git", "push"]));
    assert_eq!(p.llmx_cwd, "/repo");
    assert_eq!(p.llmx_parsed_cmd, words(&["git push"]));
    assert_eq!(p.llmx_risk, Some("low".to_string()));
}

#[test]
fn reply_decodes_each_known_decision() {
    assert_eq!(parse_approval_reply(r#"{"decision":"approved"}"#).decision, ReviewDecision::Approved);
    assert_eq!(
        parse_approval_reply(r#"{"decision":"approved_for_session"}"#).decision,
        ReviewDecision::ApprovedForSession
    );
    assert_eq!(parse_approval_reply(r#"{"decision":"denied"}"#).decision, ReviewDecision::Denied);
    assert_eq!(parse_approval_reply(r#"{"decision":"abort"}"#).decision, ReviewDecision::Abort);
}

#[test]
fn reply_missing_decision_field_fails_closed() {
    assert_eq!(parse_approval_reply(r#"{}"#).decision, ReviewDecision::Denied);
    assert_eq!(parse_approval_reply(r#"{"other":"approved"}"#).decision, ReviewDecision::Denied);
}

#[test]
fn malformed_replies_fail_closed_without_panicking() {
    assert_eq!(parse_approval_reply("").decision, ReviewDecision::Denied);
    assert_eq!(parse_approval_reply("not json at all").decision, ReviewDecision::Denied);
    assert_eq!(parse_approval_reply(r#"{"decision":42}"#).decision, ReviewDecision::Denied);
    assert_eq!(parse_approval_reply(r#"{"decision":null}"#).decision, ReviewDecision::Denied);
    assert_eq!(parse_approval_reply(r#"{"decision":"APPROVED"}"#).decision, ReviewDecision::Denied);
    assert_eq!(parse_approval_reply(r#"{"decision":"yes"}"#).decision, ReviewDecision::Denied);
}

#[test]
fn reply_op_correlates_by_event_id() {
    let op = approval_reply_op("event-9".to_string(), r#"{"decision":"approved"}"#);
    assert_eq!(
        op,
        Op::ExecApproval { id: "event-9".to_string(), decision: ReviewDecision::Approved }
    );
    let denied = approval_reply_op("event-9".to_string(), r#"{"nope":1}"#);
    assert_eq!(
        denied,
        Op::ExecApproval { id: "event-9".to_string(), decision: ReviewDecision::Denied }
    );
}
