//! The approval transport bridge: an intercepted exec-approval event is
//! turned into an outbound elicitation request, and the eventual reply is
//! decoded — failing closed — into the operation answered back into the
//! conversation.

use vstd::prelude::*;
use vstd::string::StringExecFns;

use crate::protocol::Op;
use crate::protocol::ReviewDecision;

verus! {

/// What joining a command's words into one shell-quotable line yields,
/// when every word can be quoted. Shell quoting takes pages to state, so
/// the result is named rather than spelled out; it is a function of the
/// words alone.
pub uninterp spec fn shell_joined(parts: Seq<Seq<char>>) -> Option<Seq<char>>;

/// Relies on `shlex::try_join`: quote each word for a POSIX shell and join
/// them with single spaces. The result depends only on the words, and the
/// only failure is a word containing a nul byte.
#[verifier::external_body]
fn try_shell_join(parts: &Vec<String>) -> (r: Option<String>)
    ensures
        r is Some <==> shell_joined(parts@.map_values(|s: String| s@)) is Some,
        r matches Some(joined) ==> shell_joined(parts@.map_values(|s: String| s@)) matches Some(j)
            && joined@ == j,
{
    shlex::try_join(parts.iter().map(|s| s.as_str())).ok()
}

/// The words joined with single spaces, unquoted — the fallback rendering
/// when shell quoting fails.
pub open spec fn spec_join_spaces(parts: Seq<Seq<char>>) -> Seq<char>
    decreases parts.len(),
{
    if parts.len() == 0 {
        Seq::empty()
    } else if parts.len() == 1 {
        parts[0]
    } else {
        spec_join_spaces(parts.drop_last()) + seq![' '] + parts.last()
    }
}

pub fn join_spaces(parts: &Vec<String>) -> (s: String)
    ensures
        s@ == spec_join_spaces(parts@.map_values(|p: String| p@)),
{
    let ghost views = parts@.map_values(|p: String| p@);
    let mut out = String::new();
    let mut i: usize = 0;
    while i < parts.len()
        invariant
            i <= parts@.len(),
            views == parts@.map_values(|p: String| p@),
            out@ == spec_join_spaces(views.take(i as int)),
        decreases parts@.len() - i,
    {
        let ghost pre = out@;
        if i > 0 {
            out.append(" ");
            proof {
                reveal_strlit(" ");
                assert(" "@ =~= seq![' ']);
            }
        }
        out.append(parts[i].as_str());
        proof {
            let t = views.take(i + 1);
            assert(t.last() == views[i as int]);
            if i == 0 {
                assert(t.len() == 1);
                assert(t[0] == views[0]);
                assert(out@ =~= spec_join_spaces(t));
            } else {
                assert(t.drop_last() =~= views.take(i as int));
                assert(out@ =~= spec_join_spaces(t));
            }
        }
        i = i + 1;
    }
    proof {
        assert(views.take(views.len() as int) =~= views);
    }
    out
}

/// The command as it appears in the confirmation prompt: shell-quoted when
/// possible, plainly space-joined otherwise.
pub open spec fn spec_escaped_command(command: Seq<Seq<char>>) -> Seq<char> {
    match shell_joined(command) {
        Some(j) => j,
        None => spec_join_spaces(command),
    }
}

/// The human-readable confirmation message shown for an exec approval.
pub open spec fn spec_approval_prompt(command: Seq<Seq<char>>, cwd: Seq<char>) -> Seq<char> {
    "Allow LLMX to run `"@ + spec_escaped_command(command) + "` in `"@ + cwd + "`?"@
}

/// Render the confirmation prompt for running `command` in `cwd`.
pub fn approval_prompt(command: &Vec<String>, cwd: &String) -> (m: String)
    ensures
        m@ == spec_approval_prompt(command@.map_values(|s: String| s@), cwd@),
{
    let escaped = match try_shell_join(command) {
        Some(j) => j,
        None => join_spaces(command),
    };
    let mut m = String::from_str("Allow LLMX to run `");
    m.append(escaped.as_str());
    m.append("` in `");
    m.append(cwd.as_str());
    m.append("`?");
    m
}

/// The schema the elicitation asks the client to answer with: a bare
/// object, nothing required.
pub struct ElicitRequestSchema {
    pub schema_type: String,
}

/// The payload of an outbound exec-approval elicitation: the confirmation
/// message, the raw command and working directory, the ids that correlate
/// the request back to the tool call and event, the parsed command, and an
/// optional risk assessment.
pub struct ExecApprovalElicitRequestParams {
    pub message: String,
    pub requested_schema: ElicitRequestSchema,
    pub llmx_elicitation: String,
    pub llmx_mcp_tool_call_id: String,
    pub llmx_event_id: String,
    pub llmx_call_id: String,
    pub llmx_command: Vec<String>,
    pub llmx_cwd: String,
    pub llmx_parsed_cmd: Vec<String>,
    pub llmx_risk: Option<String>,
}

/// Build the elicitation payload for an exec approval: every correlating
/// field is carried through unchanged, the message is the rendered prompt,
/// and the elicitation is tagged as an exec approval.
pub fn build_exec_approval_params(
    command: Vec<String>,
    cwd: String,
    tool_call_id: String,
    event_id: String,
    call_id: String,
    parsed_cmd: Vec<String>,
    risk: Option<String>,
) -> (p: ExecApprovalElicitRequestParams)
    ensures
        p.message@ == spec_approval_prompt(command@.map_values(|s: String| s@), cwd@),
        p.requested_schema.schema_type@ == "object"@,
        p.llmx_elicitation@ == "exec-approval"@,
        p.llmx_mcp_tool_call_id == tool_call_id,
        p.llmx_event_id == event_id,
        p.llmx_call_id == call_id,
        p.llmx_command == command,
        p.llmx_cwd == cwd,
        p.llmx_parsed_cmd == parsed_cmd,
        p.llmx_risk == risk,
{
    let message = approval_prompt(&command, &cwd);
    ExecApprovalElicitRequestParams {
        message,
        requested_schema: ElicitRequestSchema { schema_type: String::from_str("object") },
        llmx_elicitation: String::from_str("exec-approval"),
        llmx_mcp_tool_call_id: tool_call_id,
        llmx_event_id: event_id,
        llmx_call_id: call_id,
        llmx_command: command,
        llmx_cwd: cwd,
        llmx_parsed_cmd: parsed_cmd,
        llmx_risk: risk,
    }
}

/// An approval reply's payload, once decoded.
#[derive(Clone, Copy, Debug, PartialEq, Eq, Structural)]
pub struct ExecApprovalResponse {
    pub decision: ReviewDecision,
}

/// The string under the `"decision"` key of the reply text read as a JSON
/// object, when the text parses and the key holds a string. A function of
/// the text alone; stating which texts parse would restate JSON, so the
/// result is named.
pub uninterp spec fn decision_field_of(s: Seq<char>) -> Option<Seq<char>>;

/// Relies on `serde_json::from_str::<Value>`, `Value::get` and
/// `Value::as_str`, chained: parse the reply as JSON and read its
/// `"decision"` field as a string. Each step is a pure function of the
/// text; `None` covers unparsable text, a missing key, and a non-string
/// value alike.
#[verifier::external_body]
fn json_decision_field(text: &str) -> (r: Option<String>)
    ensures
        r is Some <==> decision_field_of(text@) is Some,
        r matches Some(s) ==> decision_field_of(text@) matches Some(f) && s@ == f,
{
    match serde_json::from_str::<serde_json::Value>(text) {
        Ok(v) => match v.get("decision") {
            Some(d) => d.as_str().map(|s| s.to_owned()),
            None => None,
        },
        Err(_) => None,
    }
}

/// The wire decoding of a decision: the four known spellings map to their
/// decision, and anything else — including a missing field — is `Denied`.
pub open spec fn spec_decode_decision(field: Option<Seq<char>>) -> ReviewDecision {
    match field {
        None => ReviewDecision::Denied,
        Some(s) => if s == "approved"@ {
            ReviewDecision::Approved
        } else if s == "approved_for_session"@ {
            ReviewDecision::ApprovedForSession
        } else if s == "denied"@ {
            ReviewDecision::Denied
        } else if s == "abort"@ {
            ReviewDecision::Abort
        } else {
            ReviewDecision::Denied
        },
    }
}

fn decode_decision(field: Option<String>) -> (d: ReviewDecision)
    ensures
        field is None ==> d == ReviewDecision::Denied,
        field matches Some(s) ==> d == spec_decode_decision(Some(s@)),
{
    match field {
        None => ReviewDecision::default(),
        Some(s) => {
            if s == String::from_str("approved") {
                ReviewDecision::Approved
            } else if s == String::from_str("approved_for_session") {
                ReviewDecision::ApprovedForSession
            } else if s == String::from_str("denied") {
                ReviewDecision::Denied
            } else if s == String::from_str("abort") {
                ReviewDecision::Abort
            } else {
                ReviewDecision::Denied
            }
        },
    }
}

/// Decode an approval reply. The decoding fails closed: a reply that does
/// not carry a recognizable decision — unparsable, field missing, or an
/// unknown spelling — yields `Denied`, never an error and never an
/// approval.
pub fn parse_approval_reply(text: &str) -> (r: ExecApprovalResponse)
    ensures
        r.decision == spec_decode_decision(decision_field_of(text@)),
{
    let field = json_decision_field(text);
    ExecApprovalResponse { decision: decode_decision(field) }
}

/// The operation answered into the conversation once an exec-approval
/// reply arrives: the decoded decision, correlated by the original event
/// id, fail-closed as `parse_approval_reply` states.
pub fn approval_reply_op(event_id: String, reply_text: &str) -> (op: Op)
    ensures
        op == (Op::ExecApproval {
            id: event_id,
            decision: spec_decode_decision(decision_field_of(reply_text@)),
        }),
{
    let response = parse_approval_reply(reply_text);
    Op::ExecApproval { id: event_id, decision: response.decision }
}

/// Fail-closed law: a reply whose decision field is absent, or carries any
/// spelling other than the four known ones, decodes to `Denied` — a
/// malformed reply can never approve anything.
pub proof fn lemma_fail_closed_decode(field: Option<Seq<char>>)
    requires
        field matches Some(s) ==> s != "approved"@ && s != "approved_for_session"@ && s
            != "abort"@,
    ensures
        spec_decode_decision(field) == ReviewDecision::Denied,
{
}

} // verus!
