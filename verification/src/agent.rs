//! The agent loop: build the context, generate, stream, run the tools that the
//! model asked for behind the permission gate, and iterate up to a limit.
//!
//! The loop decides; whoever drives it performs the effects it lists, in
//! order, and hands back what came of them. A rejected approval does not abort
//! the turn: it is a result like any other.

pub mod context;
pub mod gated;
pub mod running;
pub mod turn;

use vstd::prelude::*;

use crate::json;
use crate::llm::{ProviderError, ToolCallRequest};
use crate::outside;
use crate::protocol::events::{Event, SessionState, StopReason, Usage};
use crate::protocol::ids::{ApprovalId, MessageId, SessionId, ToolCallId};
use crate::text;
use crate::tools::ToolResult;

verus! {

/// Something the loop wants done.
#[derive(Debug, PartialEq)]
pub enum Effect {
    /// Store an event of the session, and its new state with it.
    Emit { event: Event, new_state: Option<SessionState> },
    /// Add an entry to the audit log; `detail` is JSON text.
    Audit { kind: String, detail: String },
    /// Store a message of the assistant.
    SaveAssistant { message_id: MessageId, content: String },
    /// Store a request for approval; `args` is JSON text.
    SaveApproval {
        approval_id: ApprovalId,
        session_id: SessionId,
        tool_call_id: ToolCallId,
        tool: String,
        summary: String,
        args: String,
    },
    /// Open the slot in which a request waits for its decision.
    Register(ApprovalId),
    /// Keep a copy of a file of the workspace, where the files are not durable.
    KeepFile { path: String, mime: String },
}

/// The change of a session's state, without title or reason.
pub open spec fn state_event(state: SessionState) -> Effect {
    Effect::Emit {
        event: Event::SessionState { state, title: None, reason: None },
        new_state: Some(state),
    }
}

/// An event that leaves the state as it is.
pub open spec fn plain_event(event: Event) -> Effect {
    Effect::Emit { event, new_state: None }
}

/// Whether an effect enters a JSON object with given members in the audit log,
/// from which each of them comes back.
pub open spec fn is_audit(
    effect: Effect,
    kind: Seq<char>,
    members: Seq<(Seq<char>, json::FieldView)>,
) -> bool {
    effect matches Effect::Audit { kind: k, detail } && k@ == kind && detail@
        == outside::json_object_text(members) && json::reads_back(detail@, members)
}

/// Whether an effect stores an assistant message of given content.
pub open spec fn is_save(effect: Effect, message_id: MessageId, content: Seq<char>) -> bool {
    effect matches Effect::SaveAssistant { message_id: m, content: c } && m == message_id && c@
        == content
}

/// Whether an effect emits the result of a tool call.
pub open spec fn is_tool_result(effect: Effect, id: ToolCallId, result: ToolResult) -> bool {
    effect == plain_event(
        Event::ToolResult {
            tool_call_id: id,
            ok: result.ok,
            output_excerpt: result.output,
            truncated: result.truncated,
        },
    )
}

/// Whether effects close a turn: what the assistant said is stored unless it
/// is empty, the message is completed and the session becomes idle.
pub open spec fn closes(
    effects: Seq<Effect>,
    message_id: MessageId,
    collected: Seq<char>,
    stop_reason: StopReason,
    usage: Usage,
) -> bool {
    let completed = plain_event(Event::MessageCompleted { message_id, stop_reason, usage });
    if collected.len() > 0 {
        &&& effects.len() == 3
        &&& is_save(effects[0], message_id, collected)
        &&& effects[1] == completed
        &&& effects[2] == state_event(SessionState::Idle)
    } else {
        &&& effects.len() == 2
        &&& effects[0] == completed
        &&& effects[1] == state_event(SessionState::Idle)
    }
}

/// Whether an effect reports a fatal failure of the provider.
pub open spec fn is_fatal(effect: Effect, err: ProviderError) -> bool {
    effect matches Effect::Emit { event: Event::Error { code, message, fatal }, new_state }
        && new_state is None && code@ == "provider_failed"@ && message@ == err.message() && fatal
}

/// Whether an effect sends the session to idle for a failure of the provider.
pub open spec fn is_idle_for_failure(effect: Effect) -> bool {
    effect matches Effect::Emit {
        event: Event::SessionState { state, title, reason: Some(reason) },
        new_state,
    } && state == SessionState::Idle && new_state == Some(SessionState::Idle) && title is None
        && reason@ == "fallo del proveedor de modelo"@
}

/// Whether effects end a turn with a failure of the provider.
pub open spec fn fails(effects: Seq<Effect>, err: ProviderError) -> bool {
    &&& effects.len() == 2
    &&& is_fatal(effects[0], err)
    &&& is_idle_for_failure(effects[1])
}

/// What the audit log holds of a tool call.
pub open spec fn tool_members(
    tool: Seq<char>,
    id: ToolCallId,
    ok: bool,
    rejected: bool,
) -> Seq<(Seq<char>, json::FieldView)> {
    seq![
        ("tool"@, json::FieldView::Text(tool)),
        ("tool_call_id"@, json::FieldView::Text(outside::ulid_chars(id.0))),
        ("ok"@, json::FieldView::Flag(ok)),
        ("rejected"@, json::FieldView::Flag(rejected)),
    ]
}

/// The effect that changes a session's state.
fn set_state(state: SessionState) -> (r: Effect)
    ensures
        r == state_event(state),
{
    Effect::Emit {
        event: Event::SessionState { state, title: None, reason: None },
        new_state: Some(state),
    }
}

/// The effect that emits the result of a tool call.
fn emit_tool_result(id: ToolCallId, result: &ToolResult) -> (r: Effect)
    ensures
        is_tool_result(r, id, *result),
{
    Effect::Emit {
        event: Event::ToolResult {
            tool_call_id: id,
            ok: result.ok,
            output_excerpt: result.output.clone(),
            truncated: result.truncated,
        },
        new_state: None,
    }
}

/// The effect that enters a tool call in the audit log.
fn audit_tool(tc: &ToolCallRequest, ok: bool, rejected: bool) -> (r: Effect)
    ensures
        is_audit(r, "tool_exec"@, tool_members(tc.tool@, tc.tool_call_id, ok, rejected)),
{
    let mut members: Vec<(String, json::Field)> = Vec::new();
    members.push(json::text_member("tool", tc.tool.as_str()));
    members.push(json::text_member("tool_call_id", tc.tool_call_id.text().as_str()));
    members.push(json::flag_member("ok", ok));
    members.push(json::flag_member("rejected", rejected));
    assert(json::members_view(members@) == tool_members(tc.tool@, tc.tool_call_id, ok, rejected));
    proof {
        json::lemma_reserved_key();
        reveal_strlit("tool");
        reveal_strlit("tool_call_id");
        reveal_strlit("ok");
        reveal_strlit("rejected");
        assert(members@[0].0@.len() == 4);
        assert(members@[1].0@.len() == 12);
        assert(members@[2].0@.len() == 2);
        assert(members@[3].0@.len() == 8);
        json::lemma_distinct_keys(members@);
    }
    Effect::Audit { kind: "tool_exec".to_owned(), detail: json::object(&members) }
}

/// The effects that close a turn.
pub fn finish_completed(
    message_id: MessageId,
    collected: &str,
    stop_reason: StopReason,
    usage: Usage,
) -> (r: Vec<Effect>)
    ensures
        closes(r@, message_id, collected@, stop_reason, usage),
{
    let mut effects: Vec<Effect> = Vec::new();
    if !collected.is_empty() {
        effects.push(Effect::SaveAssistant { message_id, content: collected.to_owned() });
    }
    effects.push(
        Effect::Emit {
            event: Event::MessageCompleted { message_id, stop_reason, usage },
            new_state: None,
        },
    );
    effects.push(set_state(SessionState::Idle));
    effects
}

/// The effects that end a turn with a failure of the provider. The error is
/// fatal, so the session becomes idle.
pub fn finish_with_error(err: &ProviderError) -> (r: Vec<Effect>)
    ensures
        fails(r@, *err),
{
    let mut effects: Vec<Effect> = Vec::new();
    effects.push(
        Effect::Emit {
            event: Event::Error {
                code: "provider_failed".to_owned(),
                message: err.text(),
                fatal: true,
            },
            new_state: None,
        },
    );
    effects.push(
        Effect::Emit {
            event: Event::SessionState {
                state: SessionState::Idle,
                title: None,
                reason: Some("fallo del proveedor de modelo".to_owned()),
            },
            new_state: Some(SessionState::Idle),
        },
    );
    effects
}

/// What a request for approval says of a call: the command of a shell call,
/// else the tool and its path.
pub open spec fn summary_of(tool: Seq<char>, args: Seq<char>) -> Seq<char> {
    if tool == "run_shell"@ {
        match outside::json_text_member(args, "cmd"@) {
            Some(cmd) => cmd,
            None => "run_shell"@,
        }
    } else {
        tool + ": "@ + match outside::json_text_member(args, "path"@) {
            Some(path) => path,
            None => "?"@,
        }
    }
}

/// What a request for approval says of a call.
pub fn summarize(tc: &ToolCallRequest) -> (r: String)
    ensures
        r@ == summary_of(tc.tool@, tc.args@),
{
    if text::same(tc.tool.as_str(), "run_shell") {
        match json::get_text(tc.args.as_str(), "cmd") {
            Some(cmd) => cmd,
            None => "run_shell".to_owned(),
        }
    } else {
        match json::get_text(tc.args.as_str(), "path") {
            Some(path) => text::join3(tc.tool.as_str(), ": ", path.as_str()),
            None => text::join3(tc.tool.as_str(), ": ", "?"),
        }
    }
}

/// Law: an entry of the audit log on a tool call tells which tool ran under
/// which name, how it ended and whether it was rejected, all of which read
/// back.
pub proof fn law_tool_call_is_audited(
    effect: Effect,
    tool: Seq<char>,
    id: ToolCallId,
    ok: bool,
    rejected: bool,
)
    requires
        is_audit(effect, "tool_exec"@, tool_members(tool, id, ok, rejected)),
    ensures
        effect matches Effect::Audit { kind, detail } && {
            &&& kind@ == "tool_exec"@
            &&& outside::json_text_member(detail@, "tool"@) == Some(tool)
            &&& outside::json_text_member(detail@, "tool_call_id"@) == Some(
                outside::ulid_chars(id.0),
            )
            &&& ok ==> outside::json_member(detail@, "ok"@) == Some("true"@)
            &&& !ok ==> outside::json_member(detail@, "ok"@) == Some("false"@)
            &&& rejected ==> outside::json_member(detail@, "rejected"@) == Some("true"@)
            &&& !rejected ==> outside::json_member(detail@, "rejected"@) == Some("false"@)
        },
{
    let members = tool_members(tool, id, ok, rejected);
    assert(members[0].0 == "tool"@ && members[1].0 == "tool_call_id"@);
    assert(members[2].0 == "ok"@ && members[3].0 == "rejected"@);
}

/// Law: who is asked for approval reads the command itself where a shell is to
/// run one, and else the name of the tool, then the path it is to work on.
pub proof fn law_summary_shows_what_is_asked(tool: Seq<char>, args: Seq<char>)
    ensures
        tool == "run_shell"@ ==> {
            &&& outside::json_text_member(args, "cmd"@) matches Some(cmd) ==> summary_of(tool, args)
                == cmd
            &&& outside::json_text_member(args, "cmd"@) is None ==> summary_of(tool, args) == tool
        },
        tool != "run_shell"@ ==> {
            &&& (tool + ": "@).is_prefix_of(summary_of(tool, args))
            &&& outside::json_text_member(args, "path"@) matches Some(path) ==> summary_of(
                tool,
                args,
            ).skip(tool.len() as int + 2) == path
            &&& outside::json_text_member(args, "path"@) is None ==> summary_of(tool, args).skip(
                tool.len() as int + 2,
            ) == "?"@
        },
{
    reveal_strlit(": ");
    if tool != "run_shell"@ {
        let rest = match outside::json_text_member(args, "path"@) {
            Some(path) => path,
            None => "?"@,
        };
        assert(summary_of(tool, args) == tool + ": "@ + rest);
        assert(summary_of(tool, args).skip(tool.len() as int + 2) == rest);
        assert((tool + ": "@).is_prefix_of(summary_of(tool, args)));
    }
}

/// Law: a turn that closes stores what was said, under the name of the message,
/// unless nothing was; it completes that message, and the session becomes idle
/// last.
pub proof fn law_closing(
    effects: Seq<Effect>,
    message_id: MessageId,
    collected: Seq<char>,
    stop_reason: StopReason,
    usage: Usage,
)
    requires
        closes(effects, message_id, collected, stop_reason, usage),
    ensures
        effects.len() == (if collected.len() > 0 {
            3int
        } else {
            2
        }),
        collected.len() > 0 ==> (effects[0] matches Effect::SaveAssistant { message_id: m, content }
            && m == message_id && content@ == collected),
        effects[effects.len() - 2] matches Effect::Emit {
            event: Event::MessageCompleted { message_id: m, stop_reason: why, usage: spent },
            new_state,
        } && m == message_id && why == stop_reason && spent == usage && new_state is None,
        effects.last() matches Effect::Emit {
            event: Event::SessionState { state, title, reason },
            new_state,
        } && state == SessionState::Idle && new_state == Some(SessionState::Idle) && title is None
            && reason is None,
{
}

} // verus!
