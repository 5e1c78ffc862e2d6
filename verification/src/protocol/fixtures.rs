//! Canonical examples of every event and command, by which clients check that
//! they speak the same protocol.
//!
//! An example is named by its discriminant; a discriminant with more than one
//! example has a suffix behind a dot.

use vstd::prelude::*;

use crate::protocol::commands::{Command, CommandEnvelope};
use crate::protocol::envelope::{Envelope, PROTOCOL_VERSION};
use crate::protocol::events::{
    Decision, Event, FallbackTrigger, SessionState, StopReason, Usage,
};
use crate::protocol::ids::{ApprovalId, MessageId, ProviderId, SessionId, ToolCallId};
use crate::protocol::time::Timestamp;

verus! {

/// The session of the examples.
pub const SID: &'static str = "01J1ZG7QXW8Y2K3M4N5P6Q7R8S";

/// The instant of the examples.
pub const TS: &'static str = "2026-07-06T18:03:52Z";

/// The number that [`SID`] spells.
pub const SESSION: u128 = 0x1907f03dfbc478531d0952d8d73e119;

/// The seconds that [`TS`] spells.
pub const TS_SECS: i64 = 1783361032;

/// The message of the examples: `01J1ZH2K0000000000000000AA`.
pub const MESSAGE: u128 = 0x1907f114c000000000000000000014a;

/// The tool call of the examples: `01J1ZJ9M0000000000000000BB`.
pub const CALL: u128 = 0x1907f24d0000000000000000000016b;

/// The approval of the examples: `01J1ZJ9M0000000000000000CC`.
pub const APPROVAL: u128 = 0x1907f24d0000000000000000000018c;

/// When the approval with a deadline expires: `2026-07-06T18:07:00Z`.
pub const EXPIRY_SECS: i64 = 1783361220;

/// Whether an optional text is there and reads as given.
pub open spec fn holds(field: Option<String>, expected: Seq<char>) -> bool {
    field matches Some(s) && s@ == expected
}

/// Whether an envelope carries an event of the example session under a number.
pub open spec fn in_session(e: Envelope<Event>, seq: u64) -> bool {
    &&& e.v == PROTOCOL_VERSION
    &&& e.session_id == Some(SessionId(SESSION))
    &&& e.seq == Some(seq)
    &&& e.ts == (Timestamp { secs: TS_SECS, nanos: 0 })
}

/// Whether an envelope carries an event of no session under a number.
pub open spec fn global(e: Envelope<Event>, seq: u64) -> bool {
    &&& e.v == PROTOCOL_VERSION
    &&& e.session_id is None
    &&& e.seq == Some(seq)
    &&& e.ts == (Timestamp { secs: TS_SECS, nanos: 0 })
}

/// The event of the example `session_state`.
pub open spec fn event_session_state(body: Event) -> bool {
    &&& body matches Event::SessionState { state, title, reason }
    &&& state == SessionState::WaitingApproval
    &&& title is None
    &&& holds(reason, "aprobación pendiente"@)
}

/// The event of the example `session_state.optional_title`.
pub open spec fn event_session_state_optional_title(body: Event) -> bool {
    &&& body matches Event::SessionState { state, title, reason }
    &&& state == SessionState::Idle
    &&& holds(title, "Refactor validación"@)
    &&& reason is None
}

/// The event of the example `message_delta`.
pub open spec fn event_message_delta(body: Event) -> bool {
    &&& body matches Event::MessageDelta { message_id, delta }
    &&& message_id == MessageId(MESSAGE)
    &&& delta@ == "Voy a leer el"@
}

/// The event of the example `message_completed`.
pub open spec fn event_message_completed(body: Event) -> bool {
    &&& body matches Event::MessageCompleted { message_id, stop_reason, usage }
    &&& message_id == MessageId(MESSAGE)
    &&& stop_reason == StopReason::EndTurn
    &&& usage == (Usage { prompt_tokens: 1200, completion_tokens: 340 })
}

/// The event of the example `tool_call_requested`.
pub open spec fn event_tool_call_requested(body: Event) -> bool {
    &&& body matches Event::ToolCallRequested { tool_call_id, tool, args }
    &&& tool_call_id == ToolCallId(CALL)
    &&& tool@ == "read_file"@
    &&& args@ == "{\"path\":\"src/ctrl.rs\"}"@
}

/// The event of the example `approval_request`.
pub open spec fn event_approval_request(body: Event) -> bool {
    &&& body matches Event::ApprovalRequest { approval_id, tool_call_id, tool, summary, args, expires_at }
    &&& approval_id == ApprovalId(APPROVAL)
    &&& tool_call_id == ToolCallId(CALL)
    &&& tool@ == "run_shell"@
    &&& summary@ == "cargo test -p core"@
    &&& args@ == "{\"cmd\":\"cargo test -p core\"}"@
    &&& expires_at is None
}

/// The event of the example `approval_request.expires_at`.
pub open spec fn event_approval_request_expires_at(body: Event) -> bool {
    &&& body matches Event::ApprovalRequest { approval_id, tool_call_id, tool, summary, args, expires_at }
    &&& approval_id == ApprovalId(APPROVAL)
    &&& tool_call_id == ToolCallId(CALL)
    &&& tool@ == "write_file"@
    &&& summary@ == "escribir src/x.rs"@
    &&& args@ == "{\"path\":\"src/x.rs\"}"@
    &&& expires_at == (Some(Timestamp { secs: EXPIRY_SECS, nanos: 0 }))
}

/// The event of the example `approval_resolved`.
pub open spec fn event_approval_resolved(body: Event) -> bool {
    &&& body matches Event::ApprovalResolved { approval_id, decision, resolved_by }
    &&& approval_id == ApprovalId(APPROVAL)
    &&& decision == Decision::Approve
    &&& resolved_by@ == "device:01JOX00000000000000000DD00"@
}

/// The event of the example `tool_result`.
pub open spec fn event_tool_result(body: Event) -> bool {
    &&& body matches Event::ToolResult { tool_call_id, ok, output_excerpt, truncated }
    &&& tool_call_id == ToolCallId(CALL)
    &&& ok
    &&& output_excerpt@ == "23 passed..."@
    &&& !truncated
}

/// The event of the example `file_diff`.
pub open spec fn event_file_diff(body: Event) -> bool {
    &&& body matches Event::FileDiff { tool_call_id, path, diff_unified, additions, deletions }
    &&& tool_call_id == ToolCallId(CALL)
    &&& path@ == "src/validators.rs"@
    &&& diff_unified@ == "--- a/src/validators.rs\n+++ b/src/validators.rs\n@@ -1 +1 @@\n-a\n+b\n"@
    &&& additions == 14
    &&& deletions == 6
}

/// The event of the example `model_provider_changed`.
pub open spec fn event_model_provider_changed(body: Event) -> bool {
    &&& body matches Event::ModelProviderChanged { from, to, trigger }
    &&& from.0@ == "local:vllm:qwen3.5-8b"@
    &&& to.0@ == "external:openai:gpt-4o"@
    &&& trigger == FallbackTrigger::TtftExceeded
}

/// The event of the example `daemon_unavailable`.
pub open spec fn event_daemon_unavailable(body: Event) -> bool {
    &&& body == Event::DaemonUnavailable
}

/// The event of the example `error`.
pub open spec fn event_error(body: Event) -> bool {
    &&& body matches Event::Error { code, message, fatal }
    &&& code@ == "provider_failed"@
    &&& message@ == "sin proveedor disponible"@
    &&& fatal
}

/// The event of the example `task_dequeued`.
pub open spec fn event_task_dequeued(body: Event) -> bool {
    &&& body matches Event::TaskDequeued { outbox_id, message_id }
    &&& outbox_id@ == "01J1ZK4T0000000000000000EE"@
    &&& message_id == MessageId(MESSAGE)
}

/// Whether a list holds the examples of the events.
pub open spec fn is_event_catalogue(all: Seq<(&'static str, Envelope<Event>)>) -> bool {
    &&& all.len() == 14
    &&& all[0].0@ == "session_state"@
    &&& event_session_state(all[0].1.body)
    &&& in_session(all[0].1, 422)
    &&& all[1].0@ == "session_state.optional_title"@
    &&& event_session_state_optional_title(all[1].1.body)
    &&& in_session(all[1].1, 1)
    &&& all[2].0@ == "message_delta"@
    &&& event_message_delta(all[2].1.body)
    &&& in_session(all[2].1, 416)
    &&& all[3].0@ == "message_completed"@
    &&& event_message_completed(all[3].1.body)
    &&& in_session(all[3].1, 427)
    &&& all[4].0@ == "tool_call_requested"@
    &&& event_tool_call_requested(all[4].1.body)
    &&& in_session(all[4].1, 418)
    &&& all[5].0@ == "approval_request"@
    &&& event_approval_request(all[5].1.body)
    &&& in_session(all[5].1, 421)
    &&& all[6].0@ == "approval_request.expires_at"@
    &&& event_approval_request_expires_at(all[6].1.body)
    &&& in_session(all[6].1, 500)
    &&& all[7].0@ == "approval_resolved"@
    &&& event_approval_resolved(all[7].1.body)
    &&& in_session(all[7].1, 423)
    &&& all[8].0@ == "tool_result"@
    &&& event_tool_result(all[8].1.body)
    &&& in_session(all[8].1, 425)
    &&& all[9].0@ == "file_diff"@
    &&& event_file_diff(all[9].1.body)
    &&& in_session(all[9].1, 426)
    &&& all[10].0@ == "model_provider_changed"@
    &&& event_model_provider_changed(all[10].1.body)
    &&& in_session(all[10].1, 430)
    &&& all[11].0@ == "daemon_unavailable"@
    &&& event_daemon_unavailable(all[11].1.body)
    &&& global(all[11].1, 7)
    &&& all[12].0@ == "error"@
    &&& event_error(all[12].1.body)
    &&& in_session(all[12].1, 431)
    &&& all[13].0@ == "task_dequeued"@
    &&& event_task_dequeued(all[13].1.body)
    &&& in_session(all[13].1, 432)
}

/// The command of the example `send_message`.
pub open spec fn command_send_message(body: Command) -> bool {
    &&& body matches Command::SendMessage { content, client_msg_id }
    &&& content@ == "Extrae la lógica de validación a un módulo separado"@
    &&& client_msg_id@ == "a3f0c2d4-0000-4000-8000-000000000001"@
}

/// The command of the example `resolve_approval`.
pub open spec fn command_resolve_approval(body: Command) -> bool {
    &&& body matches Command::ResolveApproval { approval_id, decision, reason, remember_rule }
    &&& approval_id == ApprovalId(APPROVAL)
    &&& decision == Decision::Reject
    &&& holds(reason, "no es el módulo correcto"@)
    &&& remember_rule == Some(false)
}

/// The command of the example `resolve_approval.minimal`.
pub open spec fn command_resolve_approval_minimal(body: Command) -> bool {
    &&& body matches Command::ResolveApproval { approval_id, decision, reason, remember_rule }
    &&& approval_id == ApprovalId(APPROVAL)
    &&& decision == Decision::Approve
    &&& reason is None
    &&& remember_rule is None
}

/// The command of the example `subscribe_session`.
pub open spec fn command_subscribe_session(body: Command) -> bool {
    &&& body matches Command::SubscribeSession { session_id, after_seq }
    &&& session_id == SessionId(SESSION)
    &&& after_seq == 418
}

/// The command of the example `unsubscribe_session`.
pub open spec fn command_unsubscribe_session(body: Command) -> bool {
    &&& body matches Command::UnsubscribeSession { session_id }
    &&& session_id == SessionId(SESSION)
}

/// Whether an envelope carries a command for the example session.
pub open spec fn for_session(e: CommandEnvelope) -> bool {
    &&& e.v == PROTOCOL_VERSION
    &&& e.session_id == Some(SessionId(SESSION))
    &&& e.ts == (Timestamp { secs: TS_SECS, nanos: 0 })
}

/// Whether a list holds the examples of the commands.
pub open spec fn is_command_catalogue(all: Seq<(&'static str, CommandEnvelope)>) -> bool {
    &&& all.len() == 5
    &&& forall|i: int| 0 <= i < all.len() ==> for_session((#[trigger] all[i]).1)
    &&& all[0].0@ == "send_message"@
    &&& command_send_message(all[0].1.body)
    &&& all[1].0@ == "resolve_approval"@
    &&& command_resolve_approval(all[1].1.body)
    &&& all[2].0@ == "resolve_approval.minimal"@
    &&& command_resolve_approval_minimal(all[2].1.body)
    &&& all[3].0@ == "subscribe_session"@
    &&& command_subscribe_session(all[3].1.body)
    &&& all[4].0@ == "unsubscribe_session"@
    &&& command_unsubscribe_session(all[4].1.body)
}

/// An event in the envelope of the examples.
fn example(body: Event, seq: u64) -> (r: Envelope<Event>)
    ensures
        in_session(r, seq),
        r.body == body,
{
    Envelope::event(
        body,
        Some(SessionId(SESSION)),
        seq,
        Timestamp { secs: TS_SECS, nanos: 0 },
    )
}

/// A command in the envelope of the examples.
fn order(body: Command) -> (r: CommandEnvelope)
    ensures
        for_session(r),
        r.body == body,
{
    CommandEnvelope {
        v: PROTOCOL_VERSION,
        body,
        session_id: Some(SessionId(SESSION)),
        ts: Timestamp { secs: TS_SECS, nanos: 0 },
    }
}

/// The examples of the events.
pub fn event_fixtures() -> (r: Vec<(&'static str, Envelope<Event>)>)
    ensures
        is_event_catalogue(r@),
{
    let mut all: Vec<(&'static str, Envelope<Event>)> = Vec::new();
    all.push((
        "session_state",
        example(
            Event::SessionState {
                state: SessionState::WaitingApproval,
                title: None,
                reason: Some("aprobación pendiente".to_owned()),
            },
            422,
        ),
    ));
    all.push((
        "session_state.optional_title",
        example(
            Event::SessionState {
                state: SessionState::Idle,
                title: Some("Refactor validación".to_owned()),
                reason: None,
            },
            1,
        ),
    ));
    all.push((
        "message_delta",
        example(
            Event::MessageDelta {
                message_id: MessageId(MESSAGE),
                delta: "Voy a leer el".to_owned(),
            },
            416,
        ),
    ));
    all.push((
        "message_completed",
        example(
            Event::MessageCompleted {
                message_id: MessageId(MESSAGE),
                stop_reason: StopReason::EndTurn,
                usage: Usage { prompt_tokens: 1200, completion_tokens: 340 },
            },
            427,
        ),
    ));
    all.push((
        "tool_call_requested",
        example(
            Event::ToolCallRequested {
                tool_call_id: ToolCallId(CALL),
                tool: "read_file".to_owned(),
                args: "{\"path\":\"src/ctrl.rs\"}".to_owned(),
            },
            418,
        ),
    ));
    all.push((
        "approval_request",
        example(
            Event::ApprovalRequest {
                approval_id: ApprovalId(APPROVAL),
                tool_call_id: ToolCallId(CALL),
                tool: "run_shell".to_owned(),
                summary: "cargo test -p core".to_owned(),
                args: "{\"cmd\":\"cargo test -p core\"}".to_owned(),
                expires_at: None,
            },
            421,
        ),
    ));
    all.push((
        "approval_request.expires_at",
        example(
            Event::ApprovalRequest {
                approval_id: ApprovalId(APPROVAL),
                tool_call_id: ToolCallId(CALL),
                tool: "write_file".to_owned(),
                summary: "escribir src/x.rs".to_owned(),
                args: "{\"path\":\"src/x.rs\"}".to_owned(),
                expires_at: Some(Timestamp { secs: EXPIRY_SECS, nanos: 0 }),
            },
            500,
        ),
    ));
    all.push((
        "approval_resolved",
        example(
            Event::ApprovalResolved {
                approval_id: ApprovalId(APPROVAL),
                decision: Decision::Approve,
                resolved_by: "device:01JOX00000000000000000DD00".to_owned(),
            },
            423,
        ),
    ));
    all.push((
        "tool_result",
        example(
            Event::ToolResult {
                tool_call_id: ToolCallId(CALL),
                ok: true,
                output_excerpt: "23 passed...".to_owned(),
                truncated: false,
            },
            425,
        ),
    ));
    all.push((
        "file_diff",
        example(
            Event::FileDiff {
                tool_call_id: ToolCallId(CALL),
                path: "src/validators.rs".to_owned(),
                diff_unified: "--- a/src/validators.rs\n+++ b/src/validators.rs\n@@ -1 +1 @@\n-a\n+b\n".to_owned(),
                additions: 14,
                deletions: 6,
            },
            426,
        ),
    ));
    all.push((
        "model_provider_changed",
        example(
            Event::ModelProviderChanged {
                from: ProviderId("local:vllm:qwen3.5-8b".to_owned()),
                to: ProviderId("external:openai:gpt-4o".to_owned()),
                trigger: FallbackTrigger::TtftExceeded,
            },
            430,
        ),
    ));
    all.push((
        "daemon_unavailable",
        Envelope::event(
            Event::DaemonUnavailable,
            None,
            7,
            Timestamp { secs: TS_SECS, nanos: 0 },
        ),
    ));
    all.push((
        "error",
        example(
            Event::Error {
                code: "provider_failed".to_owned(),
                message: "sin proveedor disponible".to_owned(),
                fatal: true,
            },
            431,
        ),
    ));
    all.push((
        "task_dequeued",
        example(
            Event::TaskDequeued {
                outbox_id: "01J1ZK4T0000000000000000EE".to_owned(),
                message_id: MessageId(MESSAGE),
            },
            432,
        ),
    ));
    all
}

/// The examples of the commands.
pub fn command_fixtures() -> (r: Vec<(&'static str, CommandEnvelope)>)
    ensures
        is_command_catalogue(r@),
{
    let mut all: Vec<(&'static str, CommandEnvelope)> = Vec::new();
    all.push((
        "send_message",
        order(
            Command::SendMessage {
                content: "Extrae la lógica de validación a un módulo separado".to_owned(),
                client_msg_id: "a3f0c2d4-0000-4000-8000-000000000001".to_owned(),
            },
        ),
    ));
    all.push((
        "resolve_approval",
        order(
            Command::ResolveApproval {
                approval_id: ApprovalId(APPROVAL),
                decision: Decision::Reject,
                reason: Some("no es el módulo correcto".to_owned()),
                remember_rule: Some(false),
            },
        ),
    ));
    all.push((
        "resolve_approval.minimal",
        order(
            Command::ResolveApproval {
                approval_id: ApprovalId(APPROVAL),
                decision: Decision::Approve,
                reason: None,
                remember_rule: None,
            },
        ),
    ));
    all.push((
        "subscribe_session",
        order(
            Command::SubscribeSession {
                session_id: SessionId(SESSION),
                after_seq: 418,
            },
        ),
    ));
    all.push((
        "unsubscribe_session",
        order(
            Command::UnsubscribeSession {
                session_id: SessionId(SESSION),
            },
        ),
    ));
    all
}

/// Law: every kind of event and every kind of command has an example.
pub proof fn law_every_kind_has_an_example(
    events: Seq<(&'static str, Envelope<Event>)>,
    commands: Seq<(&'static str, CommandEnvelope)>,
    event: Event,
    command: Command,
)
    requires
        is_event_catalogue(events),
        is_command_catalogue(commands),
    ensures
        exists|i: int|
            0 <= i < events.len() && (#[trigger] events[i]).1.body.kind_text()
                == event.kind_text(),
        exists|i: int|
            0 <= i < commands.len() && (#[trigger] commands[i]).1.body.kind_text()
                == command.kind_text(),
{
    let i: int = match event {
        Event::SessionState { .. } => 0,
        Event::MessageDelta { .. } => 2,
        Event::MessageCompleted { .. } => 3,
        Event::ToolCallRequested { .. } => 4,
        Event::ApprovalRequest { .. } => 5,
        Event::ApprovalResolved { .. } => 7,
        Event::ToolResult { .. } => 8,
        Event::FileDiff { .. } => 9,
        Event::ModelProviderChanged { .. } => 10,
        Event::DaemonUnavailable => 11,
        Event::Error { .. } => 12,
        Event::TaskDequeued { .. } => 13,
    };
    assert(events[i].1.body.kind_text() == event.kind_text());
    let k: int = match command {
        Command::SendMessage { .. } => 0,
        Command::ResolveApproval { .. } => 1,
        Command::SubscribeSession { .. } => 3,
        Command::UnsubscribeSession { .. } => 4,
    };
    assert(commands[k].1.body.kind_text() == command.kind_text());
}

/// The name of an example of an event.
pub open spec fn event_name(i: int) -> Seq<char> {
    if i == 0 {
        "session_state"@
    } else if i == 1 {
        "session_state.optional_title"@
    } else if i == 2 {
        "message_delta"@
    } else if i == 3 {
        "message_completed"@
    } else if i == 4 {
        "tool_call_requested"@
    } else if i == 5 {
        "approval_request"@
    } else if i == 6 {
        "approval_request.expires_at"@
    } else if i == 7 {
        "approval_resolved"@
    } else if i == 8 {
        "tool_result"@
    } else if i == 9 {
        "file_diff"@
    } else if i == 10 {
        "model_provider_changed"@
    } else if i == 11 {
        "daemon_unavailable"@
    } else if i == 12 {
        "error"@
    } else {
        "task_dequeued"@
    }
}

/// The name of an example of a command.
pub open spec fn command_name(i: int) -> Seq<char> {
    if i == 0 {
        "send_message"@
    } else if i == 1 {
        "resolve_approval"@
    } else if i == 2 {
        "resolve_approval.minimal"@
    } else if i == 3 {
        "subscribe_session"@
    } else {
        "unsubscribe_session"@
    }
}

/// Whether a text holds no dot.
pub open spec fn without_dot(s: Seq<char>) -> bool
    decreases s.len(),
{
    s.len() > 0 ==> s.last() != '.' && without_dot(s.drop_last())
}

/// Whether a text is what a name begins with, up to its first dot.
pub open spec fn is_stem(stem: Seq<char>, name: Seq<char>) -> bool {
    without_dot(stem) && (name == stem || stem.push('.').is_prefix_of(name))
}

proof fn lemma_kinds_have_no_dot(event: Event, command: Command)
    ensures
        without_dot(event.kind_text()),
        without_dot(command.kind_text()),
{
    reveal_with_fuel(without_dot, 30);
    reveal_strlit("session_state");
    reveal_strlit("message_delta");
    reveal_strlit("message_completed");
    reveal_strlit("tool_call_requested");
    reveal_strlit("approval_request");
    reveal_strlit("approval_resolved");
    reveal_strlit("tool_result");
    reveal_strlit("file_diff");
    reveal_strlit("model_provider_changed");
    reveal_strlit("daemon_unavailable");
    reveal_strlit("error");
    reveal_strlit("task_dequeued");
    reveal_strlit("send_message");
    reveal_strlit("resolve_approval");
    reveal_strlit("subscribe_session");
    reveal_strlit("unsubscribe_session");
}

proof fn lemma_event_names(i: int, j: int)
    requires
        0 <= i < 14,
        0 <= j < 14,
        i != j,
    ensures
        event_name(i) != event_name(j),
{
    reveal_strlit("session_state");
    reveal_strlit("session_state.optional_title");
    reveal_strlit("message_delta");
    reveal_strlit("message_completed");
    reveal_strlit("tool_call_requested");
    reveal_strlit("approval_request");
    reveal_strlit("approval_request.expires_at");
    reveal_strlit("approval_resolved");
    reveal_strlit("tool_result");
    reveal_strlit("file_diff");
    reveal_strlit("model_provider_changed");
    reveal_strlit("daemon_unavailable");
    reveal_strlit("error");
    reveal_strlit("task_dequeued");
    let (a, b) = (event_name(i), event_name(j));
    assert(a.len() != b.len() || a[0] != b[0]);
}

proof fn lemma_command_names(i: int, j: int)
    requires
        0 <= i < 5,
        0 <= j < 5,
        i != j,
    ensures
        command_name(i) != command_name(j),
{
    reveal_strlit("send_message");
    reveal_strlit("resolve_approval");
    reveal_strlit("resolve_approval.minimal");
    reveal_strlit("subscribe_session");
    reveal_strlit("unsubscribe_session");
    let (a, b) = (command_name(i), command_name(j));
    assert(a.len() != b.len() || a[0] != b[0]);
}

/// Law: no two examples share a name, and each is named by its kind, up to the
/// first dot of the name.
pub proof fn law_examples_are_named_by_kind(
    events: Seq<(&'static str, Envelope<Event>)>,
    commands: Seq<(&'static str, CommandEnvelope)>,
)
    requires
        is_event_catalogue(events),
        is_command_catalogue(commands),
    ensures
        forall|i: int|
            0 <= i < events.len() ==> is_stem(
                (#[trigger] events[i]).1.body.kind_text(),
                events[i].0@,
            ),
        forall|i: int, j: int|
            0 <= i < j < events.len() ==> (#[trigger] events[i]).0@ != (#[trigger] events[j]).0@,
        forall|i: int|
            0 <= i < commands.len() ==> is_stem(
                (#[trigger] commands[i]).1.body.kind_text(),
                commands[i].0@,
            ),
        forall|i: int, j: int|
            0 <= i < j < commands.len() ==> (#[trigger] commands[i]).0@ != (
            #[trigger] commands[j]).0@,
{
    assert(forall|i: int| 0 <= i < events.len() ==> (#[trigger] events[i]).0@ == event_name(i));
    assert(forall|i: int|
        0 <= i < commands.len() ==> (#[trigger] commands[i]).0@ == command_name(i));
    assert forall|i: int, j: int| 0 <= i < j < events.len() implies (#[trigger] events[i]).0@ != (
    #[trigger] events[j]).0@ by {
        lemma_event_names(i, j);
    }
    assert forall|i: int, j: int| 0 <= i < j < commands.len() implies (
    #[trigger] commands[i]).0@ != (#[trigger] commands[j]).0@ by {
        lemma_command_names(i, j);
    }
    assert forall|i: int| 0 <= i < events.len() implies is_stem(
        (#[trigger] events[i]).1.body.kind_text(),
        events[i].0@,
    ) by {
        lemma_kinds_have_no_dot(events[i].1.body, commands[0].1.body);
        reveal_strlit("session_state");
        reveal_strlit("session_state.optional_title");
        reveal_strlit("approval_request");
        reveal_strlit("approval_request.expires_at");
        assert("session_state.optional_title"@.take(14) == "session_state"@.push('.'));
        assert("approval_request.expires_at"@.take(17) == "approval_request"@.push('.'));
    }
    assert forall|i: int| 0 <= i < commands.len() implies is_stem(
        (#[trigger] commands[i]).1.body.kind_text(),
        commands[i].0@,
    ) by {
        lemma_kinds_have_no_dot(events[0].1.body, commands[i].1.body);
        reveal_strlit("resolve_approval");
        reveal_strlit("resolve_approval.minimal");
        assert("resolve_approval.minimal"@.take(17) == "resolve_approval"@.push('.'));
    }
}

} // verus!
