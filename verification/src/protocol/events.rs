//! Catalogue of the events that the daemon sends to its clients.
//!
//! On the wire an event carries its discriminant in `type` and its fields in
//! `payload`. Adding an event is a minor change: clients ignore a `type` they
//! do not know.

use vstd::prelude::*;

use crate::protocol::ids::{ApprovalId, MessageId, ProviderId, ToolCallId};
use crate::protocol::time::Timestamp;

verus! {

/// State of a session.
#[derive(Debug, Clone, Copy, PartialEq, Eq, Structural)]
pub enum SessionState {
    Idle,
    Running,
    WaitingApproval,
    Archived,
}

/// Decision on a request for approval.
#[derive(Debug, Clone, Copy, PartialEq, Eq, Structural)]
pub enum Decision {
    Approve,
    Reject,
}

/// Why a message of the model ended.
#[derive(Debug, Clone, Copy, PartialEq, Eq, Structural)]
pub enum StopReason {
    EndTurn,
    MaxTokens,
    MaxIterations,
    Cancelled,
    Error,
}

/// Tokens of one generation.
#[derive(Debug, Clone, Copy, PartialEq, Eq, Structural)]
pub struct Usage {
    pub prompt_tokens: u32,
    pub completion_tokens: u32,
}

/// What caused a change of provider.
#[derive(Debug, Clone, Copy, PartialEq, Eq, Structural)]
pub enum FallbackTrigger {
    Oom,
    RateLimited,
    TtftExceeded,
    Failures,
    Manual,
}

/// Events, one variant per row of the catalogue. Tool arguments are JSON text.
#[derive(Debug, PartialEq)]
pub enum Event {
    /// The session changed state.
    SessionState { state: SessionState, title: Option<String>, reason: Option<String> },
    /// Fragment of the model's stream; clients concatenate by `message_id`.
    MessageDelta { message_id: MessageId, delta: String },
    /// A message of the model ended.
    MessageCompleted { message_id: MessageId, stop_reason: StopReason, usage: Usage },
    /// The model asked for a tool.
    ToolCallRequested { tool_call_id: ToolCallId, tool: String, args: String },
    /// A tool waits for a human decision.
    ApprovalRequest {
        approval_id: ApprovalId,
        tool_call_id: ToolCallId,
        tool: String,
        summary: String,
        args: String,
        expires_at: Option<Timestamp>,
    },
    /// A decision was taken.
    ApprovalResolved { approval_id: ApprovalId, decision: Decision, resolved_by: String },
    /// Outcome of a tool.
    ToolResult { tool_call_id: ToolCallId, ok: bool, output_excerpt: String, truncated: bool },
    /// A file changed.
    FileDiff {
        tool_call_id: ToolCallId,
        path: String,
        diff_unified: String,
        additions: u32,
        deletions: u32,
    },
    /// The adapter changed provider.
    ModelProviderChanged { from: ProviderId, to: ProviderId, trigger: FallbackTrigger },
    /// Sent by the relay while no daemon is connected. Global: it travels with
    /// no session.
    DaemonUnavailable,
    /// Error of a session; a fatal one sends the session to `idle`.
    Error { code: String, message: String, fatal: bool },
    /// A task of the outbox became a message.
    TaskDequeued { outbox_id: String, message_id: MessageId },
}

impl Event {
    /// The discriminant on the wire.
    pub open spec fn kind_text(self) -> Seq<char> {
        match self {
            Event::SessionState { .. } => "session_state"@,
            Event::MessageDelta { .. } => "message_delta"@,
            Event::MessageCompleted { .. } => "message_completed"@,
            Event::ToolCallRequested { .. } => "tool_call_requested"@,
            Event::ApprovalRequest { .. } => "approval_request"@,
            Event::ApprovalResolved { .. } => "approval_resolved"@,
            Event::ToolResult { .. } => "tool_result"@,
            Event::FileDiff { .. } => "file_diff"@,
            Event::ModelProviderChanged { .. } => "model_provider_changed"@,
            Event::DaemonUnavailable => "daemon_unavailable"@,
            Event::Error { .. } => "error"@,
            Event::TaskDequeued { .. } => "task_dequeued"@,
        }
    }

    /// The row of the catalogue.
    pub open spec fn row(self) -> int {
        match self {
            Event::SessionState { .. } => 0,
            Event::MessageDelta { .. } => 1,
            Event::MessageCompleted { .. } => 2,
            Event::ToolCallRequested { .. } => 3,
            Event::ApprovalRequest { .. } => 4,
            Event::ApprovalResolved { .. } => 5,
            Event::ToolResult { .. } => 6,
            Event::FileDiff { .. } => 7,
            Event::ModelProviderChanged { .. } => 8,
            Event::DaemonUnavailable => 9,
            Event::Error { .. } => 10,
            Event::TaskDequeued { .. } => 11,
        }
    }

    /// The discriminant on the wire, as stored and logged.
    pub fn kind(&self) -> (r: &'static str)
        ensures
            r@ == self.kind_text(),
    {
        match self {
            Event::SessionState { .. } => "session_state",
            Event::MessageDelta { .. } => "message_delta",
            Event::MessageCompleted { .. } => "message_completed",
            Event::ToolCallRequested { .. } => "tool_call_requested",
            Event::ApprovalRequest { .. } => "approval_request",
            Event::ApprovalResolved { .. } => "approval_resolved",
            Event::ToolResult { .. } => "tool_result",
            Event::FileDiff { .. } => "file_diff",
            Event::ModelProviderChanged { .. } => "model_provider_changed",
            Event::DaemonUnavailable => "daemon_unavailable",
            Event::Error { .. } => "error",
            Event::TaskDequeued { .. } => "task_dequeued",
        }
    }
}

/// Law: the discriminant tells the events of different rows apart.
pub proof fn law_kind_identifies_event(a: Event, b: Event)
    ensures
        a.kind_text() == b.kind_text() <==> a.row() == b.row(),
{
    reveal_strlit("session_state");
    reveal_strlit("message_delta");
    reveal_strlit("message_completed");
    reveal_strlit("tool_call_requested");
    reveal_strlit("approval_request");
    reveal_strlit("approval_resolved");
    reveal_strlit("tool_result");
    reveal_strlit("file_diff");
    reveal_strlit("model_provider_changed");
    reveal_strlit("daemon_unavailable");
    reveal_strlit("error");
    reveal_strlit("task_dequeued");
    let (s, t) = (a.kind_text(), b.kind_text());
    assert(s.len() == t.len() && s[0] == t[0] ==> a.row() == b.row()) by {
        assert("session_state"@[0] == 's');
        assert("message_delta"@[0] == 'm');
        assert("task_dequeued"@[0] == 't');
        assert("message_completed"@[0] == 'm');
        assert("approval_resolved"@[0] == 'a');
    }
}

impl Clone for Event {
    fn clone(&self) -> (r: Self)
        ensures
            r == *self,
    {
        match self {
            Event::SessionState { state, title, reason } => Event::SessionState {
                state: *state,
                title: crate::text::copy_option(title),
                reason: crate::text::copy_option(reason),
            },
            Event::MessageDelta { message_id, delta } => Event::MessageDelta {
                message_id: *message_id,
                delta: delta.clone(),
            },
            Event::MessageCompleted { message_id, stop_reason, usage } => Event::MessageCompleted {
                message_id: *message_id,
                stop_reason: *stop_reason,
                usage: *usage,
            },
            Event::ToolCallRequested { tool_call_id, tool, args } => Event::ToolCallRequested {
                tool_call_id: *tool_call_id,
                tool: tool.clone(),
                args: args.clone(),
            },
            Event::ApprovalRequest { approval_id, tool_call_id, tool, summary, args, expires_at } =>
                Event::ApprovalRequest {
                    approval_id: *approval_id,
                    tool_call_id: *tool_call_id,
                    tool: tool.clone(),
                    summary: summary.clone(),
                    args: args.clone(),
                    expires_at: *expires_at,
                },
            Event::ApprovalResolved { approval_id, decision, resolved_by } =>
                Event::ApprovalResolved {
                    approval_id: *approval_id,
                    decision: *decision,
                    resolved_by: resolved_by.clone(),
                },
            Event::ToolResult { tool_call_id, ok, output_excerpt, truncated } => Event::ToolResult {
                tool_call_id: *tool_call_id,
                ok: *ok,
                output_excerpt: output_excerpt.clone(),
                truncated: *truncated,
            },
            Event::FileDiff { tool_call_id, path, diff_unified, additions, deletions } =>
                Event::FileDiff {
                    tool_call_id: *tool_call_id,
                    path: path.clone(),
                    diff_unified: diff_unified.clone(),
                    additions: *additions,
                    deletions: *deletions,
                },
            Event::ModelProviderChanged { from, to, trigger } => Event::ModelProviderChanged {
                from: from.clone(),
                to: to.clone(),
                trigger: *trigger,
            },
            Event::DaemonUnavailable => Event::DaemonUnavailable,
            Event::Error { code, message, fatal } => Event::Error {
                code: code.clone(),
                message: message.clone(),
                fatal: *fatal,
            },
            Event::TaskDequeued { outbox_id, message_id } => Event::TaskDequeued {
                outbox_id: outbox_id.clone(),
                message_id: *message_id,
            },
        }
    }
}

/// Law: each event travels under its own name.
pub proof fn law_event_names(event: Event)
    ensures
        event is SessionState <==> event.kind_text() == "session_state"@,
        event is MessageDelta <==> event.kind_text() == "message_delta"@,
        event is MessageCompleted <==> event.kind_text() == "message_completed"@,
        event is ToolCallRequested <==> event.kind_text() == "tool_call_requested"@,
        event is ApprovalRequest <==> event.kind_text() == "approval_request"@,
        event is ApprovalResolved <==> event.kind_text() == "approval_resolved"@,
        event is ToolResult <==> event.kind_text() == "tool_result"@,
        event is FileDiff <==> event.kind_text() == "file_diff"@,
        event is ModelProviderChanged <==> event.kind_text() == "model_provider_changed"@,
        event is DaemonUnavailable <==> event.kind_text() == "daemon_unavailable"@,
        event is Error <==> event.kind_text() == "error"@,
        event is TaskDequeued <==> event.kind_text() == "task_dequeued"@,
{
    reveal_strlit("session_state");
    reveal_strlit("message_delta");
    reveal_strlit("message_completed");
    reveal_strlit("tool_call_requested");
    reveal_strlit("approval_request");
    reveal_strlit("approval_resolved");
    reveal_strlit("tool_result");
    reveal_strlit("file_diff");
    reveal_strlit("model_provider_changed");
    reveal_strlit("daemon_unavailable");
    reveal_strlit("error");
    reveal_strlit("task_dequeued");
    assert("session_state"@.len() == 13 && "session_state"@[0] == 's');
    assert("message_delta"@.len() == 13 && "message_delta"@[0] == 'm');
    assert("message_completed"@.len() == 17 && "message_completed"@[0] == 'm');
    assert("tool_call_requested"@.len() == 19);
    assert("approval_request"@.len() == 16);
    assert("approval_resolved"@.len() == 17 && "approval_resolved"@[0] == 'a');
    assert("tool_result"@.len() == 11 && "file_diff"@.len() == 9);
    assert("model_provider_changed"@.len() == 22 && "daemon_unavailable"@.len() == 18);
    assert("error"@.len() == 5);
    assert("task_dequeued"@.len() == 13 && "task_dequeued"@[0] == 't');
}

} // verus!
