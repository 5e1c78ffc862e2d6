//! Shapes of the REST surface: what requests ask for, what responses hold and
//! what the filters are.

use vstd::prelude::*;

use crate::protocol::envelope::Envelope;
use crate::protocol::events::{Decision, Event, SessionState};
use crate::protocol::ids::{ApprovalId, AuditId, MessageId, RuleId, SessionId, ToolCallId};
use crate::protocol::time::Timestamp;

verus! {

/// Closed catalogue of error codes.
#[derive(Debug, Clone, Copy, PartialEq, Eq, Structural)]
pub enum ErrorCode {
    Unauthorized,
    NotFound,
    ValidationFailed,
    Conflict,
    SessionBusy,
    AsrFailed,
    Internal,
}

/// What an error adds to its message.
#[derive(Debug, PartialEq)]
pub enum ErrorDetails {
    /// The field that failed validation.
    Field(String),
    /// The audio type that is not accepted.
    Mime(String),
    /// The request that is already resolved.
    Approval(ApprovalDto),
}

/// Body of an error.
#[derive(Debug, PartialEq)]
pub struct ErrorBody {
    pub code: ErrorCode,
    pub message: String,
    pub details: Option<ErrorDetails>,
}

/// The only shape an error takes.
#[derive(Debug, PartialEq)]
pub struct ErrorEnvelope {
    pub error: ErrorBody,
}

/// Health of a model provider.
#[derive(Debug, Clone, Copy, PartialEq, Eq, Structural)]
pub enum ProviderHealth {
    Ready,
    Degraded,
    Down,
}

/// The provider in use, and how it is.
#[derive(Debug, PartialEq)]
pub struct ProviderStatus {
    pub id: String,
    pub health: ProviderHealth,
    pub reason: Option<String>,
}

/// State of the outgoing connection to the relay.
#[derive(Debug, Clone, Copy, PartialEq, Eq, Structural)]
pub struct RelayStatus {
    /// A relay is configured.
    pub configured: bool,
    /// The connection is alive.
    pub connected: bool,
}

/// Health of the daemon.
#[derive(Debug, PartialEq)]
pub struct HealthResponse {
    pub status: String,
    pub version: String,
    pub provider: ProviderStatus,
    pub relay: Option<RelayStatus>,
}

/// A session as clients see it.
#[derive(Debug, PartialEq)]
pub struct SessionDto {
    pub id: SessionId,
    pub workspace_path: String,
    pub title: String,
    pub state: SessionState,
    pub created_at: Timestamp,
    pub last_seq: u64,
}

/// A session with its counters.
#[derive(Debug, PartialEq)]
pub struct SessionDetail {
    pub session: SessionDto,
    pub message_count: u64,
    pub pending_approvals: u64,
}

/// Request for a new session.
#[derive(Debug, PartialEq)]
pub struct CreateSessionRequest {
    /// Absolute path of an existing directory, without `..`.
    pub workspace_path: String,
    /// At most 120 characters.
    pub title: Option<String>,
}

/// Request to rename or archive a session.
#[derive(Debug, PartialEq)]
pub struct PatchSessionRequest {
    pub title: Option<String>,
    /// The only state that may be asked for is `archived`.
    pub state: Option<SessionState>,
}

/// Filters of the list of sessions.
#[derive(Debug, PartialEq)]
pub struct SessionsQuery {
    pub cursor: Option<String>,
    pub limit: Option<u32>,
    pub state: Option<SessionState>,
}

/// A page of sessions.
#[derive(Debug, PartialEq)]
pub struct SessionsPage {
    pub sessions: Vec<SessionDto>,
    pub next_cursor: Option<String>,
}

/// Request to send a message.
#[derive(Debug, PartialEq)]
pub struct SendMessageRequest {
    /// At most 32 000 characters.
    pub content: String,
    /// Key of idempotency within the session.
    pub client_msg_id: String,
}

/// Answer to an accepted message.
#[derive(Debug, PartialEq)]
pub struct SendMessageResponse {
    pub message_id: MessageId,
    pub session_state: SessionState,
    pub accepted_at: Timestamp,
}

/// Filters of a replay.
#[derive(Debug, PartialEq)]
pub struct EventsQuery {
    pub after_seq: Option<u64>,
    /// At most 1000.
    pub limit: Option<u32>,
}

/// A page of events.
#[derive(Debug, PartialEq)]
pub struct EventsPage {
    pub events: Vec<Envelope<Event>>,
    pub last_seq: u64,
    pub has_more: bool,
}

/// A request for approval as clients see it; `args` is JSON text.
#[derive(Debug, PartialEq)]
pub struct ApprovalDto {
    pub id: ApprovalId,
    pub session_id: SessionId,
    pub tool_call_id: ToolCallId,
    pub tool: String,
    pub summary: String,
    pub args: String,
    pub decision: Option<Decision>,
    pub resolved_by: Option<String>,
    pub created_at: Timestamp,
    pub resolved_at: Option<Timestamp>,
}

/// Pending requests of every session, oldest first.
#[derive(Debug, PartialEq)]
pub struct ApprovalsPage {
    pub approvals: Vec<ApprovalDto>,
}

/// A decision as a client sends it.
#[derive(Debug, PartialEq)]
pub struct DecisionRequest {
    pub decision: Decision,
    /// At most 500 characters.
    pub reason: Option<String>,
    /// Create a rule of automatic approval.
    pub remember_rule: Option<bool>,
}

/// The decision that stands.
#[derive(Debug, PartialEq)]
pub struct DecisionResponse {
    pub approval_id: ApprovalId,
    pub resolved: bool,
    pub decision: Decision,
    pub resolved_by: String,
    pub resolved_at: Timestamp,
}

/// A rule of automatic approval.
#[derive(Debug, PartialEq)]
pub struct Rule {
    pub id: RuleId,
    pub workspace_path: String,
    pub tool: String,
    pub pattern: String,
    pub created_at: Timestamp,
}

/// Every rule.
#[derive(Debug, PartialEq)]
pub struct RulesPage {
    pub rules: Vec<Rule>,
}

/// A rule to create.
#[derive(Debug, PartialEq)]
pub struct NewRule {
    pub workspace_path: String,
    pub tool: String,
    pub pattern: String,
}

/// Request to replace every rule.
#[derive(Debug, PartialEq)]
pub struct PutRulesRequest {
    pub rules: Vec<NewRule>,
}

/// A model of a provider.
#[derive(Debug, PartialEq)]
pub struct ModelRef {
    pub provider: String,
    pub model: String,
}

impl Clone for ModelRef {
    fn clone(&self) -> (r: Self)
        ensures
            r == *self,
    {
        ModelRef { provider: self.provider.clone(), model: self.model.clone() }
    }
}

/// Thresholds of the fallback machine.
#[derive(Debug, Clone, Copy, PartialEq, Eq, Structural)]
pub struct Thresholds {
    pub ttft_threshold_ms: u64,
    pub failure_window: u32,
    pub cooldown_s: u32,
}

/// The models to use. A change applies from the next turn on.
#[derive(Debug, PartialEq)]
pub struct ModelConfig {
    pub primary: ModelRef,
    pub fallback: ModelRef,
    pub thresholds: Thresholds,
}

impl Clone for ModelConfig {
    fn clone(&self) -> (r: Self)
        ensures
            r == *self,
    {
        ModelConfig {
            primary: self.primary.clone(),
            fallback: self.fallback.clone(),
            thresholds: self.thresholds,
        }
    }
}

impl Default for ModelConfig {
    fn default() -> (r: Self)
        ensures
            r.primary.provider@ == "groq"@,
            r.primary.model@ == "qwen/qwen3.6-27b"@,
            r.fallback.provider@ == "groq"@,
            r.fallback.model@ == "openai/gpt-oss-120b"@,
            r.thresholds == (Thresholds {
                ttft_threshold_ms: 5000,
                failure_window: 3,
                cooldown_s: 60,
            }),
    {
        ModelConfig {
            primary: ModelRef {
                provider: "groq".to_owned(),
                model: "qwen/qwen3.6-27b".to_owned(),
            },
            fallback: ModelRef {
                provider: "groq".to_owned(),
                model: "openai/gpt-oss-120b".to_owned(),
            },
            thresholds: Thresholds { ttft_threshold_ms: 5000, failure_window: 3, cooldown_s: 60 },
        }
    }
}

/// Whether a provider key is configured, and where it came from. The key
/// itself is never shown.
#[derive(Debug, PartialEq)]
pub struct ProviderKeyStatus {
    pub configured: bool,
    /// `stored`, `env` or `none`.
    pub source: String,
}

/// Request to set the provider key, or to drop it.
#[derive(Debug, PartialEq)]
pub struct SetProviderKeyRequest {
    /// None or blank drops the key.
    pub groq_api_key: Option<String>,
}

/// A directory that can be chosen as a workspace.
#[derive(Debug, PartialEq)]
pub struct DirEntry {
    pub name: String,
    /// Absolute path.
    pub path: String,
}

/// Contents of a directory, for the folder picker.
#[derive(Debug, PartialEq)]
pub struct DirListing {
    pub path: String,
    /// None at a root.
    pub parent: Option<String>,
    /// Subdirectories, ordered by name.
    pub entries: Vec<DirEntry>,
}

/// A transcription. The audio is never kept.
#[derive(Debug, PartialEq)]
pub struct AsrResponse {
    pub text: String,
    pub duration_ms: u64,
    pub model: String,
}

/// Entry of the audit log; `detail` is JSON text.
#[derive(Debug, PartialEq)]
pub struct AuditEntry {
    pub id: AuditId,
    pub session_id: Option<SessionId>,
    /// `tool_exec`, `llm_call`, `approval` or `config`.
    pub kind: String,
    pub detail: String,
    pub ts: Timestamp,
}

/// Filters of the audit log.
#[derive(Debug, PartialEq)]
pub struct AuditQuery {
    pub cursor: Option<String>,
    pub limit: Option<u32>,
    pub session_id: Option<SessionId>,
    pub provider: Option<String>,
}

/// A page of the audit log.
#[derive(Debug, PartialEq)]
pub struct AuditPage {
    pub entries: Vec<AuditEntry>,
    pub next_cursor: Option<String>,
}

/// Single-use ticket that opens a WebSocket.
#[derive(Debug, PartialEq)]
pub struct WsTicketResponse {
    pub ticket: String,
    pub expires_in_s: u32,
}

} // verus!
