//! Interface of the model adapter.
//!
//! The agent loop knows requests, stream items and typed errors; it never
//! knows a concrete provider.

pub mod fallback;
pub mod groq;
pub mod mock;

use vstd::prelude::*;

use crate::protocol::events::{StopReason, Usage};
use crate::protocol::ids::ToolCallId;
use crate::text;

verus! {

/// The model asked for a tool; `args` is JSON text.
#[derive(Debug, PartialEq)]
pub struct ToolCallRequest {
    pub tool_call_id: ToolCallId,
    pub tool: String,
    pub args: String,
    /// The provider's own name for the call, if it gave one.
    pub provider_call_id: Option<String>,
}

impl Clone for ToolCallRequest {
    fn clone(&self) -> (r: Self)
        ensures
            r == *self,
    {
        ToolCallRequest {
            tool_call_id: self.tool_call_id,
            tool: self.tool.clone(),
            args: self.args.clone(),
            provider_call_id: text::copy_option(&self.provider_call_id),
        }
    }
}

/// A copy of a list of tool calls.
pub fn copy_calls(calls: &Vec<ToolCallRequest>) -> (r: Vec<ToolCallRequest>)
    ensures
        r@ == calls@,
{
    let mut out: Vec<ToolCallRequest> = Vec::new();
    let mut i: usize = 0;
    while i < calls.len()
        invariant
            i <= calls.len(),
            out@ == calls@.take(i as int),
        decreases calls.len() - i,
    {
        out.push(calls[i].clone());
        i += 1;
    }
    assert(calls@.take(i as int) == calls@);
    out
}

/// Message of the context handed to the model.
#[derive(Debug, PartialEq)]
pub struct ChatMessage {
    /// `system`, `user`, `assistant` or `tool`.
    pub role: String,
    pub content: String,
    /// Calls that an `assistant` message made.
    pub tool_calls: Vec<ToolCallRequest>,
    /// Call that a `tool` message answers.
    pub tool_call_id: Option<ToolCallId>,
    /// The provider's own name for that call.
    pub provider_tool_call_id: Option<String>,
}

/// What a message of the context holds.
pub ghost struct ChatMessageView {
    pub role: Seq<char>,
    pub content: Seq<char>,
    pub tool_calls: Seq<ToolCallRequest>,
    pub tool_call_id: Option<ToolCallId>,
    pub provider_tool_call_id: Option<String>,
}

impl View for ChatMessage {
    type V = ChatMessageView;

    open spec fn view(&self) -> ChatMessageView {
        ChatMessageView {
            role: self.role@,
            content: self.content@,
            tool_calls: self.tool_calls@,
            tool_call_id: self.tool_call_id,
            provider_tool_call_id: self.provider_tool_call_id,
        }
    }
}

/// What a list of messages holds.
pub open spec fn message_views(messages: Seq<ChatMessage>) -> Seq<ChatMessageView> {
    messages.map_values(|m: ChatMessage| m@)
}

impl Clone for ChatMessage {
    fn clone(&self) -> (r: Self)
        ensures
            r@ == self@,
    {
        ChatMessage {
            role: self.role.clone(),
            content: self.content.clone(),
            tool_calls: copy_calls(&self.tool_calls),
            tool_call_id: self.tool_call_id,
            provider_tool_call_id: text::copy_option(&self.provider_tool_call_id),
        }
    }
}

/// A tool as the model sees it; `parameters` is the JSON schema of its
/// arguments.
#[derive(Debug, PartialEq)]
pub struct ToolSchema {
    pub name: String,
    pub description: String,
    pub parameters: String,
}

/// What one generation is asked for.
#[derive(Debug)]
pub struct GenerationRequest {
    pub messages: Vec<ChatMessage>,
    pub tools: Vec<ToolSchema>,
    pub max_tokens: u32,
    /// Sampling temperature, in thousandths.
    pub temperature_milli: u32,
}

/// Item of a generation stream.
#[derive(Debug, PartialEq)]
pub enum StreamItem {
    Delta(String),
    ToolCall(ToolCallRequest),
    Done(StopReason, Usage),
}

/// What can go wrong with a provider: the input of the fallback machine.
#[derive(Debug, PartialEq)]
pub enum ProviderError {
    /// Falls back at once.
    OutOfMemory,
    Timeout { after_ms: u64 },
    /// Network or HTTP; counts as a failure.
    Transport(String),
    /// Counts as a failure.
    InvalidResponse(String),
    /// The provider asked for a pause.
    RateLimited { retry_after_s: u64 },
    /// Does not count: the user wanted it.
    Cancelled,
}

impl ProviderError {
    /// The message shown to the user.
    pub open spec fn message(self) -> Seq<char> {
        match self {
            ProviderError::OutOfMemory => "proveedor sin memoria (OOM)"@,
            ProviderError::Timeout { after_ms } =>
                "timeout tras "@ + text::decimal(after_ms as nat) + " ms"@,
            ProviderError::Transport(detail) => "transporte: "@ + detail@,
            ProviderError::InvalidResponse(detail) => "respuesta inválida: "@ + detail@,
            ProviderError::RateLimited { retry_after_s } =>
                "límite de peticiones; reintentar en "@ + text::decimal(retry_after_s as nat) + " s"@,
            ProviderError::Cancelled => "cancelado por el usuario"@,
        }
    }

    /// The message shown to the user.
    pub fn text(&self) -> (r: String)
        ensures
            r@ == self.message(),
    {
        match self {
            ProviderError::OutOfMemory => "proveedor sin memoria (OOM)".to_owned(),
            ProviderError::Timeout { after_ms } => {
                text::join3("timeout tras ", text::number(*after_ms).as_str(), " ms")
            },
            ProviderError::Transport(detail) => text::join2("transporte: ", detail.as_str()),
            ProviderError::InvalidResponse(detail) => {
                text::join2("respuesta inválida: ", detail.as_str())
            },
            ProviderError::RateLimited { retry_after_s } => {
                text::join3(
                    "límite de peticiones; reintentar en ",
                    text::number(*retry_after_s).as_str(),
                    " s",
                )
            },
            ProviderError::Cancelled => "cancelado por el usuario".to_owned(),
        }
    }
}

/// Law: the message of an error holds its details: how long was waited, what the
/// network or the answer was blamed for, how long to wait.
pub proof fn law_error_message_holds_details(err: ProviderError)
    ensures
        err matches ProviderError::Transport(detail) ==> detail@.is_suffix_of(err.message()),
        err matches ProviderError::InvalidResponse(detail) ==> detail@.is_suffix_of(err.message()),
        err matches ProviderError::Timeout { after_ms } ==> text::occurs(
            err.message(),
            text::decimal(after_ms as nat),
        ),
        err matches ProviderError::RateLimited { retry_after_s } ==> text::occurs(
            err.message(),
            text::decimal(retry_after_s as nat),
        ),
{
    match err {
        ProviderError::Transport(detail) => {
            assert(detail@.is_suffix_of(err.message()));
        },
        ProviderError::InvalidResponse(detail) => {
            assert(detail@.is_suffix_of(err.message()));
        },
        ProviderError::Timeout { after_ms } => {
            let at = "timeout tras "@.len() as int;
            let n = text::decimal(after_ms as nat);
            assert(err.message().subrange(at, at + n.len()) == n);
            assert(text::occurs_at(err.message(), n, at));
        },
        ProviderError::RateLimited { retry_after_s } => {
            let at = "límite de peticiones; reintentar en "@.len() as int;
            let n = text::decimal(retry_after_s as nat);
            assert(err.message().subrange(at, at + n.len()) == n);
            assert(text::occurs_at(err.message(), n, at));
        },
        _ => {},
    }
}

} // verus!
