//! Commands that clients send to the daemon.
//!
//! They travel in the envelope of the events, without `seq`: the daemon
//! assigns that to the effect. `send_message` carries `client_msg_id`, the key
//! of its idempotency.

use vstd::prelude::*;

use crate::protocol::events::Decision;
use crate::protocol::ids::{ApprovalId, SessionId};
use crate::protocol::time::Timestamp;

verus! {

/// Commands. The target session of `send_message` travels in the envelope.
#[derive(Debug, PartialEq)]
pub enum Command {
    /// Send a message and start the loop.
    SendMessage { content: String, client_msg_id: String },
    /// Approve or reject a request.
    ResolveApproval {
        approval_id: ApprovalId,
        decision: Decision,
        reason: Option<String>,
        remember_rule: Option<bool>,
    },
    /// Follow a session, with replay of what came after `after_seq`.
    SubscribeSession { session_id: SessionId, after_seq: u64 },
    /// Stop following a session.
    UnsubscribeSession { session_id: SessionId },
}

impl Command {
    /// The discriminant on the wire.
    pub open spec fn kind_text(self) -> Seq<char> {
        match self {
            Command::SendMessage { .. } => "send_message"@,
            Command::ResolveApproval { .. } => "resolve_approval"@,
            Command::SubscribeSession { .. } => "subscribe_session"@,
            Command::UnsubscribeSession { .. } => "unsubscribe_session"@,
        }
    }

    /// The discriminant on the wire.
    pub fn kind(&self) -> (r: &'static str)
        ensures
            r@ == self.kind_text(),
    {
        match self {
            Command::SendMessage { .. } => "send_message",
            Command::ResolveApproval { .. } => "resolve_approval",
            Command::SubscribeSession { .. } => "subscribe_session",
            Command::UnsubscribeSession { .. } => "unsubscribe_session",
        }
    }
}

/// Envelope of a command.
#[derive(Debug, PartialEq)]
pub struct CommandEnvelope {
    pub v: u16,
    pub body: Command,
    /// Target session of `send_message`; none in global commands.
    pub session_id: Option<SessionId>,
    pub ts: Timestamp,
}

/// Law: each command travels under its own name.
pub proof fn law_command_names(command: Command)
    ensures
        command is SendMessage <==> command.kind_text() == "send_message"@,
        command is ResolveApproval <==> command.kind_text() == "resolve_approval"@,
        command is SubscribeSession <==> command.kind_text() == "subscribe_session"@,
        command is UnsubscribeSession <==> command.kind_text() == "unsubscribe_session"@,
{
    reveal_strlit("send_message");
    reveal_strlit("resolve_approval");
    reveal_strlit("subscribe_session");
    reveal_strlit("unsubscribe_session");
    assert("send_message"@.len() == 12 && "resolve_approval"@.len() == 16);
    assert("subscribe_session"@.len() == 17 && "unsubscribe_session"@.len() == 19);
}

} // verus!
