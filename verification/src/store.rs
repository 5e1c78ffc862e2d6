//! Records of the store: how they read, how they are paged and how they
//! change. Each change is a step on one record, which the caller makes atomic
//! by reading and writing the record in one transaction.

pub mod acks;
pub mod approvals;
pub mod audit;
pub mod config;
pub mod events;
pub mod files;
pub mod messages;
pub mod rules;
pub mod sessions;

use vstd::prelude::*;

use crate::protocol::events::SessionState;
use crate::text;

verus! {

/// File of the database within the data directory.
pub const DB_FILE: &'static str = "daemon.db";

/// The text under which a state is stored.
pub open spec fn state_text(state: SessionState) -> Seq<char> {
    match state {
        SessionState::Idle => "idle"@,
        SessionState::Running => "running"@,
        SessionState::WaitingApproval => "waiting_approval"@,
        SessionState::Archived => "archived"@,
    }
}

/// The state stored as a text, if it is one.
pub open spec fn text_state(s: Seq<char>) -> Option<SessionState> {
    if s == "idle"@ {
        Some(SessionState::Idle)
    } else if s == "running"@ {
        Some(SessionState::Running)
    } else if s == "waiting_approval"@ {
        Some(SessionState::WaitingApproval)
    } else if s == "archived"@ {
        Some(SessionState::Archived)
    } else {
        None
    }
}

/// The text under which a state is stored.
pub fn state_to_str(state: SessionState) -> (r: &'static str)
    ensures
        r@ == state_text(state),
{
    match state {
        SessionState::Idle => "idle",
        SessionState::Running => "running",
        SessionState::WaitingApproval => "waiting_approval",
        SessionState::Archived => "archived",
    }
}

/// The state stored as a text, if it is one.
pub fn state_from_str(s: &str) -> (r: Option<SessionState>)
    ensures
        r == text_state(s@),
{
    if text::same(s, "idle") {
        Some(SessionState::Idle)
    } else if text::same(s, "running") {
        Some(SessionState::Running)
    } else if text::same(s, "waiting_approval") {
        Some(SessionState::WaitingApproval)
    } else if text::same(s, "archived") {
        Some(SessionState::Archived)
    } else {
        None
    }
}

/// Law: a stored state reads back, and no other text reads as it.
pub proof fn law_state_round_trip(state: SessionState, s: Seq<char>)
    ensures
        text_state(state_text(state)) == Some(state),
        text_state(s) == Some(state) ==> s == state_text(state),
{
    reveal_strlit("idle");
    reveal_strlit("running");
    reveal_strlit("waiting_approval");
    reveal_strlit("archived");
    assert("idle"@.len() == 4);
    assert("running"@.len() == 7);
    assert("waiting_approval"@.len() == 16);
    assert("archived"@.len() == 8);
}

/// Law: the four states are stored under four names, and no other text is one.
pub proof fn law_state_names(state: SessionState, s: Seq<char>)
    ensures
        state is Idle ==> state_text(state) == "idle"@,
        state is Running ==> state_text(state) == "running"@,
        state is WaitingApproval ==> state_text(state) == "waiting_approval"@,
        state is Archived ==> state_text(state) == "archived"@,
        text_state(s) is Some <==> s == "idle"@ || s == "running"@ || s == "waiting_approval"@ || s
            == "archived"@,
{
}

} // verus!
