//! Routing header between the daemon and the relay.
//!
//! The relay forwards frames without reading them. It reads only this header:
//! who a command came from, and whom an event is for.

use vstd::prelude::*;

verus! {

/// Command of a remote client, bound for the daemon.
#[derive(Debug, PartialEq)]
pub struct ToDaemon {
    /// Device that sent the command.
    pub src: String,
    /// The serialised command envelope.
    pub frame: String,
    /// Set when this is a task taken from the outbox: the daemon drops
    /// repeats of it and answers with `ack_outbox_id`.
    pub outbox_id: Option<String>,
    /// Title of the session to create when the task names none.
    pub new_session_title: Option<String>,
    /// The relay asks for the state of every session.
    pub announce_sessions: Option<bool>,
}

/// Event of the daemon, bound for the clients of the account.
#[derive(Debug, PartialEq)]
pub struct FromDaemon {
    /// None for every subscriber, or the one device to deliver to.
    pub dst: Option<String>,
    /// The serialised event envelope.
    pub frame: String,
    /// Set when this acknowledges a task of the outbox: the relay drops the
    /// task and forwards nothing.
    pub ack_outbox_id: Option<String>,
}

} // verus!
