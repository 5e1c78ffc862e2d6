//! The envelope in which every message travels, in both directions.
//!
//! The daemon assigns `seq`, which grows by one with each event of a session
//! and is stored with the event; commands carry none.

use vstd::prelude::*;

use crate::protocol::ids::SessionId;
use crate::protocol::time::Timestamp;

verus! {

/// Version of the protocol, which travels in `v`. A change to the payload of
/// an existing event takes a new one.
pub const PROTOCOL_VERSION: u16 = 1;

/// The envelope; `T` is an event or a command.
#[derive(Debug, PartialEq)]
pub struct Envelope<T> {
    pub v: u16,
    pub body: T,
    /// None in global events.
    pub session_id: Option<SessionId>,
    /// Present in events, absent in commands.
    pub seq: Option<u64>,
    pub ts: Timestamp,
}

impl<T> Envelope<T> {
    /// Envelope of an event, with the `seq` that the daemon assigned.
    pub fn event(body: T, session_id: Option<SessionId>, seq: u64, ts: Timestamp) -> (r: Self)
        ensures
            r == (Envelope { v: PROTOCOL_VERSION, body, session_id, seq: Some(seq), ts }),
    {
        Envelope { v: PROTOCOL_VERSION, body, session_id, seq: Some(seq), ts }
    }

    /// Envelope of a command, without `seq`.
    pub fn command(body: T, session_id: Option<SessionId>, ts: Timestamp) -> (r: Self)
        ensures
            r == (Envelope { v: PROTOCOL_VERSION, body, session_id, seq: None::<u64>, ts }),
    {
        Envelope { v: PROTOCOL_VERSION, body, session_id, seq: None, ts }
    }
}

} // verus!
