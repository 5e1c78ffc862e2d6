//! The WebSocket of events.
//!
//! A client subscribes to sessions and sends commands. A subscription replays
//! what the client missed and goes on with the live flow, and no event of a
//! session is forwarded twice: the connection listens to the live flow before
//! it replays, and forwards only numbers above the last one it sent. Instants
//! are milliseconds of a monotonic clock.

use std::collections::HashMap;

use vstd::prelude::*;
use vstd::std_specs::hash::*;

use crate::auth;
use crate::config::AuthMode;
use crate::error::ApiError;
use crate::protocol::api::{DecisionRequest, ErrorCode, SendMessageRequest, WsTicketResponse};
use crate::protocol::commands::{Command, CommandEnvelope};
use crate::protocol::envelope::{Envelope, PROTOCOL_VERSION};
use crate::protocol::events::Event;
use crate::protocol::ids::{ApprovalId, SessionId};
use crate::protocol::time::Timestamp;
use crate::store::events;
use crate::text;
use crate::tickets::{self, TicketOp, TicketStore, TICKET_TTL_MS};

verus! {

/// Pause between two pings.
pub const PING_INTERVAL_MS: u64 = 30_000;

/// Silence after which a connection is closed.
pub const PONG_DEADLINE_MS: u64 = 90_000;

/// Events that a subscription replays at most; a client that missed more
/// fetches them over REST.
pub const MAX_BACKLOG: u32 = 1000;

/// Who decides when the decision comes over the WebSocket.
pub const LOCAL_WS_RESOLVER: &'static str = "local:ws";

/// What the address of the WebSocket may carry.
#[derive(Debug, PartialEq)]
pub struct WsQuery {
    pub token: Option<String>,
    pub ticket: Option<String>,
}

/// Issues a ticket for the handshake.
pub fn issue_ticket(store: &mut TicketStore, now: u64) -> (r: WsTicketResponse)
    requires
        now + TICKET_TTL_MS <= u64::MAX,
    ensures
        r.expires_in_s == 60,
        r.ticket@.len() == 43,
        auth::is_random_text(r.ticket@),
        final(store)@ == tickets::after_op(
            old(store)@,
            (TicketOp::Enter { ticket: r.ticket@, expiry: (now + TICKET_TTL_MS) as u64, now }),
        ),
{
    let (ticket, expires_in_s) = store.issue(now);
    WsTicketResponse { ticket, expires_in_s }
}

/// Whether a handshake may go on: behind the proxy only with a ticket and from
/// the right origin, else with the token or a ticket.
pub fn ws_authorized(mode: AuthMode, ticket_ok: bool, token_ok: bool, origin_ok: bool) -> (r: bool)
    ensures
        r == (match mode {
            AuthMode::Remote => ticket_ok && origin_ok,
            AuthMode::Local => token_ok || ticket_ok,
        }),
{
    match mode {
        AuthMode::Remote => ticket_ok && origin_ok,
        AuthMode::Local => token_ok || ticket_ok,
    }
}

/// The token that a handshake presents: that of the header, else that of the
/// address.
pub open spec fn shown_token(header: Option<&str>, query: WsQuery) -> Option<Seq<char>> {
    match header {
        Some(h) if auth::presented(h@) is Some => auth::presented(h@),
        _ => match query.token {
            Some(t) => Some(t@),
            None => None,
        },
    }
}

/// Whether a handshake comes from the configured origin, if one is configured.
pub open spec fn right_origin(expected: Option<String>, origin: Option<&str>) -> bool {
    match expected {
        Some(e) => origin matches Some(o) && o@ == e@,
        None => true,
    }
}

/// What a handshake does to the tickets: the one it carries is used.
pub open spec fn uses_up(
    before: Map<Seq<char>, u64>,
    query: WsQuery,
    now: u64,
    after: Map<Seq<char>, u64>,
) -> bool {
    match query.ticket {
        Some(t) => after == tickets::after_op(before, (TicketOp::Use { ticket: t@, now })),
        None => after == before,
    }
}

/// Whether a handshake may go on, given whether its ticket is good.
pub open spec fn lets_in(
    mode: AuthMode,
    token: Seq<char>,
    ticket_ok: bool,
    query: WsQuery,
    header: Option<&str>,
    spa_origin: Option<String>,
    origin: Option<&str>,
) -> bool {
    match mode {
        AuthMode::Remote => ticket_ok && right_origin(spa_origin, origin),
        AuthMode::Local => shown_token(header, query) == Some(token) || ticket_ok,
    }
}

/// Whether a handshake may go on. A ticket that it carries is used up, whatever
/// comes of the handshake.
pub fn ws_handler(
    mode: AuthMode,
    token: &str,
    store: &mut TicketStore,
    query: &WsQuery,
    header: Option<&str>,
    spa_origin: &Option<String>,
    origin: Option<&str>,
    now: u64,
) -> (r: bool)
    ensures
        uses_up(old(store)@, *query, now, final(store)@),
        r == ({
            let ticket_ok = query.ticket matches Some(t) && tickets::is_good(old(store)@, t@, now);
            lets_in(mode, token@, ticket_ok, *query, header, *spa_origin, origin)
        }),
{
    let token_ok = match auth::bearer(header) {
        Some(t) => auth::token_matches(token, t.as_str()),
        None => match &query.token {
            Some(t) => auth::token_matches(token, t.as_str()),
            None => false,
        },
    };
    let ticket_ok = match &query.ticket {
        Some(t) => store.consume(t.as_str(), now),
        None => false,
    };
    let origin_ok = match spa_origin {
        Some(expected) => match origin {
            Some(o) => text::same(o, expected.as_str()),
            None => false,
        },
        None => true,
    };
    ws_authorized(mode, ticket_ok, token_ok, origin_ok)
}

/// A connection: the sessions it follows, each with the number of the last
/// event sent, and when the client last answered a ping.
pub struct Connection {
    subs: HashMap<u128, u64>,
    last_pong: u64,
}

/// What happens to a connection.
#[derive(Debug, PartialEq)]
pub enum ConnectionEvent {
    /// The client is gone, or closed the connection.
    Gone,
    /// The client answered a ping.
    Pong,
    /// The client sent a command.
    Text(String),
    /// The client sent something else.
    Other,
    /// A live event, of a session or of none, with its number if it has one.
    Live { session_id: Option<SessionId>, seq: Option<u64> },
    /// The connection fell behind the live flow.
    Lagged,
    /// The live flow ended.
    Closed,
    /// It is time for a ping.
    Tick,
}

/// What to do with a connection.
#[derive(Debug, PartialEq)]
pub enum ConnectionAction {
    Continue,
    Close,
    /// Take the command.
    Handle(String),
    /// Send the live event.
    Forward,
    Ping,
}

/// What a command asks for.
#[derive(Debug, PartialEq)]
pub enum CommandAction {
    /// Replay what follows a number.
    Replay { session: SessionId, after_seq: u64 },
    /// Nothing more: the session is no longer followed.
    Unsubscribed,
    /// Send a message.
    Send { session: SessionId, message: SendMessageRequest },
    /// Take a decision.
    Decide {
        approval_id: ApprovalId,
        session_id: Option<SessionId>,
        request: DecisionRequest,
        /// Who decides.
        resolved_by: String,
    },
    /// Tell the client that the command is refused.
    Refuse { session_id: Option<SessionId>, error: ApiError },
}

/// Whether an event is to be forwarded: its session is followed and its number
/// is above the last one sent.
pub open spec fn fresh(
    subs: Map<u128, u64>,
    session_id: Option<SessionId>,
    seq: Option<u64>,
) -> bool {
    session_id matches Some(s) && seq matches Some(n) && subs.dom().contains(s.0) && n > subs[s.0]
}

/// The numbers sent, once an event was considered.
pub open spec fn noted(
    subs: Map<u128, u64>,
    session_id: Option<SessionId>,
    seq: Option<u64>,
) -> Map<u128, u64> {
    if fresh(subs, session_id, seq) {
        subs.insert((session_id->0).0, seq->0)
    } else {
        subs
    }
}

/// What to do about something that happened to a connection, and what it
/// follows and last heard then.
pub open spec fn reacts(
    followed: Map<u128, u64>,
    heard: u64,
    event: ConnectionEvent,
    now: u64,
    r: ConnectionAction,
    followed_after: Map<u128, u64>,
    heard_after: u64,
) -> bool {
    &&& match event {
        ConnectionEvent::Live { session_id, seq } => followed_after == noted(
            followed,
            session_id,
            seq,
        ),
        _ => followed_after == followed,
    }
    &&& heard_after == (if event is Pong {
        now
    } else {
        heard
    })
    &&& r == (match event {
        ConnectionEvent::Gone => ConnectionAction::Close,
        ConnectionEvent::Pong => ConnectionAction::Continue,
        ConnectionEvent::Text(command) => ConnectionAction::Handle(command),
        ConnectionEvent::Other => ConnectionAction::Continue,
        ConnectionEvent::Live { session_id, seq } => if fresh(followed, session_id, seq) {
            ConnectionAction::Forward
        } else {
            ConnectionAction::Continue
        },
        ConnectionEvent::Lagged => ConnectionAction::Close,
        ConnectionEvent::Closed => ConnectionAction::Close,
        ConnectionEvent::Tick => if now - heard > PONG_DEADLINE_MS {
            ConnectionAction::Close
        } else {
            ConnectionAction::Ping
        },
    })
}

impl Connection {
    /// The sessions followed, each with the number of the last event sent.
    pub closed spec fn followed(self) -> Map<u128, u64> {
        self.subs@
    }

    /// When the client last answered a ping.
    pub closed spec fn heard(self) -> u64 {
        self.last_pong
    }

    /// A connection that follows nothing.
    pub fn new(now: u64) -> (r: Self)
        ensures
            r.followed() == Map::<u128, u64>::empty(),
            r.heard() == now,
    {
        Connection { subs: HashMap::new(), last_pong: now }
    }

    /// Whether an event, replayed or live, is to be sent to the client. Its
    /// number is noted if it is.
    pub fn forward_live(&mut self, session_id: Option<SessionId>, seq: Option<u64>) -> (r: bool)
        ensures
            r == fresh(old(self).followed(), session_id, seq),
            final(self).followed() == noted(old(self).followed(), session_id, seq),
            final(self).heard() == old(self).heard(),
    {
        broadcast use group_hash_axioms;

        match (session_id, seq) {
            (Some(s), Some(n)) => {
                let above = match self.subs.get(&s.0) {
                    Some(last) => n > *last,
                    None => false,
                };
                if above {
                    self.subs.insert(s.0, n);
                }
                above
            },
            _ => false,
        }
    }

    /// What to do about something that happened.
    pub fn connection(&mut self, event: ConnectionEvent, now: u64) -> (r: ConnectionAction)
        ensures
            reacts(
                old(self).followed(),
                old(self).heard(),
                event,
                now,
                r,
                final(self).followed(),
                final(self).heard(),
            ),
    {
        match event {
            ConnectionEvent::Gone => ConnectionAction::Close,
            ConnectionEvent::Pong => {
                self.last_pong = now;
                ConnectionAction::Continue
            },
            ConnectionEvent::Text(command) => ConnectionAction::Handle(command),
            ConnectionEvent::Other => ConnectionAction::Continue,
            ConnectionEvent::Live { session_id, seq } => {
                if self.forward_live(session_id, seq) {
                    ConnectionAction::Forward
                } else {
                    ConnectionAction::Continue
                }
            },
            ConnectionEvent::Lagged => ConnectionAction::Close,
            ConnectionEvent::Closed => ConnectionAction::Close,
            ConnectionEvent::Tick => {
                if now > self.last_pong && now - self.last_pong > PONG_DEADLINE_MS {
                    ConnectionAction::Close
                } else {
                    ConnectionAction::Ping
                }
            },
        }
    }

    /// What a command asks for, given the command or why it could not be read.
    pub fn handle_command(&mut self, parsed: Result<CommandEnvelope, String>) -> (r: CommandAction)
        ensures
            final(self).heard() == old(self).heard(),
            takes(old(self).followed(), parsed, r, final(self).followed()),
    {
        broadcast use group_hash_axioms;

        match &parsed {
            Ok(env) => match &env.body {
                Command::SubscribeSession { session_id, after_seq } => {
                    self.subs.insert(session_id.0, *after_seq);
                },
                Command::UnsubscribeSession { session_id } => {
                    self.subs.remove(&session_id.0);
                },
                _ => {},
            },
            Err(_) => {},
        }
        command_action(parsed, LOCAL_WS_RESOLVER)
    }
}

/// What a command of a client asks for, and what its connection follows then.
pub open spec fn takes(
    followed: Map<u128, u64>,
    parsed: Result<CommandEnvelope, String>,
    r: CommandAction,
    after: Map<u128, u64>,
) -> bool {
    match parsed {
        Err(reason) => {
            &&& after == followed
            &&& is_invalid_command(r, reason@)
        },
        Ok(env) => {
            &&& asks_for(r, env, "local:ws"@)
            &&& after == (match env.body {
                Command::SubscribeSession { session_id, after_seq } => followed.insert(
                    session_id.0,
                    after_seq,
                ),
                Command::UnsubscribeSession { session_id } => followed.remove(session_id.0),
                _ => followed,
            })
        },
    }
}

/// Whether an action refuses a command that could not be read.
pub open spec fn is_invalid_command(action: CommandAction, reason: Seq<char>) -> bool {
    action matches CommandAction::Refuse { session_id, error } && session_id is None && error.says(
        ErrorCode::ValidationFailed,
        "comando inválido: "@ + reason,
    ) && error.details is None
}

/// Whether an action is what a command asks for, and in whose name.
pub open spec fn asks_for(action: CommandAction, env: CommandEnvelope, by: Seq<char>) -> bool {
    match env.body {
        Command::SubscribeSession { session_id, after_seq } => action == CommandAction::Replay {
            session: session_id,
            after_seq,
        },
        Command::UnsubscribeSession { .. } => action == CommandAction::Unsubscribed,
        Command::SendMessage { content, client_msg_id } => match env.session_id {
            Some(session) => action == CommandAction::Send {
                session,
                message: SendMessageRequest { content, client_msg_id },
            },
            None => action matches CommandAction::Refuse { session_id, error } && session_id is None
                && error.says(
                ErrorCode::ValidationFailed,
                "send_message requiere session_id en el sobre"@,
            ) && error.details is None,
        },
        Command::ResolveApproval { approval_id, decision, reason, remember_rule } => {
            &&& action matches CommandAction::Decide {
                approval_id: id,
                session_id,
                request,
                resolved_by,
            }
            &&& id == approval_id
            &&& session_id == env.session_id
            &&& request == (DecisionRequest { decision, reason, remember_rule })
            &&& resolved_by@ == by
        },
    }
}

/// What a command asks for, given the command or why it could not be read, and
/// who sent it.
pub fn command_action(parsed: Result<CommandEnvelope, String>, by: &str) -> (r: CommandAction)
    ensures
        match parsed {
            Err(reason) => is_invalid_command(r, reason@),
            Ok(env) => asks_for(r, env, by@),
        },
{
    let env = match parsed {
        Ok(env) => env,
        Err(reason) => {
            return CommandAction::Refuse {
                session_id: None,
                error: ApiError::validation(
                    text::join2("comando inválido: ", reason.as_str()),
                    None,
                ),
            };
        },
    };
    match env.body {
        Command::SubscribeSession { session_id, after_seq } => CommandAction::Replay {
            session: session_id,
            after_seq,
        },
        Command::UnsubscribeSession { .. } => CommandAction::Unsubscribed,
        Command::SendMessage { content, client_msg_id } => match env.session_id {
            Some(session) => CommandAction::Send {
                session,
                message: SendMessageRequest { content, client_msg_id },
            },
            None => CommandAction::Refuse {
                session_id: None,
                error: ApiError::validation(
                    "send_message requiere session_id en el sobre".to_owned(),
                    None,
                ),
            },
        },
        Command::ResolveApproval { approval_id, decision, reason, remember_rule } => {
            CommandAction::Decide {
                approval_id,
                session_id: env.session_id,
                request: DecisionRequest { decision, reason, remember_rule },
                resolved_by: by.to_owned(),
            }
        },
    }
}

/// The code under which a refused command is reported.
pub open spec fn code_text(code: ErrorCode) -> Seq<char> {
    match code {
        ErrorCode::Unauthorized => "unauthorized"@,
        ErrorCode::NotFound => "notfound"@,
        ErrorCode::ValidationFailed => "validationfailed"@,
        ErrorCode::Conflict => "conflict"@,
        ErrorCode::SessionBusy => "sessionbusy"@,
        ErrorCode::AsrFailed => "asrfailed"@,
        ErrorCode::Internal => "internal"@,
    }
}

/// Whether an envelope reports a refused command: an error that is not fatal,
/// and is not part of the numbered events.
pub open spec fn reports_refusal(
    env: Envelope<Event>,
    session_id: Option<SessionId>,
    err: ApiError,
    now: Timestamp,
) -> bool {
    &&& env.v == PROTOCOL_VERSION
    &&& env.session_id == session_id
    &&& env.seq is None
    &&& env.ts == now
    &&& env.body matches Event::Error { code, message, fatal }
    &&& code@ == code_text(err.code)
    &&& message == err.message
    &&& !fatal
}

/// The envelope that reports a refused command.
pub fn command_error(session_id: Option<SessionId>, err: &ApiError, now: Timestamp) -> (r: Envelope<
    Event,
>)
    ensures
        reports_refusal(r, session_id, *err, now),
{
    let code = match err.code {
        ErrorCode::Unauthorized => "unauthorized",
        ErrorCode::NotFound => "notfound",
        ErrorCode::ValidationFailed => "validationfailed",
        ErrorCode::Conflict => "conflict",
        ErrorCode::SessionBusy => "sessionbusy",
        ErrorCode::AsrFailed => "asrfailed",
        ErrorCode::Internal => "internal",
    };
    Envelope {
        v: PROTOCOL_VERSION,
        body: Event::Error { code: code.to_owned(), message: err.message.clone(), fatal: false },
        session_id,
        seq: None,
        ts: now,
    }
}

/// The numbers forwarded out of those that arrive for one session, given the
/// last one sent before.
pub open spec fn forwarded(last: u64, arriving: Seq<u64>) -> Seq<u64>
    decreases arriving.len(),
{
    if arriving.len() == 0 {
        Seq::empty()
    } else {
        let before = forwarded(last, arriving.drop_last());
        if arriving.last() > last_sent(last, before) {
            before.push(arriving.last())
        } else {
            before
        }
    }
}

/// The last number sent.
pub open spec fn last_sent(last: u64, sent: Seq<u64>) -> u64 {
    if sent.len() == 0 {
        last
    } else {
        sent.last()
    }
}

/// The numbers of a followed session after some have arrived.
pub open spec fn noted_all(subs: Map<u128, u64>, session_id: SessionId, arriving: Seq<u64>) -> Map<
    u128,
    u64,
>
    decreases arriving.len(),
{
    if arriving.len() == 0 {
        subs
    } else {
        noted(
            noted_all(subs, session_id, arriving.drop_last()),
            Some(session_id),
            Some(arriving.last()),
        )
    }
}

/// Law: what a connection forwards of a session it follows is exactly
/// `forwarded`: an arriving number is sent if and only if it is above the last
/// one sent.
pub proof fn law_connection_forwards(
    subs: Map<u128, u64>,
    session_id: SessionId,
    arriving: Seq<u64>,
    next: u64,
)
    requires
        subs.dom().contains(session_id.0),
    ensures
        noted_all(subs, session_id, arriving).dom().contains(session_id.0),
        noted_all(subs, session_id, arriving)[session_id.0] == last_sent(
            subs[session_id.0],
            forwarded(subs[session_id.0], arriving),
        ),
        fresh(noted_all(subs, session_id, arriving), Some(session_id), Some(next)) <==> forwarded(
            subs[session_id.0],
            arriving.push(next),
        ) == forwarded(subs[session_id.0], arriving).push(next),
    decreases arriving.len(),
{
    let last = subs[session_id.0];
    assert(arriving.push(next).drop_last() == arriving);
    if arriving.len() > 0 {
        law_connection_forwards(subs, session_id, arriving.drop_last(), next);
        assert(arriving.drop_last().push(arriving.last()) == arriving);
    }
    let before = forwarded(last, arriving);
    assert(before.push(next).len() == before.len() + 1);
}

/// Law: the numbers forwarded of a session grow strictly, above the one the
/// client asked to start from: no event reaches it twice or out of order.
pub proof fn law_no_number_twice(last: u64, arriving: Seq<u64>)
    ensures
        forall|i: int, j: int|
            0 <= i < j < forwarded(last, arriving).len() ==> forwarded(last, arriving)[i]
                < forwarded(last, arriving)[j],
        forall|i: int|
            0 <= i < forwarded(last, arriving).len() ==> #[trigger] forwarded(last, arriving)[i]
                > last,
    decreases arriving.len(),
{
    if arriving.len() > 0 {
        law_no_number_twice(last, arriving.drop_last());
        let before = forwarded(last, arriving.drop_last());
        let after = forwarded(last, arriving);
        assert forall|i: int, j: int| 0 <= i < j < after.len() implies after[i] < after[j] by {
            if j < before.len() {
                assert(before[i] < before[j]);
            } else if before.len() > 0 {
                assert(before[i] <= before[before.len() - 1]);
            }
        }
        assert forall|i: int| 0 <= i < after.len() implies #[trigger] after[i] > last by {
            if i < before.len() {
                assert(before[i] > last);
            } else if before.len() > 0 {
                assert(before[before.len() - 1] > last);
            }
        }
    }
}

proof fn lemma_forward_ascending(last: u64, arriving: Seq<u64>)
    requires
        forall|i: int, j: int| 0 <= i < j < arriving.len() ==> arriving[i] < arriving[j],
        forall|i: int| 0 <= i < arriving.len() ==> #[trigger] arriving[i] > last,
    ensures
        forwarded(last, arriving) == arriving,
    decreases arriving.len(),
{
    if arriving.len() > 0 {
        let before = arriving.drop_last();
        lemma_forward_ascending(last, before);
        if before.len() > 0 {
            assert(arriving[before.len() - 1] < arriving[before.len() as int]);
        }
        assert(before.push(arriving.last()) == arriving);
    }
}

proof fn lemma_others_untouched(
    subs: Map<u128, u64>,
    session_id: SessionId,
    arriving: Seq<u64>,
    other: u128,
)
    requires
        other != session_id.0,
    ensures
        noted_all(subs, session_id, arriving).dom().contains(other) == subs.dom().contains(other),
        subs.dom().contains(other) ==> noted_all(subs, session_id, arriving)[other] == subs[other],
    decreases arriving.len(),
{
    if arriving.len() > 0 {
        lemma_others_untouched(subs, session_id, arriving.drop_last(), other);
    }
}

/// Law: a subscription sends the stored events of its session after its number,
/// up to the limit, each once and in order; from then on an event is sent
/// exactly if its number is above the last one sent, or the number subscribed
/// from if none was. Other subscriptions stay as they are.
pub proof fn law_subscription_sends_what_follows(
    subs: Map<u128, u64>,
    session_id: SessionId,
    after: u64,
    stored: Seq<u64>,
    live: u64,
    other: u128,
)
    requires
        forall|i: int, j: int| 0 <= i < j < stored.len() ==> stored[i] < stored[j],
        other != session_id.0,
    ensures
        ({
            let backlog = events::replayed(stored, after, MAX_BACKLOG as nat);
            let subscribed = subs.insert(session_id.0, after);
            let later = noted_all(subscribed, session_id, backlog);
            &&& forwarded(after, backlog) == backlog
            &&& later.dom().contains(session_id.0)
            &&& later[session_id.0] == last_sent(after, backlog)
            &&& fresh(later, Some(session_id), Some(live)) <==> live > last_sent(after, backlog)
            &&& later.dom().contains(other) == subs.dom().contains(other)
            &&& subs.dom().contains(other) ==> later[other] == subs[other]
        }),
{
    let backlog = events::replayed(stored, after, MAX_BACKLOG as nat);
    let subscribed = subs.insert(session_id.0, after);
    events::lemma_replayed_ascends(stored, after, MAX_BACKLOG as nat);
    lemma_forward_ascending(after, backlog);
    law_connection_forwards(subscribed, session_id, backlog, live);
    lemma_others_untouched(subscribed, session_id, backlog, other);
}

/// The numbers from one on, so many.
pub open spec fn counting(from: int, n: nat) -> Seq<u64> {
    Seq::new(n, |i: int| (from + i) as u64)
}

/// Law: a replay from a number on, followed by live events that begin no later
/// than right after the replay, reaches the client whole: every number after
/// the first exactly once, in order.
pub proof fn law_replay_meets_live(last: u64, replayed: nat, live_from: int, live: nat)
    requires
        last < live_from <= last + replayed + 1,
        last + replayed <= u64::MAX,
        live_from + live <= u64::MAX,
        live_from + live > last + replayed,
    ensures
        forwarded(last, counting(last + 1, replayed) + counting(live_from, live)) == counting(
            last + 1,
            (live_from + live - last - 1) as nat,
        ),
{
    lemma_forward_all(last, replayed);
    lemma_forward_live(last, replayed, live_from, live);
}

proof fn lemma_forward_all(last: u64, n: nat)
    requires
        last + n <= u64::MAX,
    ensures
        forwarded(last, counting(last + 1, n)) == counting(last + 1, n),
    decreases n,
{
    if n > 0 {
        let before = (n - 1) as nat;
        lemma_forward_all(last, before);
        assert(counting(last + 1, n).drop_last() == counting(last + 1, before));
        assert(counting(last + 1, n) == counting(last + 1, before).push((last + n) as u64));
    }
}

proof fn lemma_forward_live(last: u64, replayed: nat, live_from: int, live: nat)
    requires
        last < live_from <= last + replayed + 1,
        last + replayed <= u64::MAX,
        live_from + live <= u64::MAX,
        forwarded(last, counting(last + 1, replayed)) == counting(last + 1, replayed),
    ensures
        forwarded(last, counting(last + 1, replayed) + counting(live_from, live)) == counting(
            last + 1,
            if live_from + live > last + replayed {
                (live_from + live - last - 1) as nat
            } else {
                replayed
            },
        ),
    decreases live,
{
    let all = counting(last + 1, replayed) + counting(live_from, live);
    if live == 0 {
        assert(all == counting(last + 1, replayed));
        assert((live_from - last - 1) as nat <= replayed);
    } else {
        let fewer = (live - 1) as nat;
        lemma_forward_live(last, replayed, live_from, fewer);
        assert(all.drop_last() == counting(last + 1, replayed) + counting(live_from, fewer));
        assert(all.last() == (live_from + fewer) as u64);
        let sent = forwarded(last, all.drop_last());
        if live_from + fewer > last + replayed {
            assert(sent == counting(last + 1, (live_from + fewer - last - 1) as nat));
            assert(sent.push(all.last()) == counting(last + 1, (live_from + live - last - 1) as nat));
        } else {
            assert(sent == counting(last + 1, replayed));
        }
        assert(last_sent(last, sent) == last + sent.len());
        assert(forwarded(last, all) == counting(
            last + 1,
            if live_from + live > last + replayed {
                (live_from + live - last - 1) as nat
            } else {
                replayed
            },
        ));
    }
}

/// Law: behind the proxy a handshake goes on only with a good ticket and, where
/// an origin is configured, from that origin; a token is worth nothing there.
/// On the machine itself a good ticket will do, and so will the token: that of
/// a bearer header if there is one, whatever the address carries, else that of
/// the address.
pub proof fn law_handshake(
    mode: AuthMode,
    token: Seq<char>,
    ticket_ok: bool,
    query: WsQuery,
    header: Option<&str>,
    spa_origin: Option<String>,
    origin: Option<&str>,
)
    ensures
        ({
            let admitted = lets_in(mode, token, ticket_ok, query, header, spa_origin, origin);
            &&& mode is Remote && !ticket_ok ==> !admitted
            &&& mode is Remote && ticket_ok && spa_origin is None ==> admitted
            &&& mode is Remote && ticket_ok && spa_origin is Some ==> (admitted <==> origin is Some
                && origin->0@ == spa_origin->0@)
            &&& mode is Local && ticket_ok ==> admitted
            &&& mode is Local && !ticket_ok && header is None ==> (admitted <==> query.token is Some
                && query.token->0@ == token)
            &&& mode is Local && !ticket_ok && header is Some && header->0@ == "Bearer "@ + token
                ==> admitted
            &&& mode is Local && !ticket_ok && header is Some && "Bearer "@.is_prefix_of(header->0@)
                && header->0@ != "Bearer "@ + token ==> !admitted
        }),
{
    match header {
        Some(h) => {
            auth::law_header_presents_token(token);
            if "Bearer "@.is_prefix_of(h@) && h@ != "Bearer "@ + token {
                let p = "Bearer "@;
                assert(h@ == p + h@.skip(p.len() as int));
            }
        },
        None => {},
    }
}

/// Law: an event is sent exactly when it belongs to a session that is followed
/// and its number is above the last one sent of it; then that number is the
/// last one sent of that session, and nothing else changes.
pub proof fn law_event_is_sent_once(
    subs: Map<u128, u64>,
    session_id: SessionId,
    seq: u64,
    other: u128,
)
    ensures
        fresh(subs, Some(session_id), Some(seq)) <==> subs.dom().contains(session_id.0) && seq
            > subs[session_id.0],
        !fresh(subs, None, Some(seq)),
        !fresh(subs, Some(session_id), None),
        noted(subs, Some(session_id), Some(seq)).dom() == subs.dom(),
        fresh(subs, Some(session_id), Some(seq)) ==> noted(
            subs,
            Some(session_id),
            Some(seq),
        )[session_id.0] == seq,
        !fresh(noted(subs, Some(session_id), Some(seq)), Some(session_id), Some(seq)),
        other != session_id.0 && subs.dom().contains(other) ==> noted(
            subs,
            Some(session_id),
            Some(seq),
        )[other] == subs[other],
{
    if fresh(subs, Some(session_id), Some(seq)) {
        assert(subs.insert(session_id.0, seq).dom() =~= subs.dom());
    }
}

/// Law: a connection is closed exactly when its client is gone, it fell behind,
/// the live flow ended, or a ping is due and the client has not been heard of
/// for more than ninety seconds; a ping that is due goes out otherwise. Only an
/// answer to a ping counts as hearing of the client, and only live events move
/// the numbers.
pub proof fn law_connection(
    followed: Map<u128, u64>,
    heard: u64,
    event: ConnectionEvent,
    now: u64,
    r: ConnectionAction,
    followed_after: Map<u128, u64>,
    heard_after: u64,
)
    requires
        reacts(followed, heard, event, now, r, followed_after, heard_after),
    ensures
        r is Close <==> event is Gone || event is Lagged || event is Closed || (event is Tick
            && now > heard + 90_000),
        r is Ping <==> event is Tick && now <= heard + 90_000,
        r is Forward ==> event is Live,
        r is Handle <==> event is Text,
        event matches ConnectionEvent::Text(command) ==> r == ConnectionAction::Handle(command),
        event matches ConnectionEvent::Live { session_id: Some(s), seq: Some(n) } ==> (
        r is Forward <==> followed.dom().contains(s.0) && n > followed[s.0]) && (r is Forward
            ==> followed_after == followed.insert(s.0, n)),
        event is Pong ==> heard_after == now,
        !(event is Pong) ==> heard_after == heard,
        !(r is Forward) ==> followed_after == followed,
{
}

/// Law: a subscription follows its session from the number it gives and asks
/// for what comes after it; the end of one follows it no longer; no other
/// command, and none that cannot be read, changes what is followed.
pub proof fn law_subscriptions(
    followed: Map<u128, u64>,
    parsed: Result<CommandEnvelope, String>,
    r: CommandAction,
    after: Map<u128, u64>,
    other: u128,
)
    requires
        takes(followed, parsed, r, after),
    ensures
        parsed is Err ==> r is Refuse && after == followed,
        parsed matches Ok(env) ==> {
            &&& env.body matches Command::SubscribeSession { session_id, after_seq } ==> {
                &&& r == CommandAction::Replay { session: session_id, after_seq }
                &&& after.dom().contains(session_id.0) && after[session_id.0] == after_seq
                &&& other != session_id.0 ==> after.dom().contains(other)
                    == followed.dom().contains(other) && after[other] == followed[other]
            }
            &&& env.body matches Command::UnsubscribeSession { session_id } ==> {
                &&& r == CommandAction::Unsubscribed
                &&& !after.dom().contains(session_id.0)
                &&& other != session_id.0 ==> after.dom().contains(other)
                    == followed.dom().contains(other)
                &&& other != session_id.0 && followed.dom().contains(other) ==> after[other]
                    == followed[other]
            }
            &&& !(env.body is SubscribeSession || env.body is UnsubscribeSession) ==> after
                == followed
        },
{
}

/// Law: a message goes to the session that its envelope names, word for word,
/// and is refused if it names none; a decision is taken as it was sent, on the
/// request it names, and in the name of whoever sent it.
pub proof fn law_commands_are_taken_as_sent(
    action: CommandAction,
    env: CommandEnvelope,
    by: Seq<char>,
)
    requires
        asks_for(action, env, by),
    ensures
        env.body matches Command::SendMessage { content, client_msg_id } ==> {
            &&& env.session_id matches Some(named) ==> (action matches CommandAction::Send {
                session,
                message,
            } && session == named && message.content == content && message.client_msg_id
                == client_msg_id)
            &&& env.session_id is None ==> (action matches CommandAction::Refuse {
                session_id,
                error,
            } && session_id is None && error.status == 422 && error.message@
                == "send_message requiere session_id en el sobre"@)
        },
        env.body matches Command::ResolveApproval { approval_id, decision, reason, remember_rule }
            ==> (action matches CommandAction::Decide {
            approval_id: id,
            session_id,
            request,
            resolved_by,
        } && id == approval_id && session_id == env.session_id && request.decision == decision
            && request.reason == reason && request.remember_rule == remember_rule && resolved_by@
            == by),
        env.body matches Command::SubscribeSession { session_id, after_seq } ==> (
        action matches CommandAction::Replay { session, after_seq: n } && session == session_id
            && n == after_seq),
{
}

/// Law: a refused command is told in the words of its error, under a code of
/// lower-case letters that is its own; it is not fatal, and it takes no number.
pub proof fn law_refusal_is_told(
    env: Envelope<Event>,
    session_id: Option<SessionId>,
    err: ApiError,
    now: Timestamp,
    other: ErrorCode,
)
    requires
        reports_refusal(env, session_id, err, now),
    ensures
        env.session_id == session_id,
        env.seq is None,
        env.body matches Event::Error { code, message, fatal } && message@ == err.message@
            && !fatal && (err.code is Unauthorized ==> code@ == "unauthorized"@) && (
        err.code is NotFound ==> code@ == "notfound"@) && (err.code is ValidationFailed ==> code@
            == "validationfailed"@) && (err.code is Conflict ==> code@ == "conflict"@) && (
        err.code is SessionBusy ==> code@ == "sessionbusy"@) && (err.code is AsrFailed ==> code@
            == "asrfailed"@) && (err.code is Internal ==> code@ == "internal"@),
{
}

/// Law: the ticket of a handshake is worth nothing afterwards, whatever came of
/// the handshake; every other ticket is worth what it was.
pub proof fn law_handshake_uses_its_ticket(
    before: Map<Seq<char>, u64>,
    query: WsQuery,
    now: u64,
    after: Map<Seq<char>, u64>,
    other: Seq<char>,
    later: u64,
)
    requires
        uses_up(before, query, now, after),
    ensures
        query.ticket matches Some(t) ==> !tickets::is_good(after, t@, later),
        query.ticket is None || query.ticket->0@ != other ==> tickets::is_good(after, other, later)
            == tickets::is_good(before, other, later),
{
}

} // verus!
