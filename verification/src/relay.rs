//! The daemon's side of the relay: the outgoing connection, the commands that
//! come over it, and the pairing that authorises it.
//!
//! Every event goes to all devices of the account; the replay of a
//! subscription goes to the device that asked, which drops repeats by their
//! numbers. Commands run the same code as over REST and the WebSocket.

use vstd::prelude::*;
use vstd::string::*;
use vstd::utf8::*;

use crate::agent::{self, Effect};
use crate::error::ApiError;
use crate::json;
use crate::outside;
use crate::protocol::api::{ErrorCode, SendMessageRequest, SendMessageResponse};
use crate::protocol::commands::{Command, CommandEnvelope};
use crate::protocol::envelope::{Envelope, PROTOCOL_VERSION};
use crate::protocol::events::Event;
use crate::protocol::ids::SessionId;
use crate::protocol::relay::{FromDaemon, ToDaemon};
use crate::protocol::time::Timestamp;
use crate::store;
use crate::store::sessions::SessionRow;
use crate::text;
use crate::ws::{self, CommandAction};

verus! {

/// File of the pairing key within the data directory.
pub const RELAY_KEY_FILE: &'static str = "relay_key";

/// File of the relay's token within the data directory.
pub const RELAY_TOKEN_FILE: &'static str = "relay_token";

/// First pause before a new attempt to connect, doubled each time.
pub const BACKOFF_BASE_MS: u64 = 1_000;

/// Longest such pause.
pub const BACKOFF_CAP_MS: u64 = 30_000;

/// Close code of a connection that another daemon of the account took over.
pub const CLOSE_SUPERSEDED: u16 = 4001;

/// Sessions that are announced at most.
pub const MAX_ANNOUNCED: u32 = 200;

// ---- Keys and token ----

/// Why a stored key cannot be used.
#[derive(Debug, Clone, Copy, PartialEq, Eq, Structural)]
pub enum KeyError {
    /// The text is no Base64.
    NotBase64,
    /// It does not hold 32 bytes.
    BadLength,
}

/// The daemon's pairing key.
#[derive(Debug, PartialEq)]
pub struct PairingKey {
    pub seed: [u8; 32],
}

/// What the file of the pairing key comes to.
pub open spec fn loads_key(
    contents: Option<String>,
    r: Result<(PairingKey, bool), KeyError>,
) -> bool {
    match contents {
        None => r matches Ok((_, fresh)) && fresh,
        Some(c) => match outside::base64_bytes(text::trim(c@)) {
            None => r == Err::<(PairingKey, bool), KeyError>(KeyError::NotBase64),
            Some(bytes) => if bytes.len() == 32 {
                r matches Ok((key, fresh)) && key.seed@ == bytes && !fresh
            } else {
                r == Err::<(PairingKey, bool), KeyError>(KeyError::BadLength)
            },
        },
    }
}

/// The pairing key, given what its file holds; a fresh one, which has to be
/// written down, if there is no file.
pub fn load_or_create_signing_key(contents: Option<String>) -> (r: Result<
    (PairingKey, bool),
    KeyError,
>)
    ensures
        loads_key(contents, r),
{
    match contents {
        None => Ok((PairingKey { seed: outside::random_bytes() }, true)),
        Some(c) => {
            let kept = text::trimmed(c.as_str());
            match outside::base64_decode(kept.as_str()) {
                None => Err(KeyError::NotBase64),
                Some(bytes) => seed_of(&bytes),
            }
        },
    }
}

/// The key whose seed the bytes are, if there are 32.
pub fn seed_of(bytes: &Vec<u8>) -> (r: Result<(PairingKey, bool), KeyError>)
    ensures
        bytes@.len() == 32 ==> (r matches Ok((key, fresh)) && key.seed@ == bytes@ && !fresh),
        bytes@.len() != 32 ==> r == Err::<(PairingKey, bool), KeyError>(KeyError::BadLength),
{
    if bytes.len() != 32 {
        return Err(KeyError::BadLength);
    }
    let mut seed: [u8; 32] = [0u8; 32];
    let mut i: usize = 0;
    while i < 32
        invariant
            i <= 32,
            bytes@.len() == 32,
            seed@.len() == 32,
            forall|k: int| 0 <= k < i ==> seed@[k] == bytes@[k],
        decreases 32 - i,
    {
        seed[i] = bytes[i];
        i += 1;
    }
    assert(seed@ =~= bytes@);
    Ok((PairingKey { seed }, false))
}

impl PairingKey {
    /// The text to write down: reading it back gives the same key.
    pub fn encoded(&self) -> (r: String)
        ensures
            r@ == outside::base64_text(self.seed@),
            outside::base64_bytes(text::trim(r@)) == Some(self.seed@),
    {
        let r = outside::base64_encode(self.seed.as_slice());
        proof {
            text::lemma_trim_solid(r@);
        }
        r
    }

    /// The public key, as Base64.
    pub fn pubkey_b64(&self) -> (r: String)
        ensures
            r@ == outside::base64_text(outside::ed25519_public(self.seed@)),
    {
        outside::base64_encode(outside::public_key(&self.seed).as_slice())
    }

    /// The signature of a pairing code, as Base64.
    pub fn signature_b64(&self, code: &str) -> (r: String)
        ensures
            r@ == outside::base64_text(
                outside::ed25519_signature(self.seed@, encode_utf8(code@)),
            ),
    {
        outside::base64_encode(outside::sign(&self.seed, code.as_bytes()).as_slice())
    }
}

/// What the file of the relay's token comes to.
pub open spec fn reads_token(contents: Option<String>, r: Option<String>) -> bool {
    match contents {
        Some(c) if text::trim(c@).len() > 0 => r matches Some(t) && t@ == text::trim(c@),
        _ => r is None,
    }
}

/// The relay's token, given what its file holds; none if it is blank.
pub fn read_token(contents: Option<String>) -> (r: Option<String>)
    ensures
        reads_token(contents, r),
{
    match contents {
        Some(c) => {
            let token = text::trimmed(c.as_str());
            if token.as_str().is_empty() {
                None
            } else {
                Some(token)
            }
        },
        None => None,
    }
}

// ---- Pairing ----

/// Where a pairing code is claimed, or why nowhere.
pub open spec fn claims_at(relay_url: Option<String>, r: Result<String, ApiError>) -> bool {
    match relay_url {
        Some(base) => r matches Ok(url) && url@ == text::without_end(base@, '/')
            + "/v1/pairing/claim"@,
        None => r matches Err(e) && e.says(
            ErrorCode::ValidationFailed,
            "RUTSUBO_RELAY_URL no está configurada"@,
        ) && e.details is None,
    }
}

/// The address at which a pairing code is claimed.
pub fn claim_url(relay_url: &Option<String>) -> (r: Result<String, ApiError>)
    ensures
        claims_at(*relay_url, r),
{
    match relay_url {
        Some(base) => {
            let base = text::trim_end_char(base.as_str(), '/');
            Ok(text::join2(base.as_str(), "/v1/pairing/claim"))
        },
        None => {
            Err(ApiError::validation("RUTSUBO_RELAY_URL no está configurada".to_owned(), None))
        },
    }
}

/// The error of a relay that could not be reached.
pub fn unreachable_relay(reason: &str) -> (r: ApiError)
    ensures
        r.says(ErrorCode::ValidationFailed, "no se pudo alcanzar el relay: "@ + reason@),
        r.details is None,
{
    ApiError::validation(text::join2("no se pudo alcanzar el relay: ", reason), None)
}

/// What a relay says against a claim.
pub open spec fn claim_message(message: Option<Seq<char>>) -> Seq<char> {
    match message {
        Some(m) => m,
        None => "claim rechazado"@,
    }
}

/// What a claim earned.
#[derive(Debug, PartialEq)]
pub struct Paired {
    /// The token to keep.
    pub token: String,
    /// The account that the daemon now belongs to, as JSON text.
    pub account_id: String,
    /// The device that the daemon now is, as JSON text.
    pub device_id: String,
}

/// The JSON text of a member; `null` if there is no such member.
pub open spec fn member_or_null(member: Option<Seq<char>>) -> Seq<char> {
    match member {
        Some(m) => m,
        None => "null"@,
    }
}

/// Whether this is what a claim earned, or why it earned nothing.
pub open spec fn earns(
    success: bool,
    status: Seq<char>,
    body: Seq<char>,
    r: Result<Paired, ApiError>,
) -> bool {
    if outside::json_compact(body) is None {
        r matches Err(e) && e.is_internal()
    } else if !success {
        r matches Err(e) && e.says(
            ErrorCode::ValidationFailed,
            "pairing rechazado ("@ + status + "): "@ + claim_message(
                outside::json_nested_member(body, "error"@, "message"@),
            ),
        ) && e.details is None
    } else {
        match outside::json_text_member(body, "daemon_token"@) {
            Some(token) => {
                &&& r matches Ok(paired)
                &&& paired.token@ == token
                &&& paired.account_id@ == member_or_null(
                    outside::json_member(body, "account_id"@),
                )
                &&& paired.device_id@ == member_or_null(
                    outside::json_member(body, "device_id"@),
                )
            },
            None => r matches Err(e) && e.is_internal(),
        }
    }
}

/// What a claim earned, or why it earned nothing. `status` is the status of the
/// answer as text, and `body` what is meant to be its JSON text.
pub fn pair(success: bool, status: &str, body: &str) -> (r: Result<Paired, ApiError>)
    ensures
        earns(success, status@, body@, r),
{
    if json::compact(body).is_none() {
        return Err(ApiError::internal());
    }
    let message = if success {
        None
    } else {
        outside::json_get_nested(body, "error", "message")
    };
    let token = json::get_text(body, "daemon_token");
    let account_id = json::get_member(body, "account_id");
    let device_id = json::get_member(body, "device_id");
    pair_result(success, status, message, token, account_id, device_id)
}

/// The same, given what the body holds.
pub fn pair_result(
    success: bool,
    status: &str,
    message: Option<String>,
    token: Option<String>,
    account_id: Option<String>,
    device_id: Option<String>,
) -> (r: Result<Paired, ApiError>)
    ensures
        if !success {
            r matches Err(e) && e.says(
                ErrorCode::ValidationFailed,
                "pairing rechazado ("@ + status@ + "): "@ + (match message {
                    Some(m) => m@,
                    None => "claim rechazado"@,
                }),
            ) && e.details is None
        } else {
            match token {
                Some(t) => {
                    &&& r matches Ok(paired)
                    &&& paired.token == t
                    &&& match account_id {
                        Some(id) => paired.account_id == id,
                        None => paired.account_id@ == "null"@,
                    }
                    &&& match device_id {
                        Some(id) => paired.device_id == id,
                        None => paired.device_id@ == "null"@,
                    }
                },
                None => r matches Err(e) && e.is_internal(),
            }
        },
{
    if !success {
        let head = text::join3("pairing rechazado (", status, "): ");
        let message = match message {
            Some(m) => m,
            None => "claim rechazado".to_owned(),
        };
        return Err(
            ApiError::validation(text::join2(head.as_str(), message.as_str()), None),
        );
    }
    let token = match token {
        Some(t) => t,
        None => return Err(ApiError::internal()),
    };
    let account_id = match account_id {
        Some(id) => id,
        None => "null".to_owned(),
    };
    let device_id = match device_id {
        Some(id) => id,
        None => "null".to_owned(),
    };
    Ok(Paired { token, account_id, device_id })
}

// ---- Connection ----

/// The address of the relay's socket.
pub open spec fn socket_url(base: Seq<char>) -> Seq<char> {
    text::replaced(
        text::replaced(text::without_end(base, '/'), "http://"@, "ws://"@),
        "https://"@,
        "wss://"@,
    ) + "/v1/connect"@
}

/// The address of the relay's socket.
pub fn ws_url(base: &str) -> (r: String)
    ensures
        r@ == socket_url(base@),
{
    let base = text::trim_end_char(base, '/');
    let plain = text::replace_first(base.as_str(), "http://", "ws://");
    let secure = text::replace_first(plain.as_str(), "https://", "wss://");
    text::join2(secure.as_str(), "/v1/connect")
}

/// How a connection ended.
#[derive(Debug, Clone, Copy, PartialEq, Eq, Structural)]
pub enum SessionEnd {
    /// Try again after a pause.
    Retry,
    /// Another daemon took over: wait for a new pairing.
    Superseded,
}

/// What happens to the loop that keeps the connection.
#[derive(Debug, Clone, Copy, PartialEq, Eq, Structural)]
pub enum LoopEvent {
    /// There is no token yet.
    NoToken,
    /// The connection is up.
    Connected,
    ConnectFailed,
    Ended(SessionEnd),
}

/// What the loop does next.
#[derive(Debug, Clone, Copy, PartialEq, Eq, Structural)]
pub enum LoopAction {
    /// Wait for a pairing, then read the token again.
    AwaitPairing,
    /// Serve the connection.
    Serve,
    /// Pause so many milliseconds, and up to three tenths more, then read the
    /// token again.
    Pause(u64),
}

/// A pause doubled a number of times.
pub open spec fn doubled(times: nat) -> nat
    decreases times,
{
    if times == 0 {
        BACKOFF_BASE_MS as nat
    } else {
        2 * doubled((times - 1) as nat)
    }
}

/// The pause before an attempt: doubled with each one, five times at most, and
/// capped.
pub open spec fn backoff_ms(attempts: u32) -> nat {
    let d = doubled(if attempts < 5 {
        attempts as nat
    } else {
        5
    });
    if d > BACKOFF_CAP_MS {
        BACKOFF_CAP_MS as nat
    } else {
        d
    }
}

/// The pause before an attempt.
pub fn backoff(attempts: u32) -> (r: u64)
    ensures
        r == backoff_ms(attempts),
        BACKOFF_BASE_MS <= r <= BACKOFF_CAP_MS,
{
    let times: u32 = if attempts < 5 {
        attempts
    } else {
        5
    };
    proof {
        reveal_with_fuel(doubled, 6);
    }
    let exp: u64 = match times {
        0 => 1_000,
        1 => 2_000,
        2 => 4_000,
        3 => 8_000,
        4 => 16_000,
        _ => 32_000,
    };
    if exp > BACKOFF_CAP_MS {
        BACKOFF_CAP_MS
    } else {
        exp
    }
}

/// A pause with chance added to it, so that daemons do not return together.
pub fn jittered(pause: u64) -> (r: u64)
    requires
        pause <= BACKOFF_CAP_MS,
    ensures
        pause <= r <= pause + pause * 3 / 10,
{
    lengthened(pause, outside::random_up_to(pause * 3 / 10))
}

/// A pause with so much added to it: up to three tenths of the pause.
pub fn lengthened(pause: u64, extra: u64) -> (r: u64)
    requires
        pause <= BACKOFF_CAP_MS,
        extra <= pause * 3 / 10,
    ensures
        r == pause + extra,
{
    pause + extra
}

/// What the loop does about something that happened, and how many attempts have
/// failed in a row then.
pub open spec fn keeps_up(attempts: u32, event: LoopEvent, r: LoopAction, after: u32) -> bool {
    match event {
        LoopEvent::NoToken => r == LoopAction::AwaitPairing && after == attempts,
        LoopEvent::Connected => r == LoopAction::Serve && after == 0,
        LoopEvent::Ended(SessionEnd::Superseded) => r == LoopAction::AwaitPairing && after
            == attempts,
        LoopEvent::ConnectFailed | LoopEvent::Ended(SessionEnd::Retry) => {
            &&& after == (if attempts == u32::MAX {
                u32::MAX as int
            } else {
                attempts + 1
            })
            &&& r matches LoopAction::Pause(ms)
            &&& ms == backoff_ms(after)
        },
    }
}

/// The loop that keeps the connection: how many attempts failed in a row.
#[derive(Debug, Clone, Copy, PartialEq, Eq, Structural)]
pub struct RelayLoop {
    pub attempts: u32,
}

impl RelayLoop {
    /// What the loop does about something that happened.
    pub fn run(&mut self, event: LoopEvent) -> (r: LoopAction)
        ensures
            keeps_up(old(self).attempts, event, r, final(self).attempts),
    {
        match event {
            LoopEvent::NoToken => LoopAction::AwaitPairing,
            LoopEvent::Connected => {
                self.attempts = 0;
                LoopAction::Serve
            },
            LoopEvent::Ended(SessionEnd::Superseded) => LoopAction::AwaitPairing,
            LoopEvent::ConnectFailed | LoopEvent::Ended(SessionEnd::Retry) => {
                if self.attempts < u32::MAX {
                    self.attempts = self.attempts + 1;
                }
                LoopAction::Pause(backoff(self.attempts))
            },
        }
    }
}

/// Law: pauses grow with the attempts and never leave their bounds.
pub proof fn law_backoff_is_bounded(attempts: u32)
    ensures
        BACKOFF_BASE_MS <= backoff_ms(attempts) <= BACKOFF_CAP_MS,
        attempts < u32::MAX ==> backoff_ms(attempts) <= backoff_ms((attempts + 1) as u32),
{
    reveal_with_fuel(doubled, 7);
}

/// What happens to a connection.
#[derive(Debug, PartialEq)]
pub enum LinkEvent {
    /// The socket broke or ended.
    Gone,
    /// The relay closed, with a code or without.
    Close(Option<u16>),
    Ping,
    Text(String),
    Other,
    /// A live event.
    Live,
    /// The live flow went on without the connection; clients fetch what they
    /// miss.
    Lagged,
    /// The live flow ended.
    Closed,
    /// A new pairing changed the token.
    Repaired,
}

/// What to do with a connection.
#[derive(Debug, PartialEq)]
pub enum LinkAction {
    Continue,
    End(SessionEnd),
    Pong,
    /// Take the command.
    Handle(String),
    /// Send the live event to all devices.
    Broadcast,
}

/// What to do about something that happened to a connection.
pub open spec fn link_action(event: LinkEvent) -> LinkAction {
    match event {
        LinkEvent::Gone => LinkAction::End(SessionEnd::Retry),
        LinkEvent::Close(code) => if code == Some(CLOSE_SUPERSEDED) {
            LinkAction::End(SessionEnd::Superseded)
        } else {
            LinkAction::End(SessionEnd::Retry)
        },
        LinkEvent::Ping => LinkAction::Pong,
        LinkEvent::Text(s) => LinkAction::Handle(s),
        LinkEvent::Other => LinkAction::Continue,
        LinkEvent::Live => LinkAction::Broadcast,
        LinkEvent::Lagged => LinkAction::Continue,
        LinkEvent::Closed => LinkAction::End(SessionEnd::Retry),
        LinkEvent::Repaired => LinkAction::End(SessionEnd::Retry),
    }
}

/// What to do about something that happened to a connection.
pub fn session(event: LinkEvent) -> (r: LinkAction)
    ensures
        r == link_action(event),
{
    match event {
        LinkEvent::Gone => LinkAction::End(SessionEnd::Retry),
        LinkEvent::Close(code) => {
            let superseded = match code {
                Some(c) => c == CLOSE_SUPERSEDED,
                None => false,
            };
            if superseded {
                LinkAction::End(SessionEnd::Superseded)
            } else {
                LinkAction::End(SessionEnd::Retry)
            }
        },
        LinkEvent::Ping => LinkAction::Pong,
        LinkEvent::Text(s) => LinkAction::Handle(s),
        LinkEvent::Other => LinkAction::Continue,
        LinkEvent::Live => LinkAction::Broadcast,
        LinkEvent::Lagged => LinkAction::Continue,
        LinkEvent::Closed => LinkAction::End(SessionEnd::Retry),
        LinkEvent::Repaired => LinkAction::End(SessionEnd::Retry),
    }
}

/// Whether a session can be announced.
pub open spec fn announceable(row: SessionRow) -> bool {
    store::text_state(row.state@) is Some && outside::ulid_number(row.id@) is Some
}

/// Whether an envelope announces a session: its state and title, outside the
/// numbered events.
pub open spec fn announces(env: Envelope<Event>, row: SessionRow, now: Timestamp) -> bool {
    &&& env.v == PROTOCOL_VERSION
    &&& env.seq is None
    &&& env.ts == now
    &&& env.session_id matches Some(id)
    &&& outside::ulid_number(row.id@) == Some(id.0)
    &&& env.body matches Event::SessionState { state, title, reason }
    &&& store::text_state(row.state@) == Some(state)
    &&& title == Some(row.title)
    &&& reason is None
}

/// Whether these are the announcements of sessions.
pub open spec fn are_announced(
    r: Seq<Envelope<Event>>,
    rows: Seq<SessionRow>,
    now: Timestamp,
) -> bool {
    &&& r.len() == rows.filter(|row: SessionRow| announceable(row)).len()
    &&& forall|i: int|
        0 <= i < r.len() ==> announces(
            #[trigger] r[i],
            rows.filter(|row: SessionRow| announceable(row))[i],
            now,
        )
}

/// The announcements of the sessions that can be announced, in order.
pub fn announce_sessions(rows: &Vec<SessionRow>, now: Timestamp) -> (r: Vec<Envelope<Event>>)
    ensures
        are_announced(r@, rows@, now),
{
    let mut out: Vec<Envelope<Event>> = Vec::new();
    let ghost keep = |row: SessionRow| announceable(row);
    let mut i: usize = 0;
    proof {
        reveal(Seq::filter);
        assert(rows@.take(0).filter(keep) == Seq::<SessionRow>::empty());
    }
    while i < rows.len()
        invariant
            i <= rows.len(),
            keep == (|row: SessionRow| announceable(row)),
            out@.len() == rows@.take(i as int).filter(keep).len(),
            forall|k: int|
                0 <= k < out@.len() ==> announces(
                    #[trigger] out@[k],
                    rows@.take(i as int).filter(keep)[k],
                    now,
                ),
        decreases rows.len() - i,
    {
        let row = &rows[i];
        proof {
            reveal(Seq::filter);
            assert(rows@.take(i + 1).drop_last() == rows@.take(i as int));
        }
        match row.session_state() {
            Some(state) => match SessionId::from_text(row.id.as_str()) {
                Ok(id) => {
                    out.push(
                        Envelope {
                            v: PROTOCOL_VERSION,
                            body: Event::SessionState {
                                state,
                                title: Some(row.title.clone()),
                                reason: None,
                            },
                            session_id: Some(id),
                            seq: None,
                            ts: now,
                        },
                    );
                },
                Err(_) => {},
            },
            None => {},
        }
        i += 1;
    }
    assert(rows@.take(i as int) == rows@);
    out
}

/// A frame for one device, or for all.
pub fn from_daemon(dst: Option<String>, frame: String) -> (r: FromDaemon)
    ensures
        r == (FromDaemon { dst, frame, ack_outbox_id: None }),
{
    FromDaemon { dst, frame, ack_outbox_id: None }
}

/// Whether a frame acknowledges a task.
pub open spec fn acknowledges(ack: FromDaemon, outbox_id: String) -> bool {
    &&& ack.dst is None
    &&& ack.frame@.len() == 0
    &&& ack.ack_outbox_id == Some(outbox_id)
}

/// The acknowledgement of a task: the relay drops it and forwards nothing.
pub fn task_ack(outbox_id: String) -> (r: FromDaemon)
    ensures
        acknowledges(r, outbox_id),
{
    FromDaemon { dst: None, frame: String::new(), ack_outbox_id: Some(outbox_id) }
}

/// Who decides when the decision comes from a device.
pub fn resolver(src: &str) -> (r: String)
    ensures
        r@ == "device:"@ + src@,
{
    text::join2("device:", src)
}

/// What a frame from the relay asks for.
#[derive(Debug, PartialEq)]
pub enum RelayCommand {
    /// Announce every session to a device.
    Announce { dst: String },
    /// Run a task of the outbox.
    Queued {
        src: String,
        envelope: CommandEnvelope,
        outbox_id: String,
        new_session_title: Option<String>,
    },
    /// Do what the command of a device asks for.
    Act { src: String, action: CommandAction },
}

/// Whether this is what a frame from the relay asks for.
pub open spec fn reads_as(
    header: ToDaemon,
    parsed: Result<CommandEnvelope, String>,
    r: RelayCommand,
) -> bool {
    if header.announce_sessions == Some(true) {
        r == RelayCommand::Announce { dst: header.src }
    } else {
        match parsed {
            Err(reason) => r matches RelayCommand::Act { src, action } && src == header.src
                && ws::is_invalid_command(action, reason@),
            Ok(env) => match header.outbox_id {
                Some(outbox_id) => r == RelayCommand::Queued {
                    src: header.src,
                    envelope: env,
                    outbox_id,
                    new_session_title: header.new_session_title,
                },
                None => r matches RelayCommand::Act { src, action } && src == header.src
                    && ws::asks_for(action, env, "device:"@ + src@),
            },
        }
    }
}

/// What a frame from the relay asks for, given its header and the command in
/// it, or why that could not be read.
pub fn handle_to_daemon(header: ToDaemon, parsed: Result<CommandEnvelope, String>) -> (r:
    RelayCommand)
    ensures
        reads_as(header, parsed, r),
{
    let announce = match header.announce_sessions {
        Some(yes) => yes,
        None => false,
    };
    if announce {
        return RelayCommand::Announce { dst: header.src };
    }
    match parsed {
        Ok(envelope) => match header.outbox_id {
            Some(outbox_id) => RelayCommand::Queued {
                src: header.src,
                envelope,
                outbox_id,
                new_session_title: header.new_session_title,
            },
            None => {
                let by = resolver(header.src.as_str());
                RelayCommand::Act {
                    src: header.src,
                    action: ws::command_action(Ok(envelope), by.as_str()),
                }
            },
        },
        Err(reason) => {
            let by = resolver(header.src.as_str());
            RelayCommand::Act {
                src: header.src,
                action: ws::command_action(Err(reason), by.as_str()),
            }
        },
    }
}

// ---- Tasks of the outbox ----

/// What to do next with a task.
#[derive(Debug, PartialEq)]
pub enum TaskStep {
    /// Make a session for it.
    Create { title: Option<String>, message: SendMessageRequest },
    /// Send its message.
    Send { session: SessionId, message: SendMessageRequest },
    /// It is over: tell its device of a refusal, if there is one, perform the
    /// effects, and acknowledge it.
    Finish {
        refusal: Option<(Option<SessionId>, ApiError)>,
        effects: Vec<Effect>,
        ack: FromDaemon,
    },
}

/// Whether a step ends a task quietly, with nothing but its acknowledgement.
pub open spec fn only_acknowledges(step: TaskStep, outbox_id: String) -> bool {
    step matches TaskStep::Finish { refusal, effects, ack } && refusal is None && effects@.len()
        == 0 && acknowledges(ack, outbox_id)
}

/// Whether a step is the first of a task: a new task whose command is a
/// message is sent to its session, or to one made for it; any other is only
/// acknowledged.
pub open spec fn starts(
    is_new: Option<bool>,
    envelope: CommandEnvelope,
    outbox_id: String,
    new_session_title: Option<String>,
    step: TaskStep,
) -> bool {
    match envelope.body {
        Command::SendMessage { content, client_msg_id } if is_new == Some(true) => {
            let message = SendMessageRequest { content, client_msg_id };
            match envelope.session_id {
                Some(session) => step == TaskStep::Send { session, message },
                None => step == TaskStep::Create { title: new_session_title, message },
            }
        },
        _ => only_acknowledges(step, outbox_id),
    }
}

/// Whether a step follows the making of a session for a task.
pub open spec fn goes_on(
    made: Result<SessionId, ApiError>,
    message: SendMessageRequest,
    outbox_id: String,
    step: TaskStep,
) -> bool {
    match made {
        Ok(session) => step == TaskStep::Send { session, message },
        Err(e) => step matches TaskStep::Finish { refusal, effects, ack } && refusal == Some(
            (None::<SessionId>, e),
        ) && effects@.len() == 0 && acknowledges(ack, outbox_id),
    }
}

/// Whether a step ends a task whose message was sent, or refused.
pub open spec fn ends(
    session: SessionId,
    sent: Result<SendMessageResponse, ApiError>,
    outbox_id: String,
    src: Seq<char>,
    step: TaskStep,
) -> bool {
    step matches TaskStep::Finish { refusal, effects, ack } && acknowledges(ack, outbox_id) && (
    match sent {
        Ok(response) => {
            &&& refusal is None
            &&& effects@.len() == 2
            &&& effects@[0] == agent::plain_event(
                Event::TaskDequeued { outbox_id, message_id: response.message_id },
            )
            &&& agent::is_audit(effects@[1], "queued_task"@, task_members(outbox_id@, src))
        },
        Err(e) => refusal == Some((Some(session), e)) && effects@.len() == 0,
    })
}

/// Starts a task. `is_new` says whether the task was not taken before; none if
/// that could not be told. A repeat is only acknowledged, and so is a task
/// whose command is not a message: the outbox carries no decisions.
pub fn handle_queued_task(
    is_new: Option<bool>,
    envelope: CommandEnvelope,
    outbox_id: &String,
    new_session_title: Option<String>,
) -> (r: TaskStep)
    ensures
        starts(is_new, envelope, *outbox_id, new_session_title, r),
{
    let new = match is_new {
        Some(new) => new,
        None => false,
    };
    if !new {
        return acknowledged(outbox_id);
    }
    match envelope.body {
        Command::SendMessage { content, client_msg_id } => {
            let message = SendMessageRequest { content, client_msg_id };
            match envelope.session_id {
                Some(session) => TaskStep::Send { session, message },
                None => TaskStep::Create { title: new_session_title, message },
            }
        },
        _ => acknowledged(outbox_id),
    }
}

fn acknowledged(outbox_id: &String) -> (r: TaskStep)
    ensures
        only_acknowledges(r, *outbox_id),
{
    TaskStep::Finish {
        refusal: None,
        effects: Vec::new(),
        ack: task_ack(outbox_id.clone()),
    }
}

/// Goes on once a session was made for a task, or refused.
pub fn task_session(
    made: Result<SessionId, ApiError>,
    message: SendMessageRequest,
    outbox_id: &String,
) -> (r: TaskStep)
    ensures
        goes_on(made, message, *outbox_id, r),
{
    match made {
        Ok(session) => TaskStep::Send { session, message },
        Err(e) => TaskStep::Finish {
            refusal: Some((None, e)),
            effects: Vec::new(),
            ack: task_ack(outbox_id.clone()),
        },
    }
}

/// What the audit log holds of a task.
pub open spec fn task_members(outbox_id: Seq<char>, src: Seq<char>) -> Seq<
    (Seq<char>, json::FieldView),
> {
    seq![
        ("outbox_id"@, json::FieldView::Text(outbox_id)),
        ("enqueued_by"@, json::FieldView::Text(src)),
    ]
}

/// Ends a task once its message was sent, or refused. A task that runs is told
/// to the clients and audited; either way it is acknowledged.
pub fn task_sent(
    session: SessionId,
    sent: Result<SendMessageResponse, ApiError>,
    outbox_id: &String,
    src: &str,
) -> (r: TaskStep)
    ensures
        ends(session, sent, *outbox_id, src@, r),
{
    match sent {
        Ok(response) => {
            let mut members: Vec<(String, json::Field)> = Vec::new();
            members.push(json::text_member("outbox_id", outbox_id.as_str()));
            members.push(json::text_member("enqueued_by", src));
            assert(json::members_view(members@) == task_members(outbox_id@, src@));
            proof {
                json::lemma_reserved_key();
                reveal_strlit("outbox_id");
                reveal_strlit("enqueued_by");
                assert(members@[0].0@.len() == 9);
                assert(members@[1].0@.len() == 11);
                json::lemma_distinct_keys(members@);
            }
            let mut effects: Vec<Effect> = Vec::new();
            effects.push(
                Effect::Emit {
                    event: Event::TaskDequeued {
                        outbox_id: outbox_id.clone(),
                        message_id: response.message_id,
                    },
                    new_state: None,
                },
            );
            effects.push(
                Effect::Audit { kind: "queued_task".to_owned(), detail: json::object(&members) },
            );
            TaskStep::Finish { refusal: None, effects, ack: task_ack(outbox_id.clone()) }
        },
        Err(e) => TaskStep::Finish {
            refusal: Some((Some(session), e)),
            effects: Vec::new(),
            ack: task_ack(outbox_id.clone()),
        },
    }
}

/// Law: a task is acknowledged whatever comes of it, and one that was taken
/// before comes to nothing else.
pub proof fn law_task_is_always_acknowledged(
    is_new: Option<bool>,
    envelope: CommandEnvelope,
    outbox_id: String,
    title: Option<String>,
    made: Result<SessionId, ApiError>,
    sent: Result<SendMessageResponse, ApiError>,
    src: Seq<char>,
    first: TaskStep,
    second: TaskStep,
    last: TaskStep,
)
    requires
        starts(is_new, envelope, outbox_id, title, first),
        match first {
            TaskStep::Create { message, .. } => goes_on(made, message, outbox_id, second),
            _ => second == first,
        },
        match second {
            TaskStep::Send { session, .. } => ends(session, sent, outbox_id, src, last),
            _ => last == second,
        },
    ensures
        last matches TaskStep::Finish { ack, .. } && acknowledges(ack, outbox_id),
        is_new != Some(true) ==> only_acknowledges(last, outbox_id),
{
}

/// Law: the pause is one second to begin with, doubles with each attempt that
/// fails, and never exceeds thirty seconds.
pub proof fn law_pause_doubles(attempts: u32)
    requires
        attempts < u32::MAX,
    ensures
        backoff_ms(0) == 1_000,
        backoff_ms((attempts + 1) as u32) == (if 2 * backoff_ms(attempts) < 30_000 {
            2 * backoff_ms(attempts)
        } else {
            30_000
        }),
{
    reveal_with_fuel(doubled, 7);
}

/// Law: the loop counts the attempts that fail in a row, and only those: a
/// connection that comes up ends the count, and a missing token, or another
/// daemon that took over, waits for a pairing and leaves it. A failure, before
/// or after the connection was up, pauses at least two seconds and at most
/// thirty.
pub proof fn law_loop_counts_failures(attempts: u32, event: LoopEvent, r: LoopAction, after: u32)
    requires
        keeps_up(attempts, event, r, after),
        attempts < u32::MAX,
    ensures
        r is Serve <==> event is Connected,
        r is AwaitPairing <==> event is NoToken || event == LoopEvent::Ended(SessionEnd::Superseded),
        event is Connected ==> after == 0,
        r is AwaitPairing ==> after == attempts,
        r matches LoopAction::Pause(ms) ==> after == attempts + 1 && 2_000 <= ms <= 30_000 && (
        attempts == 0 ==> ms == 2_000),
{
    reveal_with_fuel(doubled, 7);
}

/// Law: a connection ends for good exactly when the relay closes it with the
/// code 4001; any other close, a broken socket, the end of the live flow and a
/// new pairing end it to be tried again. Every ping is answered, every text is
/// taken as it came, and every live event goes to all devices.
pub proof fn law_link(event: LinkEvent)
    ensures
        link_action(event) == LinkAction::End(SessionEnd::Superseded) <==> event
            == LinkEvent::Close(Some(4001)),
        link_action(event) == LinkAction::End(SessionEnd::Retry) <==> event is Gone
            || event is Closed || event is Repaired || (event is Close && event
            != LinkEvent::Close(Some(4001))),
        link_action(event) is Pong <==> event is Ping,
        link_action(event) is Broadcast <==> event is Live,
        link_action(event) is Handle <==> event is Text,
        event matches LinkEvent::Text(s) ==> link_action(event) == LinkAction::Handle(s),
{
}

/// Law: a frame that asks for the sessions is answered to its device, whatever
/// else it holds. Else what cannot be read is refused to its device, a task of
/// the outbox is run under its name, and any other command is the device's own:
/// a decision is taken in the name of that device.
pub proof fn law_frame_is_routed(
    header: ToDaemon,
    parsed: Result<CommandEnvelope, String>,
    r: RelayCommand,
)
    requires
        reads_as(header, parsed, r),
    ensures
        r is Announce <==> header.announce_sessions == Some(true),
        r is Queued <==> header.announce_sessions != Some(true) && parsed is Ok
            && header.outbox_id is Some,
        r matches RelayCommand::Announce { dst } ==> dst@ == header.src@,
        r matches RelayCommand::Queued { src, envelope, outbox_id, new_session_title } ==> src@
            == header.src@ && Ok::<CommandEnvelope, String>(envelope) == parsed && Some(outbox_id)
            == header.outbox_id && new_session_title == header.new_session_title,
        r matches RelayCommand::Act { src, action } ==> {
            &&& src@ == header.src@
            &&& parsed is Err ==> action is Refuse
            &&& action matches CommandAction::Decide { resolved_by, .. } ==> resolved_by@
                == "device:"@ + header.src@
        },
{
}

/// Law: the socket of a relay that is reached over HTTPS is a secure one, and
/// over HTTP a plain one, on the same host, at the path of connections; a slash
/// at the end of the address makes no difference.
pub proof fn law_socket_url(host: Seq<char>)
    requires
        host.len() > 0,
        forall|i: int| 0 <= i < host.len() ==> #[trigger] host[i] != '/',
    ensures
        socket_url("https://"@ + host) == "wss://"@ + host + "/v1/connect"@,
        socket_url("http://"@ + host) == "ws://"@ + host + "/v1/connect"@,
        socket_url("https://"@ + host + "/"@) == "wss://"@ + host + "/v1/connect"@,
        socket_url("http://"@ + host + "/"@) == "ws://"@ + host + "/v1/connect"@,
{
    reveal_strlit("https://");
    reveal_strlit("http://");
    reveal_strlit("wss://");
    reveal_strlit("ws://");
    reveal_strlit("/");
    let secure = "https://"@ + host;
    let plain = "http://"@ + host;
    assert(secure.last() == host[host.len() - 1]);
    assert(plain.last() == host[host.len() - 1]);
    assert((secure + "/"@).drop_last() == secure);
    assert((plain + "/"@).drop_last() == plain);
    assert(text::without_end(secure, '/') == secure);
    assert(text::without_end(plain, '/') == plain);
    assert(text::without_end(secure + "/"@, '/') == secure);
    assert(text::without_end(plain + "/"@, '/') == plain);
    assert forall|j: int| !#[trigger] text::occurs_at(secure, "http://"@, j) by {
        if text::occurs_at(secure, "http://"@, j) {
            let here = secure.subrange(j, j + 7);
            assert(here[0] == secure[j] && here[5] == secure[j + 5] && here[6] == secure[j + 6]);
            if j + 6 >= 8 {
                assert(secure[j + 6] == host[j + 6 - 8]);
            }
            assert(j == 0 || j == 1);
        }
    }
    assert(text::occurs_at(secure, "https://"@, 0)) by {
        assert(secure.subrange(0, 8) == "https://"@);
    }
    text::law_replaced(secure, "http://"@, "ws://"@, 0);
    text::law_replaced(secure, "https://"@, "wss://"@, 0);
    assert(secure.take(0) + "wss://"@ + secure.skip(8) == "wss://"@ + host);
    assert(text::occurs_at(plain, "http://"@, 0)) by {
        assert(plain.subrange(0, 7) == "http://"@);
    }
    text::law_replaced(plain, "http://"@, "ws://"@, 0);
    let open = "ws://"@ + host;
    assert(plain.take(0) + "ws://"@ + plain.skip(7) == open);
    assert forall|j: int| !#[trigger] text::occurs_at(open, "https://"@, j) by {
        if text::occurs_at(open, "https://"@, j) {
            let here = open.subrange(j, j + 8);
            assert(here[6] == open[j + 6] && here[7] == open[j + 7]);
            assert(open[j + 6] == host[j + 6 - 5]);
        }
    }
    text::law_replaced(open, "https://"@, "wss://"@, 0);
}

/// Law: a claim that the relay granted earns its token exactly when the answer
/// is JSON and holds one; an answer that is no JSON, or a granted one without a
/// token, is an internal error; a refused claim says so with the status of the
/// answer and the relay's own words, if it had any.
pub proof fn law_claim(
    success: bool,
    status: Seq<char>,
    body: Seq<char>,
    r: Result<Paired, ApiError>,
)
    requires
        earns(success, status, body, r),
    ensures
        r is Ok <==> success && outside::json_compact(body) is Some && outside::json_text_member(
            body,
            "daemon_token"@,
        ) is Some,
        r matches Ok(paired) ==> {
            &&& outside::json_text_member(body, "daemon_token"@) == Some(paired.token@)
            &&& outside::json_member(body, "account_id"@) matches Some(id) ==> paired.account_id@
                == id
            &&& outside::json_member(body, "account_id"@) is None ==> paired.account_id@
                == "null"@
            &&& outside::json_member(body, "device_id"@) matches Some(id) ==> paired.device_id@
                == id
            &&& outside::json_member(body, "device_id"@) is None ==> paired.device_id@ == "null"@
        },
        r matches Err(e) ==> {
            &&& outside::json_compact(body) is None || success ==> e.status == 500
            &&& outside::json_compact(body) is Some && !success ==> {
                &&& e.status == 422
                &&& ("pairing rechazado ("@ + status + "): "@).is_prefix_of(e.message@)
                &&& outside::json_nested_member(body, "error"@, "message"@) matches Some(m)
                    ==> e.message@ == "pairing rechazado ("@ + status + "): "@ + m
                &&& outside::json_nested_member(body, "error"@, "message"@) is None ==> e.message@
                    == "pairing rechazado ("@ + status + "): "@ + "claim rechazado"@
            }
        },
{
}

/// Law: a session is announced in the state and with the title that its row
/// holds, under its own name, and outside the numbered events.
pub proof fn law_announcement(env: Envelope<Event>, row: SessionRow, now: Timestamp)
    requires
        announces(env, row, now),
    ensures
        env.seq is None,
        env.ts == now,
        env.session_id matches Some(id) && outside::ulid_number(row.id@) == Some(id.0),
        env.body matches Event::SessionState { state, title, reason } && row.state@
            == store::state_text(state) && (title matches Some(t) && t@ == row.title@)
            && reason is None,
{
    match env.body {
        Event::SessionState { state, .. } => store::law_state_round_trip(state, row.state@),
        _ => {},
    }
}

/// Law: the message of a task that was not taken before is sent as it is: to
/// the session it names, else to one made for it with the title it brings. A
/// task that runs is told to the clients with the message it became and audited
/// with its device, both of which read back; a refusal goes to its device.
pub proof fn law_task_sends_its_message(
    envelope: CommandEnvelope,
    outbox_id: String,
    title: Option<String>,
    made: Result<SessionId, ApiError>,
    sent: Result<SendMessageResponse, ApiError>,
    src: Seq<char>,
    first: TaskStep,
    second: TaskStep,
    last: TaskStep,
)
    requires
        starts(Some(true), envelope, outbox_id, title, first),
        first matches TaskStep::Create { message, .. } ==> goes_on(made, message, outbox_id, second),
        !(first is Create) ==> second == first,
        second matches TaskStep::Send { session, .. } ==> ends(session, sent, outbox_id, src, last),
    ensures
        first is Finish <==> !(envelope.body is SendMessage),
        envelope.body matches Command::SendMessage { content, client_msg_id } ==> {
            &&& envelope.session_id matches Some(named) ==> (first matches TaskStep::Send {
                session,
                message,
            } && session == named && message.content == content && message.client_msg_id
                == client_msg_id)
            &&& envelope.session_id is None ==> (first matches TaskStep::Create {
                title: asked,
                message,
            } && asked == title && message.content == content && message.client_msg_id
                == client_msg_id)
            &&& envelope.session_id is None ==> (made matches Ok(new) ==> (
            second matches TaskStep::Send { session, message } && session == new && message.content
                == content && message.client_msg_id == client_msg_id))
            &&& envelope.session_id is None ==> (made matches Err(e) ==> (
            second matches TaskStep::Finish { refusal, effects, .. } && refusal == Some(
                (None::<SessionId>, e),
            ) && effects@.len() == 0))
        },
        second matches TaskStep::Send { session, .. } ==> (last matches TaskStep::Finish {
            refusal,
            effects,
            ack,
        } && {
            &&& ack.ack_outbox_id == Some(outbox_id) && ack.dst is None && ack.frame@.len() == 0
            &&& sent matches Err(e) ==> refusal == Some((Some(session), e)) && effects@.len() == 0
            &&& sent matches Ok(response) ==> {
                &&& refusal is None
                &&& effects@.len() == 2
                &&& effects@[0] matches Effect::Emit {
                    event: Event::TaskDequeued { outbox_id: told, message_id },
                    new_state,
                } && told == outbox_id && message_id == response.message_id && new_state is None
                &&& effects@[1] matches Effect::Audit { kind, detail } && kind@ == "queued_task"@
                    && outside::json_text_member(detail@, "outbox_id"@) == Some(outbox_id@)
                    && outside::json_text_member(detail@, "enqueued_by"@) == Some(src)
            }
        }),
{
    let members = task_members(outbox_id@, src);
    assert(members[0].0 == "outbox_id"@ && members[1].0 == "enqueued_by"@);
}

/// Law: a pairing key is made exactly when there is no file of one. A file that
/// holds the Base64 of 32 bytes, white space around it or not, gives those
/// bytes; any other is an error, and never replaced.
pub proof fn law_pairing_key(contents: Option<String>, r: Result<(PairingKey, bool), KeyError>)
    requires
        loads_key(contents, r),
    ensures
        r matches Ok((_, fresh)) ==> (fresh <==> contents is None),
        contents is None ==> r is Ok,
        contents matches Some(c) ==> {
            let bytes = outside::base64_bytes(text::trim(c@));
            &&& r is Ok <==> bytes is Some && bytes->0.len() == 32
            &&& r matches Ok((key, _)) ==> bytes == Some(key.seed@)
            &&& r matches Err(e) ==> (e is NotBase64 <==> bytes is None)
        },
{
}

/// Law: the relay's token is what its file holds, without the white space around
/// it; a blank file, and a missing one, holds none.
pub proof fn law_relay_token(contents: Option<String>, r: Option<String>)
    requires
        reads_token(contents, r),
    ensures
        r is Some <==> contents is Some && text::trim(contents->0@).len() > 0,
        r matches Some(t) ==> t@ == text::trim(contents->0@) && t@.len() > 0,
{
}

/// Law: a code is claimed at the relay that is configured, whether or not its
/// address ends with slashes; without one the claim is refused.
pub proof fn law_claim_url(relay_url: Option<String>, r: Result<String, ApiError>)
    requires
        claims_at(relay_url, r),
    ensures
        r is Ok <==> relay_url is Some,
        r matches Ok(url) ==> "/v1/pairing/claim"@.is_suffix_of(url@) && url@.take(
            url@.len() - "/v1/pairing/claim"@.len(),
        ).is_prefix_of(relay_url->0@),
        r matches Ok(url) ==> (relay_url->0@.len() > 0 && relay_url->0@.last() != '/' ==> url@
            == relay_url->0@ + "/v1/pairing/claim"@),
        r matches Err(e) ==> e.status == 422,
{
    match (relay_url, r) {
        (Some(base), Ok(url)) => {
            text::law_without_end(base@, '/');
            let kept = text::without_end(base@, '/');
            assert(url@.take(url@.len() - "/v1/pairing/claim"@.len()) == kept);
            assert("/v1/pairing/claim"@.is_suffix_of(url@));
        },
        _ => {},
    }
}

/// Law: a session can be announced in whatever state it is; where all of them
/// can be read, each is announced, in order.
pub proof fn law_every_session_is_announced(
    r: Seq<Envelope<Event>>,
    rows: Seq<SessionRow>,
    now: Timestamp,
)
    requires
        are_announced(r, rows, now),
        forall|i: int| 0 <= i < rows.len() ==> (#[trigger] rows[i]).readable(),
    ensures
        r.len() == rows.len(),
        forall|i: int| 0 <= i < r.len() ==> announces(#[trigger] r[i], rows[i], now),
{
    let keep = |row: SessionRow| announceable(row);
    assert forall|i: int| 0 <= i < rows.len() implies keep(#[trigger] rows[i]) by {
        assert(rows[i].readable());
    }
    lemma_filter_all(rows, keep);
}

proof fn lemma_filter_all(rows: Seq<SessionRow>, keep: spec_fn(SessionRow) -> bool)
    requires
        forall|i: int| 0 <= i < rows.len() ==> keep(#[trigger] rows[i]),
    ensures
        rows.filter(keep) == rows,
    decreases rows.len(),
{
    reveal(Seq::filter);
    if rows.len() > 0 {
        let rest = rows.drop_last();
        assert forall|i: int| 0 <= i < rest.len() implies keep(#[trigger] rest[i]) by {
            assert(rows[i] == rest[i]);
        }
        lemma_filter_all(rest, keep);
        assert(keep(rows[rows.len() - 1]));
        assert(rows == rest.push(rows.last()));
    }
}

} // verus!
