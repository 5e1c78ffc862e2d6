//! Sessions, their messages and the replay of their events.

use vstd::prelude::*;
use vstd::string::*;

use crate::agent::{self, Effect};
use crate::api;
use crate::error::ApiError;
use crate::outside;
use crate::protocol::api::{
    CreateSessionRequest, ErrorDetails, EventsPage, EventsQuery, PatchSessionRequest,
    SendMessageRequest, SendMessageResponse, SessionDetail, SessionDto, SessionsPage,
};
use crate::protocol::envelope::Envelope;
use crate::protocol::events::{Event, SessionState};
use crate::protocol::ids::{MessageId, SessionId};
use crate::protocol::paths;
use crate::protocol::time::Timestamp;
use crate::protocol::api::ErrorCode;
use crate::store;
use crate::store::messages::InsertOutcome;
use crate::store::sessions::{self as stored, SessionRow};
use crate::text;

verus! {

/// Characters that a title may have.
pub const MAX_TITLE_CHARS: usize = 120;

/// Characters that a message may have.
pub const MAX_CONTENT_CHARS: usize = 32_000;

/// Characters that the key of a message may have.
pub const MAX_CLIENT_MSG_ID_CHARS: usize = 128;

/// The workspace of every session on a server.
pub const REMOTE_WORKSPACE: &'static str = "remote://chat";

/// The session that a path names.
pub fn parse_session_id(raw: &str) -> (r: Result<SessionId, ApiError>)
    ensures
        match outside::ulid_number(raw@) {
            Some(n) => r == Ok::<SessionId, ApiError>(SessionId(n)),
            None => r matches Err(e) && e.is_not_found("sesión"@),
        },
{
    match SessionId::from_text(raw) {
        Ok(id) => Ok(id),
        Err(_) => Err(ApiError::not_found("sesión")),
    }
}

/// The row of a session, if there is one.
pub fn load_session(row: Option<SessionRow>) -> (r: Result<SessionRow, ApiError>)
    ensures
        match row {
            Some(row) => r == Ok::<SessionRow, ApiError>(row),
            None => r matches Err(e) && e.is_not_found("sesión"@),
        },
{
    match row {
        Some(row) => Ok(row),
        None => Err(ApiError::not_found("sesión")),
    }
}

/// The session that a row holds; a row that cannot be read is an internal
/// error.
pub fn dto_or_500(row: &SessionRow) -> (r: Result<SessionDto, ApiError>)
    ensures
        match r {
            Ok(dto) => row.readable() && row.reads_as(dto),
            Err(e) => !row.readable() && e.is_internal(),
        },
{
    match row.to_dto() {
        Some(dto) => Ok(dto),
        None => Err(ApiError::internal()),
    }
}

/// What is said of a title that is too long.
pub open spec fn title_too_long() -> Seq<char> {
    "title supera "@ + text::decimal(MAX_TITLE_CHARS as nat) + " caracteres"@
}

/// The title of a session: empty when none is given.
pub open spec fn title_of(title: Option<String>) -> Seq<char> {
    match title {
        Some(t) => t@,
        None => Seq::empty(),
    }
}

fn too_long_text(what: &str, limit: usize) -> (r: String)
    ensures
        r@ == what@ + text::decimal(limit as nat) + " caracteres"@,
{
    text::join3(what, text::number(limit as u64).as_str(), " caracteres")
}

fn title_or_empty(title: &Option<String>) -> (r: String)
    ensures
        r@ == title_of(*title),
{
    match title {
        Some(t) => t.clone(),
        None => {
            let empty = String::new();
            assert(empty@ == Seq::<char>::empty());
            empty
        },
    }
}

/// What a new session is made with.
#[derive(Debug, PartialEq)]
pub struct NewSession {
    pub workspace_path: String,
    pub title: String,
}

/// What is wrong with a workspace, if anything: it must be absolute, must not
/// climb, and must be a directory.
pub open spec fn workspace_problem(path: Seq<char>, is_dir: bool) -> Option<Seq<char>> {
    if !(path.len() > 0 && path[0] == '/') {
        Some("debe ser una ruta absoluta"@)
    } else if paths::climbs(path) {
        Some("no debe contener secuencias de traversal (RNF-05)"@)
    } else if !is_dir {
        Some("debe existir y ser un directorio"@)
    } else {
        None
    }
}

/// Whether a path has a component `..`.
fn has_parent_component(path: &str) -> (r: bool)
    ensures
        r == paths::climbs(path@),
{
    let pieces = text::split_on(path, '/');
    let ghost all = text::split(path@, '/');
    let ghost keep = paths::entry_test();
    proof {
        reveal_strlit("..");
        reveal_strlit(".");
        assert(".."@.len() == 2 && "."@.len() == 1);
    }
    let mut i: usize = 0;
    while i < pieces.len()
        invariant
            i <= pieces.len(),
            text::views(pieces@) == all,
            forall|k: int| 0 <= k < i ==> #[trigger] all[k] != ".."@,
            keep == paths::entry_test(),
            all == text::split(path@, '/'),
            ".."@.len() == 2,
            "."@.len() == 1,
        decreases pieces.len() - i,
    {
        assert(all[i as int] == pieces@[i as int]@);
        if text::same(pieces[i].as_str(), "..") {
            proof {
                assert(keep(all[i as int]));
                all.lemma_filter_contains(keep, i as int);
            }
            return true;
        }
        i += 1;
    }
    proof {
        if paths::climbs(path@) {
            let kept = all.filter(keep);
            let j = choose|j: int| 0 <= j < kept.len() && kept[j] == ".."@;
            all.lemma_filter_contains_rev(keep, ".."@);
            let k = choose|k: int| 0 <= k < all.len() && all[k] == ".."@;
            assert(all[k] != ".."@);
        }
    }
    false
}

/// What a request for a session comes to: what it is made with, or why it is
/// refused.
pub open spec fn plans(
    req: CreateSessionRequest,
    remote: bool,
    is_dir: bool,
    r: Result<NewSession, ApiError>,
) -> bool {
    match r {
        Ok(new) => {
            &&& remote || workspace_problem(req.workspace_path@, is_dir) is None
            &&& title_of(req.title).len() <= MAX_TITLE_CHARS
            &&& new.title@ == title_of(req.title)
            &&& new.workspace_path@ == (if remote {
                "remote://chat"@
            } else {
                req.workspace_path@
            })
        },
        Err(e) => match workspace_problem(req.workspace_path@, is_dir) {
            Some(problem) if !remote => e.is_field_error(
                "workspace_path inválido: "@ + problem,
                "workspace_path"@,
            ),
            _ => title_of(req.title).len() > MAX_TITLE_CHARS && e.is_field_error(
                title_too_long(),
                "title"@,
            ),
        },
    }
}

/// What a new session is made with, or why the request is refused. On a server
/// the workspace is not the client's to choose.
pub fn create(req: &CreateSessionRequest, remote: bool, is_dir: bool) -> (r: Result<
    NewSession,
    ApiError,
>)
    ensures
        plans(*req, remote, is_dir, r),
{
    if !remote {
        let path = req.workspace_path.as_str();
        let absolute = text::begins_with(path, "/");
        proof {
            reveal_strlit("/");
            if path@.len() > 0 && path@[0] == '/' {
                assert("/"@ == path@.take(1));
            }
            if absolute {
                assert(path@[0] == path@.take(1)[0]);
            }
        }
        if !absolute {
            return Err(workspace_error("debe ser una ruta absoluta"));
        }
        if has_parent_component(path) {
            return Err(
                workspace_error("no debe contener secuencias de traversal (RNF-05)"),
            );
        }
        if !is_dir {
            return Err(workspace_error("debe existir y ser un directorio"));
        }
    }
    let title = title_or_empty(&req.title);
    if title.as_str().unicode_len() > MAX_TITLE_CHARS {
        return Err(
            ApiError::field(too_long_text("title supera ", MAX_TITLE_CHARS).as_str(), "title"),
        );
    }
    let workspace_path = if remote {
        REMOTE_WORKSPACE.to_owned()
    } else {
        req.workspace_path.clone()
    };
    Ok(NewSession { workspace_path, title })
}

fn workspace_error(problem: &str) -> (r: ApiError)
    ensures
        r.is_field_error("workspace_path inválido: "@ + problem@, "workspace_path"@),
{
    ApiError::field(
        text::join2("workspace_path inválido: ", problem).as_str(),
        "workspace_path",
    )
}

/// What a session for a task of the outbox comes to.
pub open spec fn plans_task(
    title: Option<String>,
    remote: bool,
    current_dir: Option<String>,
    r: Result<NewSession, ApiError>,
) -> bool {
    match r {
        Ok(new) => {
            &&& title_of(title).len() <= MAX_TITLE_CHARS
            &&& new.title@ == title_of(title)
            &&& if remote {
                new.workspace_path@ == "remote://chat"@
            } else {
                current_dir == Some(new.workspace_path)
            }
        },
        Err(e) => if title_of(title).len() > MAX_TITLE_CHARS {
            e.says(ErrorCode::ValidationFailed, title_too_long()) && e.details is None
        } else {
            !remote && current_dir is None && e.is_internal()
        },
    }
}

/// What a session is made with for a task of the outbox, which names no
/// workspace: the directory in which the daemon runs. None if that cannot be
/// told, which is an internal error.
pub fn create_session_inner(title: Option<String>, remote: bool, current_dir: Option<String>) -> (r:
    Result<NewSession, ApiError>)
    ensures
        plans_task(title, remote, current_dir, r),
{
    let title = title_or_empty(&title);
    if title.as_str().unicode_len() > MAX_TITLE_CHARS {
        return Err(ApiError::validation(too_long_text("title supera ", MAX_TITLE_CHARS), None));
    }
    let workspace_path = if remote {
        REMOTE_WORKSPACE.to_owned()
    } else {
        match current_dir {
            Some(dir) => dir,
            None => return Err(ApiError::internal()),
        }
    };
    Ok(NewSession { workspace_path, title })
}

/// Whether an effect announces a new session: idle, with its title unless that
/// is empty.
pub open spec fn announces(effect: Effect, title: Seq<char>) -> bool {
    effect matches Effect::Emit {
        event: Event::SessionState { state, title: shown, reason },
        new_state,
    } && state == SessionState::Idle && reason is None && new_state is None && (shown is Some
        <==> title.len() > 0) && (shown matches Some(t) ==> t@ == title)
}

/// The effect that announces a new session.
pub fn created(title: &str) -> (r: Effect)
    ensures
        announces(r, title@),
{
    let shown = if title.is_empty() {
        None
    } else {
        Some(title.to_owned())
    };
    Effect::Emit {
        event: Event::SessionState { state: SessionState::Idle, title: shown, reason: None },
        new_state: None,
    }
}

/// The address of a new session.
pub fn location(id: SessionId) -> (r: String)
    ensures
        r@ == "/v1/sessions/"@ + outside::ulid_chars(id.0),
{
    text::join2("/v1/sessions/", id.text().as_str())
}

/// Whether a page lists sessions.
pub open spec fn is_listing(r: SessionsPage, rows: Seq<SessionRow>, limit: u32) -> bool {
    &&& r.sessions@.len() == stored::readable_rows(rows).len()
    &&& forall|i: int|
        0 <= i < r.sessions@.len() ==> stored::readable_rows(rows)[i].reads_as(
            #[trigger] r.sessions@[i],
        )
    &&& r.next_cursor is Some <==> rows.len() == limit && r.sessions@.len() > 0
    &&& r.next_cursor matches Some(cursor) ==> cursor@ == outside::ulid_chars(
        r.sessions@.last().id.0,
    )
}

/// A page of sessions, from the rows that a query with the limit gave: the
/// cursor is there when the page is full.
pub fn list(rows: &Vec<SessionRow>, limit: u32) -> (r: SessionsPage)
    ensures
        is_listing(r, rows@, limit),
{
    let sessions = stored::list(rows);
    let next_cursor = if rows.len() as u64 == limit as u64 && sessions.len() > 0 {
        Some(sessions[sessions.len() - 1].id.text())
    } else {
        None
    };
    SessionsPage { sessions, next_cursor }
}

/// What a session with its counters comes to.
pub open spec fn details(
    row: SessionRow,
    message_count: u64,
    pending_approvals: u64,
    r: Result<SessionDetail, ApiError>,
) -> bool {
    match r {
        Ok(d) => row.readable() && row.reads_as(d.session) && d.message_count == message_count
            && d.pending_approvals == pending_approvals,
        Err(e) => !row.readable() && e.is_internal(),
    }
}

/// A session with its counters.
pub fn detail(row: &SessionRow, message_count: u64, pending_approvals: u64) -> (r: Result<
    SessionDetail,
    ApiError,
>)
    ensures
        details(*row, message_count, pending_approvals, r),
{
    match dto_or_500(row) {
        Ok(session) => Ok(SessionDetail { session, message_count, pending_approvals }),
        Err(e) => Err(e),
    }
}

/// What a patch does.
#[derive(Debug, PartialEq)]
pub struct PatchPlan {
    /// The title to store.
    pub title: Option<String>,
    /// The event to emit.
    pub effect: Option<Effect>,
}

/// The effect of a patch: an archived session says so once; a mere change of
/// title is announced in the state the session is in.
pub open spec fn patch_effect(req: PatchSessionRequest, current: SessionState) -> Option<Effect> {
    if req.state == Some(SessionState::Archived) && current != SessionState::Archived {
        Some(
            Effect::Emit {
                event: Event::SessionState {
                    state: SessionState::Archived,
                    title: req.title,
                    reason: None,
                },
                new_state: Some(SessionState::Archived),
            },
        )
    } else if req.title is Some {
        Some(
            agent::plain_event(
                Event::SessionState { state: current, title: req.title, reason: None },
            ),
        )
    } else {
        None
    }
}

/// What a patch of a session comes to: what it does, or why it is refused.
pub open spec fn patches(
    row: SessionRow,
    req: PatchSessionRequest,
    r: Result<PatchPlan, ApiError>,
) -> bool {
    match store::text_state(row.state@) {
        None => r matches Err(e) && e.is_internal(),
        Some(current) => if req.state is Some && req.state != Some(SessionState::Archived) {
            r matches Err(e) && e.is_field_error(
                "el único cambio de estado permitido es 'archived'"@,
                "state"@,
            )
        } else if title_of(req.title).len() > MAX_TITLE_CHARS {
            r matches Err(e) && e.is_field_error(title_too_long(), "title"@)
        } else {
            r matches Ok(plan) && plan.title == req.title && plan.effect == patch_effect(
                req,
                current,
            )
        },
    }
}

/// What a patch does to a session, or why it is refused. The only state that
/// may be asked for is `archived`.
pub fn patch(row: &SessionRow, req: PatchSessionRequest) -> (r: Result<PatchPlan, ApiError>)
    ensures
        patches(*row, req, r),
{
    let current = match row.session_state() {
        Some(state) => state,
        None => return Err(ApiError::internal()),
    };
    let archive = match req.state {
        Some(SessionState::Archived) => true,
        Some(_) => {
            return Err(
                ApiError::field("el único cambio de estado permitido es 'archived'", "state"),
            );
        },
        None => false,
    };
    match &req.title {
        Some(title) => {
            if title.as_str().unicode_len() > MAX_TITLE_CHARS {
                return Err(
                    ApiError::field(
                        too_long_text("title supera ", MAX_TITLE_CHARS).as_str(),
                        "title",
                    ),
                );
            }
        },
        None => {},
    }
    let effect = if archive && current != SessionState::Archived {
        Some(
            Effect::Emit {
                event: Event::SessionState {
                    state: SessionState::Archived,
                    title: text::copy_option(&req.title),
                    reason: None,
                },
                new_state: Some(SessionState::Archived),
            },
        )
    } else if req.title.is_some() {
        Some(
            Effect::Emit {
                event: Event::SessionState {
                    state: current,
                    title: text::copy_option(&req.title),
                    reason: None,
                },
                new_state: None,
            },
        )
    } else {
        None
    };
    Ok(PatchPlan { title: req.title, effect })
}

/// Whether a message is refused in a state, and how: a session that waits for
/// a decision is busy, an archived one takes no messages.
pub open spec fn refused_in(state: SessionState, e: ApiError) -> bool {
    match state {
        SessionState::WaitingApproval => e.says(
            ErrorCode::SessionBusy,
            "la decisión pendiente debe resolverse primero (RF-16)"@,
        ) && e.details is None,
        SessionState::Archived => e.says(ErrorCode::Conflict, "la sesión está archivada"@)
            && e.details is None,
        _ => false,
    }
}

/// Whether a session in a state takes messages.
pub open spec fn takes_messages(state: SessionState) -> bool {
    state is Idle || state is Running
}

/// Whether the key of a message is acceptable.
pub open spec fn good_key(key: Seq<char>) -> bool {
    0 < key.len() <= MAX_CLIENT_MSG_ID_CHARS
}

/// What sending a message to a session comes to: the state it is sent in, or
/// why it is refused.
pub open spec fn admits(
    row: SessionRow,
    req: SendMessageRequest,
    r: Result<SessionState, ApiError>,
) -> bool {
    match store::text_state(row.state@) {
        None => r matches Err(e) && e.is_internal(),
        Some(state) => if !takes_messages(state) {
            r matches Err(e) && refused_in(state, e)
        } else if req.content@.len() > MAX_CONTENT_CHARS {
            r matches Err(e) && e.is_field_error(
                "content supera "@ + text::decimal(MAX_CONTENT_CHARS as nat) + " caracteres"@,
                "content"@,
            )
        } else if !good_key(req.client_msg_id@) {
            r matches Err(e) && e.is_field_error(
                "client_msg_id es obligatorio (≤128 chars)"@,
                "client_msg_id"@,
            )
        } else {
            r == Ok::<SessionState, ApiError>(state)
        },
    }
}

/// The state of the session that a message may be sent to, or why it may not.
pub fn check_message(row: &SessionRow, req: &SendMessageRequest) -> (r: Result<
    SessionState,
    ApiError,
>)
    ensures
        admits(*row, *req, r),
{
    let state = match row.session_state() {
        Some(state) => state,
        None => return Err(ApiError::internal()),
    };
    match state {
        SessionState::WaitingApproval => {
            return Err(
                ApiError::session_busy(
                    "la decisión pendiente debe resolverse primero (RF-16)".to_owned(),
                ),
            );
        },
        SessionState::Archived => {
            return Err(ApiError::conflict("la sesión está archivada".to_owned(), None));
        },
        SessionState::Idle | SessionState::Running => {},
    }
    if req.content.as_str().unicode_len() > MAX_CONTENT_CHARS {
        return Err(
            ApiError::field(
                too_long_text("content supera ", MAX_CONTENT_CHARS).as_str(),
                "content",
            ),
        );
    }
    if req.client_msg_id.as_str().is_empty() || req.client_msg_id.as_str().unicode_len()
        > MAX_CLIENT_MSG_ID_CHARS {
        return Err(
            ApiError::field("client_msg_id es obligatorio (≤128 chars)", "client_msg_id"),
        );
    }
    Ok(state)
}

/// What an accepted message does.
#[derive(Debug, PartialEq)]
pub struct Accepted {
    /// The event to emit: an idle session starts running.
    pub effect: Option<Effect>,
    /// Whether a turn has to start.
    pub start_turn: bool,
    pub response: SendMessageResponse,
}

/// Whether this is what a message does, once it is stored or found to be stored
/// already.
pub open spec fn accepts(
    r: Accepted,
    state: SessionState,
    outcome: InsertOutcome,
    message_id: MessageId,
    now: Timestamp,
) -> bool {
    &&& r.response.accepted_at == now
    &&& match outcome {
        InsertOutcome::Duplicate(original) => {
            &&& r.effect is None
            &&& !r.start_turn
            &&& r.response.message_id == original
            &&& r.response.session_state == state
        },
        InsertOutcome::Inserted => {
            &&& r.start_turn
            &&& r.response.message_id == message_id
            &&& state is Idle ==> r.effect == Some(agent::state_event(SessionState::Running))
                && r.response.session_state == SessionState::Running
            &&& !(state is Idle) ==> r.effect is None && r.response.session_state == state
        },
    }
}

/// What a message does once it is stored, or found to be stored already. A
/// repeat is answered with the first message and starts nothing.
pub fn send_message_inner(
    state: SessionState,
    outcome: InsertOutcome,
    message_id: MessageId,
    now: Timestamp,
) -> (r: Accepted)
    ensures
        accepts(r, state, outcome, message_id, now),
{
    match outcome {
        InsertOutcome::Duplicate(original) => Accepted {
            effect: None,
            start_turn: false,
            response: SendMessageResponse {
                message_id: original,
                session_state: state,
                accepted_at: now,
            },
        },
        InsertOutcome::Inserted => {
            if state == SessionState::Idle {
                Accepted {
                    effect: Some(
                        Effect::Emit {
                            event: Event::SessionState {
                                state: SessionState::Running,
                                title: None,
                                reason: None,
                            },
                            new_state: Some(SessionState::Running),
                        },
                    ),
                    start_turn: true,
                    response: SendMessageResponse {
                        message_id,
                        session_state: SessionState::Running,
                        accepted_at: now,
                    },
                }
            } else {
                Accepted {
                    effect: None,
                    start_turn: true,
                    response: SendMessageResponse {
                        message_id,
                        session_state: state,
                        accepted_at: now,
                    },
                }
            }
        },
    }
}

/// Where a replay starts and how many events it gives.
pub fn events_window(query: &EventsQuery) -> (r: (u64, u32))
    ensures
        r.0 == (match query.after_seq {
            Some(n) => n,
            None => 0,
        }),
        r.1 == api::limit_of(query.limit, 500, 1000),
{
    let after: u64 = match query.after_seq {
        Some(n) => n,
        None => 0,
    };
    (after, api::page_limit(query.limit, 500, 1000))
}

/// The number up to which a page of events reaches.
pub open spec fn boundary(events: Seq<Envelope<Event>>, after_seq: u64) -> u64 {
    if events.len() > 0 && events.last().seq is Some {
        events.last().seq->0
    } else {
        after_seq
    }
}

/// Whether a page is that of a replay.
pub open spec fn is_page(
    r: EventsPage,
    row: SessionRow,
    after_seq: u64,
    found: Vec<Envelope<Event>>,
) -> bool {
    &&& r.events == found
    &&& r.last_seq == row.last_seq as u64
    &&& r.has_more == (boundary(found@, after_seq) < r.last_seq)
}

/// A page of a replay, from the events that follow a number.
pub fn events(row: &SessionRow, after_seq: u64, found: Vec<Envelope<Event>>) -> (r: EventsPage)
    ensures
        is_page(r, *row, after_seq, found),
{
    let last_seq = row.last_seq as u64;
    let reached: u64 = if found.len() > 0 {
        match found[found.len() - 1].seq {
            Some(seq) => seq,
            None => after_seq,
        }
    } else {
        after_seq
    };
    EventsPage { events: found, last_seq, has_more: reached < last_seq }
}

/// Law: a session that was made is idle, has the title and, off a server, the
/// workspace that were asked for, and its announcement is its first event.
pub proof fn law_new_session(
    req: CreateSessionRequest,
    remote: bool,
    is_dir: bool,
    new: NewSession,
    id: SessionId,
    created_at: Timestamp,
    row: SessionRow,
    announcement: Effect,
    after: SessionRow,
)
    requires
        plans(req, remote, is_dir, Ok(new)),
        stored::is_new(row, id, new.workspace_path@, new.title@, created_at),
        announces(announcement, new.title@),
        announcement matches Effect::Emit { new_state, .. } && store::events::advanced(
            after,
            row,
            new_state,
        ),
    ensures
        after.id@ == outside::ulid_chars(id.0),
        store::text_state(after.state@) == Some(SessionState::Idle),
        after.title@ == title_of(req.title),
        !remote ==> after.workspace_path@ == req.workspace_path@,
        after.last_seq == 1,
{
    store::law_state_round_trip(SessionState::Idle, after.state@);
}

/// Law: off a server a session is made exactly when its workspace is an
/// absolute path to a directory, without a component `..`, and its title has at
/// most 120 characters; on a server only the title counts. A refusal is a
/// failed validation of the field at fault, the workspace before the title.
pub proof fn law_session_is_made_iff(
    req: CreateSessionRequest,
    remote: bool,
    is_dir: bool,
    r: Result<NewSession, ApiError>,
)
    requires
        plans(req, remote, is_dir, r),
    ensures
        ({
            let path = req.workspace_path@;
            let pieces = text::split(path, '/');
            let fits = req.title matches Some(t) ==> t@.len() <= 120;
            let sound = path.len() > 0 && path[0] == '/' && is_dir && forall|k: int|
                0 <= k < pieces.len() ==> #[trigger] pieces[k] != ".."@;
            &&& r is Ok <==> fits && (remote || sound)
            &&& r matches Ok(new) ==> {
                &&& req.title matches Some(t) ==> new.title@ == t@
                &&& req.title is None ==> new.title@.len() == 0
                &&& !remote ==> new.workspace_path@ == path
                &&& remote ==> new.workspace_path@ == "remote://chat"@
            }
            &&& r matches Err(e) ==> {
                &&& e.status == 422
                &&& e.code == ErrorCode::ValidationFailed
                &&& !remote && !sound ==> (e.details matches Some(ErrorDetails::Field(f)) && f@
                    == "workspace_path"@)
                &&& !remote && !(path.len() > 0 && path[0] == '/') ==> e.message@
                    == "workspace_path inválido: "@ + "debe ser una ruta absoluta"@
                &&& !remote && path.len() > 0 && path[0] == '/' && (exists|k: int|
                    0 <= k < pieces.len() && #[trigger] pieces[k] == ".."@) ==> e.message@
                    == "workspace_path inválido: "@
                    + "no debe contener secuencias de traversal (RNF-05)"@
                &&& !remote && path.len() > 0 && path[0] == '/' && (forall|k: int|
                    0 <= k < pieces.len() ==> #[trigger] pieces[k] != ".."@) && !is_dir
                    ==> e.message@ == "workspace_path inválido: "@
                    + "debe existir y ser un directorio"@
                &&& remote || sound ==> (e.details matches Some(ErrorDetails::Field(f)) && f@
                    == "title"@)
            }
        }),
{
    lemma_climbs(req.workspace_path@);
}

/// A path climbs exactly when one of its pieces is `..`.
proof fn lemma_climbs(path: Seq<char>)
    ensures
        paths::climbs(path) <==> exists|k: int|
            0 <= k < text::split(path, '/').len() && #[trigger] text::split(path, '/')[k] == ".."@,
{
    let all = text::split(path, '/');
    let keep = paths::entry_test();
    reveal_strlit("..");
    reveal_strlit(".");
    assert(".."@.len() == 2 && "."@.len() == 1);
    if paths::climbs(path) {
        let kept = all.filter(keep);
        let j = choose|j: int| 0 <= j < kept.len() && kept[j] == ".."@;
        all.lemma_filter_contains_rev(keep, ".."@);
    }
    if exists|k: int| 0 <= k < all.len() && #[trigger] all[k] == ".."@ {
        let k = choose|k: int| 0 <= k < all.len() && #[trigger] all[k] == ".."@;
        assert(keep(all[k]));
        all.lemma_filter_contains(keep, k);
    }
}

/// Law: a patch that is accepted keeps the title that was asked for, asks for
/// no state but the archived one, and for a title of at most 120 characters;
/// one that is refused broke one of these, or its row cannot be read.
/// Archiving is told once, with the new state; a session that is archived
/// already, or keeps its state, tells its new title in the state it is in; a
/// patch of nothing tells nothing.
pub proof fn law_patch(
    row: SessionRow,
    req: PatchSessionRequest,
    current: SessionState,
    r: Result<PatchPlan, ApiError>,
)
    requires
        patches(row, req, r),
        row.state@ == store::state_text(current),
    ensures
        r is Ok <==> (req.state is None || req.state == Some(SessionState::Archived)) && (
        req.title matches Some(t) ==> t@.len() <= 120),
        r matches Err(e) ==> e.status == 422 && (e.details matches Some(ErrorDetails::Field(f))
            && f@ == (if req.state is Some && req.state != Some(SessionState::Archived) {
            "state"@
        } else {
            "title"@
        })),
        r matches Ok(plan) ==> {
            &&& plan.title == req.title
            &&& plan.effect is Some <==> req.title is Some || (req.state is Some && !(
            current is Archived))
            &&& plan.effect matches Some(effect) ==> (effect matches Effect::Emit {
                event: Event::SessionState { state, title, reason },
                new_state,
            } && {
                &&& title == req.title
                &&& reason is None
                &&& req.state is Some && !(current is Archived) ==> state == SessionState::Archived
                    && new_state == Some(SessionState::Archived)
                &&& req.state is None || current is Archived ==> state == current
                    && new_state is None
            })
        },
{
    store::law_state_round_trip(current, row.state@);
}

/// Law: a message is taken exactly when the session is idle or runs, its
/// content has at most 32000 characters and its key between 1 and 128. A
/// session that waits for a decision is busy, an archived one is in conflict,
/// whatever the message; else the field at fault is named, the content first.
pub proof fn law_message_is_taken_iff(
    row: SessionRow,
    req: SendMessageRequest,
    current: SessionState,
    r: Result<SessionState, ApiError>,
)
    requires
        admits(row, req, r),
        row.state@ == store::state_text(current),
    ensures
        r is Ok <==> (current is Idle || current is Running) && req.content@.len() <= 32_000 && 1
            <= req.client_msg_id@.len() <= 128,
        r matches Ok(state) ==> state == current,
        r matches Err(e) ==> {
            &&& current is WaitingApproval ==> e.status == 409 && e.code == ErrorCode::SessionBusy
                && e.message@ == "la decisión pendiente debe resolverse primero (RF-16)"@
            &&& current is Archived ==> e.status == 409 && e.code == ErrorCode::Conflict
                && e.message@ == "la sesión está archivada"@
            &&& current is Idle || current is Running ==> e.status == 422 && (
            e.details matches Some(ErrorDetails::Field(f)) && f@ == (if req.content@.len()
                > 32_000 {
                "content"@
            } else {
                "client_msg_id"@
            }))
        },
{
    store::law_state_round_trip(current, row.state@);
}

/// Law: a repeated message starts nothing, tells nothing and is answered with
/// the first one; a new one starts a turn under its own name, and an idle
/// session starts running with it, which is told.
pub proof fn law_message_starts_one_turn(
    r: Accepted,
    state: SessionState,
    outcome: InsertOutcome,
    message_id: MessageId,
    now: Timestamp,
)
    requires
        accepts(r, state, outcome, message_id, now),
    ensures
        r.start_turn <==> outcome is Inserted,
        outcome matches InsertOutcome::Duplicate(first) ==> r.response.message_id == first,
        outcome is Inserted ==> r.response.message_id == message_id,
        r.effect is Some <==> outcome is Inserted && state is Idle,
        r.effect matches Some(effect) ==> (effect matches Effect::Emit {
            event: Event::SessionState { state: shown, title, reason },
            new_state,
        } && shown == SessionState::Running && new_state == Some(SessionState::Running)
            && title is None && reason is None),
        r.response.session_state == (if r.effect is Some {
            SessionState::Running
        } else {
            state
        }),
        r.response.accepted_at == now,
{
}

/// Law: a page of a replay gives what was found and the last number of the
/// session. There is more exactly when the last event of the page, or the
/// number asked for if the page is empty, comes before that last number.
pub proof fn law_page_says_whether_there_is_more(
    r: EventsPage,
    row: SessionRow,
    after_seq: u64,
    found: Vec<Envelope<Event>>,
)
    requires
        is_page(r, row, after_seq, found),
        row.last_seq >= 0,
        found@.len() > 0 ==> found@.last().seq is Some,
    ensures
        r.events@ == found@,
        r.last_seq == row.last_seq,
        found@.len() == 0 ==> (r.has_more <==> after_seq < row.last_seq),
        found@.len() > 0 ==> (r.has_more <==> found@.last().seq->0 < row.last_seq),
{
}

/// Law: a new session is announced as idle, without a reason and without a
/// change of state; its title is told exactly when it has one.
pub proof fn law_announcement(effect: Effect, title: Seq<char>)
    requires
        announces(effect, title),
    ensures
        effect matches Effect::Emit {
            event: Event::SessionState { state, title: shown, reason },
            new_state,
        } && {
            &&& state == SessionState::Idle
            &&& reason is None
            &&& new_state is None
            &&& title.len() == 0 ==> shown is None
            &&& title.len() > 0 ==> (shown matches Some(t) && t@ == title)
        },
{
}

/// Law: a session for a task is made exactly when its title has at most 120
/// characters and, off a server, the daemon knows where it runs: there is its
/// workspace.
pub proof fn law_task_session(
    title: Option<String>,
    remote: bool,
    current_dir: Option<String>,
    r: Result<NewSession, ApiError>,
)
    requires
        plans_task(title, remote, current_dir, r),
    ensures
        r is Ok <==> (title matches Some(t) ==> t@.len() <= 120) && (remote
            || current_dir is Some),
        r matches Ok(new) ==> {
            &&& title matches Some(t) ==> new.title@ == t@
            &&& title is None ==> new.title@.len() == 0
            &&& remote ==> new.workspace_path@ == "remote://chat"@
            &&& !remote ==> new.workspace_path@ == current_dir->0@
        },
        r matches Err(e) ==> e.status == (if title is Some && title->0@.len() > 120 {
            422int
        } else {
            500
        }),
{
}

/// Law: a page of sessions goes on from its last session exactly when it is
/// full; where every row can be read it shows every row, in order.
pub proof fn law_listing(r: SessionsPage, rows: Seq<SessionRow>, limit: u32)
    requires
        is_listing(r, rows, limit),
        forall|i: int| 0 <= i < rows.len() ==> (#[trigger] rows[i]).readable(),
    ensures
        r.sessions@.len() == rows.len(),
        forall|i: int|
            #![trigger r.sessions@[i]]
            0 <= i < rows.len() ==> outside::ulid_number(rows[i].id@) == Some(r.sessions@[i].id.0)
                && r.sessions@[i].title == rows[i].title && r.sessions@[i].workspace_path
                == rows[i].workspace_path,
        r.next_cursor is Some <==> rows.len() == limit && rows.len() > 0,
        r.next_cursor matches Some(cursor) ==> cursor@ == outside::ulid_chars(
            r.sessions@[rows.len() - 1].id.0,
        ),
{
    stored::law_readable_rows(rows, rows[0]);
}

/// Law: a session is shown with its own counters, each in its place.
pub proof fn law_detail(
    row: SessionRow,
    message_count: u64,
    pending_approvals: u64,
    r: Result<SessionDetail, ApiError>,
)
    requires
        details(row, message_count, pending_approvals, r),
    ensures
        r is Ok <==> row.readable(),
        r matches Ok(d) ==> d.message_count == message_count && d.pending_approvals
            == pending_approvals && d.session.title == row.title,
        r matches Err(e) ==> e.status == 500,
{
}

} // verus!
