use rutsubo::error::ApiError;
use rutsubo::protocol::commands::{Command, CommandEnvelope};
use rutsubo::protocol::events::{Decision, Event};
use rutsubo::protocol::ids::{ApprovalId, SessionId};
use rutsubo::protocol::time::Timestamp;
use rutsubo::ws::{
    command_error, CommandAction, Connection, ConnectionAction, ConnectionEvent, PONG_DEADLINE_MS,
};

const NOW: Timestamp = Timestamp { secs: 1, nanos: 0 };

fn envelope(body: Command, session_id: Option<SessionId>) -> Result<CommandEnvelope, String> {
    Ok(CommandEnvelope { v: 1, body, session_id, ts: NOW })
}

fn subscribe(n: u128, after_seq: u64) -> Result<CommandEnvelope, String> {
    envelope(Command::SubscribeSession { session_id: SessionId(n), after_seq }, None)
}

fn live(n: u128, seq: u64) -> ConnectionEvent {
    ConnectionEvent::Live { session_id: Some(SessionId(n)), seq: Some(seq) }
}

#[test]
fn only_followed_sessions_are_forwarded() {
    let mut c = Connection::new(0);
    assert_eq!(c.connection(live(1, 1), 0), ConnectionAction::Continue);
    assert_eq!(
        c.handle_command(subscribe(1, 4)),
        CommandAction::Replay { session: SessionId(1), after_seq: 4 }
    );
    assert_eq!(c.connection(live(1, 4), 0), ConnectionAction::Continue);
    assert_eq!(c.connection(live(1, 5), 0), ConnectionAction::Forward);
    assert_eq!(c.connection(live(2, 5), 0), ConnectionAction::Continue);
    assert_eq!(
        c.handle_command(envelope(
            Command::UnsubscribeSession { session_id: SessionId(1) },
            None
        )),
        CommandAction::Unsubscribed
    );
    assert_eq!(c.connection(live(1, 6), 0), ConnectionAction::Continue);
}

#[test]
fn no_number_is_forwarded_twice() {
    let mut c = Connection::new(0);
    c.handle_command(subscribe(1, 0));
    // The backlog and then the same events from the bus.
    let replayed: Vec<bool> =
        [1, 2, 3].iter().map(|n| c.forward_live(Some(SessionId(1)), Some(*n))).collect();
    assert_eq!(replayed, vec![true, true, true]);
    let lived: Vec<bool> =
        [2, 3, 4].iter().map(|n| c.forward_live(Some(SessionId(1)), Some(*n))).collect();
    assert_eq!(lived, vec![false, false, true]);
    assert!(!c.forward_live(None, Some(9)));
    assert!(!c.forward_live(Some(SessionId(1)), None));
}

#[test]
fn a_silent_client_is_cut() {
    let mut c = Connection::new(1_000);
    assert_eq!(c.connection(ConnectionEvent::Tick, 1_000 + PONG_DEADLINE_MS), ConnectionAction::Ping);
    assert_eq!(
        c.connection(ConnectionEvent::Tick, 1_001 + PONG_DEADLINE_MS),
        ConnectionAction::Close
    );
    assert_eq!(c.connection(ConnectionEvent::Pong, 50_000), ConnectionAction::Continue);
    assert_eq!(
        c.connection(ConnectionEvent::Tick, 50_000 + PONG_DEADLINE_MS),
        ConnectionAction::Ping
    );
    // A clock that goes back cuts nobody.
    assert_eq!(c.connection(ConnectionEvent::Tick, 0), ConnectionAction::Ping);
}

#[test]
fn what_ends_a_connection() {
    let mut c = Connection::new(0);
    assert_eq!(c.connection(ConnectionEvent::Gone, 0), ConnectionAction::Close);
    assert_eq!(c.connection(ConnectionEvent::Lagged, 0), ConnectionAction::Close);
    assert_eq!(c.connection(ConnectionEvent::Closed, 0), ConnectionAction::Close);
    assert_eq!(c.connection(ConnectionEvent::Other, 0), ConnectionAction::Continue);
    assert_eq!(
        c.connection(ConnectionEvent::Text("{}".to_owned()), 0),
        ConnectionAction::Handle("{}".to_owned())
    );
}

#[test]
fn commands_become_actions() {
    let mut c = Connection::new(0);
    let send = Command::SendMessage { content: "hola".to_owned(), client_msg_id: "k".to_owned() };
    match c.handle_command(envelope(send, Some(SessionId(3)))) {
        CommandAction::Send { session, message } => {
            assert_eq!(session, SessionId(3));
            assert_eq!((message.content.as_str(), message.client_msg_id.as_str()), ("hola", "k"));
        }
        _ => panic!("a message"),
    }
    let send = Command::SendMessage { content: "hola".to_owned(), client_msg_id: "k".to_owned() };
    match c.handle_command(envelope(send, None)) {
        CommandAction::Refuse { session_id, error } => {
            assert_eq!(session_id, None);
            assert_eq!(error.message, "send_message requiere session_id en el sobre");
            assert_eq!(error.status, 422);
        }
        _ => panic!("a refusal"),
    }
    let decide = Command::ResolveApproval {
        approval_id: ApprovalId(7),
        decision: Decision::Reject,
        reason: Some("no".to_owned()),
        remember_rule: None,
    };
    match c.handle_command(envelope(decide, None)) {
        CommandAction::Decide { approval_id, session_id, request, resolved_by } => {
            assert_eq!(resolved_by, "local:ws");
            assert_eq!((approval_id, session_id), (ApprovalId(7), None));
            assert_eq!(request.decision, Decision::Reject);
            assert_eq!(request.reason, Some("no".to_owned()));
        }
        _ => panic!("a decision"),
    }
    match c.handle_command(Err("eof".to_owned())) {
        CommandAction::Refuse { error, .. } => {
            assert_eq!(error.message, "comando inválido: eof");
        }
        _ => panic!("a refusal"),
    }
}

#[test]
fn a_refusal_is_reported_without_a_number() {
    let env = command_error(Some(SessionId(1)), &ApiError::not_found("sesión"), NOW);
    assert_eq!(env.seq, None);
    assert_eq!(env.session_id, Some(SessionId(1)));
    match env.body {
        Event::Error { code, message, fatal } => {
            assert_eq!(code, "notfound");
            assert_eq!(message, ApiError::not_found("sesión").message);
            assert!(!fatal);
        }
        _ => panic!("an error"),
    }
}
