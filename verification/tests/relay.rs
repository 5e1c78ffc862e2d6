use rutsubo::agent::Effect;
use rutsubo::error::ApiError;
use rutsubo::protocol::api::{ErrorCode, SendMessageRequest, SendMessageResponse};
use rutsubo::protocol::commands::{Command, CommandEnvelope};
use rutsubo::protocol::events::{Decision, Event, SessionState};
use rutsubo::protocol::ids::{ApprovalId, MessageId, SessionId};
use rutsubo::protocol::relay::ToDaemon;
use rutsubo::protocol::time::Timestamp;
use rutsubo::relay::{
    announce_sessions, backoff, claim_url, from_daemon, handle_queued_task, handle_to_daemon,
    jittered, lengthened, load_or_create_signing_key, pair, pair_result, read_token, resolver,
    session, task_ack, task_sent, task_session, unreachable_relay, ws_url, KeyError, LinkAction, LinkEvent,
    LoopAction, LoopEvent, Paired, PairingKey, RelayCommand, RelayLoop, SessionEnd, TaskStep,
};
use rutsubo::store::sessions;
use rutsubo::ws::CommandAction;

const NOW: Timestamp = Timestamp { secs: 1_783_361_032, nanos: 0 };

fn some(s: &str) -> Option<String> {
    Some(s.to_owned())
}

#[test]
fn the_pairing_key_is_stable() {
    let (first, fresh) = load_or_create_signing_key(None).unwrap();
    assert!(fresh);
    let (second, fresh) =
        load_or_create_signing_key(Some(format!(" {}\n", first.encoded()))).unwrap();
    assert!(!fresh);
    assert_eq!(first.seed, second.seed);
    assert_eq!(first.pubkey_b64(), second.pubkey_b64());
    assert_ne!(load_or_create_signing_key(None).unwrap().0.seed, first.seed);
}

#[test]
fn a_key_that_cannot_be_read_is_an_error() {
    assert!(matches!(
        load_or_create_signing_key(some("no es base64!")),
        Err(KeyError::NotBase64)
    ));
    assert!(matches!(load_or_create_signing_key(some("AAAA")), Err(KeyError::BadLength)));
}

#[test]
fn keys_and_signatures_are_those_of_ed25519() {
    // The first test vector of RFC 8032, section 7.1.
    let seed: [u8; 32] = [
        0x9d, 0x61, 0xb1, 0x9d, 0xef, 0xfd, 0x5a, 0x60, 0xba, 0x84, 0x4a, 0xf4, 0x92, 0xec, 0x2c,
        0xc4, 0x44, 0x49, 0xc5, 0x69, 0x7b, 0x32, 0x69, 0x19, 0x70, 0x3b, 0xac, 0x03, 0x1c, 0xae,
        0x7f, 0x60,
    ];
    let key = PairingKey { seed };
    assert_eq!(key.pubkey_b64(), "11qYAYKxCrfVS/7TyWQHOg7hcvPapiMlrwIaaPcHURo=");
    assert_eq!(
        key.signature_b64(""),
        "5VZDAMNgrHKQhuLMgG6CioSHfx645dl02HPgZSJJAVVfuIIVkKM7rMYeOXAc+bRr0lv18FlbviRlUUFDjnoQCw=="
    );
    assert_ne!(key.signature_b64("123"), key.signature_b64("124"));
}

#[test]
fn the_token_of_the_relay() {
    assert_eq!(read_token(None), None);
    assert_eq!(read_token(some(" \n")), None);
    assert_eq!(read_token(some(" t \n")), some("t"));
}

#[test]
fn claiming_a_code() {
    assert_eq!(
        claim_url(&some("https://relay/")).unwrap(),
        "https://relay/v1/pairing/claim"
    );
    assert_eq!(
        claim_url(&None).unwrap_err().message,
        "RUTSUBO_RELAY_URL no está configurada"
    );
    assert_eq!(
        unreachable_relay("dns").message,
        "no se pudo alcanzar el relay: dns"
    );
    let body = r#"{"daemon_token":"t","account_id": "a1","device_id": {"n": 1}}"#;
    assert_eq!(
        pair(true, "200 OK", body),
        Ok(Paired {
            token: "t".to_owned(),
            account_id: "\"a1\"".to_owned(),
            device_id: r#"{"n":1}"#.to_owned(),
        })
    );
    let bare = pair(true, "200 OK", r#"{"daemon_token":"t"}"#).unwrap();
    assert_eq!((bare.account_id.as_str(), bare.device_id.as_str()), ("null", "null"));
    assert_eq!(pair(true, "200 OK", "{}").unwrap_err().code, ErrorCode::Internal);
    assert_eq!(pair(false, "502", "<html>").unwrap_err().code, ErrorCode::Internal);
    let e = pair(false, "410 Gone", r#"{"error":{"message":"código vencido"}}"#).unwrap_err();
    assert_eq!(e.message, "pairing rechazado (410 Gone): código vencido");
    let e = pair_result(false, "500", None, None, None, None).unwrap_err();
    assert_eq!(e.message, "pairing rechazado (500): claim rechazado");
    let paired = pair_result(true, "200", None, some("t"), some("1"), None).unwrap();
    assert_eq!((paired.token.as_str(), paired.account_id.as_str()), ("t", "1"));
    assert_eq!(paired.device_id, "null");
}

#[test]
fn the_socket_of_the_relay() {
    assert_eq!(ws_url("https://relay.example"), "wss://relay.example/v1/connect");
    assert_eq!(ws_url("http://localhost:9//"), "ws://localhost:9/v1/connect");
}

#[test]
fn pauses_double_up_to_a_cap() {
    let pauses: Vec<u64> = (0..=6).map(backoff).collect();
    assert_eq!(pauses, vec![1_000, 2_000, 4_000, 8_000, 16_000, 30_000, 30_000]);
    assert_eq!(backoff(u32::MAX), 30_000);
    for pause in pauses {
        let waited = jittered(pause);
        assert!(pause <= waited && waited <= pause + pause * 3 / 10);
    }
}

#[test]
fn chance_lengthens_a_pause() {
    assert_eq!(lengthened(30_000, 0), 30_000);
    assert_eq!(lengthened(30_000, 9_000), 39_000);
    assert_eq!(lengthened(1_000, 123), 1_123);
    let waited: Vec<u64> = (0..200).map(|_| jittered(30_000)).collect();
    assert!(waited.iter().any(|w| *w != waited[0]));
    assert_eq!(jittered(0), 0);
}

#[test]
fn the_loop_connects_again() {
    let mut l = RelayLoop { attempts: 0 };
    assert_eq!(l.run(LoopEvent::NoToken), LoopAction::AwaitPairing);
    assert_eq!(l.run(LoopEvent::ConnectFailed), LoopAction::Pause(backoff(1)));
    assert_eq!(l.run(LoopEvent::ConnectFailed), LoopAction::Pause(backoff(2)));
    assert_eq!(l.run(LoopEvent::Connected), LoopAction::Serve);
    assert_eq!(l.attempts, 0);
    assert_eq!(l.run(LoopEvent::Ended(SessionEnd::Retry)), LoopAction::Pause(backoff(1)));
    assert_eq!(l.run(LoopEvent::Ended(SessionEnd::Superseded)), LoopAction::AwaitPairing);
}

#[test]
fn a_newer_daemon_takes_over() {
    assert_eq!(session(LinkEvent::Close(Some(4001))), LinkAction::End(SessionEnd::Superseded));
    assert_eq!(session(LinkEvent::Close(Some(1000))), LinkAction::End(SessionEnd::Retry));
    assert_eq!(session(LinkEvent::Close(None)), LinkAction::End(SessionEnd::Retry));
    assert_eq!(session(LinkEvent::Ping), LinkAction::Pong);
    assert_eq!(session(LinkEvent::Text("f".to_owned())), LinkAction::Handle("f".to_owned()));
    assert_eq!(session(LinkEvent::Live), LinkAction::Broadcast);
    assert_eq!(session(LinkEvent::Lagged), LinkAction::Continue);
    assert_eq!(session(LinkEvent::Repaired), LinkAction::End(SessionEnd::Retry));
}

#[test]
fn sessions_are_announced_with_their_state() {
    let mut odd = sessions::create(SessionId(1), "/w", "rara", NOW);
    odd.state = "dormida".to_owned();
    let rows = vec![sessions::create(SessionId(2), "/w", "t", NOW), odd];
    let said = announce_sessions(&rows, NOW);
    assert_eq!(said.len(), 1);
    assert_eq!(said[0].session_id, Some(SessionId(2)));
    assert_eq!(
        said[0].body,
        Event::SessionState { state: SessionState::Idle, title: some("t"), reason: None }
    );
}

fn header(outbox_id: Option<&str>) -> ToDaemon {
    ToDaemon {
        src: "dev1".to_owned(),
        frame: "{}".to_owned(),
        outbox_id: outbox_id.map(str::to_owned),
        new_session_title: some("nueva"),
        announce_sessions: None,
    }
}

fn send(session_id: Option<SessionId>) -> CommandEnvelope {
    CommandEnvelope {
        v: 1,
        body: Command::SendMessage { content: "hola".to_owned(), client_msg_id: "k".to_owned() },
        session_id,
        ts: NOW,
    }
}

fn message() -> SendMessageRequest {
    SendMessageRequest { content: "hola".to_owned(), client_msg_id: "k".to_owned() }
}

#[test]
fn frames_from_the_relay() {
    let mut ask = header(None);
    ask.announce_sessions = Some(true);
    assert_eq!(
        handle_to_daemon(ask, Ok(send(None))),
        RelayCommand::Announce { dst: "dev1".to_owned() }
    );
    match handle_to_daemon(header(Some("o1")), Ok(send(None))) {
        RelayCommand::Queued { src, outbox_id, new_session_title, .. } => {
            assert_eq!((src.as_str(), outbox_id.as_str()), ("dev1", "o1"));
            assert_eq!(new_session_title, some("nueva"));
        }
        _ => panic!("a task"),
    }
    match handle_to_daemon(header(None), Ok(send(Some(SessionId(1))))) {
        RelayCommand::Act { action: CommandAction::Send { session, .. }, .. } => {
            assert_eq!(session, SessionId(1));
        }
        _ => panic!("a message"),
    }
    assert!(matches!(
        handle_to_daemon(header(Some("o1")), Err("x".to_owned())),
        RelayCommand::Act { action: CommandAction::Refuse { .. }, .. }
    ));
    let resolve = Command::ResolveApproval {
        approval_id: ApprovalId(7),
        decision: Decision::Approve,
        reason: None,
        remember_rule: None,
    };
    match handle_to_daemon(header(None), Ok(CommandEnvelope { body: resolve, ..send(None) })) {
        RelayCommand::Act { action: CommandAction::Decide { approval_id, resolved_by, .. }, .. } => {
            assert_eq!((approval_id, resolved_by.as_str()), (ApprovalId(7), "device:dev1"));
        }
        _ => panic!("a decision"),
    }
    assert_eq!(resolver("dev1"), "device:dev1");
    assert_eq!(from_daemon(some("d"), "f".to_owned()).ack_outbox_id, None);
    assert_eq!(task_ack("o1".to_owned()).ack_outbox_id, some("o1"));
}

fn acked(step: &TaskStep) -> bool {
    matches!(step, TaskStep::Finish { ack, .. } if ack.ack_outbox_id == Some("o1".to_owned()))
}

#[test]
fn a_queued_task_runs_if_it_is_new_and_is_always_acknowledged() {
    let id = "o1".to_owned();
    assert_eq!(
        handle_queued_task(Some(true), send(Some(SessionId(1))), &id, None),
        TaskStep::Send { session: SessionId(1), message: message() }
    );
    assert_eq!(
        handle_queued_task(Some(true), send(None), &id, some("t")),
        TaskStep::Create { title: some("t"), message: message() }
    );
    assert!(acked(&handle_queued_task(Some(false), send(None), &id, None)));
    assert!(acked(&handle_queued_task(None, send(None), &id, None)));
    let other = CommandEnvelope {
        body: Command::UnsubscribeSession { session_id: SessionId(1) },
        ..send(None)
    };
    assert!(acked(&handle_queued_task(Some(true), other, &id, None)));

    assert_eq!(
        task_session(Ok(SessionId(4)), message(), &id),
        TaskStep::Send { session: SessionId(4), message: message() }
    );
    let failed = task_session(Err(ApiError::internal()), message(), &id);
    assert!(acked(&failed));

    let response = SendMessageResponse {
        message_id: MessageId(9),
        session_state: SessionState::Running,
        accepted_at: NOW,
    };
    match task_sent(SessionId(4), Ok(response), &id, "dev1") {
        TaskStep::Finish { refusal, effects, ack } => {
            assert_eq!(refusal, None);
            assert_eq!(ack.ack_outbox_id, some("o1"));
            assert_eq!(
                effects[0],
                Effect::Emit {
                    event: Event::TaskDequeued {
                        outbox_id: "o1".to_owned(),
                        message_id: MessageId(9),
                    },
                    new_state: None,
                }
            );
        }
        _ => panic!("finished"),
    }
    match task_sent(SessionId(4), Err(ApiError::session_busy("x".to_owned())), &id, "dev1") {
        TaskStep::Finish { refusal: Some((session, error)), effects, ack } => {
            assert_eq!(session, Some(SessionId(4)));
            assert_eq!(error.code, ErrorCode::SessionBusy);
            assert!(effects.is_empty());
            assert_eq!(ack.ack_outbox_id, some("o1"));
        }
        _ => panic!("refused"),
    }
}
