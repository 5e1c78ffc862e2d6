use rutsubo::protocol::commands::{Command, CommandEnvelope};
use rutsubo::protocol::diff::{tally, FileDiff, LineChange};
use rutsubo::protocol::envelope::{Envelope, PROTOCOL_VERSION};
use rutsubo::protocol::events::{Event, SessionState};
use rutsubo::protocol::fixtures::{
    command_fixtures, event_fixtures, APPROVAL, CALL, EXPIRY_SECS, MESSAGE, SESSION, SID, TS,
    TS_SECS,
};
use rutsubo::protocol::ids::{
    ApprovalId, AuditId, IdError, MessageId, ProviderId, RuleId, SessionId, ToolCallId,
};
use rutsubo::protocol::time::{parse_ts, Timestamp};

#[test]
fn cuenta_adiciones_y_eliminaciones() {
    let old = "a\nb\nc\n";
    let new = "a\nB\nc\nd\n";
    let d = FileDiff::compute("x.txt", old, new);
    assert_eq!(d.additions, 2);
    assert_eq!(d.deletions, 1);
    assert!(d.unified.contains("-b"));
    assert!(d.unified.contains("+B"));
    assert!(d.unified.contains("a/x.txt"));
}

#[test]
fn a_diff_makes_up_the_difference_in_lines() {
    let d = FileDiff::compute("x", "a\r\nb\rc", "a\r\nb\rd\n\ne\n");
    assert_eq!((d.additions, d.deletions), (3, 1));
    assert!(d.unified.starts_with("--- a/x\n+++ b/x\n@@ -"));
    let d = FileDiff::compute("x", "a", "a\n");
    assert_eq!((d.additions, d.deletions), (1, 1));
    assert!(!d.unified.is_empty());
}

#[test]
fn changes_are_counted() {
    let changes =
        vec![LineChange::Insert, LineChange::Equal, LineChange::Delete, LineChange::Insert];
    assert_eq!(tally(&changes), (2, 1));
    assert_eq!(tally(&vec![]), (0, 0));
}

#[test]
fn archivo_nuevo_solo_adiciones() {
    let d = FileDiff::compute("nuevo.txt", "", "uno\ndos\n");
    assert_eq!(d.additions, 2);
    assert_eq!(d.deletions, 0);
}

#[test]
fn sin_cambios_produce_diff_vacio() {
    let d = FileDiff::compute("x.txt", "igual\n", "igual\n");
    assert_eq!(d.additions, 0);
    assert_eq!(d.deletions, 0);
    assert!(!d.unified.contains('@'));
}

#[test]
fn a_diff_has_both_headers_and_three_lines_of_context() {
    let old = "1\n2\n3\n4\n5\n6\n7\n8\n9\n";
    let new = "1\n2\n3\n4\nfive\n6\n7\n8\n9\n";
    let d = FileDiff::compute("x.txt", old, new);
    assert_eq!(
        d.unified,
        "--- a/x.txt\n+++ b/x.txt\n@@ -2,7 +2,7 @@\n 2\n 3\n 4\n-5\n+five\n 6\n 7\n 8\n"
    );
    assert_eq!(d.path, "x.txt");
}

#[test]
fn a_deleted_file_has_only_deletions() {
    let d = FileDiff::compute("x.txt", "uno\ndos", "");
    assert_eq!(d.additions, 0);
    assert_eq!(d.deletions, 2);
}

#[test]
fn el_catalogo_cubre_todos_los_eventos_y_comandos() {
    let event_kinds: std::collections::BTreeSet<String> =
        event_fixtures().into_iter().map(|(_, f)| f.body.kind().to_owned()).collect();
    assert_eq!(event_kinds.len(), 12);
    let command_kinds: std::collections::BTreeSet<String> =
        command_fixtures().into_iter().map(|(_, f)| f.body.kind().to_owned()).collect();
    assert_eq!(command_kinds.len(), 4);
}

#[test]
fn el_sobre_de_evento_expone_seq_y_version() {
    let env = Envelope::event(
        Event::MessageDelta {
            message_id: MessageId::from_text("01J1ZH2K0000000000000000AA").unwrap(),
            delta: "x".to_owned(),
        },
        Some(SessionId::from_text(SID).unwrap()),
        9,
        parse_ts(TS).unwrap(),
    );
    assert_eq!(env.v, 1);
    assert_eq!(env.seq, Some(9));
    assert_eq!(env.body.kind(), "message_delta");
}

#[test]
fn examples_are_named_by_their_kind() {
    for (name, envelope) in event_fixtures() {
        assert_eq!(name.split('.').next(), Some(envelope.body.kind()));
        assert_eq!(envelope.v, PROTOCOL_VERSION);
        assert!(envelope.seq.is_some());
    }
    for (name, envelope) in command_fixtures() {
        assert_eq!(name.split('.').next(), Some(envelope.body.kind()));
        assert_eq!(envelope.session_id, Some(SessionId(SESSION)));
    }
}

#[test]
fn the_numbers_of_the_examples_are_those_that_their_texts_spell() {
    assert_eq!(SessionId::from_text(SID), Ok(SessionId(SESSION)));
    assert_eq!(SessionId(SESSION).text(), SID);
    assert_eq!(MessageId(MESSAGE).text(), "01J1ZH2K0000000000000000AA");
    assert_eq!(ToolCallId(CALL).text(), "01J1ZJ9M0000000000000000BB");
    assert_eq!(ApprovalId(APPROVAL).text(), "01J1ZJ9M0000000000000000CC");
    assert_eq!(parse_ts(TS), Some(Timestamp { secs: TS_SECS, nanos: 0 }));
    assert_eq!(
        parse_ts("2026-07-06T18:07:00Z"),
        Some(Timestamp { secs: EXPIRY_SECS, nanos: 0 })
    );
}

#[test]
fn one_example_is_global_and_one_carries_a_title() {
    let all = event_fixtures();
    let (_, global) = &all[11];
    assert_eq!(global.body, Event::DaemonUnavailable);
    assert_eq!(global.session_id, None);
    assert_eq!(global.seq, Some(7));
    let (_, titled) = &all[1];
    assert_eq!(
        titled.body,
        Event::SessionState {
            state: SessionState::Idle,
            title: Some("Refactor validación".to_owned()),
            reason: None,
        }
    );
}

#[test]
fn identifiers_survive_their_text() {
    for n in [0u128, 1, 12_345_678_901_234_567_890, u128::MAX] {
        assert_eq!(SessionId::from_text(&SessionId(n).text()), Ok(SessionId(n)));
        assert_eq!(MessageId::from_text(&MessageId(n).text()), Ok(MessageId(n)));
        assert_eq!(ApprovalId::from_text(&ApprovalId(n).text()), Ok(ApprovalId(n)));
        assert_eq!(ToolCallId::from_text(&ToolCallId(n).text()), Ok(ToolCallId(n)));
        assert_eq!(AuditId::from_text(&AuditId(n).text()), Ok(AuditId(n)));
        assert_eq!(RuleId::from_text(&RuleId(n).text()), Ok(RuleId(n)));
        assert_eq!(SessionId(n).text().len(), 26);
    }
    assert_ne!(SessionId::new(), SessionId::new());
    assert_eq!(ProviderId::from_name("groq:x").text(), "groq:x");
}

#[test]
fn texts_that_are_no_identifiers_are_told_apart() {
    assert_eq!(SessionId::from_text(""), Err(IdError::InvalidLength));
    assert_eq!(SessionId::from_text("corto"), Err(IdError::InvalidLength));
    assert_eq!(
        SessionId::from_text("01J1ZG7QXW8Y2K3M4N5P6Q7R8!"),
        Err(IdError::InvalidChar)
    );
}

#[test]
fn instants_survive_their_text() {
    for t in [
        Timestamp { secs: 0, nanos: 0 },
        Timestamp { secs: 1_783_361_032, nanos: 123_456_789 },
        Timestamp { secs: 253_402_300_799, nanos: 999_999_999 },
        Timestamp { secs: -62_167_219_200, nanos: 0 },
    ] {
        assert!(t.is_in_range());
        assert_eq!(parse_ts(&t.to_rfc3339()), Some(t));
    }
    assert_eq!(
        Timestamp { secs: TS_SECS, nanos: 0 }.to_rfc3339(),
        "2026-07-06T18:03:52+00:00"
    );
    assert_eq!(
        parse_ts("2026-07-06T20:03:52+02:00"),
        Some(Timestamp { secs: TS_SECS, nanos: 0 })
    );
    assert_eq!(parse_ts("ayer"), None);
    assert!(!Timestamp { secs: 253_402_300_800, nanos: 0 }.is_in_range());
    assert!(!Timestamp { secs: 0, nanos: 1_000_000_000 }.is_in_range());
}

#[test]
fn commands_carry_no_number() {
    let ts = Timestamp { secs: TS_SECS, nanos: 0 };
    let env = Envelope::command(
        Command::UnsubscribeSession { session_id: SessionId(5) },
        None,
        ts,
    );
    assert_eq!(env.seq, None);
    assert_eq!(env.v, 1);
    let plain = CommandEnvelope {
        v: 1,
        body: Command::SubscribeSession { session_id: SessionId(5), after_seq: 3 },
        session_id: None,
        ts,
    };
    assert_eq!(plain.body.kind(), "subscribe_session");
}

#[test]
fn copies_of_events_are_equal() {
    for (_, envelope) in event_fixtures() {
        assert_eq!(envelope.body.clone(), envelope.body);
    }
}

#[test]
fn no_two_examples_share_a_name() {
    let events: std::collections::BTreeSet<&str> =
        event_fixtures().iter().map(|(name, _)| *name).collect();
    assert_eq!(events.len(), 14);
    let commands: std::collections::BTreeSet<&str> =
        command_fixtures().iter().map(|(name, _)| *name).collect();
    assert_eq!(commands.len(), 5);
}
