use rutsubo::gate::Gate;
use rutsubo::protocol::api::NewRule;
use rutsubo::protocol::events::{Decision, Event, SessionState};
use rutsubo::protocol::ids::{ApprovalId, AuditId, MessageId, RuleId, SessionId, ToolCallId};
use rutsubo::protocol::time::Timestamp;
use rutsubo::store::acks::Acks;
use rutsubo::store::approvals::{self, DecideOutcome, NewApproval};
use rutsubo::store::config::{effective_key, load_provider_key, save_provider_key, KeyChange};
use rutsubo::store::events::{append, replay_after, AppendError};
use rutsubo::store::files::guess_mime;
use rutsubo::store::messages::{InsertOutcome, Outgoing};
use rutsubo::store::{audit, rules, sessions, state_from_str, state_to_str};

const NOW: Timestamp = Timestamp { secs: 1_783_361_032, nanos: 5_000_000 };

#[test]
fn states_survive_their_text() {
    for s in [
        SessionState::Idle,
        SessionState::Running,
        SessionState::WaitingApproval,
        SessionState::Archived,
    ] {
        assert_eq!(state_from_str(state_to_str(s)), Some(s));
    }
    assert_eq!(state_to_str(SessionState::WaitingApproval), "waiting_approval");
    assert_eq!(state_from_str("Idle"), None);
}

#[test]
fn a_task_is_new_once() {
    let mut acks = Acks::new();
    assert!(acks.mark_new("a"));
    assert!(!acks.mark_new("a"));
    assert!(acks.mark_new("b"));
    assert!(!acks.mark_new("a"));
}

#[test]
fn a_slot_is_taken_once() {
    let mut gate = Gate::new();
    let id = ApprovalId(7);
    assert!(!gate.resolve(id));
    gate.register(id);
    gate.register(ApprovalId(8));
    assert!(gate.resolve(id));
    assert!(!gate.resolve(id));
    gate.discard(ApprovalId(8));
    assert!(!gate.resolve(ApprovalId(8)));
}

fn approval(args: &str) -> approvals::ApprovalRow {
    approvals::insert(NewApproval {
        id: ApprovalId(1),
        session_id: SessionId(2),
        tool_call_id: ToolCallId(3),
        tool: "run_shell".to_owned(),
        summary: "ls".to_owned(),
        args: args.to_owned(),
        created_at: NOW,
    })
}

#[test]
fn an_approval_is_read_back() {
    let dto = approval(r#"{"cmd": "ls"}"#).to_dto().unwrap();
    assert_eq!(dto.id, ApprovalId(1));
    assert_eq!(dto.session_id, SessionId(2));
    assert_eq!(dto.tool_call_id, ToolCallId(3));
    assert_eq!(dto.created_at, NOW);
    assert_eq!(dto.decision, None);
    assert_eq!(dto.args, r#"{"cmd":"ls"}"#);
    let mut row = approval("{}");
    row.id = "roto".to_owned();
    assert_eq!(row.to_dto(), None);
}

#[test]
fn the_first_decision_stands() {
    let first = match approvals::decide(Some(approval("{}")), Decision::Approve, "local:rest", NOW) {
        DecideOutcome::Applied(row) => row,
        _ => panic!("the first decision applies"),
    };
    assert_eq!(first.decision, Some("approve".to_owned()));
    assert_eq!(first.resolved_by, Some("local:rest".to_owned()));
    assert_eq!(first.to_dto().unwrap().resolved_at, Some(NOW));
    match approvals::decide(Some(first), Decision::Reject, "local:ws", NOW) {
        DecideOutcome::AlreadyResolved(row) => {
            assert_eq!(row.decision, Some("approve".to_owned()));
            assert_eq!(row.resolved_by, Some("local:rest".to_owned()));
        }
        _ => panic!("the second does not"),
    }
    assert!(matches!(
        approvals::decide(None, Decision::Approve, "x", NOW),
        DecideOutcome::NotFound
    ));
    assert_eq!(approvals::decision_to_str(Decision::Reject), "reject");
}

#[test]
fn unreadable_approvals_are_left_out() {
    let mut broken = approval("{}");
    broken.tool_call_id = String::new();
    let listed = approvals::pending_all(&vec![approval("{}"), broken, approval("[]")]);
    assert_eq!(listed.len(), 2);
    assert_eq!(listed[1].args, "[]");
}

#[test]
fn events_are_numbered_without_gaps() {
    let mut row = Some(sessions::create(SessionId(9), "/w", "t", NOW));
    for n in 1..=3u64 {
        let env = append(&mut row, SessionId(9), Event::DaemonUnavailable, None, NOW).unwrap();
        assert_eq!(env.seq, Some(n));
        assert_eq!(env.session_id, Some(SessionId(9)));
    }
    let env = append(
        &mut row,
        SessionId(9),
        Event::DaemonUnavailable,
        Some(SessionState::Running),
        NOW,
    )
    .unwrap();
    assert_eq!(env.seq, Some(4));
    let after = row.unwrap();
    assert_eq!(after.last_seq, 4);
    assert_eq!(after.session_state(), Some(SessionState::Running));
    assert_eq!(after.title, "t");
    let e = append(&mut None, SessionId(9), Event::DaemonUnavailable, None, NOW).unwrap_err();
    assert_eq!(e, AppendError::SessionNotFound);
    assert_eq!(e.text(), "sesión no encontrada");
}

#[test]
fn a_session_is_read_back() {
    let row = sessions::create(SessionId(9), "/w", "t", NOW);
    let dto = row.to_dto().unwrap();
    assert_eq!(dto.id, SessionId(9));
    assert_eq!(dto.state, SessionState::Idle);
    assert_eq!(dto.created_at, NOW);
    assert_eq!(dto.last_seq, 0);
    let mut odd = sessions::create(SessionId(9), "/w", "t", NOW);
    odd.state = "dormida".to_owned();
    assert_eq!(odd.session_state(), None);
    assert_eq!(sessions::list(&vec![odd, row]).len(), 1);
}

#[test]
fn a_message_sent_twice_is_one_message() {
    let mut sent = Outgoing::new();
    assert_eq!(sent.insert_user("k", MessageId(1)), InsertOutcome::Inserted);
    assert_eq!(sent.insert_user("k", MessageId(2)), InsertOutcome::Duplicate(MessageId(1)));
    assert_eq!(sent.insert_user("k2", MessageId(3)), InsertOutcome::Inserted);
    assert_eq!(sent.insert_user("k", MessageId(4)), InsertOutcome::Duplicate(MessageId(1)));
}

#[test]
fn an_audit_entry_is_read_back() {
    let row = audit::insert(AuditId(4), Some(SessionId(5)), "config", r#"{"a": 1}"#, NOW);
    let entry = row.to_dto().unwrap();
    assert_eq!(entry.id, AuditId(4));
    assert_eq!(entry.session_id, Some(SessionId(5)));
    assert_eq!(entry.ts, NOW);
    let global = audit::insert(AuditId(4), None, "config", "{}", NOW);
    assert_eq!(global.session_id, None);
    assert_eq!(global.to_dto().unwrap().session_id, None);
}

#[test]
fn a_page_of_the_log_has_a_cursor_only_if_there_is_more() {
    let row = |n: u128| audit::insert(AuditId(n), None, "k", "{}", NOW);
    let (page, cursor) = audit::query(&vec![row(3), row(2), row(1)], 2);
    assert_eq!(page.len(), 2);
    assert_eq!(cursor, Some(AuditId(2).text()));
    let (page, cursor) = audit::query(&vec![row(3), row(2)], 2);
    assert_eq!(page.len(), 2);
    assert_eq!(cursor, None);
}

#[test]
fn rules_are_read_back() {
    let rule = NewRule {
        workspace_path: "/w".to_owned(),
        tool: "run_shell".to_owned(),
        pattern: "ls".to_owned(),
    };
    let row = rules::insert(RuleId(6), &rule, NOW);
    let read = row.to_dto().unwrap();
    assert_eq!(read.id, RuleId(6));
    assert_eq!(read.pattern, "ls");
    assert_eq!(read.created_at, NOW);
    let rows = rules::replace_all(&vec![rule], NOW);
    assert_eq!(rows.len(), 1);
    assert_eq!(rules::list(&rows)[0].tool, "run_shell");
    let mut broken = rules::replace_all(&vec![], NOW);
    assert!(rules::list(&broken).is_empty());
    broken.push(rules::RuleRow { id: "?".to_owned(), ..row });
    assert!(rules::list(&broken).is_empty());
}

#[test]
fn the_key_in_the_store_goes_before_the_environment() {
    let k = |s: &str| Some(s.to_owned());
    assert_eq!(effective_key(k("a"), &k("b")), k("a"));
    assert_eq!(effective_key(None, &k("b")), k("b"));
    assert_eq!(load_provider_key(k("")), None);
    assert_eq!(load_provider_key(k("a")), k("a"));
    assert_eq!(save_provider_key(&k("a")), KeyChange::Store("a".to_owned()));
    assert_eq!(save_provider_key(&k("")), KeyChange::Delete);
    assert_eq!(save_provider_key(&None), KeyChange::Delete);
}

#[test]
fn types_of_files_go_by_extension() {
    assert_eq!(guess_mime("a/b/index.html"), "text/html; charset=utf-8");
    assert_eq!(guess_mime("X.SVG"), "image/svg+xml");
    assert_eq!(guess_mime("v1.2/NOTAS.md"), "text/markdown; charset=utf-8");
    // Without a dot the whole path stands for the extension.
    assert_eq!(guess_mime("json"), "application/json; charset=utf-8");
    assert_eq!(guess_mime("sin_extension"), "text/plain; charset=utf-8");
}

#[test]
fn nothing_follows_the_largest_number() {
    assert_eq!(replay_after(0), 0);
    assert_eq!(replay_after(41), 41);
    assert_eq!(replay_after(i64::MAX as u64), i64::MAX);
    assert_eq!(replay_after(u64::MAX), i64::MAX);
}

#[test]
fn the_announcement_is_the_first_event() {
    let at = Timestamp { secs: 1_783_361_032, nanos: 0 };
    let mut row = Some(sessions::create(SessionId(7), "/w", "t", at));
    let event =
        Event::SessionState { state: SessionState::Idle, title: Some("t".to_owned()), reason: None };
    let first = append(&mut row, SessionId(7), event, None, at).unwrap();
    assert_eq!(first.seq, Some(1));
    let dto = row.unwrap().to_dto().unwrap();
    assert_eq!((dto.last_seq, dto.state), (1, SessionState::Idle));
    assert_eq!((dto.title.as_str(), dto.workspace_path.as_str()), ("t", "/w"));
}
