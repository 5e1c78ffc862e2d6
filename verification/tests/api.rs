use rutsubo::agent::Effect;
use rutsubo::api::approvals::{check_decision, decide_inner, list_pending, remembered_rule};
use rutsubo::api::asr::{transcribe, Upload, UploadField};
use rutsubo::api::config::put_model;
use rutsubo::api::files::{check_size, remote_only, upload, upload_name, MAX_UPLOAD_BYTES};
use rutsubo::api::fs::{base, clean_path, inaccessible, not_a_directory, unreadable, Found, ListQuery};
use rutsubo::api::health::health;
use rutsubo::api::provider::{get_provider, put_provider};
use rutsubo::api::relay::PairRequest;
use rutsubo::api::rules::put_rules;
use rutsubo::api::sessions::{
    check_message, create, create_session_inner, created, detail, events, events_window,
    load_session, location, parse_session_id, patch, send_message_inner,
};
use rutsubo::api::{allowed_origins, page_limit};
use rutsubo::asr::{ext_for, file_name, part_mime, transcription, MockTranscriber, Sent, TranscribeError};
use rutsubo::error::ApiError;
use rutsubo::protocol::api::{
    AsrResponse, AuditQuery, CreateSessionRequest, DecisionRequest, ErrorCode, ErrorDetails,
    EventsQuery, ModelConfig, NewRule, PatchSessionRequest, ProviderHealth, ProviderStatus,
    PutRulesRequest, SendMessageRequest, SetProviderKeyRequest,
};
use rutsubo::protocol::envelope::Envelope;
use rutsubo::protocol::events::{Decision, Event, SessionState};
use rutsubo::protocol::ids::{ApprovalId, AuditId, MessageId, SessionId, ToolCallId};
use rutsubo::protocol::time::Timestamp;
use rutsubo::store::approvals::{decide, insert, ApprovalRow, DecideOutcome, NewApproval};
use rutsubo::store::messages::InsertOutcome;
use rutsubo::store::sessions::SessionRow;

const NOW: Timestamp = Timestamp { secs: 1_783_361_032, nanos: 0 };

fn some(s: &str) -> Option<String> {
    Some(s.to_owned())
}

fn field(name: &str) -> Option<ErrorDetails> {
    Some(ErrorDetails::Field(name.to_owned()))
}

fn row(state: &str) -> SessionRow {
    SessionRow {
        state: state.to_owned(),
        ..rutsubo::store::sessions::create(SessionId(9), "/w", "t", NOW)
    }
}

#[test]
fn errors_have_statuses() {
    assert_eq!(ApiError::unauthorized().status, 401);
    assert_eq!(ApiError::not_found("sesión").status, 404);
    assert_eq!(ApiError::conflict("x".to_owned(), None).status, 409);
    assert_eq!(ApiError::session_busy("x".to_owned()).status, 409);
    assert_eq!(ApiError::too_large("x").status, 413);
    assert_eq!(ApiError::validation("x".to_owned(), None).status, 422);
    assert_eq!(ApiError::internal().status, 500);
    assert_eq!(ApiError::asr_failed().status, 502);
    let e = ApiError::field("m", "f").into_envelope();
    assert_eq!(e.error.code, ErrorCode::ValidationFailed);
    assert_eq!(e.error.details, field("f"));
}

#[test]
fn limits_of_pages() {
    assert_eq!(page_limit(None, 50, 200), 50);
    assert_eq!(page_limit(Some(0), 50, 200), 1);
    assert_eq!(page_limit(Some(77), 50, 200), 77);
    assert_eq!(page_limit(Some(999), 50, 200), 200);
    let q = AuditQuery { cursor: None, limit: Some(500), session_id: None, provider: None };
    assert_eq!(rutsubo::api::audit::limit(&q), 200);
    let log: Vec<_> = (1..=3u128)
        .map(|n| rutsubo::store::audit::insert(AuditId(n), None, "k", "{}", NOW))
        .collect();
    let page = rutsubo::api::audit::query(&log, 2);
    assert_eq!(page.entries.len(), 2);
    assert_eq!(page.next_cursor, Some(AuditId(2).text()));
}

#[test]
fn origins() {
    assert_eq!(allowed_origins(&None).len(), 6);
    let with = allowed_origins(&some("https://app"));
    assert_eq!(with.last(), some("https://app").as_ref());
    assert!(with.contains(&"tauri://localhost".to_owned()));
}

fn new_session(path: &str, title: Option<&str>) -> CreateSessionRequest {
    CreateSessionRequest {
        workspace_path: path.to_owned(),
        title: title.map(str::to_owned),
    }
}

#[test]
fn a_session_wants_a_directory() {
    let ok = create(&new_session("/w", Some("t")), false, true).unwrap();
    assert_eq!((ok.workspace_path.as_str(), ok.title.as_str()), ("/w", "t"));
    for (path, is_dir, problem) in [
        ("w", true, "debe ser una ruta absoluta"),
        ("/w/../x", true, "no debe contener secuencias de traversal (RNF-05)"),
        ("/w", false, "debe existir y ser un directorio"),
    ] {
        let e = create(&new_session(path, None), false, is_dir).unwrap_err();
        assert_eq!(e.message, format!("workspace_path inválido: {problem}"));
        assert_eq!(e.details, field("workspace_path"));
    }
    let e = create(&new_session("/w", Some(&"é".repeat(121))), false, true).unwrap_err();
    assert_eq!(e.message, "title supera 120 caracteres");
    assert!(create(&new_session("/w", Some(&"é".repeat(120))), false, true).is_ok());
    // On a server the path does not matter.
    let remote = create(&new_session("", None), true, false).unwrap();
    assert_eq!(remote.workspace_path, "remote://chat");
}

#[test]
fn a_task_makes_its_session() {
    let made = create_session_inner(some("t"), false, some("/here")).unwrap();
    assert_eq!(made.workspace_path, "/here");
    assert_eq!(create_session_inner(None, false, None).unwrap_err().code, ErrorCode::Internal);
    assert_eq!(create_session_inner(None, true, None).unwrap().workspace_path, "remote://chat");
    assert_eq!(
        create_session_inner(Some("x".repeat(121)), true, None).unwrap_err().message,
        "title supera 120 caracteres"
    );
    assert_eq!(location(SessionId(9)), format!("/v1/sessions/{}", SessionId(9).text()));
    assert!(matches!(
        created("t"),
        Effect::Emit { event: Event::SessionState { state: SessionState::Idle, .. }, .. }
    ));
}

#[test]
fn sessions_are_looked_up() {
    assert_eq!(parse_session_id(&SessionId(9).text()), Ok(SessionId(9)));
    assert_eq!(parse_session_id("x").unwrap_err().status, 404);
    assert_eq!(load_session(None).unwrap_err().status, 404);
    assert!(load_session(Some(row("idle"))).is_ok());
    let d = detail(&row("running"), 3, 1).unwrap();
    assert_eq!((d.message_count, d.pending_approvals), (3, 1));
    assert_eq!(d.session.state, SessionState::Running);
    assert_eq!(detail(&row("?"), 0, 0).unwrap_err().status, 500);
    let rows = vec![row("idle"), row("?")];
    let page = rutsubo::api::sessions::list(&rows, 2);
    assert_eq!(page.sessions.len(), 1);
    assert_eq!(page.next_cursor, Some(SessionId(9).text()));
    assert_eq!(rutsubo::api::sessions::list(&rows, 3).next_cursor, None);
}

#[test]
fn a_session_can_be_renamed_and_archived() {
    let req = |title: Option<&str>, state| PatchSessionRequest {
        title: title.map(str::to_owned),
        state,
    };
    let plan = patch(&row("idle"), req(Some("n"), None)).unwrap();
    assert_eq!(plan.title, some("n"));
    let plan = patch(&row("idle"), req(None, Some(SessionState::Archived))).unwrap();
    assert!(matches!(
        plan.effect,
        Some(Effect::Emit { new_state: Some(SessionState::Archived), .. })
    ));
    let e = patch(&row("idle"), req(None, Some(SessionState::Running))).unwrap_err();
    assert_eq!(e.message, "el único cambio de estado permitido es 'archived'");
    let e = patch(&row("idle"), req(Some(&"x".repeat(121)), None)).unwrap_err();
    assert_eq!(e.details, field("title"));
    assert_eq!(patch(&row("?"), req(None, None)).unwrap_err().status, 500);
}

fn message(content: &str, key: &str) -> SendMessageRequest {
    SendMessageRequest { content: content.to_owned(), client_msg_id: key.to_owned() }
}

#[test]
fn messages_are_checked() {
    assert_eq!(check_message(&row("idle"), &message("hola", "k")), Ok(SessionState::Idle));
    let waiting = check_message(&row("waiting_approval"), &message("x", "k")).unwrap_err();
    assert_eq!(waiting.code, ErrorCode::SessionBusy);
    let archived = check_message(&row("archived"), &message("x", "k")).unwrap_err();
    assert_eq!(archived.code, ErrorCode::Conflict);
    let long = check_message(&row("idle"), &message(&"x".repeat(32_001), "k")).unwrap_err();
    assert_eq!(long.message, "content supera 32000 caracteres");
    assert!(check_message(&row("idle"), &message("x", &"é".repeat(128))).is_ok());
    for key in ["", &"x".repeat(129)] {
        let e = check_message(&row("idle"), &message("x", key)).unwrap_err();
        assert_eq!(e.message, "client_msg_id es obligatorio (≤128 chars)");
    }
    assert_eq!(check_message(&row("?"), &message("x", "k")).unwrap_err().status, 500);
}

#[test]
fn a_repeated_message_starts_nothing() {
    let first =
        send_message_inner(SessionState::Idle, InsertOutcome::Inserted, MessageId(1), NOW);
    assert!(first.start_turn);
    assert_eq!(first.response.session_state, SessionState::Running);
    assert!(first.effect.is_some());
    let again = send_message_inner(
        SessionState::Running,
        InsertOutcome::Duplicate(MessageId(1)),
        MessageId(2),
        NOW,
    );
    assert!(!again.start_turn);
    assert_eq!(again.response.message_id, MessageId(1));
    assert_eq!(again.effect, None);
}

#[test]
fn events_are_paged() {
    let q = |after_seq, limit| EventsQuery { after_seq, limit };
    assert_eq!(events_window(&q(None, None)), (0, 500));
    assert_eq!(events_window(&q(Some(7), Some(5_000))), (7, 1000));
    let found = vec![Envelope::event(Event::DaemonUnavailable, Some(SessionId(9)), 8, NOW)];
    let mut session = row("idle");
    session.last_seq = 9;
    let page = events(&session, 7, found);
    assert!(page.has_more);
    assert_eq!(page.last_seq, 9);
    let page = events(&session, 9, vec![]);
    assert!(!page.has_more);
}

fn approval() -> ApprovalRow {
    insert(NewApproval {
        id: ApprovalId(1),
        session_id: SessionId(2),
        tool_call_id: ToolCallId(3),
        tool: "run_shell".to_owned(),
        summary: "ls".to_owned(),
        args: r#"{"cmd":"ls"}"#.to_owned(),
        created_at: NOW,
    })
}

fn request(decision: Decision, remember_rule: Option<bool>) -> DecisionRequest {
    DecisionRequest { decision, reason: None, remember_rule }
}

#[test]
fn decisions_are_checked() {
    let id = ApprovalId(1).text();
    assert_eq!(check_decision(&id, &request(Decision::Approve, None)), Ok(ApprovalId(1)));
    assert_eq!(check_decision("x", &request(Decision::Approve, None)).unwrap_err().status, 404);
    let mut long = request(Decision::Reject, None);
    long.reason = Some("é".repeat(501));
    assert_eq!(
        check_decision(&id, &long).unwrap_err().message,
        "reason supera 500 caracteres"
    );
    assert_eq!(list_pending(&vec![approval()]).approvals.len(), 1);
}

#[test]
fn a_repeated_decision_gets_the_first_one() {
    let applied = decide(Some(approval()), Decision::Approve, "local:rest", NOW);
    let resolved = match &applied {
        DecideOutcome::Applied(r) => r.to_dto().unwrap(),
        _ => panic!("applied"),
    };
    assert_eq!(resolved.decision, Some(Decision::Approve));
    let plan = decide_inner(
        ApprovalId(1),
        request(Decision::Approve, Some(true)),
        "local:rest",
        NOW,
        applied,
    )
    .unwrap();
    assert!(plan.wake);
    assert_eq!(plan.session_id, SessionId(2));
    assert!(plan.response.resolved);
    let seed = plan.remember.unwrap();
    assert_eq!(seed.tool, "run_shell");
    let rule = remembered_rule(seed, &Some(row("idle"))).unwrap();
    assert_eq!(rule.workspace_path, "/w");

    let second = |d: Decision| {
        let first = match decide(Some(approval()), Decision::Approve, "local:rest", NOW) {
            DecideOutcome::Applied(r) => r,
            _ => panic!("applied"),
        };
        let outcome = decide(Some(first), d, "local:ws", NOW);
        decide_inner(ApprovalId(1), request(d, None), "local:ws", NOW, outcome)
    };
    let same = second(Decision::Approve).unwrap();
    assert!(!same.wake && same.effects.is_empty());
    assert_eq!(same.response.resolved_by, "local:rest");
    let other = second(Decision::Reject).unwrap_err();
    assert_eq!(other.code, ErrorCode::Conflict);
    assert!(matches!(other.details, Some(ErrorDetails::Approval(_))));
    let gone = decide_inner(
        ApprovalId(1),
        request(Decision::Approve, None),
        "x",
        NOW,
        DecideOutcome::NotFound,
    );
    assert_eq!(gone.unwrap_err().status, 404);
}

#[test]
fn models_are_checked() {
    assert!(put_model(true, &ModelConfig::default()).is_ok());
    assert_eq!(
        put_model(false, &ModelConfig::default()).unwrap_err().details,
        field("GROQ_API_KEY")
    );
    let mut m = ModelConfig::default();
    m.fallback.provider = "otro".to_owned();
    assert_eq!(put_model(true, &m).unwrap_err().details, field("provider"));
    let mut m = ModelConfig::default();
    m.primary.model = " \t".to_owned();
    assert_eq!(
        put_model(true, &m).unwrap_err().message,
        "los modelos no pueden estar vacíos"
    );
    let mut m = ModelConfig::default();
    m.thresholds.failure_window = 0;
    assert_eq!(
        put_model(true, &m).unwrap_err().details,
        field("thresholds.failure_window")
    );
    match put_model(true, &ModelConfig::default()).unwrap() {
        Effect::Audit { kind, detail } => {
            assert_eq!(kind, "config");
            assert_eq!(
                rutsubo::json::get_text(&detail, "what"),
                some("model_config_replaced")
            );
        }
        _ => panic!("an audit entry"),
    }
}

#[test]
fn the_key_is_never_shown() {
    assert_eq!(get_provider(true, true).source, "stored");
    assert_eq!(get_provider(true, false).source, "env");
    assert_eq!(get_provider(false, false).source, "none");
    let put = |k: Option<&str>| {
        put_provider(SetProviderKeyRequest { groq_api_key: k.map(str::to_owned) })
    };
    let plan = put(Some("gsk_1")).unwrap();
    assert_eq!(plan.key, some("gsk_1"));
    assert_eq!(plan.status.source, "stored");
    match plan.effect {
        Effect::Audit { detail, .. } => assert!(!detail.contains("gsk_1")),
        _ => panic!("an audit entry"),
    }
    for blank in [None, Some(""), Some("  ")] {
        let plan = put(blank).unwrap();
        assert_eq!(plan.key, None);
        assert!(!plan.status.configured);
    }
    assert_eq!(
        put(Some("sk_1")).unwrap_err().message,
        "la API key de Groq debe empezar por `gsk_`"
    );
}

fn rule(tool: &str, pattern: &str) -> NewRule {
    NewRule {
        workspace_path: "/w".to_owned(),
        tool: tool.to_owned(),
        pattern: pattern.to_owned(),
    }
}

#[test]
fn rules_are_checked_in_order() {
    let put = |rules| put_rules(&PutRulesRequest { rules });
    assert!(put(vec![]).is_ok());
    assert!(put(vec![rule("run_shell", "ls"), rule("edit_file", "x")]).is_ok());
    let e = put(vec![rule("run_shell", "ls"), rule("search", "x"), rule("run_shell", "")]);
    let e = e.unwrap_err();
    assert_eq!(
        e.message,
        "rules[1].tool debe ser una herramienta con efectos secundarios: \
         [\"run_shell\", \"write_file\", \"edit_file\"]"
    );
    assert_eq!(e.details, field("rules[1].tool"));
    let e = put(vec![rule("write_file", "")]).unwrap_err();
    assert_eq!(e.message, "rules[0]: pattern y workspace_path son obligatorios");
    assert_eq!(e.details, field("rules[0]"));
}

#[test]
fn the_health_without_a_key() {
    let status = || ProviderStatus {
        id: "p".to_owned(),
        health: ProviderHealth::Ready,
        reason: None,
    };
    let h = health(true, status(), "1.2.3", true, false);
    assert_eq!((h.status.as_str(), h.version.as_str()), ("ok", "1.2.3"));
    assert_eq!(h.provider, status());
    let relay = h.relay.unwrap();
    assert!(relay.configured && !relay.connected);
    let h = health(false, status(), "1.2.3", false, false);
    assert_eq!(h.status, "down");
    assert_eq!(h.provider.health, ProviderHealth::Down);
    assert_eq!(h.provider.reason, some("missing_api_key"));
}

#[test]
fn pairing_wants_a_code() {
    let pair = |c: &str| rutsubo::api::relay::pair(&PairRequest { code: c.to_owned() });
    assert_eq!(pair(" 123 "), Ok("123".to_owned()));
    assert_eq!(pair("  ").unwrap_err().message, "code es obligatorio");
}

#[test]
fn audio_is_checked() {
    let audio = |mime: Option<&str>, n: usize| UploadField::Audio {
        mime: mime.map(str::to_owned),
        bytes: vec![0; n],
    };
    let mut u = Upload::new();
    u.take(audio(Some("audio/wav"), 3)).unwrap();
    u.take(UploadField::Language("es".to_owned())).unwrap();
    u.take(UploadField::Other).unwrap();
    let req = u.finish().unwrap();
    assert_eq!((req.mime.as_str(), req.audio.len()), ("audio/wav", 3));
    assert_eq!(req.language, some("es"));
    assert_eq!(Upload::new().finish().unwrap_err().message, "falta el campo audio");
    for mime in [None, Some("audio/mp3")] {
        let mut u = Upload::new();
        u.take(audio(mime, 3)).unwrap();
        let e = u.finish().unwrap_err();
        assert_eq!(e.message, "tipo de audio no permitido");
        assert_eq!(e.details, Some(ErrorDetails::Mime(mime.unwrap_or("").to_owned())));
    }
    let e = Upload::new().take(audio(None, 25 * 1024 * 1024 + 1)).unwrap_err();
    assert_eq!((e.status, e.message.as_str()), (413, "audio excede 25 MB"));
    assert!(Upload::new().take(audio(None, 25 * 1024 * 1024)).is_ok());
}

#[test]
fn transcriptions_are_logged() {
    let response = MockTranscriber.transcribe();
    assert_eq!(response.text, "transcripción de prueba");
    let (_, effect) = transcribe(Some(response), 12).unwrap();
    match effect {
        Effect::Audit { kind, detail } => {
            assert_eq!(kind, "asr");
            assert_eq!(rutsubo::json::get_u64(&detail, "bytes"), Some(12));
            assert_eq!(rutsubo::json::get_u64(&detail, "duration_ms"), Some(0));
        }
        _ => panic!("an audit entry"),
    }
    let e = transcribe(None, 12).unwrap_err();
    assert_eq!((e.status, e.message.as_str()), (502, "falló la transcripción"));
}

#[test]
fn audio_for_the_provider() {
    assert_eq!(file_name("audio/webm;codecs=opus"), "audio.webm");
    assert_eq!(ext_for(" audio/wav ; x"), "wav");
    assert_eq!(ext_for("audio/mp4"), "m4a");
    assert_eq!(ext_for("audio/opus"), "ogg");
    assert_eq!(ext_for(""), "webm");
    assert_eq!(part_mime("audio/webm;codecs=opus"), "audio/webm");
    let answered = |status, t: Option<&str>| {
        transcription(Sent::Answered { status, text: t.map(str::to_owned) })
    };
    assert_eq!(
        answered(200, Some(" hola mundo")),
        Ok(AsrResponse {
            text: " hola mundo".to_owned(),
            duration_ms: 0,
            model: "whisper-large-v3".to_owned(),
        })
    );
    assert_eq!(answered(400, Some("x")), Err(TranscribeError::Upstream));
    assert_eq!(answered(200, None), Err(TranscribeError::Upstream));
    assert_eq!(transcription(Sent::Unreachable), Err(TranscribeError::Upstream));
    assert_eq!(TranscribeError::Upstream.text(), "upstream ASR failed");
}

#[test]
fn uploads_keep_the_last_entry_of_their_name() {
    assert_eq!(upload_name(&some("a.txt")), "a.txt");
    assert_eq!(upload_name(&some("../../etc/passwd")), "passwd");
    assert_eq!(upload_name(&some("dir/")), "dir");
    assert_eq!(upload_name(&some("dir/.")), "dir");
    for none in [None, some(""), some("/"), some(".."), some("a/.."), some(".")] {
        assert_eq!(upload_name(&none), "subido.txt");
    }
    assert!(check_size(MAX_UPLOAD_BYTES).is_ok());
    let e = check_size(MAX_UPLOAD_BYTES + 1).unwrap_err();
    assert_eq!((e.status, e.message.as_str()), (413, "el archivo excede 512 KB"));
    assert!(upload(&vec!["a".to_owned()]).is_ok());
    assert_eq!(upload(&vec![]).unwrap_err().message, "falta el campo `file`");
    assert_eq!(
        remote_only().message,
        "los archivos solo están disponibles en modo remoto"
    );
}

fn found(name: &str, is_dir: bool) -> Found {
    Found { name: name.to_owned(), path: format!("\\\\?\\/d/{name}"), is_dir }
}

#[test]
fn directories_are_listed_in_order() {
    let listing = rutsubo::api::fs::list(
        "\\\\?\\/d",
        &some("/"),
        &vec![
            found("beta", true),
            found("Alfa", true),
            found("ÉPSILON", true),
            found("nota.txt", false),
            found(".git", true),
            found("alfa", true),
            found("éa", true),
        ],
    );
    assert_eq!(listing.path, "/d");
    assert_eq!(listing.parent, some("/"));
    let names: Vec<&str> = listing.entries.iter().map(|e| e.name.as_str()).collect();
    assert_eq!(names, vec!["Alfa", "alfa", "beta", "éa", "ÉPSILON"]);
    assert_eq!(listing.entries[0].path, "/d/Alfa");
    assert_eq!(rutsubo::api::fs::list("/", &None, &vec![]).parent, None);
    assert_eq!(rutsubo::api::fs::list("/", &some(""), &vec![]).parent, None);
}

#[test]
fn paths_to_list() {
    assert_eq!(base(ListQuery { path: some("/a") }), some("/a"));
    assert_eq!(base(ListQuery { path: some("") }), None);
    assert_eq!(base(ListQuery { path: None }), None);
    assert_eq!(clean_path("/a"), "/a");
    assert_eq!(inaccessible("x").message, "ruta inaccesible: x");
    assert_eq!(not_a_directory().message, "la ruta no es un directorio");
    assert_eq!(unreadable("x").message, "no se pudo leer el directorio: x");
}
