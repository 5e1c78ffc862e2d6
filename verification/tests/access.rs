use rutsubo::auth::{bearer, fresh_token, load_or_create_token, require_bearer, token_matches};
use rutsubo::config::{
    bind_raw, is_loopback, AuthMode, Bind, ConfigError, DaemonConfig, EnvVars, Ip, ParsedBind,
};
use rutsubo::protocol::api::ErrorCode;
use rutsubo::tickets::{TicketStore, TICKET_TTL_MS};
use rutsubo::ws::{issue_ticket, ws_authorized, ws_handler, WsQuery};

#[test]
fn comparacion_de_tokens() {
    assert!(token_matches("abc123", "abc123"));
    assert!(!token_matches("abc123", "abc124"));
    assert!(!token_matches("abc123", "abc12"));
    assert!(!token_matches("abc123", ""));
}

#[test]
fn a_token_is_made_once_and_read_back() {
    let first = load_or_create_token(None);
    assert!(first.fresh);
    assert_eq!(first.text.len(), 43);
    let again = load_or_create_token(Some(first.text.clone()));
    assert!(!again.fresh);
    assert_eq!(again.text, first.text);
    let padded = load_or_create_token(Some("  secreto \n".to_owned()));
    assert_eq!(padded.text, "secreto");
    assert!(load_or_create_token(Some(" \n".to_owned())).fresh);
    assert_ne!(load_or_create_token(None).text, load_or_create_token(None).text);
}

#[test]
fn a_fresh_token_is_the_text_of_its_bytes() {
    assert_eq!(fresh_token(&[0; 32]).text, "A".repeat(43));
    assert_eq!(fresh_token(&[255; 32]).text, format!("{}8", "_".repeat(42)));
    assert!(fresh_token(&[7; 32]).fresh);
    for contents in [None, Some(" \t\n".to_owned())] {
        let first = load_or_create_token(contents).text;
        assert_eq!(first.trim(), first);
        let second = load_or_create_token(Some(format!("{first}\n")));
        assert_eq!((second.text, second.fresh), (first, false));
    }
}

#[test]
fn the_header_must_present_the_token() {
    assert_eq!(bearer(Some("Bearer abc")), Some("abc".to_owned()));
    assert_eq!(bearer(Some("Bearer ")), Some(String::new()));
    assert_eq!(bearer(Some("bearer abc")), None);
    assert_eq!(bearer(None), None);
    assert!(require_bearer("abc", Some("Bearer abc")).is_ok());
    for header in [None, Some("abc"), Some("Bearer abd"), Some("Basic abc")] {
        let e = require_bearer("abc", header).unwrap_err();
        assert_eq!(e.status, 401);
        assert_eq!(e.code, ErrorCode::Unauthorized);
        assert_eq!(e.message, "token ausente o inválido");
    }
}

#[test]
fn remoto_exige_ticket_y_origin() {
    assert!(!ws_authorized(AuthMode::Remote, false, true, true));
    assert!(ws_authorized(AuthMode::Remote, true, false, true));
    assert!(!ws_authorized(AuthMode::Remote, true, false, false));
    assert!(!ws_authorized(AuthMode::Remote, false, false, true));
}

#[test]
fn local_acepta_token_o_ticket() {
    assert!(ws_authorized(AuthMode::Local, false, true, true));
    assert!(ws_authorized(AuthMode::Local, true, false, true));
    assert!(ws_authorized(AuthMode::Local, true, false, false));
    assert!(!ws_authorized(AuthMode::Local, false, false, true));
}

#[test]
fn un_solo_uso() {
    let mut store = TicketStore::new();
    let (ticket, ttl) = store.issue(0);
    assert_eq!(ttl, 60);
    assert!(store.consume(&ticket, 0));
    assert!(!store.consume(&ticket, 0));
}

#[test]
fn desconocido_rechazado() {
    let mut store = TicketStore::new();
    assert!(!store.consume("no-existe", 0));
}

#[test]
fn expirado_rechazado() {
    let mut store = TicketStore::new();
    let (ticket, _) = store.issue(0);
    assert!(!store.consume(&ticket, TICKET_TTL_MS + 1_000));
}

#[test]
fn a_ticket_lives_until_its_expiry() {
    let mut store = TicketStore::new();
    let (a, seconds) = store.issue_with_ttl(2_500, 1_000);
    assert_eq!(seconds, 2);
    let (b, _) = store.issue_with_ttl(2_500, 1_000);
    assert_ne!(a, b);
    assert!(store.consume(&a, 3_499));
    assert!(!store.consume(&b, 3_500));
}

#[test]
fn a_ticket_is_the_text_of_its_bytes() {
    let mut store = TicketStore::new();
    assert_eq!(store.issue_from(&[0; 32], 3_000, 5), ("A".repeat(43), 3));
    assert!(store.consume(&"A".repeat(43), 3_004));
}

#[test]
fn an_unused_ticket_stays_good() {
    let mut store = TicketStore::new();
    store.enter("t".to_owned(), 100, 0);
    store.enter("u".to_owned(), 10, 1);
    assert!(store.consume("u", 2));
    assert!(!store.consume("v", 3));
    store.enter("u".to_owned(), 10, 90);
    assert!(store.consume("t", 99));
}

#[test]
fn a_ticket_put_in_can_be_used_once() {
    let mut store = TicketStore::new();
    store.enter("t".to_owned(), 10, 0);
    store.enter("u".to_owned(), 10, 5);
    assert!(store.consume("t", 9));
    assert!(!store.consume("t", 9));
    assert!(store.consume("u", 14));
}

fn query(token: Option<&str>, ticket: Option<&str>) -> WsQuery {
    WsQuery { token: token.map(str::to_owned), ticket: ticket.map(str::to_owned) }
}

#[test]
fn the_handshake_takes_a_token_or_a_ticket() {
    let mut store = TicketStore::new();
    let local = AuthMode::Local;
    assert!(ws_handler(local, "tok", &mut store, &query(Some("tok"), None), None, &None, None, 0));
    assert!(ws_handler(local, "tok", &mut store, &query(None, None), Some("Bearer tok"), &None, None, 0));
    // The header goes before the query.
    assert!(!ws_handler(local, "tok", &mut store, &query(Some("tok"), None), Some("Bearer x"), &None, None, 0));
    let ticket = issue_ticket(&mut store, 0);
    assert_eq!(ticket.expires_in_s, 60);
    assert!(ws_handler(local, "tok", &mut store, &query(None, Some(&ticket.ticket)), None, &None, None, 1));
    assert!(!ws_handler(local, "tok", &mut store, &query(None, Some(&ticket.ticket)), None, &None, None, 1));
}

#[test]
fn the_handshake_of_a_server_wants_a_ticket_from_its_page() {
    let mut store = TicketStore::new();
    let remote = AuthMode::Remote;
    let page = Some("https://app".to_owned());
    assert!(!ws_handler(remote, "tok", &mut store, &query(Some("tok"), None), None, &page, Some("https://app"), 0));
    let t = issue_ticket(&mut store, 0).ticket;
    assert!(!ws_handler(remote, "tok", &mut store, &query(None, Some(&t)), None, &page, Some("https://evil"), 0));
    // A refused attempt used the ticket up.
    assert!(!ws_handler(remote, "tok", &mut store, &query(None, Some(&t)), None, &page, Some("https://app"), 0));
    let t = issue_ticket(&mut store, 0).ticket;
    assert!(ws_handler(remote, "tok", &mut store, &query(None, Some(&t)), None, &page, Some("https://app"), 0));
    let t = issue_ticket(&mut store, 0).ticket;
    assert!(ws_handler(remote, "tok", &mut store, &query(None, Some(&t)), None, &None, None, 0));
}

#[test]
fn rechaza_bind_no_loopback() {
    assert!(!is_loopback(Ip::V4([0, 0, 0, 0])));
    assert!(!is_loopback(Ip::V4([192, 168, 1, 10])));
    assert!(is_loopback(Ip::V4([127, 0, 0, 1])));
    assert!(is_loopback(Ip::V6([0, 0, 0, 0, 0, 0, 0, 1])));
    assert!(is_loopback(Ip::V4([127, 9, 9, 9])));
    assert!(!is_loopback(Ip::V6([0, 0, 0, 0, 0, 0, 0, 2])));
    assert!(!is_loopback(Ip::V6([1, 0, 0, 0, 0, 0, 0, 1])));
}

fn vars() -> EnvVars {
    EnvVars {
        bind: None,
        port: None,
        data_dir: Some("/data".to_owned()),
        max_iterations: None,
        spa_origin: None,
        groq_api_key: None,
        auth_mode: None,
        proxy_secret: None,
        database_url: None,
        relay_url: None,
        allowed_emails: None,
    }
}

fn some(s: &str) -> Option<String> {
    Some(s.to_owned())
}

fn loopback() -> Option<ParsedBind> {
    Some(ParsedBind {
        bind: Bind { ip: Ip::V4([127, 0, 0, 1]), port: 7431 },
        shown: "127.0.0.1:7431".to_owned(),
    })
}

fn open() -> Option<ParsedBind> {
    Some(ParsedBind {
        bind: Bind { ip: Ip::V4([0, 0, 0, 0]), port: 80 },
        shown: "0.0.0.0:80".to_owned(),
    })
}

#[test]
fn the_address_to_listen_on() {
    assert_eq!(bind_raw(&vars()), "127.0.0.1:7431");
    let mut v = vars();
    v.port = some("8080");
    assert_eq!(bind_raw(&v), "0.0.0.0:8080");
    v.bind = some("127.0.0.1:9");
    assert_eq!(bind_raw(&v), "127.0.0.1:9");
}

#[test]
fn settings_have_defaults() {
    let cfg = DaemonConfig::from_env(&vars(), loopback(), None).unwrap();
    assert_eq!(cfg.max_iterations, 20);
    assert_eq!(cfg.auth_mode, AuthMode::Local);
    assert_eq!(cfg.data_dir, "/data");
    assert_eq!(cfg.relay_url, None);
    assert!(cfg.allowed_emails.is_empty());
    assert_eq!(cfg.remote_workspace("s1"), "/data/remote-ws/s1");
}

#[test]
fn settings_are_read() {
    let mut v = vars();
    v.data_dir = some("");
    v.max_iterations = some("7");
    v.relay_url = some("https://relay.example//");
    v.allowed_emails = some(" Ana@X.io, ,b@y ");
    v.groq_api_key = some("");
    let cfg = DaemonConfig::from_env(&v, loopback(), some("/home/u/.local")).unwrap();
    assert_eq!(cfg.data_dir, "/home/u/.local");
    assert_eq!(cfg.max_iterations, 7);
    assert_eq!(cfg.relay_url, some("https://relay.example"));
    assert_eq!(cfg.allowed_emails, vec!["ana@x.io".to_owned(), "b@y".to_owned()]);
    assert_eq!(cfg.groq_api_key, None);
    v.max_iterations = some("muchas");
    assert_eq!(
        DaemonConfig::from_env(&v, loopback(), some("/d")).unwrap().max_iterations,
        20
    );
}

#[test]
fn each_wrong_setting_has_its_error() {
    let mut v = vars();
    v.bind = some("nada");
    let e = DaemonConfig::from_env(&v, None, None).unwrap_err();
    assert_eq!(e, ConfigError::InvalidBind("nada".to_owned()));
    assert_eq!(e.text(), "dirección de escucha inválida: nada");

    let e = DaemonConfig::from_env(&vars(), open(), None).unwrap_err();
    assert_eq!(e, ConfigError::NonLoopbackBind("0.0.0.0:80".to_owned()));

    let mut v = vars();
    v.data_dir = None;
    assert_eq!(DaemonConfig::from_env(&v, loopback(), None), Err(ConfigError::NoDataDir));

    let mut v = vars();
    v.auth_mode = some("remote");
    assert_eq!(
        DaemonConfig::from_env(&v, loopback(), None),
        Err(ConfigError::MissingProxySecret)
    );
    v.proxy_secret = some("s");
    assert_eq!(
        DaemonConfig::from_env(&v, loopback(), None),
        Err(ConfigError::MissingDatabaseUrl)
    );
    v.database_url = some("postgres://x");
    assert_eq!(
        DaemonConfig::from_env(&v, open(), None),
        Err(ConfigError::NonLoopbackBind("0.0.0.0:80".to_owned()))
    );
    let cfg = DaemonConfig::from_env(&v, loopback(), None).unwrap();
    assert_eq!(cfg.auth_mode, AuthMode::Remote);
}
