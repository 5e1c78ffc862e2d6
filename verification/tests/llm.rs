use rutsubo::config::AuthMode;
use rutsubo::llm::fallback::{
    attempt_result, Attempt, FallbackAdapter, FirstItem, ModelPolicy, Next, Side,
};
use rutsubo::llm::groq::{
    GroqChoice, GroqMessage, GroqProvider, GroqResponse, GroqToolCall, SentMessage,
};
use rutsubo::llm::mock::{prompt_tokens, FailMode, FailingMock, FailingStream, MockProvider};
use rutsubo::llm::{ChatMessage, GenerationRequest, ProviderError, StreamItem, ToolCallRequest};
use rutsubo::protocol::api::{ModelConfig, ProviderHealth, Thresholds};
use rutsubo::protocol::events::{FallbackTrigger, StopReason, Usage};
use rutsubo::protocol::ids::{ProviderId, ToolCallId};
use rutsubo::state::{build_providers, tools_for, Provider, Transcriber};

const TH: Thresholds = Thresholds { ttft_threshold_ms: 100, failure_window: 3, cooldown_s: 60 };

fn adapter() -> FallbackAdapter {
    FallbackAdapter::new(ProviderId::from_name("p"), ProviderId::from_name("s"))
}

fn transport() -> ProviderError {
    ProviderError::Transport("x".to_owned())
}

/// One generation: the providers answer as given, at one instant.
fn call(
    a: &mut FallbackAdapter,
    policy: ModelPolicy,
    now: u64,
    health: ProviderHealth,
    primary: Result<(), ProviderError>,
    secondary: Result<(), ProviderError>,
) -> Next {
    let mut results = (Some(primary), Some(secondary));
    let mut next = a.generate_with_info(policy, now, now);
    loop {
        next = match next {
            Next::AskHealth => a.after_health(health),
            Next::Try(attempt) => {
                let result = match attempt.side() {
                    Side::Primary => results.0.take().expect("one try"),
                    Side::Secondary => results.1.take().expect("one try"),
                };
                a.after_attempt(attempt, policy, TH, result, now)
            }
            done => return done,
        }
    }
}

fn served(next: &Next) -> (&str, Option<FallbackTrigger>) {
    match next {
        Next::Served(o) => (&o.provider_id.0, o.switch.as_ref().map(|s| s.trigger)),
        _ => panic!("not served"),
    }
}

#[test]
fn a_healthy_primary_serves() {
    let mut a = adapter();
    let r = call(&mut a, ModelPolicy::LocalFirst, 0, ProviderHealth::Ready, Ok(()), Ok(()));
    assert_eq!(served(&r), ("p", None));
    assert_eq!(a.id(), ProviderId::from_name("p"));
    assert_eq!(a.status_side(), Side::Primary);
}

#[test]
fn running_out_of_memory_falls_back_at_once() {
    let mut a = adapter();
    let r = call(
        &mut a,
        ModelPolicy::LocalFirst,
        0,
        ProviderHealth::Ready,
        Err(ProviderError::OutOfMemory),
        Ok(()),
    );
    assert_eq!(served(&r), ("s", Some(FallbackTrigger::Oom)));
    // The breaker is open: the secondary serves without a try of the primary.
    let r = call(&mut a, ModelPolicy::LocalFirst, 1, ProviderHealth::Down, Ok(()), Ok(()));
    assert_eq!(served(&r), ("s", None));
    assert_eq!(a.status_side(), Side::Secondary);
    assert_eq!(a.status(ProviderHealth::Ready).id, "s");
}

#[test]
fn failures_fill_the_window() {
    let mut a = adapter();
    for n in 1..=2u32 {
        let r = call(
            &mut a,
            ModelPolicy::LocalFirst,
            0,
            ProviderHealth::Ready,
            Err(transport()),
            Ok(()),
        );
        assert_eq!(r, Next::Failed(transport()));
        assert_eq!(a.state.consecutive_failures, n);
    }
    let r = call(
        &mut a,
        ModelPolicy::LocalFirst,
        0,
        ProviderHealth::Ready,
        Err(transport()),
        Ok(()),
    );
    assert_eq!(served(&r), ("s", Some(FallbackTrigger::Failures)));
    assert_eq!(a.state.open_until, Some(60_000));
}

#[test]
fn the_primary_is_tried_again_after_the_cooldown() {
    let mut a = adapter();
    call(
        &mut a,
        ModelPolicy::LocalFirst,
        0,
        ProviderHealth::Ready,
        Err(ProviderError::OutOfMemory),
        Ok(()),
    );
    // Not healthy yet.
    let r = call(&mut a, ModelPolicy::LocalFirst, 60_001, ProviderHealth::Down, Ok(()), Ok(()));
    assert_eq!(served(&r).0, "s");
    // Healthy: the primary takes over and the change is reported.
    let r = call(&mut a, ModelPolicy::LocalFirst, 90_000, ProviderHealth::Ready, Ok(()), Ok(()));
    assert_eq!(served(&r).0, "p");
    assert!(served(&r).1.is_some());
    assert_eq!(a.state.consecutive_failures, 0);
    assert_eq!(a.state.open_until, None);
}

#[test]
fn a_cancelled_generation_does_not_count() {
    let mut a = adapter();
    let r = call(
        &mut a,
        ModelPolicy::LocalFirst,
        0,
        ProviderHealth::Ready,
        Err(ProviderError::Cancelled),
        Ok(()),
    );
    assert_eq!(r, Next::Failed(ProviderError::Cancelled));
    assert_eq!(a.state.consecutive_failures, 0);
}

#[test]
fn fixed_policies_never_fall_back() {
    let mut a = adapter();
    let r = call(
        &mut a,
        ModelPolicy::LocalOnly,
        0,
        ProviderHealth::Ready,
        Err(ProviderError::OutOfMemory),
        Ok(()),
    );
    assert_eq!(r, Next::Failed(ProviderError::OutOfMemory));
    let r = call(&mut a, ModelPolicy::ExternalOnly, 0, ProviderHealth::Ready, Ok(()), Ok(()));
    assert_eq!(served(&r), ("s", Some(FallbackTrigger::Manual)));
}

#[test]
fn a_rate_limit_falls_back_without_opening_the_breaker() {
    let mut a = adapter();
    let limited = ProviderError::RateLimited { retry_after_s: 30 };
    let r = call(&mut a, ModelPolicy::LocalFirst, 0, ProviderHealth::Ready, Err(limited), Ok(()));
    assert_eq!(served(&r), ("s", Some(FallbackTrigger::RateLimited)));
    assert_eq!(a.state.open_until, None);
}

#[test]
fn a_slow_first_item_falls_back() {
    let late = attempt_result(FirstItem::Elapsed, 100).unwrap_err();
    assert_eq!(late, ProviderError::Timeout { after_ms: 100 });
    let mut a = adapter();
    let r = call(&mut a, ModelPolicy::LocalFirst, 0, ProviderHealth::Ready, Err(late), Ok(()));
    assert_eq!(served(&r), ("s", Some(FallbackTrigger::TtftExceeded)));
    assert_eq!(
        attempt_result(FirstItem::Ended, 100).unwrap_err(),
        ProviderError::InvalidResponse("stream vacío del proveedor".to_owned())
    );
    assert_eq!(attempt_result(FirstItem::Failed(transport()), 1), Err(transport()));
    let item = StreamItem::Delta("a".to_owned());
    assert_eq!(attempt_result(FirstItem::Item(item), 1), Ok(StreamItem::Delta("a".to_owned())));
}

#[test]
fn a_broken_stream_moves_the_next_call() {
    let mut a = adapter();
    call(&mut a, ModelPolicy::LocalFirst, 0, ProviderHealth::Ready, Ok(()), Ok(()));
    a.stream_failed(&transport(), TH, 0);
    assert!(a.state.force_secondary_next);
    let r = call(&mut a, ModelPolicy::LocalFirst, 0, ProviderHealth::Ready, Ok(()), Ok(()));
    assert_eq!(served(&r).0, "s");
    let r = call(&mut a, ModelPolicy::LocalFirst, 0, ProviderHealth::Ready, Ok(()), Ok(()));
    assert_eq!(served(&r).0, "p");
}

#[test]
fn the_secondary_has_no_fallback() {
    let mut a = adapter();
    let r = call(
        &mut a,
        ModelPolicy::LocalFirst,
        0,
        ProviderHealth::Ready,
        Err(ProviderError::OutOfMemory),
        Err(transport()),
    );
    assert_eq!(r, Next::Failed(transport()));
    assert_eq!(Attempt::Fallback(FallbackTrigger::Oom).side(), Side::Secondary);
}

#[test]
fn errors_read_as_text() {
    let shown = |e: ProviderError| e.text();
    assert_eq!(shown(ProviderError::OutOfMemory), "proveedor sin memoria (OOM)");
    assert_eq!(shown(ProviderError::Timeout { after_ms: 5 }), "timeout tras 5 ms");
    assert_eq!(shown(transport()), "transporte: x");
    assert_eq!(shown(ProviderError::InvalidResponse("y".to_owned())), "respuesta inválida: y");
    assert_eq!(
        shown(ProviderError::RateLimited { retry_after_s: 30 }),
        "límite de peticiones; reintentar en 30 s"
    );
    assert_eq!(shown(ProviderError::Cancelled), "cancelado por el usuario");
}

fn message(role: &str, content: &str) -> ChatMessage {
    ChatMessage {
        role: role.to_owned(),
        content: content.to_owned(),
        tool_calls: vec![],
        tool_call_id: None,
        provider_tool_call_id: None,
    }
}

#[test]
fn the_context_in_the_chat_format() {
    let mut assistant = message("assistant", "");
    let call = |id: Option<&str>| ToolCallRequest {
        tool_call_id: ToolCallId(1),
        tool: "search".to_owned(),
        args: "{}".to_owned(),
        provider_call_id: id.map(str::to_owned),
    };
    assistant.tool_calls = vec![call(None), call(Some("c1"))];
    let mut answer = message("tool", "r");
    answer.tool_call_id = Some(ToolCallId(1));
    let mut named = message("tool", "r");
    named.tool_call_id = Some(ToolCallId(1));
    named.provider_tool_call_id = Some("c1".to_owned());
    let sent = GroqProvider::messages(&vec![
        message("system", "s"),
        message("user", "u"),
        assistant,
        answer,
        named,
        message("tool", "r"),
        message("otro", "o"),
    ]);
    assert_eq!(sent[0], SentMessage::System("s".to_owned()));
    assert_eq!(sent[1], SentMessage::User("u".to_owned()));
    match &sent[2] {
        SentMessage::Assistant { content, tool_calls } => {
            assert_eq!(content, "");
            assert_eq!(tool_calls.len(), 1);
            assert_eq!((tool_calls[0].id.as_str(), tool_calls[0].name.as_str()), ("c1", "search"));
        }
        _ => panic!("an assistant message"),
    }
    let ids: Vec<&str> = sent[3..6]
        .iter()
        .map(|m| match m {
            SentMessage::Tool { tool_call_id, .. } => tool_call_id.as_str(),
            _ => panic!("a tool message"),
        })
        .collect();
    assert_eq!(ids, vec![ToolCallId(1).text().as_str(), "c1", ""]);
    assert_eq!(sent[6], SentMessage::User("o".to_owned()));
}

#[test]
fn statuses_of_answers() {
    assert_eq!(GroqProvider::check_status(200, "200 OK"), Ok(()));
    assert_eq!(
        GroqProvider::check_status(429, "429"),
        Err(ProviderError::RateLimited { retry_after_s: 30 })
    );
    assert_eq!(
        GroqProvider::check_status(503, "503"),
        Err(ProviderError::Transport("Groq no está disponible".to_owned()))
    );
    assert_eq!(
        GroqProvider::check_status(400, "400 Bad Request"),
        Err(ProviderError::InvalidResponse(
            "Groq rechazó la petición (400 Bad Request)".to_owned()
        ))
    );
    assert_eq!(GroqProvider::check(true), Err(ProviderError::Cancelled));
    assert_eq!(GroqProvider::check(false), Ok(()));
}

#[test]
fn answers_become_streams() {
    let answer = |arguments: &str| {
        Ok(GroqResponse {
            choice: Some(GroqMessage {
                content: Some("hola".to_owned()),
                tool_calls: vec![GroqToolCall {
                    id: "abc".to_owned(),
                    name: "write_file".to_owned(),
                    arguments: arguments.to_owned(),
                }],
            }),
            usage: Some(Usage { prompt_tokens: 787, completion_tokens: 183 }),
        })
    };
    let items = GroqProvider::generate(answer(r#"{ "path" : "index.html" }"#)).unwrap();
    assert_eq!(items.len(), 3);
    assert_eq!(items[0], StreamItem::Delta("hola".to_owned()));
    match &items[1] {
        StreamItem::ToolCall(c) => {
            assert_eq!(c.tool, "write_file");
            assert_eq!(c.args, r#"{"path":"index.html"}"#);
            assert_eq!(c.provider_call_id, Some("abc".to_owned()));
        }
        _ => panic!("a call"),
    }
    assert_eq!(
        items[2],
        StreamItem::Done(
            StopReason::EndTurn,
            Usage { prompt_tokens: 787, completion_tokens: 183 }
        )
    );
    assert_eq!(
        GroqProvider::generate(answer("{roto")),
        Err(ProviderError::InvalidResponse("argumentos de herramienta inválidos".to_owned()))
    );
    assert_eq!(
        GroqProvider::generate(Ok(GroqResponse { choice: None, usage: None })),
        Err(ProviderError::InvalidResponse("respuesta sin choices".to_owned()))
    );
    assert_eq!(
        GroqProvider::generate(Err("eof".to_owned())),
        Err(ProviderError::InvalidResponse("respuesta ilegible: eof".to_owned()))
    );
    let silent = GroqResponse {
        choice: Some(GroqMessage { content: Some(String::new()), tool_calls: vec![] }),
        usage: None,
    };
    assert_eq!(
        GroqProvider::generate(Ok(silent)).unwrap(),
        vec![StreamItem::Done(
            StopReason::EndTurn,
            Usage { prompt_tokens: 0, completion_tokens: 0 }
        )]
    );
}

#[test]
fn only_the_first_choice_counts() {
    let choice = |text: &str| GroqChoice { content: Some(text.to_owned()), tool_calls: None };
    let answer = GroqResponse::from_choices(vec![choice("uno"), choice("dos")], None);
    let first = GroqMessage { content: Some("uno".to_owned()), tool_calls: vec![] };
    assert_eq!(answer, GroqResponse { choice: Some(first), usage: None });
    let call = || GroqToolCall {
        id: "i".to_owned(),
        name: "n".to_owned(),
        arguments: "{}".to_owned(),
    };
    let calls = GroqChoice { content: None, tool_calls: Some(vec![call()]) };
    let answer = GroqResponse::from_choices(vec![calls], None);
    assert_eq!(answer.choice, Some(GroqMessage { content: None, tool_calls: vec![call()] }));
    assert_eq!(GroqResponse::from_choices(vec![], None).choice, None);
}

#[test]
fn the_script_mentions_the_file_of_the_message() {
    assert_eq!(MockProvider::mentioned_file("revisa (src/main.rs), por favor."), "src/main.rs");
    assert_eq!(MockProvider::mentioned_file("mira https://x.io y notas.txt"), "notas.txt");
    assert_eq!(MockProvider::mentioned_file("hola."), "README.md");
    assert_eq!(MockProvider::mentioned_file("el archivo «ñandú.md»"), "ñandú.md");
    assert_eq!(MockProvider::mentioned_file(""), "README.md");
}

fn ran(tool: &str) -> ChatMessage {
    message("tool", &format!(r#"{{"tool":"{tool}","ok":true}}"#))
}

fn last_call(items: &[StreamItem]) -> (String, String) {
    match items.last().unwrap() {
        StreamItem::ToolCall(c) => (c.tool.clone(), c.args.clone()),
        _ => panic!("a call"),
    }
}

#[test]
fn the_script_reads_tests_writes_and_ends() {
    let mut context = vec![message("user", "corre los TESTS de src/a.rs")];
    let items = MockProvider::script(&context);
    assert_eq!(items.len(), 5);
    assert_eq!(items[2], StreamItem::Delta("`src/a.rs` ".to_owned()));
    assert_eq!(last_call(&items), ("read_file".to_owned(), r#"{"path":"src/a.rs"}"#.to_owned()));

    context.push(ran("read_file"));
    let items = MockProvider::script(&context);
    assert_eq!(
        last_call(&items),
        ("run_shell".to_owned(), r#"{"cmd":"cargo test -p core"}"#.to_owned())
    );

    context.push(ran("run_shell"));
    let items = MockProvider::script(&context);
    let (tool, args) = last_call(&items);
    assert_eq!(tool, "write_file");
    assert_eq!(rutsubo::json::get_text(&args, "path"), Some("RUTSUBO_NOTES.md".to_owned()));
    assert_eq!(
        rutsubo::json::get_text(&args, "content"),
        Some(
            "# Notas de Rutsubo\n\n- Archivo revisado: src/a.rs\n- Petición: corre los TESTS de src/a.rs\n"
                .to_owned()
        )
    );

    context.push(ran("write_file"));
    let items = MockProvider::script(&context);
    assert_eq!(items.len(), 3);
    assert_eq!(
        items[2],
        StreamItem::Done(
            StopReason::EndTurn,
            Usage { prompt_tokens: prompt_tokens(&context).unwrap(), completion_tokens: 42 }
        )
    );
}

#[test]
fn tokens_are_a_quarter_of_the_bytes() {
    assert_eq!(prompt_tokens(&vec![message("user", "1234567"), message("user", "ññ")]), Some(2));
    assert_eq!(prompt_tokens(&vec![]), Some(0));
}

#[test]
fn a_cancelled_script_says_so() {
    let mock = MockProvider::new("groq:missing:x".to_owned());
    assert_eq!(mock.id().0, "groq:missing:x");
    assert_eq!(mock.health(), ProviderHealth::Ready);
    let req = GenerationRequest {
        messages: vec![message("user", "hola")],
        tools: vec![],
        max_tokens: 1,
        temperature_milli: 0,
    };
    assert_eq!(mock.generate(&req, true), Err(ProviderError::Cancelled));
    assert_eq!(mock.generate(&req, false).unwrap().len(), 5);
    assert_eq!(mock.generate_if_countable(&req, true), Some(Err(ProviderError::Cancelled)));
    assert_eq!(mock.generate_if_countable(&req, false).unwrap().unwrap().len(), 5);
    let item = || StreamItem::Delta("a".to_owned());
    assert_eq!(MockProvider::paced(item(), true), Err(ProviderError::Cancelled));
    assert_eq!(MockProvider::paced(item(), false), Ok(item()));
}

#[test]
fn the_failing_provider_fails_as_told() {
    let mut mock = FailingMock::new("f".to_owned(), FailMode::Healthy);
    match mock.generate().unwrap() {
        FailingStream::Items(items) => assert_eq!(items.len(), 2),
        FailingStream::Slow => panic!("not slow"),
    }
    for (mode, error) in [
        (FailMode::Oom, ProviderError::OutOfMemory),
        (FailMode::Transport, ProviderError::Transport("conexión rehusada".to_owned())),
        (FailMode::InvalidResponse, ProviderError::InvalidResponse("JSON malformado".to_owned())),
        (FailMode::RateLimited, ProviderError::RateLimited { retry_after_s: 30 }),
    ] {
        mock.set_mode(mode);
        assert_eq!(mock.generate(), Err(error));
    }
    mock.set_mode(FailMode::SlowFirstItem);
    assert_eq!(mock.generate(), Ok(FailingStream::Slow));
    assert_eq!(FailingMock::slow_item(true), Err(ProviderError::Cancelled));
    assert_eq!(FailingMock::slow_item(false), Ok(StreamItem::Delta("tarde".to_owned())));
    mock.set_mode(FailMode::FailMidStream);
    match mock.generate().unwrap() {
        FailingStream::Items(items) => {
            assert_eq!(items[2], Err(ProviderError::Transport("se cayó a mitad".to_owned())));
        }
        FailingStream::Slow => panic!("not slow"),
    }
    assert_eq!(mock.calls, 7);
    mock.set_health(ProviderHealth::Degraded);
    assert_eq!(mock.health, ProviderHealth::Degraded);
}

#[test]
fn without_a_key_there_are_stand_ins() {
    let models = ModelConfig::default();
    let none = build_providers(None, &models);
    match &none.primary {
        Provider::Mock(p) => assert_eq!(p.id.0, format!("groq:missing:{}", models.primary.model)),
        Provider::Groq(_) => panic!("no key"),
    }
    assert_eq!(none.transcriber, Transcriber::Mock);
    let real = build_providers(Some("gsk_1"), &models);
    match &real.secondary {
        Provider::Groq(p) => {
            assert_eq!(p.id().0, format!("groq:{}", models.fallback.model));
            assert_eq!(p.api_key, "gsk_1");
            assert_eq!(p.health(), ProviderHealth::Ready);
        }
        Provider::Mock(_) => panic!("a key"),
    }
    assert_eq!(real.transcriber, Transcriber::Groq("gsk_1".to_owned()));
}

#[test]
fn a_server_has_no_shell() {
    assert!(tools_for(AuthMode::Local).get("run_shell").is_some());
    assert!(tools_for(AuthMode::Remote).get("run_shell").is_none());
    assert!(tools_for(AuthMode::Remote).get("edit_file").is_some());
}
