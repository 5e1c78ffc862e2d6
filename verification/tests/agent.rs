use rutsubo::agent::context::build;
use rutsubo::agent::gated::{begin, decided, executed, GateStep};
use rutsubo::agent::running::Running;
use rutsubo::agent::turn::{Phase, Turn, TurnAction, TurnEvent};
use rutsubo::agent::{summarize, Effect};
use rutsubo::llm::fallback::{GenerationOutcome, SwitchInfo};
use rutsubo::llm::{ProviderError, StreamItem, ToolCallRequest};
use rutsubo::protocol::diff::FileDiff;
use rutsubo::protocol::events::{
    Decision, Event, FallbackTrigger, SessionState, StopReason, Usage,
};
use rutsubo::protocol::ids::{ApprovalId, MessageId, ProviderId, SessionId, ToolCallId};
use rutsubo::store::messages::MessageRow;
use rutsubo::tools::{Tool, ToolRegistry, ToolResult};

fn tc(n: u128, tool: &str, args: &str) -> ToolCallRequest {
    ToolCallRequest {
        tool_call_id: ToolCallId(n),
        tool: tool.to_owned(),
        args: args.to_owned(),
        provider_call_id: None,
    }
}

fn generated() -> TurnEvent {
    TurnEvent::Generated(Ok(GenerationOutcome {
        provider_id: ProviderId::from_name("p"),
        switch: None,
    }))
}

fn delta(s: &str) -> TurnEvent {
    TurnEvent::Item(Ok(StreamItem::Delta(s.to_owned())))
}

fn call(c: ToolCallRequest) -> TurnEvent {
    TurnEvent::Item(Ok(StreamItem::ToolCall(c)))
}

fn done() -> TurnEvent {
    TurnEvent::Item(Ok(StreamItem::Done(
        StopReason::EndTurn,
        Usage { prompt_tokens: 3, completion_tokens: 4 },
    )))
}

fn is_idle(effect: &Effect) -> bool {
    matches!(effect, Effect::Emit { new_state: Some(SessionState::Idle), .. })
}

#[test]
fn a_turn_without_tools() {
    let (mut turn, effects, action) = Turn::begin(MessageId(1), 5);
    assert!(effects.is_empty());
    assert_eq!(action, TurnAction::Generate);
    let (effects, action) = turn.step(generated());
    assert_eq!(effects.len(), 1);
    assert_eq!(action, TurnAction::NextItem);
    turn.step(delta("ho"));
    let (effects, _) = turn.step(delta("la"));
    assert_eq!(
        effects,
        vec![Effect::Emit {
            event: Event::MessageDelta { message_id: MessageId(1), delta: "la".to_owned() },
            new_state: None,
        }]
    );
    turn.step(done());
    let (effects, action) = turn.step(TurnEvent::StreamEnd);
    assert_eq!(action, TurnAction::End);
    assert_eq!(turn.phase, Phase::Ended);
    assert_eq!(
        effects[0],
        Effect::SaveAssistant { message_id: MessageId(1), content: "hola".to_owned() }
    );
    assert_eq!(
        effects[1],
        Effect::Emit {
            event: Event::MessageCompleted {
                message_id: MessageId(1),
                stop_reason: StopReason::EndTurn,
                usage: Usage { prompt_tokens: 3, completion_tokens: 4 },
            },
            new_state: None,
        }
    );
    assert!(is_idle(&effects[2]));
}

#[test]
fn a_turn_runs_its_tools_in_order() {
    let (mut turn, _, _) = Turn::begin(MessageId(1), 5);
    turn.step(generated());
    turn.step(call(tc(1, "read_file", "{}")));
    turn.step(call(tc(2, "search", "{}")));
    let (effects, action) = turn.step(TurnEvent::StreamEnd);
    assert_eq!(action, TurnAction::RunTool(tc(1, "read_file", "{}")));
    assert_eq!(
        effects.last(),
        Some(&Effect::Emit {
            event: Event::ToolCallRequested {
                tool_call_id: ToolCallId(1),
                tool: "read_file".to_owned(),
                args: "{}".to_owned(),
            },
            new_state: None,
        })
    );
    let ok = || ToolResult::ok("x".to_owned());
    let (_, action) = turn.step(TurnEvent::ToolDone { result: ok(), rejected: false });
    assert_eq!(action, TurnAction::RunTool(tc(2, "search", "{}")));
    // A rejection does not end the turn.
    let (_, action) = turn.step(TurnEvent::ToolDone {
        result: ToolResult::fail("rechazado por el usuario".to_owned()),
        rejected: true,
    });
    assert_eq!(action, TurnAction::Generate);
    assert_eq!(turn.iteration, 1);
    assert_eq!(turn.messages.len(), 3);
    assert_eq!(turn.messages[0].role, "assistant");
    assert_eq!(turn.messages[0].tool_calls.len(), 2);
    assert_eq!(turn.messages[1].tool_call_id, Some(ToolCallId(1)));
    assert_eq!(
        rutsubo::json::get_text(&turn.messages[2].content, "output"),
        Some("rechazado por el usuario".to_owned())
    );
    assert!(turn.messages[2].content.contains("\"rejected\":true"));
}

#[test]
fn a_turn_stops_at_its_limit() {
    let (turn, effects, action) = Turn::begin(MessageId(1), 0);
    assert_eq!(action, TurnAction::End);
    assert_eq!(turn.phase, Phase::Ended);
    assert_eq!(effects.len(), 2);

    let (mut turn, _, _) = Turn::begin(MessageId(1), 1);
    turn.step(generated());
    turn.step(call(tc(1, "search", "{}")));
    turn.step(TurnEvent::StreamEnd);
    let (effects, action) =
        turn.step(TurnEvent::ToolDone { result: ToolResult::ok(String::new()), rejected: false });
    assert_eq!(action, TurnAction::End);
    assert!(matches!(
        &effects[0],
        Effect::Emit {
            event: Event::MessageCompleted { stop_reason: StopReason::MaxIterations, .. },
            ..
        }
    ));
    assert!(is_idle(effects.last().unwrap()));
}

#[test]
fn a_failure_of_the_provider_is_fatal() {
    let (mut turn, _, _) = Turn::begin(MessageId(1), 5);
    let (effects, action) =
        turn.step(TurnEvent::Generated(Err(ProviderError::Transport("x".to_owned()))));
    assert_eq!(action, TurnAction::End);
    assert_eq!(
        effects[0],
        Effect::Emit {
            event: Event::Error {
                code: "provider_failed".to_owned(),
                message: "transporte: x".to_owned(),
                fatal: true,
            },
            new_state: None,
        }
    );
    assert!(is_idle(&effects[1]));
}

#[test]
fn a_broken_stream_keeps_what_was_said() {
    let (mut turn, _, _) = Turn::begin(MessageId(1), 5);
    turn.step(generated());
    turn.step(delta("medio"));
    let (effects, action) =
        turn.step(TurnEvent::Item(Err(ProviderError::Transport("x".to_owned()))));
    assert_eq!(action, TurnAction::End);
    assert!(effects.contains(&Effect::SaveAssistant {
        message_id: MessageId(1),
        content: "medio".to_owned(),
    }));
}

#[test]
fn a_cancelled_stream_completes_the_message() {
    let (mut turn, _, _) = Turn::begin(MessageId(1), 5);
    turn.step(generated());
    turn.step(delta("medio"));
    let (effects, action) = turn.step(TurnEvent::Item(Err(ProviderError::Cancelled)));
    assert_eq!(action, TurnAction::End);
    assert!(effects.iter().any(|e| matches!(
        e,
        Effect::Emit {
            event: Event::MessageCompleted { stop_reason: StopReason::Cancelled, .. },
            ..
        }
    )));
}

#[test]
fn a_change_of_provider_is_announced() {
    let (mut turn, _, _) = Turn::begin(MessageId(1), 5);
    let (effects, _) = turn.step(TurnEvent::Generated(Ok(GenerationOutcome {
        provider_id: ProviderId::from_name("s"),
        switch: Some(SwitchInfo {
            from: ProviderId::from_name("p"),
            to: ProviderId::from_name("s"),
            trigger: FallbackTrigger::Oom,
        }),
    })));
    assert_eq!(
        effects[0],
        Effect::Emit {
            event: Event::ModelProviderChanged {
                from: ProviderId::from_name("p"),
                to: ProviderId::from_name("s"),
                trigger: FallbackTrigger::Oom,
            },
            new_state: None,
        }
    );
    match &effects[1] {
        Effect::Audit { kind, detail } => {
            assert_eq!(kind, "llm_call");
            assert_eq!(rutsubo::json::get_text(detail, "provider_id"), Some("s".to_owned()));
            assert_eq!(rutsubo::json::get_u64(detail, "iteration"), Some(0));
        }
        _ => panic!("an audit entry"),
    }
}

#[test]
fn the_gate_asks_before_a_tool_with_effects() {
    let tools = ToolRegistry::standard();
    let shell = tc(1, "run_shell", r#"{"cmd":"ls"}"#);
    let (effects, step) = begin(&tools, SessionId(2), &shell, ApprovalId(3));
    assert_eq!(step, GateStep::Await { approval_id: ApprovalId(3), tool: Tool::RunShell });
    assert!(effects.contains(&Effect::Register(ApprovalId(3))));
    assert!(effects.iter().any(|e| matches!(
        e,
        Effect::Emit { event: Event::ApprovalRequest { .. }, .. }
    )));
    let (_, step) = decided(Tool::RunShell, &shell, Some(Decision::Approve));
    assert_eq!(step, GateStep::Execute(Tool::RunShell));
    for refusal in [Some(Decision::Reject), None] {
        let (effects, step) = decided(Tool::RunShell, &shell, refusal);
        assert_eq!(effects.len(), 3);
        match step {
            GateStep::Finished { result, rejected } => {
                assert!(rejected && !result.ok);
                assert_eq!(result.output, "rechazado por el usuario");
            }
            _ => panic!("it must not run"),
        }
    }
}

#[test]
fn tools_that_only_read_run_at_once() {
    let tools = ToolRegistry::standard();
    let (effects, step) =
        begin(&tools, SessionId(2), &tc(1, "read_file", "{}"), ApprovalId(3));
    assert!(effects.is_empty());
    assert_eq!(step, GateStep::Execute(Tool::ReadFile));
    let (effects, step) = begin(&tools, SessionId(2), &tc(1, "volar", "{}"), ApprovalId(3));
    assert_eq!(effects.len(), 1);
    match step {
        GateStep::Finished { result, rejected } => {
            assert!(!rejected);
            assert_eq!(result.output, "herramienta desconocida: volar");
        }
        _ => panic!("unknown"),
    }
}

#[test]
fn a_changed_file_is_shown_and_kept() {
    let diff = FileDiff::compute("a.html", "", "x\n");
    let result = ToolResult::with_diff("ok".to_owned(), diff);
    let effects = executed(&tc(1, "write_file", "{}"), &result);
    assert_eq!(effects.len(), 4);
    assert_eq!(
        effects[2],
        Effect::KeepFile {
            path: "a.html".to_owned(),
            mime: "text/html; charset=utf-8".to_owned(),
        }
    );
    let effects = executed(&tc(1, "search", "{}"), &ToolResult::ok("nada".to_owned()));
    assert_eq!(effects.len(), 2);
}

#[test]
fn summaries_of_calls() {
    assert_eq!(summarize(&tc(1, "run_shell", r#"{"cmd":"ls"}"#)), "ls");
    assert_eq!(summarize(&tc(1, "run_shell", "{}")), "run_shell");
    assert_eq!(summarize(&tc(1, "write_file", r#"{"path":"a"}"#)), "write_file: a");
    assert_eq!(summarize(&tc(1, "write_file", "{}")), "write_file: ?");
}

#[test]
fn the_context_shows_the_last_of_the_history() {
    let row = |n: usize| MessageRow { role: "user".to_owned(), content: n.to_string() };
    let long: Vec<MessageRow> = (0..45).map(row).collect();
    let context = build("/w", &vec![], &long, &vec![]);
    assert_eq!(context.len(), 41);
    assert_eq!(context[0].role, "system");
    assert_eq!(
        context[0].content,
        "Eres Rutsubo, un agente de código local-first. Trabajas dentro del workspace `/w` \
         usando las herramientas disponibles. Toda ruta es relativa al workspace."
    );
    assert_eq!(context[1].content, "5");
    assert_eq!(context[40].content, "44");
    let (mut turn, _, _) = Turn::begin(MessageId(1), 5);
    turn.step(generated());
    turn.step(call(tc(1, "search", "{}")));
    turn.step(TurnEvent::StreamEnd);
    turn.step(TurnEvent::ToolDone { result: ToolResult::ok("r".to_owned()), rejected: false });
    let files = vec!["a.rs".to_owned(), "b.rs".to_owned()];
    let context = build("/w", &files, &vec![row(0)], &turn.messages);
    assert!(context[0].content.ends_with(" Archivos del workspace: a.rs, b.rs."));
    assert_eq!(context.len(), 4);
    assert_eq!(context[3].role, "tool");
}

#[test]
fn a_session_has_one_turn_at_a_time() {
    let mut running = Running::new();
    assert!(running.ensure_running(SessionId(1)));
    assert!(!running.ensure_running(SessionId(1)));
    assert!(running.ensure_running(SessionId(2)));
    running.ended(SessionId(1));
    assert!(running.ensure_running(SessionId(1)));
    assert!(!running.ensure_running(SessionId(2)));
}

#[test]
fn a_generation_is_asked_for_with_the_context_and_the_tools() {
    let (turn, _, _) = Turn::begin(MessageId(1), 3);
    let history = vec![MessageRow { role: "user".to_owned(), content: "hola".to_owned() }];
    let request = turn.request("/w", &vec![], &history, &ToolRegistry::remote());
    assert_eq!((request.max_tokens, request.temperature_milli), (1024, 200));
    assert_eq!(request.messages.len(), 2);
    assert_eq!(request.messages[1].content, "hola");
    assert_eq!(request.tools.len(), ToolRegistry::remote().schemas().len());
    assert_eq!(request.tools[0].name, "edit_file");
}
