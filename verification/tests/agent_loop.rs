use zero::agent_loop::{
    decide_step, provider_failure, record_tool_results, tool_calls_of, tool_result_entry, LoopRun,
    LoopStep, ProviderResponse, ToolOutcome,
};
use zero::error::AgentError;
use zero::loop_config::AgentLoopConfig;
use zero::message::{ContentBlock, Message};
use zero::streaming::{StreamEvent, StreamRound};

fn text_answer(t: &str) -> ProviderResponse {
    ProviderResponse { content: vec![ContentBlock::text(t)], stop_reason: "end_turn".to_string() }
}

fn tool_answer(id: &str, name: &str, input: &str) -> ProviderResponse {
    ProviderResponse {
        content: vec![ContentBlock::tool_use(id.to_string(), name.to_string(), input.to_string())],
        stop_reason: "tool_use".to_string(),
    }
}

#[test]
fn loop_finishes_on_a_text_answer() {
    let config = AgentLoopConfig::default();
    let mut messages = vec![Message::user("Say hello")];
    let mut run = LoopRun::new();
    assert!(run.begin_iteration(&config, &mut messages).is_ok());
    match run.on_response(&mut messages, text_answer("Hello, world!")) {
        LoopStep::Finished(t) => assert_eq!(t, "Hello, world!"),
        other => panic!("unexpected {:?}", other),
    }
    assert_eq!(messages.len(), 2);
    assert_eq!(run.iteration, 1);
}

#[test]
fn loop_runs_tools_then_finishes() {
    let config = AgentLoopConfig::default();
    let mut messages = vec![Message::user("Do something")];
    let mut run = LoopRun::new();
    run.begin_iteration(&config, &mut messages).unwrap();
    let calls = match run.on_response(&mut messages, tool_answer("1", "test_tool", r#"{"param":"value"}"#)) {
        LoopStep::RunTools(calls) => calls,
        other => panic!("unexpected {:?}", other),
    };
    assert_eq!(calls.len(), 1);
    assert_eq!((calls[0].id.as_str(), calls[0].name.as_str()), ("1", "test_tool"));
    assert_eq!(calls[0].arguments, r#"{"param":"value"}"#);
    let results = calls
        .into_iter()
        .map(|c| tool_result_entry(c.id, ToolOutcome::Completed(format!("Executed {}", c.name))))
        .collect();
    record_tool_results(&mut messages, results);
    run.begin_iteration(&config, &mut messages).unwrap();
    match run.on_response(&mut messages, text_answer("Task completed")) {
        LoopStep::Finished(t) => assert_eq!(t, "Task completed"),
        other => panic!("unexpected {:?}", other),
    }
    assert_eq!(messages.len(), 4);
    assert!(messages[2].is_tool_result());
}

#[test]
fn loop_stops_at_the_iteration_limit() {
    let config = AgentLoopConfig::default().with_max_iterations(5);
    let mut messages = vec![Message::user("Infinite loop")];
    let mut run = LoopRun::new();
    let mut rounds = 0;
    let err = loop {
        match run.begin_iteration(&config, &mut messages) {
            Err(e) => break e,
            Ok(()) => {}
        }
        rounds += 1;
        if let LoopStep::RunTools(calls) = run.on_response(&mut messages, tool_answer("1", "test", "{}")) {
            let results = calls.into_iter().map(|c| tool_result_entry(c.id, ToolOutcome::TimedOut)).collect();
            record_tool_results(&mut messages, results);
        }
    };
    assert_eq!(rounds, 5);
    assert_eq!(err, AgentError::MaxIterationsExceeded(5));
}

#[test]
fn final_text_is_the_last_text_said() {
    let config = AgentLoopConfig::default();
    let mut messages = vec![Message::user("x")];
    let mut run = LoopRun::new();
    run.begin_iteration(&config, &mut messages).unwrap();
    let mixed = ProviderResponse {
        content: vec![
            ContentBlock::text("Let me look."),
            ContentBlock::tool_use("a".to_string(), "ls".to_string(), "{}".to_string()),
        ],
        stop_reason: "tool_use".to_string(),
    };
    assert!(matches!(run.on_response(&mut messages, mixed), LoopStep::RunTools(_)));
    assert_eq!(run.final_response, "Let me look.");
    let silent = ProviderResponse { content: vec![], stop_reason: "end_turn".to_string() };
    match run.on_response(&mut messages, silent) {
        LoopStep::Finished(t) => assert_eq!(t, "Let me look."),
        other => panic!("unexpected {:?}", other),
    }
}

#[test]
fn tool_use_without_tools_continues() {
    let blocks = vec![ContentBlock::text("thinking")];
    assert!(matches!(decide_step(&blocks, "tool_use", "thinking".to_string()), LoopStep::Continue));
    assert!(matches!(decide_step(&blocks, "max_tokens", "t".to_string()), LoopStep::Finished(_)));
    let two = vec![
        ContentBlock::tool_use("1".to_string(), "a".to_string(), "{}".to_string()),
        ContentBlock::text("x"),
        ContentBlock::tool_use("2".to_string(), "b".to_string(), "[]".to_string()),
    ];
    let calls = tool_calls_of(&two);
    let ids: Vec<&str> = calls.iter().map(|c| c.id.as_str()).collect();
    assert_eq!(ids, vec!["1", "2"]);
}

#[test]
fn tool_outcomes_become_results() {
    assert_eq!(
        tool_result_entry("1".to_string(), ToolOutcome::Completed("ok".to_string())),
        ("1".to_string(), "ok".to_string())
    );
    assert_eq!(
        tool_result_entry("2".to_string(), ToolOutcome::Failed("Invalid input: x".to_string())),
        ("2".to_string(), "Tool error: Invalid input: x".to_string())
    );
    assert_eq!(
        tool_result_entry("3".to_string(), ToolOutcome::TimedOut),
        ("3".to_string(), "Tool timeout".to_string())
    );
    assert_eq!(
        tool_result_entry("4".to_string(), ToolOutcome::Aborted("panicked".to_string())),
        ("error".to_string(), "Task failed: panicked".to_string())
    );
    assert_eq!(provider_failure(true, "x".to_string()), AgentError::ProviderTimeout);
    assert_eq!(provider_failure(false, "API error: down".to_string()), AgentError::ProviderError("API error: down".to_string()));
}

#[test]
fn compaction_runs_when_a_budget_is_set() {
    let config = AgentLoopConfig::default().with_max_context_tokens(100);
    let mut messages = vec![Message::user("hi"), Message::tool_result("t".to_string(), &"x".repeat(3000))];
    let mut run = LoopRun::new();
    run.begin_iteration(&config, &mut messages).unwrap();
    match &messages[1] {
        Message::ToolResult { content } => {
            let zero::message::ToolResultContent::ToolResult { content, .. } = &content[0];
            assert!(content.contains("chars truncated"));
        }
        _ => panic!("expected the tool result"),
    }
}

#[test]
fn streamed_text_answer_finishes() {
    let config = AgentLoopConfig::default();
    let mut messages = vec![Message::user("Say hello")];
    let mut run = LoopRun::new();
    run.begin_iteration(&config, &mut messages).unwrap();
    let mut round = StreamRound::start(&mut run);
    round.apply(StreamEvent::TextDelta("Hel".to_string()));
    round.apply(StreamEvent::TextDelta("lo".to_string()));
    round.apply(StreamEvent::ContentBlockStop);
    round.apply(StreamEvent::MessageStop { stop_reason: "end_turn".to_string() });
    match round.finish(&mut run, &mut messages) {
        LoopStep::Finished(t) => assert_eq!(t, "Hello"),
        other => panic!("unexpected {:?}", other),
    }
    assert_eq!(messages.len(), 2);
    assert_eq!(run.final_response, "Hello");
}

#[test]
fn streamed_tool_input_is_compacted_json() {
    let mut run = LoopRun::new();
    let mut messages = vec![Message::user("run it")];
    let mut round = StreamRound::start(&mut run);
    round.apply(StreamEvent::ToolUseStart { id: "t1".to_string(), name: "bash".to_string() });
    round.apply(StreamEvent::ToolUseInputDelta("{\"command\": ".to_string()));
    round.apply(StreamEvent::ToolUseInputDelta("\"ls\" }".to_string()));
    round.apply(StreamEvent::ContentBlockStop);
    round.apply(StreamEvent::ToolUseStart { id: "t2".to_string(), name: "bad".to_string() });
    round.apply(StreamEvent::ToolUseInputDelta("{not json".to_string()));
    round.apply(StreamEvent::ContentBlockStop);
    round.apply(StreamEvent::MessageStop { stop_reason: "tool_use".to_string() });
    match round.finish(&mut run, &mut messages) {
        LoopStep::RunTools(calls) => {
            assert_eq!(calls.len(), 2);
            assert_eq!(calls[0].arguments, r#"{"command":"ls"}"#);
            assert_eq!(calls[1].arguments, "null");
        }
        other => panic!("unexpected {:?}", other),
    }
}

#[test]
fn empty_streamed_round_adds_nothing() {
    let mut run = LoopRun::new();
    run.final_response = "earlier".to_string();
    let mut messages = vec![Message::user("x")];
    let mut round = StreamRound::start(&mut run);
    round.apply(StreamEvent::MessageStop { stop_reason: "end_turn".to_string() });
    match round.finish(&mut run, &mut messages) {
        LoopStep::Finished(t) => assert_eq!(t, "earlier"),
        other => panic!("unexpected {:?}", other),
    }
    assert_eq!(messages.len(), 1);
}

#[test]
fn agent_loop_test_builder_pattern() {
    let loop_impl = zero::agent::DefaultAgentLoop::new("provider", "dispatcher").with_hooks("hooks");
    assert!(loop_impl.hooks().is_some());
}

#[test]
fn agent_loop_test_verbose_logging() {
    let config = AgentLoopConfig::default().with_verbose_logging(true);
    let mut messages = vec![Message::user("Test")];
    let mut run = LoopRun::new();
    assert!(run.begin_iteration(&config, &mut messages).is_ok());
    assert!(matches!(run.on_response(&mut messages, text_answer("Hello")), LoopStep::Finished(_)));
}
