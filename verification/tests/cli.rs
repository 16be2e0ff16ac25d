use zero::cli::{
    build_tool_definitions, ToolMetadata,
    api_key_env_var, plan_provider, repl_banner, repl_input, resolve_api_key, stream_event_text,
    tool_format, ProviderName, ReplInput, ToolFormat,
};
use zero::streaming::StreamEvent;

#[test]
fn provider_plans() {
    let a = plan_provider("anthropic", None, true, "house-model").unwrap();
    assert_eq!(a.provider, ProviderName::Anthropic);
    assert!(a.streaming);
    assert_eq!(a.model_name, "house-model");
    assert!(a.needs_key);
    let o = plan_provider("openai", Some("gpt-x".to_string()), true, "h").unwrap();
    assert_eq!(o.provider, ProviderName::OpenAI);
    assert!(!o.streaming);
    assert_eq!(o.model_name, "gpt-x");
    let l = plan_provider("ollama", None, false, "h").unwrap();
    assert_eq!(l.model_name, "llama3.2");
    assert!(!l.needs_key);
    assert_eq!(plan_provider("openai", None, false, "h").unwrap().model_name, "gpt-4o");
    assert_eq!(
        plan_provider("gemini", None, false, "h").unwrap_err(),
        "Unknown provider 'gemini'. Supported: anthropic, openai, ollama"
    );
}

#[test]
fn api_keys_come_from_flag_or_environment() {
    assert_eq!(api_key_env_var("anthropic"), Ok("ANTHROPIC_API_KEY".to_string()));
    assert_eq!(api_key_env_var("openai"), Ok("OPENAI_API_KEY".to_string()));
    assert_eq!(api_key_env_var("ollama"), Err("No API key env var for provider 'ollama'".to_string()));
    assert_eq!(resolve_api_key(Some("k".to_string()), "ollama", None), Ok("k".to_string()));
    assert_eq!(resolve_api_key(None, "openai", Some("e".to_string())), Ok("e".to_string()));
    assert_eq!(
        resolve_api_key(None, "anthropic", None),
        Err("API key not provided via --api-key and ANTHROPIC_API_KEY is not set".to_string())
    );
    assert_eq!(
        resolve_api_key(None, "x", Some("e".to_string())),
        Err("No API key env var for provider 'x'".to_string())
    );
}

#[test]
fn prompt_lines() {
    assert!(matches!(repl_input("   \n"), ReplInput::Skip));
    assert!(matches!(repl_input(" exit\n"), ReplInput::Exit));
    assert!(matches!(repl_input("quit"), ReplInput::Exit));
    match repl_input("  list files \n") {
        ReplInput::Send(s) => assert_eq!(s, "list files"),
        _ => panic!("expected a prompt"),
    }
    match repl_input("exit now") {
        ReplInput::Send(s) => assert_eq!(s, "exit now"),
        _ => panic!("expected a prompt"),
    }
    assert_eq!(repl_banner("openai", "gpt-4o", false), "Zero Agent (provider: openai, model: gpt-4o)");
    assert_eq!(
        repl_banner("anthropic", "m", true),
        "Zero Agent (provider: anthropic, model: m, streaming: on)"
    );
}

#[test]
fn tool_formats_and_stream_output() {
    assert_eq!(tool_format("anthropic"), ToolFormat::Plain);
    assert_eq!(tool_format("openai"), ToolFormat::Function);
    assert_eq!(tool_format("ollama"), ToolFormat::Function);
    assert_eq!(tool_format("other"), ToolFormat::Plain);
    assert_eq!(stream_event_text(&StreamEvent::TextDelta("hi".to_string())), Some("hi".to_string()));
    assert_eq!(
        stream_event_text(&StreamEvent::ToolUseStart { id: "1".to_string(), name: "bash".to_string() }),
        Some("\n[Tool: bash]\n".to_string())
    );
    assert_eq!(stream_event_text(&StreamEvent::ContentBlockStop), None);
    assert_eq!(stream_event_text(&StreamEvent::MessageStop { stop_reason: "end_turn".to_string() }), None);
}

#[test]
fn tool_definitions_follow_the_provider_format() {
    let tools = vec![
        ToolMetadata { name: "bash".to_string(), description: "run".to_string(), input_schema: "{}".to_string() },
        ToolMetadata { name: "read".to_string(), description: "read a file".to_string(), input_schema: "[]".to_string() },
    ];
    let plain = build_tool_definitions(&tools, "anthropic");
    assert_eq!(plain.len(), 2);
    assert_eq!(plain[0].format, ToolFormat::Plain);
    assert_eq!((plain[1].name.as_str(), plain[1].description.as_str(), plain[1].input_schema.as_str()), ("read", "read a file", "[]"));
    let wrapped = build_tool_definitions(&tools, "ollama");
    assert!(wrapped.iter().all(|d| d.format == ToolFormat::Function));
    assert!(build_tool_definitions(&vec![], "openai").is_empty());
}
