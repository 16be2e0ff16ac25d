use zero::context_manager::ContextManager;
use zero::message::{ContentBlock, Message, ToolResultContent};
use zero::token_counter::TokenCounter;

fn make_user_msg(s: &str) -> Message {
    Message::user(s)
}

fn make_assistant_msg(s: &str) -> Message {
    Message::assistant(vec![ContentBlock::text(s)])
}

fn make_tool_result(id: &str, content: &str) -> Message {
    Message::tool_result(id.to_string(), content)
}

fn first_result(m: &Message) -> String {
    match m {
        Message::ToolResult { content } => match &content[0] {
            ToolResultContent::ToolResult { content, .. } => content.clone(),
        },
        _ => panic!("Expected ToolResult message"),
    }
}

#[test]
fn test_builder_with_counter() {
    let cm = ContextManager::new(100_000).with_counter(TokenCounter::openai());
    let messages = vec![Message::user(&"a".repeat(100))];
    assert_eq!(cm.estimate_tokens(&messages), 29);
}

#[test]
fn test_no_compaction_when_under_threshold() {
    let cm = ContextManager::new(100_000);
    let mut messages = vec![make_user_msg("Hello"), make_assistant_msg("Hi there!")];
    let len_before = messages.len();
    cm.compact_if_needed(&mut messages);
    assert_eq!(messages.len(), len_before);
}

#[test]
fn test_estimate_tokens() {
    let cm = ContextManager::new(100_000);
    let messages = vec![make_user_msg("Hello, world!")];
    assert!(cm.estimate_tokens(&messages) > 0);
}

#[test]
fn test_trim_tool_results_long_content() {
    let cm = ContextManager::new(100).with_max_tool_result_chars(20);
    let long_content = "a".repeat(100);
    let mut messages = vec![make_user_msg("Do something"), make_tool_result("t1", &long_content)];
    cm.trim_tool_results(&mut messages);
    let content = first_result(&messages[1]);
    assert!(content.len() < 100);
    assert!(content.contains("chars truncated"));
}

#[test]
fn test_trim_tool_results_short_content_untouched() {
    let cm = ContextManager::new(100_000).with_max_tool_result_chars(1000);
    let mut messages = vec![make_user_msg("Do something"), make_tool_result("t1", "short result")];
    cm.trim_tool_results(&mut messages);
    assert_eq!(first_result(&messages[1]), "short result");
}

#[test]
fn test_trim_preserves_start_and_end() {
    let cm = ContextManager::new(100).with_max_tool_result_chars(20);
    let content = format!("{}{}{}", "A".repeat(10), "B".repeat(80), "Z".repeat(10));
    let mut messages = vec![make_user_msg("test"), make_tool_result("t1", &content)];
    cm.trim_tool_results(&mut messages);
    let trimmed = first_result(&messages[1]);
    assert!(trimmed.starts_with("AAAAAAAAAA"));
    assert!(trimmed.ends_with("ZZZZZZZZZZ"));
}

#[test]
fn test_drop_oldest_preserves_first_and_recent() {
    let cm = ContextManager::new(50).with_threshold(1, 10);
    let mut messages = vec![
        make_user_msg("First message"),
        make_assistant_msg("Response 1"),
        make_user_msg("Second"),
        make_assistant_msg("Response 2"),
        make_user_msg("Third"),
        make_assistant_msg("Response 3"),
        make_user_msg("Fourth"),
        make_assistant_msg("Response 4"),
        make_user_msg("Fifth"),
        make_assistant_msg("Final response"),
    ];
    cm.drop_oldest(&mut messages);
    assert!(messages[0].is_user());
    assert_eq!(messages[0].user_content(), Some("First message"));
    assert!(messages.len() < 10);
    assert!(messages.len() >= 7);
}

#[test]
fn test_drop_oldest_no_drop_when_few_messages() {
    let cm = ContextManager::new(10).with_threshold(1, 10);
    let mut messages = vec![
        make_user_msg("First"),
        make_assistant_msg("R1"),
        make_user_msg("Second"),
        make_assistant_msg("R2"),
    ];
    let len_before = messages.len();
    cm.drop_oldest(&mut messages);
    assert_eq!(messages.len(), len_before);
}

#[test]
fn test_compact_if_needed_full_pipeline() {
    let cm = ContextManager::new(200).with_threshold(5, 10).with_max_tool_result_chars(50);
    let large_result = "x".repeat(2000);
    let mut messages = vec![
        make_user_msg("Do something"),
        Message::assistant(vec![ContentBlock::tool_use(
            "t1".to_string(),
            "bash".to_string(),
            r#"{"command":"ls"}"#.to_string(),
        )]),
        make_tool_result("t1", &large_result),
        make_assistant_msg("Got it"),
        make_user_msg("Now do more"),
        Message::assistant(vec![ContentBlock::tool_use(
            "t2".to_string(),
            "bash".to_string(),
            r#"{"command":"cat big.txt"}"#.to_string(),
        )]),
        make_tool_result("t2", &large_result),
        make_assistant_msg("Here are the results"),
    ];
    let before_tokens = cm.estimate_tokens(&messages);
    cm.compact_if_needed(&mut messages);
    let after_tokens = cm.estimate_tokens(&messages);
    assert!(after_tokens <= before_tokens);
}

#[test]
fn test_compact_trims_before_dropping() {
    let cm = ContextManager::new(5000).with_threshold(5, 10).with_max_tool_result_chars(50);
    let large_result = "x".repeat(10_000);
    let mut messages = vec![
        make_user_msg("Hello"),
        make_tool_result("t1", &large_result),
        make_assistant_msg("Done"),
    ];
    let count_before = messages.len();
    cm.compact_if_needed(&mut messages);
    assert_eq!(messages.len(), count_before);
    let content = first_result(&messages[1]);
    assert!(content.len() < 10_000);
    assert!(content.contains("chars truncated"));
}

#[test]
fn test_multiple_tool_results_all_trimmed() {
    let cm = ContextManager::new(100).with_max_tool_result_chars(20);
    let mut messages = vec![
        make_user_msg("test"),
        Message::tool_results(vec![
            ("t1".to_string(), "a".repeat(100)),
            ("t2".to_string(), "b".repeat(100)),
        ]),
    ];
    cm.trim_tool_results(&mut messages);
    if let Message::ToolResult { content } = &messages[1] {
        for tr in content {
            let ToolResultContent::ToolResult { content, .. } = tr;
            assert!(content.len() < 100);
            assert!(content.contains("chars truncated"));
        }
    } else {
        panic!("Expected ToolResult message");
    }
}

#[test]
fn test_user_messages_not_affected_by_trim() {
    let cm = ContextManager::new(100).with_max_tool_result_chars(10);
    let long_user_msg = "x".repeat(500);
    let mut messages = vec![make_user_msg(&long_user_msg)];
    cm.trim_tool_results(&mut messages);
    assert_eq!(messages[0].user_content(), Some(long_user_msg.as_str()));
}

#[test]
fn trimmed_result_has_exact_shape() {
    let cm = ContextManager::new(100).with_max_tool_result_chars(20);
    let content = format!("{}{}", "0123456789", "abcdefghijklmnopqrstuvwxyz0123456789ABCDEFGHIJ");
    let mut messages = vec![make_tool_result("t", &content)];
    cm.trim_tool_results(&mut messages);
    assert_eq!(
        first_result(&messages[0]),
        format!("0123456789...\n[{} chars truncated]\n...{}", content.len() - 20, &content[content.len() - 10..])
    );
}

#[test]
fn threshold_is_a_fraction_of_the_budget() {
    assert_eq!(ContextManager::new(100_000).threshold_tokens(), 70_000);
    assert_eq!(ContextManager::new(200).with_threshold(5, 10).threshold_tokens(), 100);
    assert_eq!(ContextManager::new(50).with_threshold(1, 10).threshold_tokens(), 5);
}

#[test]
fn test_new_default_values() {
    let cm = ContextManager::new(100_000);
    assert_eq!(cm.max_context_tokens(), 100_000);
    assert_eq!(cm.compaction_threshold(), (7, 10));
    assert_eq!(cm.max_tool_result_chars(), 1000);
}

#[test]
fn test_builder_with_threshold() {
    let cm = ContextManager::new(100_000).with_threshold(5, 10);
    assert_eq!(cm.compaction_threshold(), (5, 10));
}

#[test]
fn test_builder_with_max_tool_result_chars() {
    let cm = ContextManager::new(100_000).with_max_tool_result_chars(500);
    assert_eq!(cm.max_tool_result_chars(), 500);
}

#[test]
fn threshold_with_zero_denominator() {
    assert_eq!(ContextManager::new(200).with_threshold(1, 0).threshold_tokens(), usize::MAX);
    assert_eq!(ContextManager::new(0).with_threshold(1, 0).threshold_tokens(), 0);
    assert_eq!(ContextManager::new(200).with_threshold(0, 0).threshold_tokens(), 0);
}
