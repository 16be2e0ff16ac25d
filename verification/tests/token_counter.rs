use zero::message::{ContentBlock, Message};
use zero::token_counter::TokenCounter;

#[test]
fn test_count_empty_messages() {
    let counter = TokenCounter::default();
    let messages: Vec<Message> = vec![];
    assert_eq!(counter.count_messages(&messages), 0);
}

#[test]
fn test_count_single_user_message() {
    let counter = TokenCounter::default();
    let messages = vec![Message::user("Hello, world!")];
    assert_eq!(counter.count_messages(&messages), 7);
}

#[test]
fn test_count_assistant_with_text() {
    let counter = TokenCounter::default();
    let text = "This is a response from the assistant.";
    let messages = vec![Message::assistant(vec![ContentBlock::text(text)])];
    let count = counter.count_messages(&messages);
    let expected = (text.len() as f64 / 3.5) as usize + 4;
    assert_eq!(count, expected);
}

#[test]
fn test_count_assistant_with_tool_use() {
    let counter = TokenCounter::default();
    let json_str = r#"{"command":"ls -la"}"#;
    let messages = vec![Message::assistant(vec![
        ContentBlock::text("Let me check."),
        ContentBlock::tool_use("toolu_1".to_string(), "bash".to_string(), json_str.to_string()),
    ])];
    let count = counter.count_messages(&messages);
    let total_chars = 13 + 7 + 4 + json_str.len();
    let expected = (total_chars as f64 / 3.5) as usize + 4;
    assert_eq!(count, expected);
}

#[test]
fn test_count_tool_result() {
    let counter = TokenCounter::default();
    let messages = vec![Message::tool_result("toolu_1".to_string(), "file1.txt\nfile2.txt")];
    let count = counter.count_messages(&messages);
    let expected = (26_f64 / 3.5) as usize + 4;
    assert_eq!(count, expected);
}

#[test]
fn test_count_multiple_tool_results() {
    let counter = TokenCounter::default();
    let messages = vec![Message::tool_results(vec![
        ("toolu_1".to_string(), "result 1".to_string()),
        ("toolu_2".to_string(), "result 2".to_string()),
    ])];
    let count = counter.count_messages(&messages);
    let expected = (30_f64 / 3.5) as usize + 4;
    assert_eq!(count, expected);
}

#[test]
fn test_count_full_conversation() {
    let counter = TokenCounter::default();
    let messages = vec![
        Message::user("List files"),
        Message::assistant(vec![
            ContentBlock::text("I'll check."),
            ContentBlock::tool_use("t1".to_string(), "bash".to_string(), r#"{"command":"ls"}"#.to_string()),
        ]),
        Message::tool_result("t1".to_string(), "README.md\nsrc/"),
        Message::assistant(vec![ContentBlock::text("Here are the files.")]),
    ];
    let count = counter.count_messages(&messages);
    assert!(count > 0);
    assert!(count >= 16);
}

#[test]
fn test_estimates_are_reasonable() {
    let counter = TokenCounter::anthropic();
    let text = "a".repeat(100);
    let messages = vec![Message::user(&text)];
    assert_eq!(counter.count_messages(&messages), 32);

    let openai_counter = TokenCounter::openai();
    let messages2 = vec![Message::user(&"a".repeat(100))];
    assert_eq!(openai_counter.count_messages(&messages2), 29);
}

#[test]
fn test_overhead_per_message() {
    let counter = TokenCounter::default();
    let messages = vec![Message::user(""), Message::user("")];
    assert_eq!(counter.count_messages(&messages), 8);
}

#[test]
fn test_large_tool_result() {
    let counter = TokenCounter::default();
    let large_content = "x".repeat(10_000);
    let messages = vec![Message::tool_result("id".to_string(), &large_content)];
    let count = counter.count_messages(&messages);
    let expected = (10002_f64 / 3.5) as usize + 4;
    assert_eq!(count, expected);
}

#[test]
fn counts_bytes_and_custom_ratios() {
    // "é" is two bytes of UTF-8: 14 bytes * 2 / 7 = 4, plus 4
    let messages = vec![Message::user("ééééééé")];
    assert_eq!(TokenCounter::default().count_messages(&messages), 8);
    // two bytes per token: 14 / 2 = 7, plus 4
    assert_eq!(TokenCounter::new(2, 1).count_messages(&messages), 11);
}

#[test]
fn longer_history_never_estimates_lower() {
    let counter = TokenCounter::default();
    let mut messages = vec![Message::user("first question")];
    let before = counter.count_messages(&messages);
    messages.push(Message::user(""));
    let after = counter.count_messages(&messages);
    assert!(after >= before + 4);
}

#[test]
fn test_anthropic_default() {
    let counter = TokenCounter::anthropic();
    assert_eq!(counter.chars_per_token(), (7, 2));
}

#[test]
fn test_openai_default() {
    let counter = TokenCounter::openai();
    assert_eq!(counter.chars_per_token(), (4, 1));
}

#[test]
fn test_custom_ratio() {
    let counter = TokenCounter::new(2, 1);
    assert_eq!(counter.chars_per_token(), (2, 1));
}

#[test]
fn test_default_is_anthropic() {
    let counter = TokenCounter::default();
    assert_eq!(counter.chars_per_token(), (7, 2));
}

#[test]
fn degenerate_ratios() {
    let messages = vec![Message::user("abc")];
    // An infinite ratio (zero denominator) gives no tokens beyond the overhead.
    assert_eq!(TokenCounter::new(5, 0).count_messages(&messages), 4);
    assert_eq!(TokenCounter::new(0, 0).count_messages(&messages), 4);
    // A zero ratio gives no tokens for an empty text.
    let empty = vec![Message::user("")];
    assert_eq!(TokenCounter::new(0, 1).count_messages(&empty), 4);
    assert_eq!(TokenCounter::new(0, 1).count_messages(&Vec::new()), 0);
}
