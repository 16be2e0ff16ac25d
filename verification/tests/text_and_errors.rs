use zero::error::{AgentError, ChannelError, MemoryError, ProviderError, ToolError, ZeroError};
use zero::text::{contains_text, str_eq, trim, with_decimal};

#[test]
fn trimming_matches_std() {
    for s in ["", "  ", " a ", "\u{a0}x\u{2003}", "\t\n a b \r", "abc", "\u{85}z"] {
        assert_eq!(trim(s), s.trim());
    }
}

#[test]
fn substring_search() {
    assert!(contains_text("hello world", "lo w"));
    assert!(contains_text("abc", ""));
    assert!(contains_text("abc", "abc"));
    assert!(!contains_text("ab", "abc"));
    assert!(!contains_text("Not found", "not found"));
}

#[test]
fn small_text_helpers() {
    assert!(str_eq("a", "a"));
    assert!(!str_eq("a", "b"));
    assert_eq!(zero::text::owned("ab"), "ab");
    assert_eq!(with_decimal("n=", 0), "n=0");
    assert_eq!(with_decimal("n=", 18446744073709551615), "n=18446744073709551615");
}

#[test]
fn error_texts() {
    assert_eq!(AgentError::MaxIterationsExceeded(5).to_text(), "Max iterations exceeded: 5");
    assert_eq!(AgentError::ExecutionFailed("x".to_string()).to_text(), "Execution failed: x");
    assert_eq!(ToolError::NotSupported("y".to_string()).to_text(), "Not supported: y");
    assert_eq!(MemoryError::SearchFailed("z".to_string()).to_text(), "Search failed: z");
    assert_eq!(ProviderError::RateLimited("r".to_string()).to_text(), "Rate limited: r");
    assert_eq!(ChannelError::SendFailed("s".to_string()).to_text(), "Send failed: s");
    assert_eq!(ZeroError::Config("c".to_string()).to_text(), "Config error: c");
    assert_eq!(
        ZeroError::Channel(ChannelError::ReceiveFailed("q".to_string())).to_text(),
        "Channel error: Receive failed: q"
    );
    assert_eq!(
        ZeroError::Memory(MemoryError::StoreFailed("m".to_string())).to_text(),
        "Memory error: Store failed: m"
    );
    assert_eq!(
        ZeroError::Provider(ProviderError::InvalidResponse("i".to_string())).to_text(),
        "Provider error: Invalid response: i"
    );
}

#[test]
fn trimming_twice_is_trimming_once() {
    for s in ["  a b  ", "\u{3000}\u{3000}", "x", "\n\tlead", "trail\u{2028}"] {
        let once = trim(s);
        assert_eq!(trim(&once), once);
        assert!(!once.starts_with(char::is_whitespace));
        assert!(!once.ends_with(char::is_whitespace));
    }
}
