use zero::loop_config::AgentLoopConfig;

#[test]
fn test_default_config() {
    let config = AgentLoopConfig::default();
    assert_eq!(config.max_iterations, 100);
    assert_eq!(config.provider_timeout, 300);
    assert_eq!(config.tool_timeout, 120);
    assert!(config.enable_hooks);
    assert!(config.save_history);
}

#[test]
fn loop_config_test_builder_pattern() {
    let config = AgentLoopConfig::new()
        .with_max_iterations(50)
        .with_provider_timeout(120)
        .with_tool_timeout(60)
        .with_hooks(false)
        .with_history(false);

    assert_eq!(config.max_iterations, 50);
    assert_eq!(config.provider_timeout, 120);
    assert_eq!(config.tool_timeout, 60);
    assert!(!config.enable_hooks);
    assert!(!config.save_history);
}

#[test]
fn test_timeout_to_duration() {
    let config = AgentLoopConfig::default();
    let provider_duration = config.provider_timeout_duration();
    let tool_duration = config.tool_timeout_duration();

    assert_eq!(provider_duration.as_secs(), 300);
    assert_eq!(tool_duration.as_secs(), 120);
}

#[test]
fn test_max_concurrent_tools() {
    let config = AgentLoopConfig::new().with_max_concurrent_tools(8);
    assert_eq!(config.max_concurrent_tools, 8);
}

#[test]
fn loop_config_test_verbose_logging() {
    let config = AgentLoopConfig::new().with_verbose_logging(true);
    assert!(config.verbose_logging);
}

#[test]
fn default_config_other_fields() {
    let config = AgentLoopConfig::default();
    assert_eq!(config.max_concurrent_tools, 4);
    assert!(!config.verbose_logging);
    assert_eq!(config.max_context_tokens, 0);
    let c = AgentLoopConfig::new().with_max_context_tokens(180_000);
    assert_eq!(c.max_context_tokens, 180_000);
    assert_eq!(c.max_iterations, 100);
}
