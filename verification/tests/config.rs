use zero::config::{
    config_path_for, default_tool_timeout, default_true, join_path, work_dir_for, ChannelConfig,
    Config, ConfigError, InitError, ProviderConfig, ToolConfig, YamlConfigLoader,
};

#[test]
fn test_config_default() {
    let config = Config::default();
    assert_eq!(config.name, Some("Zero Agent".to_string()));
    assert!(config.provider.is_some());
    assert!(config.tool.is_some());
    assert!(config.channel.is_some());
}

#[test]
fn section_defaults() {
    let p = ProviderConfig::default();
    assert_eq!(p.name, Some("anthropic".to_string()));
    assert!(p.api_key.is_none() && p.model.is_none() && p.endpoint.is_none() && p.system_prompt.is_none());
    assert!(!p.stream);
    let t = ToolConfig::default();
    assert!(t.enabled);
    assert!(t.paths.is_empty());
    assert_eq!(t.timeout, 60);
    let c = ChannelConfig::default();
    assert_eq!(c.type_, "cli");
    assert!(c.webhook_url.is_none());
    assert!(c.enabled);
    assert!(default_true());
    assert_eq!(default_tool_timeout(), 60);
    let cfg = Config::default();
    assert_eq!(cfg.version, Some("1.0.0".to_string()));
    assert_eq!(cfg.description, Some("A smart AI agent for coding".to_string()));
    assert_eq!(cfg.settings.map(|s| s.len()), Some(0));
    assert_eq!(cfg.features, Some(vec![]));
    assert!(Config::default().validate().is_ok());
}

#[test]
fn config_errors_and_their_texts() {
    assert_eq!(ConfigError::NotFound("a".to_string()).to_text(), "Config not found: a");
    assert_eq!(ConfigError::Invalid("b".to_string()).to_text(), "Config invalid: b");
    assert_eq!(ConfigError::LoadFailed("c".to_string()).to_text(), "Config load failed: c");
    assert_eq!(ConfigError::SaveFailed("d".to_string()).to_text(), "Config save failed: d");
    assert_eq!(ConfigError::FormatError("e".to_string()).to_text(), "Config format error: e");
    assert_eq!(
        Config::read_failed("/x.yaml", "denied"),
        ConfigError::LoadFailed("Cannot read config file '/x.yaml': denied".to_string())
    );
    assert_eq!(
        Config::parse_failed("/x.yaml", "bad"),
        ConfigError::LoadFailed("Cannot parse config in '/x.yaml': bad".to_string())
    );
}

#[test]
fn yaml_loader_rules() {
    let l = YamlConfigLoader;
    assert_eq!(l.require_path(None), Err(ConfigError::NotFound("path required".to_string())));
    assert_eq!(l.require_path(Some("a.yaml")), Ok("a.yaml".to_string()));
    assert_eq!(l.read_error("gone"), ConfigError::LoadFailed("YAML load error: gone".to_string()));
    assert_eq!(l.parse_error("tab"), ConfigError::LoadFailed("YAML parse error: tab".to_string()));
    assert_eq!(l.convert_error("nan"), ConfigError::LoadFailed("YAML to JSON error: nan".to_string()));
    assert_eq!(l.save(), Err(ConfigError::SaveFailed("save not implemented".to_string())));
    assert!(l.validate().is_ok());
}

#[test]
fn work_directory_paths() {
    assert_eq!(work_dir_for(Some("/home/a".to_string())), Ok("/home/a/.zero".to_string()));
    assert_eq!(work_dir_for(Some("/home/a/".to_string())), Ok("/home/a/.zero".to_string()));
    assert_eq!(work_dir_for(Some(String::new())), Err(InitError::HomeDirNotFound));
    assert_eq!(work_dir_for(None), Err(InitError::HomeDirNotFound));
    assert_eq!(config_path_for("/home/a/.zero"), "/home/a/.zero/config.yaml");
    assert_eq!(join_path("rel", "x"), "rel/x");
    assert_eq!(join_path("", "x"), "x");
    assert_eq!(join_path("dir/", "x"), "dir/x");
    assert_eq!(join_path("dir", "/abs/x"), "/abs/x");
    assert_eq!(config_path_for(""), "config.yaml");
    assert_eq!(InitError::HomeDirNotFound.to_text(), "Home directory not found");
    assert_eq!(
        InitError::ConfigLoadFailed(ConfigError::Invalid("q".to_string())).to_text(),
        "Config load failed: Config invalid: q"
    );
    assert_eq!(
        InitError::WorkDirCreateFailed("denied".to_string()).to_text(),
        "Failed to create work directory: denied"
    );
}
