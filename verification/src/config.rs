//! The runtime's configuration: its defaults, its errors, and the steps of
//! finding and loading the configuration file of a user's work directory.
//!
//! Reading files and parsing YAML happen outside the library; the library
//! decides which path is read and what each failure is reported as.

use vstd::prelude::*;
use crate::text::{concat, owned};

verus! {

/// Why configuration could not be had.
#[derive(Debug, Clone, PartialEq, Eq)]
pub enum ConfigError {
    NotFound(String),
    Invalid(String),
    LoadFailed(String),
    SaveFailed(String),
    FormatError(String),
}

/// The text of a configuration error.
pub open spec fn config_error_text(e: ConfigError) -> Seq<char> {
    match e {
        ConfigError::NotFound(m) => "Config not found: "@ + m@,
        ConfigError::Invalid(m) => "Config invalid: "@ + m@,
        ConfigError::LoadFailed(m) => "Config load failed: "@ + m@,
        ConfigError::SaveFailed(m) => "Config save failed: "@ + m@,
        ConfigError::FormatError(m) => "Config format error: "@ + m@,
    }
}

impl ConfigError {
    /// The text of the error.
    pub fn to_text(&self) -> (r: String)
        ensures
            r@ == config_error_text(*self),
    {
        match self {
            ConfigError::NotFound(m) => concat("Config not found: ", m.as_str()),
            ConfigError::Invalid(m) => concat("Config invalid: ", m.as_str()),
            ConfigError::LoadFailed(m) => concat("Config load failed: ", m.as_str()),
            ConfigError::SaveFailed(m) => concat("Config save failed: ", m.as_str()),
            ConfigError::FormatError(m) => concat("Config format error: ", m.as_str()),
        }
    }
}

/// The provider section: which model service to use and how.
#[derive(Debug)]
pub struct ProviderConfig {
    /// The service: anthropic, openai or ollama.
    pub name: Option<String>,
    pub api_key: Option<String>,
    pub model: Option<String>,
    pub endpoint: Option<String>,
    /// Whether answers are streamed.
    pub stream: bool,
    pub system_prompt: Option<String>,
}

/// Whether `o` is the given text.
pub open spec fn is_text(o: Option<String>, t: Seq<char>) -> bool {
    match o {
        Some(s) => s@ == t,
        None => false,
    }
}

impl Default for ProviderConfig {
    /// The anthropic service, with nothing else set and no streaming.
    fn default() -> (r: Self)
        ensures
            is_text(r.name, "anthropic"@),
            r.api_key is None,
            r.model is None,
            r.endpoint is None,
            !r.stream,
            r.system_prompt is None,
    {
        ProviderConfig {
            name: Some(owned("anthropic")),
            api_key: None,
            model: None,
            endpoint: None,
            stream: false,
            system_prompt: None,
        }
    }
}

/// The tool section.
#[derive(Debug)]
pub struct ToolConfig {
    /// Whether the built-in tools are on.
    pub enabled: bool,
    /// The built-in tools to load.
    pub paths: Vec<String>,
    /// The timeout of a shell command, in seconds.
    pub timeout: u64,
}

/// The value a missing on/off setting takes: on.
pub fn default_true() -> (r: bool)
    ensures
        r,
{
    true
}

/// The timeout a tool section without one gets, in seconds.
pub open spec fn tool_timeout_default() -> u64 {
    60
}

/// The timeout a tool section without one gets: 60 seconds.
pub fn default_tool_timeout() -> (r: u64)
    ensures
        r == tool_timeout_default(),
{
    60
}

impl Default for ToolConfig {
    /// Tools on, no extra tools, a 60-second timeout.
    fn default() -> (r: Self)
        ensures
            r.enabled,
            r.paths@.len() == 0,
            r.timeout == tool_timeout_default(),
    {
        ToolConfig { enabled: true, paths: Vec::new(), timeout: 60 }
    }
}

/// The channel section.
#[derive(Debug)]
pub struct ChannelConfig {
    /// The kind of channel: cli, discord or slack (the key is `type` in the file).
    pub type_: String,
    pub webhook_url: Option<String>,
    pub enabled: bool,
}

impl Default for ChannelConfig {
    /// The command-line channel, on, without a webhook.
    fn default() -> (r: Self)
        ensures
            r.type_@ == "cli"@,
            r.webhook_url is None,
            r.enabled,
    {
        ChannelConfig { type_: owned("cli"), webhook_url: None, enabled: true }
    }
}

/// The whole configuration.
#[derive(Debug)]
pub struct Config {
    pub name: Option<String>,
    pub version: Option<String>,
    pub description: Option<String>,
    pub provider: Option<ProviderConfig>,
    pub tool: Option<ToolConfig>,
    pub channel: Option<ChannelConfig>,
    /// Further settings: each key with its value written as YAML text.
    pub settings: Option<Vec<(String, String)>>,
    pub features: Option<Vec<String>>,
}

impl Default for Config {
    /// The configuration used when there is no file: named Zero Agent, with
    /// the default provider, tool and channel sections and nothing else.
    fn default() -> (r: Self)
        ensures
            is_text(r.name, "Zero Agent"@),
            is_text(r.version, "1.0.0"@),
            is_text(r.description, "A smart AI agent for coding"@),
            r.provider matches Some(p) && is_text(p.name, "anthropic"@) && !p.stream,
            r.tool matches Some(t) && t.enabled && t.timeout == tool_timeout_default(),
            r.channel matches Some(c) && c.type_@ == "cli"@ && c.enabled,
            r.settings matches Some(s) && s@.len() == 0,
            r.features matches Some(f) && f@.len() == 0,
    {
        Config {
            name: Some(owned("Zero Agent")),
            version: Some(owned("1.0.0")),
            description: Some(owned("A smart AI agent for coding")),
            provider: Some(ProviderConfig::default()),
            tool: Some(ToolConfig::default()),
            channel: Some(ChannelConfig::default()),
            settings: Some(Vec::new()),
            features: Some(Vec::new()),
        }
    }
}

impl Config {
    /// Checks the configuration; every configuration passes.
    pub fn validate(&self) -> (r: Result<(), ConfigError>)
        ensures
            r is Ok,
    {
        Ok(())
    }

    /// The error when the file at `path` cannot be read, `detail` saying why.
    pub fn read_failed(path: &str, detail: &str) -> (r: ConfigError)
        ensures
            r matches ConfigError::LoadFailed(m) && m@ == "Cannot read config file '"@ + path@ + "': "@ + detail@,
    {
        let mut m = concat("Cannot read config file '", path);
        m.append("': ");
        m.append(detail);
        ConfigError::LoadFailed(m)
    }

    /// The error when the file at `path` does not parse, `detail` saying why.
    pub fn parse_failed(path: &str, detail: &str) -> (r: ConfigError)
        ensures
            r matches ConfigError::LoadFailed(m) && m@ == "Cannot parse config in '"@ + path@ + "': "@ + detail@,
    {
        let mut m = concat("Cannot parse config in '", path);
        m.append("': ");
        m.append(detail);
        ConfigError::LoadFailed(m)
    }
}

/// The loader of YAML configuration files.
#[derive(Debug, Clone, Copy)]
pub struct YamlConfigLoader;

impl YamlConfigLoader {
    /// The path to load from; loading without one fails.
    pub fn require_path(&self, path: Option<&str>) -> (r: Result<String, ConfigError>)
        ensures
            match path {
                Some(p) => r matches Ok(s) && s@ == p@,
                None => r matches Err(ConfigError::NotFound(m)) && m@ == "path required"@,
            },
    {
        match path {
            Some(p) => Ok(owned(p)),
            None => Err(ConfigError::NotFound(owned("path required"))),
        }
    }

    /// The error when the file cannot be read, `detail` saying why.
    pub fn read_error(&self, detail: &str) -> (r: ConfigError)
        ensures
            r matches ConfigError::LoadFailed(m) && m@ == "YAML load error: "@ + detail@,
    {
        ConfigError::LoadFailed(concat("YAML load error: ", detail))
    }

    /// The error when the file is not YAML, `detail` saying why.
    pub fn parse_error(&self, detail: &str) -> (r: ConfigError)
        ensures
            r matches ConfigError::LoadFailed(m) && m@ == "YAML parse error: "@ + detail@,
    {
        ConfigError::LoadFailed(concat("YAML parse error: ", detail))
    }

    /// The error when the YAML value has no JSON form, `detail` saying why.
    pub fn convert_error(&self, detail: &str) -> (r: ConfigError)
        ensures
            r matches ConfigError::LoadFailed(m) && m@ == "YAML to JSON error: "@ + detail@,
    {
        ConfigError::LoadFailed(concat("YAML to JSON error: ", detail))
    }

    /// Saving is not offered by this loader.
    pub fn save(&self) -> (r: Result<(), ConfigError>)
        ensures
            r matches Err(ConfigError::SaveFailed(m)) && m@ == "save not implemented"@,
    {
        Err(ConfigError::SaveFailed(owned("save not implemented")))
    }

    /// Every value passes this loader's check.
    pub fn validate(&self) -> (r: Result<(), ConfigError>)
        ensures
            r is Ok,
    {
        Ok(())
    }
}

/// Why the runtime could not start.
#[derive(Debug, Clone, PartialEq, Eq)]
pub enum InitError {
    /// `HOME` is unset or empty.
    HomeDirNotFound,
    /// The work directory could not be made; the payload says why.
    WorkDirCreateFailed(String),
    ConfigLoadFailed(ConfigError),
}

/// The text of a start-up error.
pub open spec fn init_error_text(e: InitError) -> Seq<char> {
    match e {
        InitError::HomeDirNotFound => "Home directory not found"@,
        InitError::WorkDirCreateFailed(m) => "Failed to create work directory: "@ + m@,
        InitError::ConfigLoadFailed(c) => "Config load failed: "@ + config_error_text(c),
    }
}

impl InitError {
    /// The text of the error.
    pub fn to_text(&self) -> (r: String)
        ensures
            r@ == init_error_text(*self),
    {
        match self {
            InitError::HomeDirNotFound => owned("Home directory not found"),
            InitError::WorkDirCreateFailed(m) => concat("Failed to create work directory: ", m.as_str()),
            InitError::ConfigLoadFailed(c) => {
                let t = c.to_text();
                concat("Config load failed: ", t.as_str())
            },
        }
    }
}

/// `dir` joined with `name`, as `Path::join` does it: an absolute `name`
/// replaces `dir`; otherwise a separator goes in between unless `dir` is
/// empty or already ends with one.
pub open spec fn path_join(dir: Seq<char>, name: Seq<char>) -> Seq<char> {
    if name.len() > 0 && name[0] == '/' {
        name
    } else if dir.len() == 0 || dir.last() == '/' {
        dir + name
    } else {
        dir + "/"@ + name
    }
}

/// `dir` joined with `name`.
pub fn join_path(dir: &str, name: &str) -> (r: String)
    ensures
        r@ == path_join(dir@, name@),
{
    let ns = crate::text::chars_of(name);
    if ns.len() > 0 && ns[0] == '/' {
        return owned(name);
    }
    let cs = crate::text::chars_of(dir);
    let mut r = owned(dir);
    if cs.len() > 0 && cs[cs.len() - 1] != '/' {
        r.append("/");
    }
    r.append(name);
    r
}

/// The work directory for the home directory `home` (the value of `HOME`,
/// if set): `.zero` in it; an unset or empty home is an error.
pub fn work_dir_for(home: Option<String>) -> (r: Result<String, InitError>)
    ensures
        match home {
            Some(h) => if h@.len() > 0 {
                r matches Ok(w) && w@ == path_join(h@, ".zero"@)
            } else {
                r matches Err(InitError::HomeDirNotFound)
            },
            None => r matches Err(InitError::HomeDirNotFound),
        },
{
    match home {
        Some(h) => {
            if h.as_str().is_empty() {
                Err(InitError::HomeDirNotFound)
            } else {
                Ok(join_path(h.as_str(), ".zero"))
            }
        },
        None => Err(InitError::HomeDirNotFound),
    }
}

/// The configuration file of the work directory `work_dir`: `config.yaml` in it.
pub fn config_path_for(work_dir: &str) -> (r: String)
    ensures
        r@ == path_join(work_dir@, "config.yaml"@),
{
    join_path(work_dir, "config.yaml")
}

} // verus!
