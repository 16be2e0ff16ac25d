//! Configuration of the agent loop: limits, timeouts and feature flags.

use vstd::prelude::*;

verus! {

/// A span of whole seconds, as the loop hands it to its timers.
#[derive(Clone, Copy, Debug, PartialEq, Eq)]
pub struct Duration {
    secs: u64,
}

impl Duration {
    /// The number of whole seconds the span holds.
    pub closed spec fn seconds(self) -> u64 {
        self.secs
    }

    /// A span of `secs` seconds.
    pub fn from_secs(secs: u64) -> (d: Duration)
        ensures
            d.seconds() == secs,
    {
        Duration { secs }
    }

    /// The number of whole seconds in the span.
    pub fn as_secs(&self) -> (s: u64)
        ensures
            s == self.seconds(),
    {
        self.secs
    }
}

/// Configuration for the agent loop execution.
#[derive(Clone, Debug)]
pub struct AgentLoopConfig {
    /// Maximum number of iterations before stopping (default 100).
    pub max_iterations: usize,
    /// Timeout for one provider call, in seconds (default 300).
    pub provider_timeout: u64,
    /// Timeout for one tool execution, in seconds (default 120).
    pub tool_timeout: u64,
    /// Whether the hook system runs (default true).
    pub enable_hooks: bool,
    /// Whether message history is saved (default true).
    pub save_history: bool,
    /// Maximum number of concurrent tool executions (default 4).
    pub max_concurrent_tools: usize,
    /// Whether verbose diagnostics are printed (default false).
    pub verbose_logging: bool,
    /// Context tokens above which compaction runs; 0 disables it (default 0).
    pub max_context_tokens: usize,
}

/// The configuration that `AgentLoopConfig::default` and `AgentLoopConfig::new` give.
pub open spec fn default_loop_config() -> AgentLoopConfig {
    AgentLoopConfig {
        max_iterations: 100,
        provider_timeout: 300,
        tool_timeout: 120,
        enable_hooks: true,
        save_history: true,
        max_concurrent_tools: 4,
        verbose_logging: false,
        max_context_tokens: 0,
    }
}

impl Default for AgentLoopConfig {
    fn default() -> (c: Self)
        ensures
            c == default_loop_config(),
    {
        AgentLoopConfig {
            max_iterations: 100,
            provider_timeout: 300,
            tool_timeout: 120,
            enable_hooks: true,
            save_history: true,
            max_concurrent_tools: 4,
            verbose_logging: false,
            max_context_tokens: 0,
        }
    }
}

impl AgentLoopConfig {
    /// A configuration with the default values.
    pub fn new() -> (c: Self)
        ensures
            c == default_loop_config(),
    {
        Self::default()
    }

    /// Sets the maximum number of iterations.
    pub fn with_max_iterations(self, max_iterations: usize) -> (c: Self)
        ensures
            c == (AgentLoopConfig { max_iterations, ..self }),
    {
        AgentLoopConfig { max_iterations, ..self }
    }

    /// Sets the provider timeout, in seconds.
    pub fn with_provider_timeout(self, timeout: u64) -> (c: Self)
        ensures
            c == (AgentLoopConfig { provider_timeout: timeout, ..self }),
    {
        AgentLoopConfig { provider_timeout: timeout, ..self }
    }

    /// Sets the tool timeout, in seconds.
    pub fn with_tool_timeout(self, timeout: u64) -> (c: Self)
        ensures
            c == (AgentLoopConfig { tool_timeout: timeout, ..self }),
    {
        AgentLoopConfig { tool_timeout: timeout, ..self }
    }

    /// Enables or disables hooks.
    pub fn with_hooks(self, enable_hooks: bool) -> (c: Self)
        ensures
            c == (AgentLoopConfig { enable_hooks, ..self }),
    {
        AgentLoopConfig { enable_hooks, ..self }
    }

    /// Enables or disables history saving.
    pub fn with_history(self, save_history: bool) -> (c: Self)
        ensures
            c == (AgentLoopConfig { save_history, ..self }),
    {
        AgentLoopConfig { save_history, ..self }
    }

    /// Sets the maximum number of concurrent tool executions.
    pub fn with_max_concurrent_tools(self, max: usize) -> (c: Self)
        ensures
            c == (AgentLoopConfig { max_concurrent_tools: max, ..self }),
    {
        AgentLoopConfig { max_concurrent_tools: max, ..self }
    }

    /// Enables or disables verbose logging.
    pub fn with_verbose_logging(self, verbose: bool) -> (c: Self)
        ensures
            c == (AgentLoopConfig { verbose_logging: verbose, ..self }),
    {
        AgentLoopConfig { verbose_logging: verbose, ..self }
    }

    /// Sets the context size above which compaction runs (0 disables it).
    pub fn with_max_context_tokens(self, max: usize) -> (c: Self)
        ensures
            c == (AgentLoopConfig { max_context_tokens: max, ..self }),
    {
        AgentLoopConfig { max_context_tokens: max, ..self }
    }

    /// The provider timeout as a span of seconds.
    pub fn provider_timeout_duration(&self) -> (d: Duration)
        ensures
            d.seconds() == self.provider_timeout,
    {
        Duration::from_secs(self.provider_timeout)
    }

    /// The tool timeout as a span of seconds.
    pub fn tool_timeout_duration(&self) -> (d: Duration)
        ensures
            d.seconds() == self.tool_timeout,
    {
        Duration::from_secs(self.tool_timeout)
    }
}

} // verus!
