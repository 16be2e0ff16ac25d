//! The parts of an agent run: its context and answer, and the holders of
//! the services an agent loop runs on.

use vstd::prelude::*;
use crate::agent_loop::ToolCall;

verus! {

/// One entry of an agent's history.
#[derive(Debug, Clone)]
pub struct HistoryEntry {
    pub role: String,
    pub content: String,
}

/// What an agent runs in: the session, the tools it may call (of type `T`)
/// and what has been said so far.
pub struct AgentContext<T> {
    pub session_id: String,
    pub tools: Vec<T>,
    pub history: Vec<HistoryEntry>,
}

impl<T> AgentContext<T> {
    /// The context of session `session_id`, with no tools and no history.
    pub fn new(session_id: String) -> (r: Self)
        ensures
            r.session_id@ == session_id@,
            r.tools@.len() == 0,
            r.history@.len() == 0,
    {
        AgentContext { session_id, tools: Vec::new(), history: Vec::new() }
    }
}

/// What an agent answers: text, the tools it asks for, and further entries.
#[derive(Debug)]
pub struct AgentResponse {
    pub content: String,
    pub tool_calls: Vec<ToolCall>,
    /// Further entries as key and value.
    pub metadata: Vec<(String, String)>,
}

/// The marker of an agent that runs hooks around another; it carries no data.
#[derive(Debug, Clone, Copy)]
pub struct HookedAgent;

impl HookedAgent {
    pub fn new() -> (r: Self) {
        HookedAgent
    }
}

/// The holder of what the agent loop runs on: a provider of type `P`, a
/// tool dispatcher of type `D`, and, if given, a hook manager of type `H`.
pub struct DefaultAgentLoop<P, D, H> {
    provider: P,
    tool_dispatcher: D,
    hooks: Option<H>,
}

impl<P, D, H> DefaultAgentLoop<P, D, H> {
    /// A loop on `provider` and `tool_dispatcher`, without hooks.
    pub fn new(provider: P, tool_dispatcher: D) -> (r: Self)
        ensures
            r.provider_spec() == provider,
            r.tool_dispatcher_spec() == tool_dispatcher,
            r.hooks_spec() is None,
    {
        DefaultAgentLoop { provider, tool_dispatcher, hooks: None }
    }

    pub closed spec fn provider_spec(&self) -> P {
        self.provider
    }

    pub closed spec fn tool_dispatcher_spec(&self) -> D {
        self.tool_dispatcher
    }

    pub closed spec fn hooks_spec(&self) -> Option<H> {
        self.hooks
    }

    /// The same loop with the hook manager `hooks`.
    pub fn with_hooks(self, hooks: H) -> (r: Self)
        ensures
            r.provider_spec() == self.provider_spec(),
            r.tool_dispatcher_spec() == self.tool_dispatcher_spec(),
            r.hooks_spec() == Some(hooks),
    {
        DefaultAgentLoop { provider: self.provider, tool_dispatcher: self.tool_dispatcher, hooks: Some(hooks) }
    }

    /// The provider.
    pub fn provider(&self) -> (r: &P)
        ensures
            *r == self.provider_spec(),
    {
        &self.provider
    }

    /// The tool dispatcher.
    pub fn tool_dispatcher(&self) -> (r: &D)
        ensures
            *r == self.tool_dispatcher_spec(),
    {
        &self.tool_dispatcher
    }

    /// The hook manager, if there is one.
    pub fn hooks(&self) -> (r: Option<&H>)
        ensures
            match self.hooks_spec() {
                Some(h) => r matches Some(x) && *x == h,
                None => r is None,
            },
    {
        match &self.hooks {
            Some(h) => Some(h),
            None => None,
        }
    }
}

/// The holder of what the streaming agent loop runs on: a streaming
/// provider of type `P` and a tool dispatcher of type `D`.
pub struct StreamingAgentLoop<P, D> {
    provider: P,
    tool_dispatcher: D,
}

impl<P, D> StreamingAgentLoop<P, D> {
    /// A streaming loop on `provider` and `tool_dispatcher`.
    pub fn new(provider: P, tool_dispatcher: D) -> (r: Self)
        ensures
            r.provider_spec() == provider,
            r.tool_dispatcher_spec() == tool_dispatcher,
    {
        StreamingAgentLoop { provider, tool_dispatcher }
    }

    pub closed spec fn provider_spec(&self) -> P {
        self.provider
    }

    pub closed spec fn tool_dispatcher_spec(&self) -> D {
        self.tool_dispatcher
    }

    /// The provider.
    pub fn provider(&self) -> (r: &P)
        ensures
            *r == self.provider_spec(),
    {
        &self.provider
    }

    /// The tool dispatcher.
    pub fn tool_dispatcher(&self) -> (r: &D)
        ensures
            *r == self.tool_dispatcher_spec(),
    {
        &self.tool_dispatcher
    }
}

} // verus!
