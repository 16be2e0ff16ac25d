//! Error types of the agent runtime.

use vstd::prelude::*;
use crate::text::{concat, decimal, owned, with_decimal};

verus! {

/// Errors of an agent run.
#[derive(Debug, Clone, PartialEq, Eq)]
pub enum AgentError {
    ExecutionFailed(String),
    ContextError(String),
    /// The loop reached its iteration limit; the payload is the number of iterations run.
    MaxIterationsExceeded(usize),
    /// The provider did not answer within its timeout.
    ProviderTimeout,
    /// The provider answered with an error, whose text is the payload.
    ProviderError(String),
}

/// Errors of a tool run.
#[derive(Debug, Clone, PartialEq, Eq)]
pub enum ToolError {
    ExecutionFailed(String),
    InvalidInput(String),
    NotSupported(String),
}

/// Errors of a memory store.
#[derive(Debug, Clone, PartialEq, Eq)]
pub enum MemoryError {
    StoreFailed(String),
    RetrieveFailed(String),
    SearchFailed(String),
}

/// Errors of a language-model provider.
#[derive(Debug, Clone, PartialEq, Eq)]
pub enum ProviderError {
    RequestFailed(String),
    RateLimited(String),
    InvalidResponse(String),
    ApiError(String),
}

/// Errors of a message channel.
#[derive(Debug, Clone, PartialEq, Eq)]
pub enum ChannelError {
    SendFailed(String),
    ReceiveFailed(String),
}

/// Any error of the runtime.
#[derive(Debug, Clone, PartialEq, Eq)]
pub enum ZeroError {
    Agent(AgentError),
    Tool(ToolError),
    Memory(MemoryError),
    Provider(ProviderError),
    Channel(ChannelError),
    Config(String),
    NotFound(String),
}

} // verus!

verus! {

/// The text of an agent error.
pub open spec fn agent_error_text(e: AgentError) -> Seq<char> {
    match e {
        AgentError::ExecutionFailed(m) => "Execution failed: "@ + m@,
        AgentError::ContextError(m) => "Context error: "@ + m@,
        AgentError::MaxIterationsExceeded(n) => "Max iterations exceeded: "@ + decimal(n as nat),
        AgentError::ProviderTimeout => "Provider timeout"@,
        AgentError::ProviderError(m) => "Provider error: "@ + m@,
    }
}

/// The text of a tool error.
pub open spec fn tool_error_text(e: ToolError) -> Seq<char> {
    match e {
        ToolError::ExecutionFailed(m) => "Execution failed: "@ + m@,
        ToolError::InvalidInput(m) => "Invalid input: "@ + m@,
        ToolError::NotSupported(m) => "Not supported: "@ + m@,
    }
}

/// The text of a memory error.
pub open spec fn memory_error_text(e: MemoryError) -> Seq<char> {
    match e {
        MemoryError::StoreFailed(m) => "Store failed: "@ + m@,
        MemoryError::RetrieveFailed(m) => "Retrieve failed: "@ + m@,
        MemoryError::SearchFailed(m) => "Search failed: "@ + m@,
    }
}

/// The text of a provider error.
pub open spec fn provider_error_text(e: ProviderError) -> Seq<char> {
    match e {
        ProviderError::RequestFailed(m) => "Request failed: "@ + m@,
        ProviderError::RateLimited(m) => "Rate limited: "@ + m@,
        ProviderError::InvalidResponse(m) => "Invalid response: "@ + m@,
        ProviderError::ApiError(m) => "API error: "@ + m@,
    }
}

/// The text of a channel error.
pub open spec fn channel_error_text(e: ChannelError) -> Seq<char> {
    match e {
        ChannelError::SendFailed(m) => "Send failed: "@ + m@,
        ChannelError::ReceiveFailed(m) => "Receive failed: "@ + m@,
    }
}

/// The text of a runtime error: the kind, then the text of the inner error.
pub open spec fn zero_error_text(e: ZeroError) -> Seq<char> {
    match e {
        ZeroError::Agent(x) => "Agent error: "@ + agent_error_text(x),
        ZeroError::Tool(x) => "Tool error: "@ + tool_error_text(x),
        ZeroError::Memory(x) => "Memory error: "@ + memory_error_text(x),
        ZeroError::Provider(x) => "Provider error: "@ + provider_error_text(x),
        ZeroError::Channel(x) => "Channel error: "@ + channel_error_text(x),
        ZeroError::Config(m) => "Config error: "@ + m@,
        ZeroError::NotFound(m) => "Not found: "@ + m@,
    }
}

impl AgentError {
    /// The text of the error.
    pub fn to_text(&self) -> (r: String)
        ensures
            r@ == agent_error_text(*self),
    {
        match self {
            AgentError::ExecutionFailed(m) => concat("Execution failed: ", m.as_str()),
            AgentError::ContextError(m) => concat("Context error: ", m.as_str()),
            AgentError::MaxIterationsExceeded(n) => with_decimal("Max iterations exceeded: ", *n as u64),
            AgentError::ProviderTimeout => owned("Provider timeout"),
            AgentError::ProviderError(m) => concat("Provider error: ", m.as_str()),
        }
    }
}

impl ToolError {
    /// The text of the error.
    pub fn to_text(&self) -> (r: String)
        ensures
            r@ == tool_error_text(*self),
    {
        match self {
            ToolError::ExecutionFailed(m) => concat("Execution failed: ", m.as_str()),
            ToolError::InvalidInput(m) => concat("Invalid input: ", m.as_str()),
            ToolError::NotSupported(m) => concat("Not supported: ", m.as_str()),
        }
    }
}

impl MemoryError {
    /// The text of the error.
    pub fn to_text(&self) -> (r: String)
        ensures
            r@ == memory_error_text(*self),
    {
        match self {
            MemoryError::StoreFailed(m) => concat("Store failed: ", m.as_str()),
            MemoryError::RetrieveFailed(m) => concat("Retrieve failed: ", m.as_str()),
            MemoryError::SearchFailed(m) => concat("Search failed: ", m.as_str()),
        }
    }
}

impl ProviderError {
    /// The text of the error.
    pub fn to_text(&self) -> (r: String)
        ensures
            r@ == provider_error_text(*self),
    {
        match self {
            ProviderError::RequestFailed(m) => concat("Request failed: ", m.as_str()),
            ProviderError::RateLimited(m) => concat("Rate limited: ", m.as_str()),
            ProviderError::InvalidResponse(m) => concat("Invalid response: ", m.as_str()),
            ProviderError::ApiError(m) => concat("API error: ", m.as_str()),
        }
    }
}

impl ChannelError {
    /// The text of the error.
    pub fn to_text(&self) -> (r: String)
        ensures
            r@ == channel_error_text(*self),
    {
        match self {
            ChannelError::SendFailed(m) => concat("Send failed: ", m.as_str()),
            ChannelError::ReceiveFailed(m) => concat("Receive failed: ", m.as_str()),
        }
    }
}

/// `prefix` followed by `rest`.
fn prefixed(prefix: &str, rest: String) -> (r: String)
    ensures
        r@ == prefix@ + rest@,
{
    concat(prefix, rest.as_str())
}

impl ZeroError {
    /// The text of the error.
    pub fn to_text(&self) -> (r: String)
        ensures
            r@ == zero_error_text(*self),
    {
        match self {
            ZeroError::Agent(x) => prefixed("Agent error: ", x.to_text()),
            ZeroError::Tool(x) => prefixed("Tool error: ", x.to_text()),
            ZeroError::Memory(x) => prefixed("Memory error: ", x.to_text()),
            ZeroError::Provider(x) => prefixed("Provider error: ", x.to_text()),
            ZeroError::Channel(x) => prefixed("Channel error: ", x.to_text()),
            ZeroError::Config(m) => concat("Config error: ", m.as_str()),
            ZeroError::NotFound(m) => concat("Not found: ", m.as_str()),
        }
    }
}

} // verus!
