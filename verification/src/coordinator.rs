//! Coordination of several agents: their ids and messages, and the policies
//! that pick an agent for a message or spread work over agents.

use vstd::prelude::*;
use crate::ids::{is_uuid_v4_text, new_uuid_text, now_ts};
use crate::text::{concat, owned};

verus! {

/// The id of an agent.
#[derive(Debug)]
pub struct AgentId {
    pub id: String,
}

impl AgentId {
    /// The agent id `id`.
    pub fn new(id: String) -> (r: Self)
        ensures
            r.id@ == id@,
    {
        AgentId { id }
    }

    /// A copy of this id.
    pub fn copy(&self) -> (r: Self)
        ensures
            r.id@ == self.id@,
    {
        AgentId { id: self.id.clone() }
    }
}

impl Default for AgentId {
    /// The id `default`.
    fn default() -> (r: Self)
        ensures
            r.id@ == "default"@,
    {
        AgentId { id: owned("default") }
    }
}

/// What kinds of content an agent can take.
#[derive(Debug, Clone, Copy, PartialEq, Eq)]
pub enum AgentCapability {
    TextOnly,
    TextAndImages,
    TextAndVideo,
    Multimodal,
    Audio,
}

/// A message between agents.
#[derive(Debug)]
pub struct AgentMessage {
    pub id: String,
    pub from: AgentId,
    /// The addressee; none for a message to whoever the routing picks.
    pub to: Option<AgentId>,
    pub content: String,
    /// Seconds since the Unix epoch when the message was made.
    pub timestamp: i64,
    /// Further entries as key and value.
    pub metadata: Vec<(String, String)>,
}

impl AgentMessage {
    /// A new message from `from` with `content`, with a fresh random id,
    /// the current time, no addressee and no metadata.
    pub fn new(from: AgentId, content: String) -> (r: Self)
        ensures
            is_uuid_v4_text(r.id@),
            r.from.id@ == from.id@,
            r.to is None,
            r.content@ == content@,
            r.metadata@.len() == 0,
    {
        let id = new_uuid_text();
        let timestamp = now_ts();
        AgentMessage { id, from, to: None, content, timestamp, metadata: Vec::new() }
    }
}

/// Why coordination failed.
#[derive(Debug, Clone, PartialEq, Eq)]
pub enum CoordinatorError {
    AgentNotFound(String),
    MessageDeliveryFailed(String),
    DeadlockDetected(String),
    Timeout(String),
    InvalidMessage(String),
    PermissionDenied(String),
}

/// The text of a coordination error.
pub open spec fn coordinator_error_text(e: CoordinatorError) -> Seq<char> {
    match e {
        CoordinatorError::AgentNotFound(m) => "Agent not found: "@ + m@,
        CoordinatorError::MessageDeliveryFailed(m) => "Message delivery failed: "@ + m@,
        CoordinatorError::DeadlockDetected(m) => "Deadlock detected: "@ + m@,
        CoordinatorError::Timeout(m) => "Timeout: "@ + m@,
        CoordinatorError::InvalidMessage(m) => "Invalid message: "@ + m@,
        CoordinatorError::PermissionDenied(m) => "Permission denied: "@ + m@,
    }
}

impl CoordinatorError {
    /// The text of the error.
    pub fn to_text(&self) -> (r: String)
        ensures
            r@ == coordinator_error_text(*self),
    {
        match self {
            CoordinatorError::AgentNotFound(m) => concat("Agent not found: ", m.as_str()),
            CoordinatorError::MessageDeliveryFailed(m) => concat("Message delivery failed: ", m.as_str()),
            CoordinatorError::DeadlockDetected(m) => concat("Deadlock detected: ", m.as_str()),
            CoordinatorError::Timeout(m) => concat("Timeout: ", m.as_str()),
            CoordinatorError::InvalidMessage(m) => concat("Invalid message: ", m.as_str()),
            CoordinatorError::PermissionDenied(m) => concat("Permission denied: ", m.as_str()),
        }
    }
}

impl Default for CoordinatorError {
    /// A delivery failure, `default error`.
    fn default() -> (r: Self)
        ensures
            r matches CoordinatorError::MessageDeliveryFailed(m) && m@ == "default error"@,
    {
        CoordinatorError::MessageDeliveryFailed(owned("default error"))
    }
}

/// Picks the agent a message goes to.
pub trait RoutingPolicy {
    /// The agent for `message`, if the policy picks one.
    fn select(&self, message: &AgentMessage) -> Option<AgentId>;
}

/// Picks one agent among several to spread work.
pub trait LoadBalancingPolicy {
    /// The agent among `agents` to take the next piece of work, if any.
    fn select(&mut self, agents: &[AgentId]) -> Option<AgentId>;
}

/// The routing policy that picks no agent.
#[derive(Debug, Clone, Copy)]
pub struct DefaultRoutingPolicy;

impl DefaultRoutingPolicy {
    pub fn new() -> (r: Self) {
        DefaultRoutingPolicy
    }
}

impl RoutingPolicy for DefaultRoutingPolicy {
    fn select(&self, message: &AgentMessage) -> (r: Option<AgentId>)
        ensures
            r is None,
    {
        None
    }
}

/// The load-balancing policy that picks no agent.
#[derive(Debug, Clone, Copy)]
pub struct DefaultLoadBalancingPolicy;

impl DefaultLoadBalancingPolicy {
    pub fn new() -> (r: Self) {
        DefaultLoadBalancingPolicy
    }
}

impl LoadBalancingPolicy for DefaultLoadBalancingPolicy {
    fn select(&mut self, agents: &[AgentId]) -> (r: Option<AgentId>)
        ensures
            r is None,
    {
        None
    }
}

/// The round-robin routing policy; it picks no agent.
#[derive(Debug, Clone, Copy)]
pub struct RoundRobinRoutingPolicy;

impl RoundRobinRoutingPolicy {
    pub fn new() -> (r: Self) {
        RoundRobinRoutingPolicy
    }
}

impl RoutingPolicy for RoundRobinRoutingPolicy {
    fn select(&self, message: &AgentMessage) -> (r: Option<AgentId>)
        ensures
            r is None,
    {
        None
    }
}

/// The round-robin load-balancing policy; it picks no agent.
#[derive(Debug, Clone, Copy)]
pub struct RoundRobinLoadBalancingPolicy;

impl RoundRobinLoadBalancingPolicy {
    pub fn new() -> (r: Self) {
        RoundRobinLoadBalancingPolicy
    }
}

impl LoadBalancingPolicy for RoundRobinLoadBalancingPolicy {
    fn select(&mut self, agents: &[AgentId]) -> (r: Option<AgentId>)
        ensures
            r is None,
    {
        None
    }
}

/// The load-balancing policy that takes the agents in turn: the n-th pick
/// (counting from 0) is the agent at `n` modulo the number of agents.
#[derive(Debug)]
pub struct RoundRobinPolicy {
    current: usize,
}

/// The position a round-robin pick takes among `len` agents when its counter is `current`.
pub open spec fn round_robin_index(current: usize, len: nat) -> int {
    (current as int) % (len as int)
}

impl RoundRobinPolicy {
    /// A policy whose first pick is the first agent.
    pub fn new() -> (r: Self)
        ensures
            r.current() == 0,
    {
        RoundRobinPolicy { current: 0 }
    }

    /// The number of picks made so far, modulo the size of `usize`.
    pub closed spec fn current(&self) -> usize {
        self.current
    }
}

impl LoadBalancingPolicy for RoundRobinPolicy {
    /// The agent whose turn it is; none, with the counter unchanged, when
    /// there are no agents. Each pick moves the counter on by one, wrapping
    /// at the size of `usize`.
    fn select(&mut self, agents: &[AgentId]) -> (r: Option<AgentId>)
        ensures
            agents@.len() == 0 ==> r is None && final(self).current() == old(self).current(),
            agents@.len() > 0 ==> (r matches Some(a)
                && a.id@ == agents@[round_robin_index(old(self).current(), agents@.len())].id@
                && final(self).current() == (if old(self).current() == usize::MAX { 0 } else {
                    (old(self).current() + 1) as usize
                })),
    {
        if agents.len() == 0 {
            return None;
        }
        let index = self.current;
        self.current = if self.current == usize::MAX { 0 } else { self.current + 1 };
        Some(agents[index % agents.len()].copy())
    }
}

/// Taking the agents in turn gives each of `len` agents exactly one pick in
/// any `len` consecutive picks: two picks fewer than `len` apart never fall
/// on the same agent.
pub proof fn round_robin_is_fair(current: int, len: int, i: int, j: int)
    requires
        current >= 0,
        len > 0,
        0 <= i < j < len,
    ensures
        (current + i) % len != (current + j) % len,
{
    let a = current + i;
    let b = current + j;
    vstd::arithmetic::div_mod::lemma_fundamental_div_mod(a, len);
    vstd::arithmetic::div_mod::lemma_fundamental_div_mod(b, len);
    if a % len == b % len {
        let qa = a / len;
        let qb = b / len;
        assert(b - a == len * (qb - qa)) by (nonlinear_arith)
            requires
                a == len * qa + a % len,
                b == len * qb + b % len,
                a % len == b % len;
        assert(false) by (nonlinear_arith)
            requires
                b - a == len * (qb - qa),
                0 < b - a < len,
                len > 0;
    }
}

} // verus!

verus! {

/// An agent that a coordinator can run.
pub trait Agent {
    /// The agent's name.
    fn name(&self) -> &str;

    /// The agent's id.
    fn id(&self) -> &AgentId;

    /// Runs the agent on `input`.
    fn run(&mut self, input: &str) -> Result<String, CoordinatorError>;

    /// The ids of what the agent can do.
    fn capabilities(&self) -> Vec<AgentId>;
}

/// Handles the messages addressed to an agent.
pub trait AgentMessageHandler {
    /// Handles `message`.
    fn handle(&self, message: AgentMessage) -> Result<(), CoordinatorError>;
}

/// Runs agents and carries their messages.
pub trait Coordinator {
    /// Takes on the agent `agent`.
    fn register(&self, agent: std::sync::Arc<dyn Agent>) -> Result<(), CoordinatorError>;

    /// Lets go of the agent with id `id`.
    fn unregister(&self, id: &AgentId) -> Result<(), CoordinatorError>;

    /// Delivers `msg`.
    fn send(&self, msg: &AgentMessage) -> Result<(), CoordinatorError>;

    /// The next message for the agent with id `id`, if any.
    fn receive(&self, id: &AgentId) -> Result<Option<AgentMessage>, CoordinatorError>;

    /// Delivers `msg` to every agent.
    fn broadcast(&self, msg: &AgentMessage) -> Result<(), CoordinatorError>;

    /// The ids of the agents taken on.
    fn list_active_agents(&self) -> Vec<AgentId>;

    /// The agent with id `id`, if it was taken on.
    fn get_agent(&self, id: &AgentId) -> Option<std::sync::Arc<dyn Agent>>;

    /// The message handler of the agent with id `id`, if it has one.
    fn get_agent_message_handler(&self, id: &AgentId) -> Option<Box<dyn AgentMessageHandler>>;

    /// Stops coordinating.
    fn shutdown(&self) -> Result<(), CoordinatorError>;
}

} // verus!
