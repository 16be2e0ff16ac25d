use zero::hooks::HookManager;
use zero::agent::{AgentContext, DefaultAgentLoop, HookedAgent, StreamingAgentLoop};
use zero::channel::{Analytics, ChannelKind, Persistence};
use zero::coordinator::{
    AgentId, AgentMessage, CoordinatorError, DefaultLoadBalancingPolicy, DefaultRoutingPolicy,
    LoadBalancingPolicy, RoundRobinLoadBalancingPolicy, RoundRobinPolicy, RoundRobinRoutingPolicy,
    RoutingPolicy,
};

fn agents(names: &[&str]) -> Vec<AgentId> {
    names.iter().map(|n| AgentId::new(n.to_string())).collect()
}

#[test]
fn round_robin_takes_agents_in_turn() {
    let mut p = RoundRobinPolicy::new();
    let list = agents(&["a", "b", "c"]);
    let picks: Vec<String> = (0..7).map(|_| p.select(&list).unwrap().id).collect();
    assert_eq!(picks, vec!["a", "b", "c", "a", "b", "c", "a"]);
    assert!(p.select(&[]).is_none());
    let two = agents(&["x", "y"]);
    // the counter went on to 7, so the next pick among two is the second
    assert_eq!(p.select(&two).unwrap().id, "y");
}

#[test]
fn fixed_policies_pick_nobody() {
    let list = agents(&["a"]);
    let msg = AgentMessage::new(AgentId::new("a".to_string()), "hi".to_string());
    assert!(DefaultRoutingPolicy::new().select(&msg).is_none());
    assert!(RoundRobinRoutingPolicy::new().select(&msg).is_none());
    assert!(DefaultLoadBalancingPolicy::new().select(&list).is_none());
    assert!(RoundRobinLoadBalancingPolicy::new().select(&list).is_none());
}

#[test]
fn agent_messages_start_plain() {
    let m = AgentMessage::new(AgentId::new("me".to_string()), "hello".to_string());
    assert_eq!(m.from.id, "me");
    assert!(m.to.is_none());
    assert_eq!(m.content, "hello");
    assert!(m.metadata.is_empty());
    assert_eq!(m.id.len(), 36);
    assert!(m.timestamp > 0);
    assert_eq!(AgentId::default().id, "default");
}

#[test]
fn coordinator_errors_have_texts() {
    assert_eq!(CoordinatorError::default(), CoordinatorError::MessageDeliveryFailed("default error".to_string()));
    assert_eq!(CoordinatorError::AgentNotFound("a".to_string()).to_text(), "Agent not found: a");
    assert_eq!(CoordinatorError::Timeout("t".to_string()).to_text(), "Timeout: t");
    assert_eq!(CoordinatorError::PermissionDenied("p".to_string()).to_text(), "Permission denied: p");
}

#[test]
fn analytics_counts_messages() {
    let mut a = Analytics::new();
    assert_eq!(a.total(), 0);
    a.record(ChannelKind::Discord);
    a.record(ChannelKind::Telegram);
    assert_eq!(a.total(), 2);
    let p = Persistence::new("msgs.json".to_string());
    assert_eq!(p.path(), "msgs.json");
}

#[test]
fn agent_parts() {
    let ctx: AgentContext<u8> = AgentContext::new("sess".to_string());
    assert_eq!(ctx.session_id, "sess");
    assert!(ctx.tools.is_empty() && ctx.history.is_empty());
    let _ = HookedAgent::new();
    let l = DefaultAgentLoop::<u8, u16, ()>::new(1, 2);
    assert!(l.hooks().is_none());
    let l = DefaultAgentLoop::<u8, u16, &str>::new(1, 2).with_hooks("h");
    assert_eq!(l.hooks(), Some(&"h"));
    assert_eq!(*l.provider(), 1);
    assert_eq!(*l.tool_dispatcher(), 2);
    let s = StreamingAgentLoop::new("p", 'd');
    assert_eq!(*s.provider(), "p");
    assert_eq!(*s.tool_dispatcher(), 'd');
}

#[test]
fn hooks_are_kept_by_kind_in_order() {
    let mut m: HookManager<&str, u8, u8, u8> = HookManager::new();
    assert!(m.get_hooks("pre").is_empty());
    m.register_hook("pre", "a");
    m.register_hook("post", "b");
    m.register_hook("pre", "c");
    assert_eq!(m.get_hooks("pre"), vec![&"a", &"c"]);
    assert_eq!(m.get_hooks("post"), vec![&"b"]);
    assert!(m.get_hooks("other").is_empty());
    m.register_provider_hook(1);
    m.register_agent_hook(2);
    assert_eq!(m.get_hooks("pre").len(), 2);
    assert!(m.run_agent_hooks().is_ok());
}
