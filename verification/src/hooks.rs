//! Hooks: user code that runs at points of the agent's, tools', channels',
//! memory's and providers' lifecycles. Every callback does nothing by default.

use vstd::prelude::*;
use crate::error::{MemoryError, ProviderError};

verus! {

/// A hook of any kind.
pub trait Hook {
    /// The hook's name.
    fn name(&self) -> &str;

    /// The hook's priority (lower runs earlier).
    fn priority(&self) -> (r: i32)
        default_ensures
            r == 0,
    {
        0
    }
}

/// Agent lifecycle hooks.
pub trait AgentHook: Hook {
    /// Called before agent initialization.
    fn on_agent_init(&self, agent_name: &str) -> (r: Result<(), String>)
        default_ensures
            r is Ok,
    {
        Ok(())
    }

    /// Called after agent initialization.
    fn on_agent_init_done(&self, agent_name: &str) -> (r: Result<(), String>)
        default_ensures
            r is Ok,
    {
        Ok(())
    }

    /// Called before an agent run.
    fn on_agent_run(&self, agent_name: &str) -> (r: Result<(), String>)
        default_ensures
            r is Ok,
    {
        Ok(())
    }

    /// Called after an agent run.
    fn on_agent_run_done(&self, agent_name: &str, result: &str) -> (r: Result<(), String>)
        default_ensures
            r is Ok,
    {
        Ok(())
    }

    /// Called on an agent error.
    fn on_agent_error(&self, agent_name: &str, error: &str) -> (r: Result<(), String>)
        default_ensures
            r is Ok,
    {
        Ok(())
    }
}

/// Tool execution hooks.
pub trait ToolHook: Hook {
    /// Called before tool validation.
    fn on_tool_validate(&self, tool_name: &str, input: &str) -> (r: Result<(), String>)
        default_ensures
            r is Ok,
    {
        Ok(())
    }

    /// Called after tool validation.
    fn on_tool_validate_done(&self, tool_name: &str, input: &str) -> (r: Result<(), String>)
        default_ensures
            r is Ok,
    {
        Ok(())
    }

    /// Called before tool execution.
    fn on_tool_execute(&self, tool_name: &str, input: &str) -> (r: Result<(), String>)
        default_ensures
            r is Ok,
    {
        Ok(())
    }

    /// Called after tool execution.
    fn on_tool_execute_done(&self, tool_name: &str, input: &str, result: &str) -> (r: Result<(), String>)
        default_ensures
            r is Ok,
    {
        Ok(())
    }

    /// Called on a tool error.
    fn on_tool_error(&self, tool_name: &str, input: &str, error: &str) -> (r: Result<(), String>)
        default_ensures
            r is Ok,
    {
        Ok(())
    }
}

/// Channel message hooks.
pub trait ChannelHook: Hook {
    /// Called before a message is sent.
    fn on_message_send(&self, channel_name: &str, to: &str, content: &str) -> (r: Result<(), String>)
        default_ensures
            r is Ok,
    {
        Ok(())
    }

    /// Called after a message is sent.
    fn on_message_sent(&self, channel_name: &str, to: &str, content: &str) -> (r: Result<(), String>)
        default_ensures
            r is Ok,
    {
        Ok(())
    }

    /// Called before a message is received.
    fn on_message_receive(&self, channel_name: &str) -> (r: Result<(), String>)
        default_ensures
            r is Ok,
    {
        Ok(())
    }

    /// Called after a message is received.
    fn on_message_received(&self, channel_name: &str, from: &str, content: &str) -> (r: Result<(), String>)
        default_ensures
            r is Ok,
    {
        Ok(())
    }

    /// Called on a channel error.
    fn on_channel_error(&self, channel_name: &str, error: &str) -> (r: Result<(), String>)
        default_ensures
            r is Ok,
    {
        Ok(())
    }
}

/// Memory hooks.
pub trait MemoryHook: Hook {
    /// Called before a memory read.
    fn on_memory_get(&self, memory_name: &str, key: &str) -> (r: Result<(), MemoryError>)
        default_ensures
            r is Ok,
    {
        Ok(())
    }

    /// Called after a memory read.
    fn on_memory_get_done(&self, memory_name: &str, key: &str, value: &str) -> (r: Result<(), MemoryError>)
        default_ensures
            r is Ok,
    {
        Ok(())
    }

    /// Called before a memory write.
    fn on_memory_set(&self, memory_name: &str, key: &str, value: &str) -> (r: Result<(), MemoryError>)
        default_ensures
            r is Ok,
    {
        Ok(())
    }

    /// Called after a memory write.
    fn on_memory_set_done(&self, memory_name: &str, key: &str, value: &str) -> (r: Result<(), MemoryError>)
        default_ensures
            r is Ok,
    {
        Ok(())
    }

    /// Called before a memory delete.
    fn on_memory_delete(&self, memory_name: &str, key: &str) -> (r: Result<(), MemoryError>)
        default_ensures
            r is Ok,
    {
        Ok(())
    }

    /// Called after a memory delete.
    fn on_memory_delete_done(&self, memory_name: &str, key: &str, result: &str) -> (r: Result<(), MemoryError>)
        default_ensures
            r is Ok,
    {
        Ok(())
    }

    /// Called on a memory error.
    fn on_memory_error(&self, memory_name: &str, key: &str, error: &str) -> (r: Result<(), MemoryError>)
        default_ensures
            r is Ok,
    {
        Ok(())
    }
}

/// Language-model provider hooks.
pub trait ProviderHook: Hook {
    /// Called before a provider call.
    fn on_provider_call(&self, provider_name: &str, request: &str) -> (r: Result<(), ProviderError>)
        default_ensures
            r is Ok,
    {
        Ok(())
    }

    /// Called after a provider response.
    fn on_provider_response(&self, provider_name: &str, request: &str, response: &str) -> (r: Result<(), ProviderError>)
        default_ensures
            r is Ok,
    {
        Ok(())
    }

    /// Called on a provider error.
    fn on_provider_error(&self, provider_name: &str, request: &str, error: &str) -> (r: Result<(), ProviderError>)
        default_ensures
            r is Ok,
    {
        Ok(())
    }
}

} // verus!

verus! {

/// Whether no two groups of `e` have the same kind.
pub open spec fn kinds_distinct<H>(e: Seq<(String, Vec<H>)>) -> bool {
    forall|i: int, j: int| 0 <= i < e.len() && 0 <= j < e.len() && i != j ==> #[trigger] e[i].0@ != #[trigger] e[j].0@
}

/// Whether some group of `e` has kind `kind`.
pub open spec fn has_kind<H>(e: Seq<(String, Vec<H>)>, kind: Seq<char>) -> bool {
    exists|i: int| 0 <= i < e.len() && #[trigger] e[i].0@ == kind
}

/// The hooks of kind `kind` in the groups `e`, in the order they came; none
/// when there is no group of that kind.
pub open spec fn group_of<H>(e: Seq<(String, Vec<H>)>, kind: Seq<char>) -> Seq<H> {
    if has_kind(e, kind) {
        e[choose|i: int| 0 <= i < e.len() && #[trigger] e[i].0@ == kind].1@
    } else {
        Seq::empty()
    }
}

proof fn lemma_group_at<H>(e: Seq<(String, Vec<H>)>, i: int)
    requires
        kinds_distinct(e),
        0 <= i < e.len(),
    ensures
        group_of(e, e[i].0@) == e[i].1@,
{
    assert(has_kind(e, e[i].0@));
    let j = choose|j: int| 0 <= j < e.len() && #[trigger] e[j].0@ == e[i].0@;
    assert(e[j].0@ == e[i].0@);
}

/// Keeps the registered hooks: general hooks by kind, in the order they were
/// registered, and the provider, memory and agent hooks.
pub struct HookManager<H, P, M, A> {
    hooks: Vec<(String, Vec<H>)>,
    provider_hooks: Vec<P>,
    memory_hooks: Vec<M>,
    agent_hooks: Vec<A>,
}

impl<H, P, M, A> HookManager<H, P, M, A> {
    /// No two groups share a kind.
    pub closed spec fn wf(&self) -> bool {
        kinds_distinct(self.hooks@)
    }

    /// The general hooks of kind `kind`, in the order they were registered.
    pub closed spec fn hooks_of(&self, kind: Seq<char>) -> Seq<H> {
        group_of(self.hooks@, kind)
    }

    /// The provider hooks, in the order they were registered.
    pub closed spec fn provider_hooks_of(&self) -> Seq<P> {
        self.provider_hooks@
    }

    /// The memory hooks.
    pub closed spec fn memory_hooks_of(&self) -> Seq<M> {
        self.memory_hooks@
    }

    /// The agent hooks, in the order they were registered.
    pub closed spec fn agent_hooks_of(&self) -> Seq<A> {
        self.agent_hooks@
    }

    /// A manager with no hooks.
    pub fn new() -> (r: Self)
        ensures
            r.wf(),
            forall|k: Seq<char>| r.hooks_of(k) == Seq::<H>::empty(),
            r.provider_hooks_of() == Seq::<P>::empty(),
            r.memory_hooks_of() == Seq::<M>::empty(),
            r.agent_hooks_of() == Seq::<A>::empty(),
    {
        HookManager { hooks: Vec::new(), provider_hooks: Vec::new(), memory_hooks: Vec::new(), agent_hooks: Vec::new() }
    }

    /// The position of the group of kind `kind`, if there is one.
    fn position(&self, kind: &str) -> (r: Option<usize>)
        requires
            self.wf(),
        ensures
            match r {
                Some(i) => i < self.hooks@.len() && self.hooks@[i as int].0@ == kind@,
                None => !has_kind(self.hooks@, kind@),
            },
    {
        let mut i: usize = 0;
        while i < self.hooks.len()
            invariant
                i <= self.hooks@.len(),
                forall|k: int| 0 <= k < i ==> #[trigger] self.hooks@[k].0@ != kind@,
            decreases self.hooks@.len() - i,
        {
            if crate::text::str_eq(self.hooks[i].0.as_str(), kind) {
                return Some(i);
            }
            i = i + 1;
        }
        None
    }

    /// Registers `hook` as a hook of kind `hook_type`: it comes after the
    /// hooks of that kind registered before; other kinds are unchanged.
    pub fn register_hook(&mut self, hook_type: &str, hook: H)
        requires
            old(self).wf(),
        ensures
            final(self).wf(),
            final(self).hooks_of(hook_type@) == old(self).hooks_of(hook_type@).push(hook),
            forall|k: Seq<char>| k != hook_type@ ==> #[trigger] final(self).hooks_of(k) == old(self).hooks_of(k),
            final(self).provider_hooks_of() == old(self).provider_hooks_of(),
            final(self).memory_hooks_of() == old(self).memory_hooks_of(),
            final(self).agent_hooks_of() == old(self).agent_hooks_of(),
    {
        let ghost e = self.hooks@;
        match self.position(hook_type) {
            Some(i) => {
                proof {
                    lemma_group_at(e, i as int);
                }
                let mut group: (String, Vec<H>) = (String::new(), Vec::new());
                std::mem::swap(&mut group, &mut self.hooks[i]);
                group.1.push(hook);
                self.hooks.set(i, group);
                proof {
                    let f = self.hooks@;
                    assert(f == e.update(i as int, f[i as int]));
                    assert(kinds_distinct(f)) by {
                        assert forall|a: int, b: int| 0 <= a < f.len() && 0 <= b < f.len() && a != b
                            implies #[trigger] f[a].0@ != #[trigger] f[b].0@ by {
                            assert(f[a].0@ == e[a].0@ && f[b].0@ == e[b].0@);
                        }
                    }
                    lemma_group_at(f, i as int);
                    assert forall|k: Seq<char>| k != hook_type@ implies #[trigger] group_of(f, k) == group_of(e, k) by {
                        if has_kind(e, k) {
                            let j = choose|j: int| 0 <= j < e.len() && #[trigger] e[j].0@ == k;
                            lemma_group_at(e, j);
                            assert(f[j] == e[j]);
                            lemma_group_at(f, j);
                        } else {
                            assert(!has_kind(f, k)) by {
                                if has_kind(f, k) {
                                    let j = choose|j: int| 0 <= j < f.len() && #[trigger] f[j].0@ == k;
                                    assert(f[j].0@ == e[j].0@);
                                }
                            }
                        }
                    }
                }
            },
            None => {
                let mut group: Vec<H> = Vec::new();
                group.push(hook);
                let ghost g = group@;
                self.hooks.push((crate::text::owned(hook_type), group));
                proof {
                    let f = self.hooks@;
                    assert(f == e.push(f[e.len() as int]));
                    assert(kinds_distinct(f)) by {
                        assert forall|a: int, b: int| 0 <= a < f.len() && 0 <= b < f.len() && a != b
                            implies #[trigger] f[a].0@ != #[trigger] f[b].0@ by {
                            if a < e.len() && b < e.len() {
                                assert(f[a] == e[a] && f[b] == e[b]);
                            } else if a < e.len() {
                                assert(f[a] == e[a]);
                            } else {
                                assert(f[b] == e[b]);
                            }
                        }
                    }
                    lemma_group_at(f, e.len() as int);
                    assert(group_of(e, hook_type@) == Seq::<H>::empty());
                    assert(g == Seq::<H>::empty().push(hook));
                    assert forall|k: Seq<char>| k != hook_type@ implies #[trigger] group_of(f, k) == group_of(e, k) by {
                        if has_kind(e, k) {
                            let j = choose|j: int| 0 <= j < e.len() && #[trigger] e[j].0@ == k;
                            lemma_group_at(e, j);
                            assert(f[j] == e[j]);
                            lemma_group_at(f, j);
                        } else {
                            assert(!has_kind(f, k)) by {
                                if has_kind(f, k) {
                                    let j = choose|j: int| 0 <= j < f.len() && #[trigger] f[j].0@ == k;
                                    if j < e.len() {
                                        assert(f[j] == e[j]);
                                    }
                                }
                            }
                        }
                    }
                }
            },
        }
    }

    /// Registers a provider hook after those registered before.
    pub fn register_provider_hook(&mut self, hook: P)
        ensures
            final(self).wf() == old(self).wf(),
            forall|k: Seq<char>| #[trigger] final(self).hooks_of(k) == old(self).hooks_of(k),
            final(self).provider_hooks_of() == old(self).provider_hooks_of().push(hook),
            final(self).memory_hooks_of() == old(self).memory_hooks_of(),
            final(self).agent_hooks_of() == old(self).agent_hooks_of(),
    {
        self.provider_hooks.push(hook);
    }

    /// Registers an agent hook after those registered before.
    pub fn register_agent_hook(&mut self, hook: A)
        ensures
            final(self).wf() == old(self).wf(),
            forall|k: Seq<char>| #[trigger] final(self).hooks_of(k) == old(self).hooks_of(k),
            final(self).provider_hooks_of() == old(self).provider_hooks_of(),
            final(self).memory_hooks_of() == old(self).memory_hooks_of(),
            final(self).agent_hooks_of() == old(self).agent_hooks_of().push(hook),
    {
        self.agent_hooks.push(hook);
    }

    /// The hooks of kind `hook_type`, in the order they were registered; none
    /// when no hook of that kind was registered.
    pub fn get_hooks(&self, hook_type: &str) -> (r: Vec<&H>)
        requires
            self.wf(),
        ensures
            r@.len() == self.hooks_of(hook_type@).len(),
            forall|i: int| 0 <= i < r@.len() ==> *(#[trigger] r@[i]) == self.hooks_of(hook_type@)[i],
    {
        let mut r: Vec<&H> = Vec::new();
        match self.position(hook_type) {
            Some(i) => {
                proof {
                    lemma_group_at(self.hooks@, i as int);
                }
                let group = &self.hooks[i].1;
                let mut j: usize = 0;
                while j < group.len()
                    invariant
                        j <= group@.len(),
                        group@ == self.hooks_of(hook_type@),
                        r@.len() == j,
                        forall|k: int| 0 <= k < j ==> *(#[trigger] r@[k]) == group@[k],
                    decreases group@.len() - j,
                {
                    r.push(&group[j]);
                    j = j + 1;
                }
            },
            None => {},
        }
        r
    }

    /// Runs the agent hooks: each is passed over without a call, and the run
    /// succeeds.
    pub fn run_agent_hooks(&self) -> (r: Result<(), String>)
        ensures
            r is Ok,
    {
        Ok(())
    }
}

impl<H, P, M, A> Default for HookManager<H, P, M, A> {
    /// A manager with no hooks.
    fn default() -> (r: Self)
        ensures
            r.wf(),
            forall|k: Seq<char>| r.hooks_of(k) == Seq::<H>::empty(),
            r.provider_hooks_of() == Seq::<P>::empty(),
            r.memory_hooks_of() == Seq::<M>::empty(),
            r.agent_hooks_of() == Seq::<A>::empty(),
    {
        Self::new()
    }
}

} // verus!
