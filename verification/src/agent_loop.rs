//! The decisions of the agent loop.
//!
//! The loop alternates provider calls and tool runs:
//!
//! ```text
//! while stop_reason == "tool_use":
//!     response = provider.complete(messages)
//!     run the tools the response asks for
//!     append their results to messages
//! return the final text
//! ```
//!
//! The calls themselves (and their timeouts) are made by the runtime that
//! drives a `LoopRun`; every decision between them is taken here.

use vstd::prelude::*;
use crate::error::AgentError;
use crate::loop_config::AgentLoopConfig;
use crate::message::{BlockView, ContentBlock, Message, MessageView, ToolResultContent, blocks_view, history, results_of, results_view};
use crate::text::{concat, owned, str_eq};
use crate::context_manager::{ContextManager, compactable, compacted};

verus! {

/// A request to run one tool; `arguments` is the JSON text of its input.
#[derive(Clone, Debug)]
pub struct ToolCall {
    pub id: String,
    pub name: String,
    pub arguments: String,
}

impl View for ToolCall {
    type V = (Seq<char>, Seq<char>, Seq<char>);

    open spec fn view(&self) -> (Seq<char>, Seq<char>, Seq<char>) {
        (self.id@, self.name@, self.arguments@)
    }
}

/// The views of a list of tool calls.
pub open spec fn calls_view(calls: Seq<ToolCall>) -> Seq<(Seq<char>, Seq<char>, Seq<char>)> {
    calls.map_values(|c: ToolCall| c@)
}

/// One answer of the language-model provider.
#[derive(Clone, Debug)]
pub struct ProviderResponse {
    pub content: Vec<ContentBlock>,
    pub stop_reason: String,
}

/// What the loop does next.
#[derive(Debug)]
pub enum LoopStep {
    /// The conversation is complete; the payload is the final text.
    Finished(String),
    /// Run these tools, then record their results.
    RunTools(Vec<ToolCall>),
    /// Call the provider again without running any tool.
    Continue,
}

/// How one tool run ended.
#[derive(Debug)]
pub enum ToolOutcome {
    /// The tool returned this text.
    Completed(String),
    /// The tool returned an error with this text.
    Failed(String),
    /// The tool did not finish within its timeout.
    TimedOut,
    /// The task running the tool was lost; the payload is the reason.
    Aborted(String),
}

/// The text of the last text block of `blocks`, or `prev` when there is none.
pub open spec fn last_text(blocks: Seq<BlockView>, prev: Seq<char>) -> Seq<char>
    decreases blocks.len(),
{
    if blocks.len() == 0 {
        prev
    } else {
        match blocks.last() {
            BlockView::Text(t) => t,
            _ => last_text(blocks.drop_last(), prev),
        }
    }
}

/// The tool uses among `blocks`, in order, as (id, name, input) triples.
pub open spec fn calls_of(blocks: Seq<BlockView>) -> Seq<(Seq<char>, Seq<char>, Seq<char>)>
    decreases blocks.len(),
{
    if blocks.len() == 0 {
        Seq::empty()
    } else {
        match blocks.last() {
            BlockView::ToolUse(id, name, input) => calls_of(blocks.drop_last()).push((id, name, input)),
            _ => calls_of(blocks.drop_last()),
        }
    }
}

/// Whether a stop reason asks for tools to be run.
pub open spec fn wants_tools(stop_reason: Seq<char>) -> bool {
    stop_reason == "tool_use"@
}

/// What the loop does after an answer whose blocks are `blocks`, with stop reason
/// `stop_reason`, when the final text is then `text`.
pub open spec fn step_matches(step: LoopStep, blocks: Seq<BlockView>, stop_reason: Seq<char>, text: Seq<char>) -> bool {
    if !wants_tools(stop_reason) {
        step is Finished && step->Finished_0@ == text
    } else if calls_of(blocks).len() == 0 {
        step is Continue
    } else {
        step is RunTools && calls_view(step->RunTools_0@) == calls_of(blocks)
    }
}

/// The compaction threshold for a context budget of `max` tokens: 7/10 of it.
pub open spec fn context_threshold(max: nat) -> nat {
    max * 7 / 10
}

/// The history after a round of tool results: one tool-result message.
pub open spec fn results_message(results: Seq<(String, String)>) -> MessageView {
    MessageView::ToolResult(results.map_values(|p: (String, String)| (p.0@, p.1@)))
}

proof fn lemma_last_text_push(blocks: Seq<BlockView>, b: BlockView, prev: Seq<char>)
    ensures
        last_text(blocks.push(b), prev) == (match b {
            BlockView::Text(t) => t,
            _ => last_text(blocks, prev),
        }),
{
    assert(blocks.push(b).drop_last() == blocks);
}

proof fn lemma_calls_of_push(blocks: Seq<BlockView>, b: BlockView)
    ensures
        calls_of(blocks.push(b)) == (match b {
            BlockView::ToolUse(id, name, input) => calls_of(blocks).push((id, name, input)),
            _ => calls_of(blocks),
        }),
{
    assert(blocks.push(b).drop_last() == blocks);
}

/// The text of the last text block of `blocks`, or `prev` when there is none.
fn scan_last_text(blocks: &Vec<ContentBlock>, prev: String) -> (r: String)
    ensures
        r@ == last_text(blocks_view(blocks@), prev@),
{
    let mut text = prev;
    let n = blocks.len();
    for i in 0..n
        invariant
            n == blocks@.len(),
            text@ == last_text(blocks_view(blocks@.take(i as int)), prev@),
    {
        proof {
            assert(blocks_view(blocks@.take(i + 1)) == blocks_view(blocks@.take(i as int)).push(blocks@[i as int]@));
            lemma_last_text_push(blocks_view(blocks@.take(i as int)), blocks@[i as int]@, prev@);
        }
        match &blocks[i] {
            ContentBlock::Text { text: t } => {
                text = t.clone();
            },
            _ => {},
        }
    }
    proof {
        assert(blocks@.take(n as int) == blocks@);
    }
    text
}

/// The tool calls that the tool-use blocks of `blocks` ask for, in order.
pub fn tool_calls_of(blocks: &Vec<ContentBlock>) -> (calls: Vec<ToolCall>)
    ensures
        calls_view(calls@) == calls_of(blocks_view(blocks@)),
{
    let mut calls: Vec<ToolCall> = Vec::new();
    let n = blocks.len();
    for i in 0..n
        invariant
            n == blocks@.len(),
            calls_view(calls@) == calls_of(blocks_view(blocks@.take(i as int))),
    {
        proof {
            assert(blocks_view(blocks@.take(i + 1)) == blocks_view(blocks@.take(i as int)).push(blocks@[i as int]@));
            lemma_calls_of_push(blocks_view(blocks@.take(i as int)), blocks@[i as int]@);
        }
        match &blocks[i] {
            ContentBlock::ToolUse { id, name, input } => {
                let ghost before = calls@;
                calls.push(ToolCall { id: id.clone(), name: name.clone(), arguments: input.clone() });
                proof {
                    assert(calls_view(calls@) == calls_view(before).push(calls@.last()@));
                }
            },
            _ => {},
        }
    }
    proof {
        assert(blocks@.take(n as int) == blocks@);
    }
    calls
}

/// The decision after an answer: finish, run tools, or call the provider again.
pub fn decide_step(blocks: &Vec<ContentBlock>, stop_reason: &str, text: String) -> (step: LoopStep)
    ensures
        step_matches(step, blocks_view(blocks@), stop_reason@, text@),
{
    if !str_eq(stop_reason, "tool_use") {
        return LoopStep::Finished(text);
    }
    let calls = tool_calls_of(blocks);
    if calls.len() == 0 {
        LoopStep::Continue
    } else {
        LoopStep::RunTools(calls)
    }
}

/// The (tool use id, result text) entry that records how one tool run ended.
pub fn tool_result_entry(call_id: String, outcome: ToolOutcome) -> (r: (String, String))
    ensures
        match outcome {
            ToolOutcome::Completed(out) => r.0@ == call_id@ && r.1@ == out@,
            ToolOutcome::Failed(err) => r.0@ == call_id@ && r.1@ == "Tool error: "@ + err@,
            ToolOutcome::TimedOut => r.0@ == call_id@ && r.1@ == "Tool timeout"@,
            ToolOutcome::Aborted(why) => r.0@ == "error"@ && r.1@ == "Task failed: "@ + why@,
        },
{
    match outcome {
        ToolOutcome::Completed(out) => (call_id, out),
        ToolOutcome::Failed(err) => (call_id, concat("Tool error: ", err.as_str())),
        ToolOutcome::TimedOut => (call_id, owned("Tool timeout")),
        ToolOutcome::Aborted(why) => (owned("error"), concat("Task failed: ", why.as_str())),
    }
}

/// The loop error for a provider call that timed out or failed with `error_text`.
pub fn provider_failure(timed_out: bool, error_text: String) -> (e: AgentError)
    ensures
        timed_out ==> e == AgentError::ProviderTimeout,
        !timed_out ==> e == AgentError::ProviderError(error_text),
{
    if timed_out {
        AgentError::ProviderTimeout
    } else {
        AgentError::ProviderError(error_text)
    }
}

/// Appends the message that carries one round of tool results.
pub fn record_tool_results(messages: &mut Vec<Message>, results: Vec<(String, String)>)
    ensures
        history(final(messages)@) == history(old(messages)@).push(results_message(results@)),
{
    let ghost pairs = results@;
    let m = Message::tool_results(results);
    proof {
        let c = m->ToolResult_content@;
        assert(results_view(results_of(pairs)) == pairs.map_values(|p: (String, String)| (p.0@, p.1@)));
    }
    messages.push(m);
    proof {
        assert(history(final(messages)@) == history(old(messages)@).push(m@));
    }
}

/// The progress of one run of the loop: how many iterations have started,
/// and the last text the assistant said.
#[derive(Debug)]
pub struct LoopRun {
    pub iteration: usize,
    pub final_response: String,
}

impl LoopRun {
    /// A run that has not started.
    pub fn new() -> (r: LoopRun)
        ensures
            r.iteration == 0,
            r.final_response@ == Seq::<char>::empty(),
    {
        LoopRun { iteration: 0, final_response: String::new() }
    }

    /// Starts an iteration, or refuses when the configured limit is reached.
    /// When the configuration sets a context budget, the history is compacted
    /// to it (Anthropic counter, threshold 7/10, tool results trimmed to 1000
    /// bytes) before the provider is called.
    pub fn begin_iteration(&mut self, config: &AgentLoopConfig, messages: &mut Vec<Message>) -> (r: Result<(), AgentError>)
        requires
            old(self).iteration < config.max_iterations && config.max_context_tokens > 0 ==> compactable(
                history(old(messages)@),
                7,
                2,
                context_threshold(config.max_context_tokens as nat),
                1000,
            ),
        ensures
            old(self).iteration >= config.max_iterations ==> r == Err::<(), AgentError>(
                AgentError::MaxIterationsExceeded(old(self).iteration),
            ) && final(self).iteration == old(self).iteration && final(messages)@ == old(messages)@,
            old(self).iteration < config.max_iterations ==> r is Ok && final(self).iteration == old(self).iteration + 1,
            old(self).iteration < config.max_iterations && config.max_context_tokens > 0 ==> history(final(messages)@)
                == compacted(history(old(messages)@), 7, 2, context_threshold(config.max_context_tokens as nat), 1000),
            config.max_context_tokens == 0 ==> final(messages)@ == old(messages)@,
            final(self).final_response == old(self).final_response,
    {
        if self.iteration >= config.max_iterations {
            return Err(AgentError::MaxIterationsExceeded(self.iteration));
        }
        self.iteration = self.iteration + 1;
        if config.max_context_tokens > 0 {
            let manager = ContextManager::new(config.max_context_tokens);
            manager.compact_if_needed(messages);
        }
        Ok(())
    }

    /// Records a provider answer: appends it to the history as an assistant
    /// message, keeps the text of its last text block, and decides what comes next.
    pub fn on_response(&mut self, messages: &mut Vec<Message>, response: ProviderResponse) -> (step: LoopStep)
        ensures
            history(final(messages)@) == history(old(messages)@).push(
                MessageView::Assistant(blocks_view(response.content@)),
            ),
            final(self).iteration == old(self).iteration,
            final(self).final_response@ == last_text(blocks_view(response.content@), old(self).final_response@),
            step_matches(step, blocks_view(response.content@), response.stop_reason@, final(self).final_response@),
    {
        let mut prev = String::new();
        std::mem::swap(&mut prev, &mut self.final_response);
        let text = scan_last_text(&response.content, prev);
        let step = decide_step(&response.content, response.stop_reason.as_str(), text.clone());
        self.final_response = text;
        let ghost content = response.content@;
        messages.push(Message::assistant(response.content));
        proof {
            assert(history(final(messages)@) == history(old(messages)@).push(MessageView::Assistant(blocks_view(content))));
        }
        step
    }
}

} // verus!
