//! Assembling a streamed provider answer into content blocks.
//!
//! A streaming provider sends text deltas, tool-use starts, tool-input deltas
//! and block stops; a `StreamRound` turns them into the blocks of one
//! assistant message, exactly as a non-streaming answer would carry them.

use vstd::prelude::*;
use crate::agent_loop::{LoopRun, LoopStep, decide_step, last_text, step_matches};
use crate::message::{BlockView, ContentBlock, Message, MessageView, blocks_view, history};

verus! {

/// One event of a streamed answer.
#[derive(Clone, Debug)]
pub enum StreamEvent {
    TextDelta(String),
    ToolUseStart { id: String, name: String },
    ToolUseInputDelta(String),
    ContentBlockStop,
    MessageStop { stop_reason: String },
}

/// What a stream event says, as plain text values.
pub enum EventView {
    TextDelta(Seq<char>),
    ToolUseStart(Seq<char>, Seq<char>),
    ToolUseInputDelta(Seq<char>),
    ContentBlockStop,
    MessageStop(Seq<char>),
}

impl View for StreamEvent {
    type V = EventView;

    open spec fn view(&self) -> EventView {
        match self {
            StreamEvent::TextDelta(t) => EventView::TextDelta(t@),
            StreamEvent::ToolUseStart { id, name } => EventView::ToolUseStart(id@, name@),
            StreamEvent::ToolUseInputDelta(j) => EventView::ToolUseInputDelta(j@),
            StreamEvent::ContentBlockStop => EventView::ContentBlockStop,
            StreamEvent::MessageStop { stop_reason } => EventView::MessageStop(stop_reason@),
        }
    }
}

/// The compact JSON text of the value that `text` parses to, or `null` when it
/// does not parse.
pub uninterp spec fn json_canonical_text(text: Seq<char>) -> Seq<char>;

/// Parses `text` as JSON and prints the value back in compact form; text that
/// does not parse gives `null`. The body calls `serde_json::from_str` into a
/// `serde_json::Value` and prints the value with its `Display` (the compact
/// serializer). Claimed: the result is a function of `text` alone, named
/// `json_canonical_text`; nothing more is stated of it.
#[verifier::external_body]
fn canonical_json(text: &str) -> (r: String)
    ensures
        r@ == json_canonical_text(text@),
{
    serde_json::from_str::<serde_json::Value>(text).unwrap_or(serde_json::Value::Null).to_string()
}

/// The state of one streamed answer being assembled.
#[derive(Debug)]
pub struct StreamRound {
    /// The blocks completed so far.
    pub blocks: Vec<ContentBlock>,
    /// The text of the open text block.
    pub text: String,
    /// The id, name and input JSON text of the open tool-use block.
    pub tool_id: String,
    pub tool_name: String,
    pub tool_input: String,
    /// Whether a text block is open.
    pub in_text: bool,
    /// Whether a tool-use block is open.
    pub in_tool: bool,
    /// The stop reason the answer ended with (empty until it arrives).
    pub stop_reason: String,
    /// The text of the last text block completed in this run of the loop.
    pub final_text: String,
}

/// A `StreamRound` as plain values.
pub struct RoundView {
    pub blocks: Seq<BlockView>,
    pub text: Seq<char>,
    pub tool_id: Seq<char>,
    pub tool_name: Seq<char>,
    pub tool_input: Seq<char>,
    pub in_text: bool,
    pub in_tool: bool,
    pub stop_reason: Seq<char>,
    pub final_text: Seq<char>,
}

impl View for StreamRound {
    type V = RoundView;

    open spec fn view(&self) -> RoundView {
        RoundView {
            blocks: blocks_view(self.blocks@),
            text: self.text@,
            tool_id: self.tool_id@,
            tool_name: self.tool_name@,
            tool_input: self.tool_input@,
            in_text: self.in_text,
            in_tool: self.in_tool,
            stop_reason: self.stop_reason@,
            final_text: self.final_text@,
        }
    }
}

/// Closing the open blocks: an open text block is completed (and its text becomes
/// the final text), then an open tool-use block is completed with `input` as its
/// input text.
pub open spec fn close_blocks(st: RoundView, input: Seq<char>) -> RoundView {
    let st1 = if st.in_text {
        RoundView {
            blocks: st.blocks.push(BlockView::Text(st.text)),
            final_text: st.text,
            text: Seq::empty(),
            in_text: false,
            ..st
        }
    } else {
        st
    };
    if st1.in_tool {
        RoundView {
            blocks: st1.blocks.push(BlockView::ToolUse(st1.tool_id, st1.tool_name, input)),
            tool_id: Seq::empty(),
            tool_name: Seq::empty(),
            tool_input: Seq::empty(),
            in_tool: false,
            ..st1
        }
    } else {
        st1
    }
}

/// The effect of one stream event on the round.
pub open spec fn stream_step(st: RoundView, ev: EventView) -> RoundView {
    match ev {
        EventView::TextDelta(t) => RoundView { in_text: true, text: st.text + t, ..st },
        EventView::ToolUseStart(id, name) => RoundView {
            in_tool: true,
            tool_id: id,
            tool_name: name,
            tool_input: Seq::empty(),
            ..st
        },
        EventView::ToolUseInputDelta(j) => RoundView { tool_input: st.tool_input + j, ..st },
        EventView::ContentBlockStop => close_blocks(st, json_canonical_text(st.tool_input)),
        EventView::MessageStop(r) => RoundView { stop_reason: r, ..st },
    }
}

/// The round in which nothing has arrived yet, in a run whose final text is `final_text`.
pub open spec fn fresh_round(final_text: Seq<char>) -> RoundView {
    RoundView {
        blocks: Seq::empty(),
        text: Seq::empty(),
        tool_id: Seq::empty(),
        tool_name: Seq::empty(),
        tool_input: Seq::empty(),
        in_text: false,
        in_tool: false,
        stop_reason: Seq::empty(),
        final_text,
    }
}

fn append_owned(s: &mut String, t: &String)
    ensures
        final(s)@ == old(s)@ + t@,
{
    s.append(t.as_str());
}

impl StreamRound {
    /// A fresh round of `run`; the run's final text moves into the round until
    /// `finish` gives it back.
    pub fn start(run: &mut LoopRun) -> (round: StreamRound)
        ensures
            round@ == fresh_round(old(run).final_response@),
            final(run).iteration == old(run).iteration,
            final(run).final_response@ == Seq::<char>::empty(),
    {
        let mut final_text = String::new();
        std::mem::swap(&mut final_text, &mut run.final_response);
        let r = StreamRound {
            blocks: Vec::new(),
            text: String::new(),
            tool_id: String::new(),
            tool_name: String::new(),
            tool_input: String::new(),
            in_text: false,
            in_tool: false,
            stop_reason: String::new(),
            final_text,
        };
        proof {
            assert(blocks_view(r.blocks@) == Seq::<BlockView>::empty());
        }
        r
    }

    /// Closes the open blocks, giving an open tool-use block `input` as its input text.
    pub fn close_blocks(&mut self, input: String)
        ensures
            final(self)@ == close_blocks(old(self)@, input@),
    {
        if self.in_text {
            let t = self.text.clone();
            let ghost before = self.blocks@;
            self.blocks.push(ContentBlock::Text { text: t });
            proof {
                assert(blocks_view(self.blocks@) == blocks_view(before).push(BlockView::Text(old(self).text@)));
            }
            self.final_text = self.text.clone();
            self.text = String::new();
            self.in_text = false;
        }
        if self.in_tool {
            let id = self.tool_id.clone();
            let name = self.tool_name.clone();
            let ghost before = self.blocks@;
            self.blocks.push(ContentBlock::ToolUse { id, name, input });
            proof {
                assert(blocks_view(self.blocks@) == blocks_view(before).push(
                    BlockView::ToolUse(self.tool_id@, self.tool_name@, input@),
                ));
            }
            self.tool_id = String::new();
            self.tool_name = String::new();
            self.tool_input = String::new();
            self.in_tool = false;
        }
    }

    /// Applies one stream event.
    pub fn apply(&mut self, event: StreamEvent)
        ensures
            final(self)@ == stream_step(old(self)@, event@),
    {
        match event {
            StreamEvent::TextDelta(t) => {
                self.in_text = true;
                append_owned(&mut self.text, &t);
            },
            StreamEvent::ToolUseStart { id, name } => {
                self.in_tool = true;
                self.tool_id = id;
                self.tool_name = name;
                self.tool_input = String::new();
            },
            StreamEvent::ToolUseInputDelta(j) => {
                append_owned(&mut self.tool_input, &j);
            },
            StreamEvent::ContentBlockStop => {
                let input = if self.in_tool {
                    canonical_json(self.tool_input.as_str())
                } else {
                    String::new()
                };
                self.close_blocks(input);
            },
            StreamEvent::MessageStop { stop_reason } => {
                self.stop_reason = stop_reason;
            },
        }
    }

    /// Ends the round: appends the assembled blocks to the history as an
    /// assistant message (when there are any), gives the final text back to the
    /// run, and decides what comes next.
    pub fn finish(self, run: &mut LoopRun, messages: &mut Vec<Message>) -> (step: LoopStep)
        ensures
            self@.blocks.len() > 0 ==> history(final(messages)@) == history(old(messages)@).push(
                MessageView::Assistant(self@.blocks),
            ),
            self@.blocks.len() == 0 ==> final(messages)@ == old(messages)@,
            final(run).iteration == old(run).iteration,
            final(run).final_response@ == self@.final_text,
            step_matches(step, self@.blocks, self@.stop_reason, self@.final_text),
    {
        let ghost sv = self@;
        let step = decide_step(&self.blocks, self.stop_reason.as_str(), self.final_text.clone());
        run.final_response = self.final_text;
        if self.blocks.len() > 0 {
            messages.push(Message::assistant(self.blocks));
            proof {
                assert(history(final(messages)@) == history(old(messages)@).push(MessageView::Assistant(sv.blocks)));
            }
        }
        step
    }
}

/// Law: a text delta split in two gives the same round as the whole delta.
pub proof fn text_deltas_concatenate(st: RoundView, a: Seq<char>, b: Seq<char>)
    ensures
        stream_step(stream_step(st, EventView::TextDelta(a)), EventView::TextDelta(b))
            == stream_step(st, EventView::TextDelta(a + b)),
{
    assert(st.text + a + b == st.text + (a + b));
}

/// Law: a tool-input delta split in two gives the same round as the whole delta.
pub proof fn input_deltas_concatenate(st: RoundView, a: Seq<char>, b: Seq<char>)
    ensures
        stream_step(stream_step(st, EventView::ToolUseInputDelta(a)), EventView::ToolUseInputDelta(b))
            == stream_step(st, EventView::ToolUseInputDelta(a + b)),
{
    assert(st.tool_input + a + b == st.tool_input + (a + b));
}

/// Law: text streamed as deltas and closed becomes one text block holding the
/// deltas' concatenation, and that text becomes the final text.
pub proof fn streamed_text_becomes_block(final_text: Seq<char>, a: Seq<char>, b: Seq<char>)
    ensures
        ({
            let st = stream_step(
                stream_step(stream_step(fresh_round(final_text), EventView::TextDelta(a)), EventView::TextDelta(b)),
                EventView::ContentBlockStop,
            );
            &&& st.blocks == seq![BlockView::Text(a + b)]
            &&& st.final_text == a + b
            &&& !st.in_text
        }),
{
    assert(Seq::<char>::empty() + a + b == a + b);
    assert(Seq::<BlockView>::empty().push(BlockView::Text(a + b)) == seq![BlockView::Text(a + b)]);
}

} // verus!

verus! {

/// The round after the events `evs`, one after another.
pub open spec fn run_events(st: RoundView, evs: Seq<EventView>) -> RoundView
    decreases evs.len(),
{
    if evs.len() == 0 {
        st
    } else {
        run_events(stream_step(st, evs[0]), evs.drop_first())
    }
}

/// The events a streaming provider sends for one block, in one piece each.
pub open spec fn block_events(b: BlockView) -> Seq<EventView> {
    match b {
        BlockView::Text(t) => seq![EventView::TextDelta(t), EventView::ContentBlockStop],
        BlockView::ToolUse(id, name, input) => seq![
            EventView::ToolUseStart(id, name),
            EventView::ToolUseInputDelta(input),
            EventView::ContentBlockStop,
        ],
    }
}

/// The events a streaming provider sends for the blocks `bs`, block after block.
pub open spec fn blocks_events(bs: Seq<BlockView>) -> Seq<EventView>
    decreases bs.len(),
{
    if bs.len() == 0 {
        Seq::empty()
    } else {
        blocks_events(bs.drop_last()) + block_events(bs.last())
    }
}

/// Whether each tool input among `bs` is already in the compact JSON form.
pub open spec fn inputs_compact(bs: Seq<BlockView>) -> bool {
    forall|i: int| 0 <= i < bs.len() ==> match #[trigger] bs[i] {
        BlockView::ToolUse(_, _, input) => json_canonical_text(input) == input,
        _ => true,
    }
}

/// The round with the blocks `bs` completed and nothing open.
pub open spec fn settled(bs: Seq<BlockView>, final_text: Seq<char>) -> RoundView {
    RoundView { blocks: bs, final_text, ..fresh_round(final_text) }
}

proof fn lemma_run_events_concat(st: RoundView, a: Seq<EventView>, b: Seq<EventView>)
    ensures
        run_events(st, a + b) == run_events(run_events(st, a), b),
    decreases a.len(),
{
    if a.len() > 0 {
        assert((a + b).drop_first() == a.drop_first() + b);
        assert((a + b)[0] == a[0]);
        lemma_run_events_concat(stream_step(st, a[0]), a.drop_first(), b);
    } else {
        assert(a + b == b);
    }
}

proof fn lemma_run_one(st: RoundView, evs: Seq<EventView>)
    requires
        evs.len() > 0,
    ensures
        run_events(st, evs) == run_events(stream_step(st, evs[0]), evs.drop_first()),
{
}

proof fn lemma_block_settles(bs: Seq<BlockView>, b: BlockView, final_text: Seq<char>)
    requires
        match b {
            BlockView::ToolUse(_, _, input) => json_canonical_text(input) == input,
            _ => true,
        },
    ensures
        run_events(settled(bs, final_text), block_events(b)) == settled(
            bs.push(b),
            match b {
                BlockView::Text(t) => t,
                _ => final_text,
            },
        ),
{
    let st = settled(bs, final_text);
    let evs = block_events(b);
    match b {
        BlockView::Text(t) => {
            let e1 = evs.drop_first();
            let e2 = e1.drop_first();
            assert(e2 =~= Seq::<EventView>::empty());
            lemma_run_one(st, evs);
            let s1 = stream_step(st, evs[0]);
            lemma_run_one(s1, e1);
            let s2 = stream_step(s1, e1[0]);
            assert(e1[0] == EventView::ContentBlockStop);
            assert(Seq::<char>::empty() + t =~= t);
            assert(s2 == settled(bs.push(b), t));
        },
        BlockView::ToolUse(id, name, input) => {
            let e1 = evs.drop_first();
            let e2 = e1.drop_first();
            let e3 = e2.drop_first();
            assert(e3 =~= Seq::<EventView>::empty());
            lemma_run_one(st, evs);
            let s1 = stream_step(st, evs[0]);
            lemma_run_one(s1, e1);
            let s2 = stream_step(s1, e1[0]);
            lemma_run_one(s2, e2);
            let s3 = stream_step(s2, e2[0]);
            assert(e1[0] == EventView::ToolUseInputDelta(input));
            assert(e2[0] == EventView::ContentBlockStop);
            assert(Seq::<char>::empty() + input =~= input);
            assert(s2.tool_input == input);
            assert(s3 == settled(bs.push(b), final_text));
        },
    }
}

proof fn lemma_blocks_settle(bs: Seq<BlockView>, prev: Seq<char>)
    requires
        inputs_compact(bs),
    ensures
        run_events(fresh_round(prev), blocks_events(bs)) == settled(bs, last_text(bs, prev)),
    decreases bs.len(),
{
    if bs.len() == 0 {
        assert(bs =~= Seq::<BlockView>::empty());
        assert(settled(bs, prev) == fresh_round(prev));
    } else {
        let init = bs.drop_last();
        assert(inputs_compact(init)) by {
            assert forall|i: int| 0 <= i < init.len() implies match #[trigger] init[i] {
                BlockView::ToolUse(_, _, input) => json_canonical_text(input) == input,
                _ => true,
            } by {
                assert(init[i] == bs[i]);
            }
        }
        lemma_blocks_settle(init, prev);
        lemma_run_events_concat(fresh_round(prev), blocks_events(init), block_events(bs.last()));
        assert(bs[bs.len() - 1] == bs.last());
        lemma_block_settles(init, bs.last(), last_text(init, prev));
        assert(init.push(bs.last()) == bs);
    }
}

/// Law: an answer streamed block by block, each block in one piece, is
/// assembled into exactly the blocks of the whole answer (when its tool
/// inputs are already compact JSON), with the same stop reason, and its
/// final text is the text of its last text block, as for a whole answer.
pub proof fn streaming_assembles_the_whole_answer(bs: Seq<BlockView>, stop_reason: Seq<char>, prev: Seq<char>)
    requires
        inputs_compact(bs),
    ensures
        ({
            let st = run_events(fresh_round(prev), blocks_events(bs).push(EventView::MessageStop(stop_reason)));
            &&& st.blocks == bs
            &&& st.stop_reason == stop_reason
            &&& st.final_text == last_text(bs, prev)
            &&& !st.in_text && !st.in_tool
        }),
{
    lemma_blocks_settle(bs, prev);
    let stop = seq![EventView::MessageStop(stop_reason)];
    assert(blocks_events(bs).push(EventView::MessageStop(stop_reason)) == blocks_events(bs) + stop);
    lemma_run_events_concat(fresh_round(prev), blocks_events(bs), stop);
    let mid = settled(bs, last_text(bs, prev));
    lemma_run_one(mid, stop);
    assert(stop.drop_first() =~= Seq::<EventView>::empty());
    assert(stop[0] == EventView::MessageStop(stop_reason));
}

} // verus!
