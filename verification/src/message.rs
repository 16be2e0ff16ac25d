//! The conversation model: what the user, the assistant and the tools say.
//!
//! A tool call's input is held as its JSON text, in the compact form that
//! JSON serialization gives.

use vstd::prelude::*;

verus! {

/// One block of an assistant message.
#[derive(Clone, Debug)]
pub enum ContentBlock {
    /// Plain text.
    Text { text: String },
    /// A request to run a tool; `input` is the JSON text of its arguments.
    ToolUse { id: String, name: String, input: String },
}

/// One result of a tool run, answering the tool use with the same id.
#[derive(Clone, Debug)]
pub enum ToolResultContent {
    ToolResult { tool_use_id: String, content: String },
}

/// One message of the conversation.
#[derive(Clone, Debug)]
#[allow(inconsistent_fields)]
pub enum Message {
    User { content: String },
    Assistant { content: Vec<ContentBlock> },
    ToolResult { content: Vec<ToolResultContent> },
}

impl ContentBlock {
    /// A text block.
    pub fn text(text: &str) -> (b: ContentBlock)
        ensures
            match b {
                ContentBlock::Text { text: t } => t@ == text@,
                _ => false,
            },
    {
        ContentBlock::Text { text: text.to_owned() }
    }

    /// A tool-use block.
    pub fn tool_use(id: String, name: String, input: String) -> (b: ContentBlock)
        ensures
            b == (ContentBlock::ToolUse { id, name, input }),
    {
        ContentBlock::ToolUse { id, name, input }
    }
}

/// What a content block says, as plain text values.
pub enum BlockView {
    Text(Seq<char>),
    ToolUse(Seq<char>, Seq<char>, Seq<char>),
}

/// What a message says, as plain text values.
pub enum MessageView {
    User(Seq<char>),
    Assistant(Seq<BlockView>),
    ToolResult(Seq<(Seq<char>, Seq<char>)>),
}

impl View for ContentBlock {
    type V = BlockView;

    open spec fn view(&self) -> BlockView {
        match self {
            ContentBlock::Text { text } => BlockView::Text(text@),
            ContentBlock::ToolUse { id, name, input } => BlockView::ToolUse(id@, name@, input@),
        }
    }
}

impl View for ToolResultContent {
    type V = (Seq<char>, Seq<char>);

    open spec fn view(&self) -> (Seq<char>, Seq<char>) {
        match self {
            ToolResultContent::ToolResult { tool_use_id, content } => (tool_use_id@, content@),
        }
    }
}

/// The views of a list of blocks.
pub open spec fn blocks_view(blocks: Seq<ContentBlock>) -> Seq<BlockView> {
    blocks.map_values(|b: ContentBlock| b@)
}

/// The views of a list of tool results.
pub open spec fn results_view(results: Seq<ToolResultContent>) -> Seq<(Seq<char>, Seq<char>)> {
    results.map_values(|r: ToolResultContent| r@)
}

impl View for Message {
    type V = MessageView;

    open spec fn view(&self) -> MessageView {
        match self {
            Message::User { content } => MessageView::User(content@),
            Message::Assistant { content } => MessageView::Assistant(blocks_view(content@)),
            Message::ToolResult { content } => MessageView::ToolResult(results_view(content@)),
        }
    }
}

/// The views of a conversation's messages.
pub open spec fn history(msgs: Seq<Message>) -> Seq<MessageView> {
    msgs.map_values(|m: Message| m@)
}

/// The tool results that a list of (tool use id, result text) pairs make, in order.
pub open spec fn results_of(pairs: Seq<(String, String)>) -> Seq<ToolResultContent> {
    pairs.map_values(|p: (String, String)| ToolResultContent::ToolResult { tool_use_id: p.0, content: p.1 })
}

impl Message {
    /// A user message.
    pub fn user(content: &str) -> (m: Message)
        ensures
            match m {
                Message::User { content: c } => c@ == content@,
                _ => false,
            },
    {
        Message::User { content: content.to_owned() }
    }

    /// An assistant message made of the given blocks.
    pub fn assistant(content: Vec<ContentBlock>) -> (m: Message)
        ensures
            m == (Message::Assistant { content }),
    {
        Message::Assistant { content }
    }

    /// A message carrying one tool result.
    pub fn tool_result(tool_use_id: String, content: &str) -> (m: Message)
        ensures
            match m {
                Message::ToolResult { content: c } => {
                    &&& c@.len() == 1
                    &&& c@[0]->tool_use_id == tool_use_id
                    &&& c@[0]->content@ == content@
                },
                _ => false,
            },
    {
        let mut v: Vec<ToolResultContent> = Vec::new();
        v.push(ToolResultContent::ToolResult { tool_use_id, content: content.to_owned() });
        Message::ToolResult { content: v }
    }

    /// A message carrying one tool result per pair, in the pairs' order.
    pub fn tool_results(results: Vec<(String, String)>) -> (m: Message)
        ensures
            match m {
                Message::ToolResult { content: c } => c@ == results_of(results@),
                _ => false,
            },
    {
        let mut v: Vec<ToolResultContent> = Vec::new();
        let n = results.len();
        for i in 0..n
            invariant
                n == results@.len(),
                v@ == results_of(results@.take(i as int)),
        {
            let a = results[i].0.clone();
            let b = results[i].1.clone();
            v.push(ToolResultContent::ToolResult { tool_use_id: a, content: b });
            proof {
                assert(results@.take(i + 1) == results@.take(i as int).push(results@[i as int]));
            }
        }
        proof {
            assert(results@.take(n as int) == results@);
        }
        Message::ToolResult { content: v }
    }

    /// Whether this is a user message.
    pub fn is_user(&self) -> (r: bool)
        ensures
            r == (self is User),
    {
        match self {
            Message::User { .. } => true,
            _ => false,
        }
    }

    /// Whether this is a tool-result message.
    pub fn is_tool_result(&self) -> (r: bool)
        ensures
            r == (self is ToolResult),
    {
        match self {
            Message::ToolResult { .. } => true,
            _ => false,
        }
    }

    /// The text of a user message, or `None` for other messages.
    pub fn user_content(&self) -> (r: Option<&str>)
        ensures
            match self {
                Message::User { content } => r is Some && r->0@ == content@,
                _ => r is None,
            },
    {
        match self {
            Message::User { content } => Some(content.as_str()),
            _ => None,
        }
    }
}

} // verus!
