//! An approximate token count of a conversation.
//!
//! The count divides the number of UTF-8 bytes of the conversation's text by
//! a characters-per-token ratio and adds four tokens of overhead per message.
//! The ratio is held as an exact fraction `chars_num / chars_den`: 7/2 (3.5)
//! for Anthropic models, 4/1 for OpenAI models.

use vstd::prelude::*;
use vstd::utf8::encode_utf8;
use crate::message::{BlockView, ContentBlock, Message, MessageView, ToolResultContent, blocks_view, history, results_view};

verus! {

/// The number of UTF-8 bytes of a text.
pub open spec fn text_bytes(s: Seq<char>) -> nat {
    encode_utf8(s).len()
}

/// The sum of `f` over the elements of `s`.
pub open spec fn sum_of<T>(s: Seq<T>, f: spec_fn(T) -> nat) -> nat
    decreases s.len(),
{
    if s.len() == 0 {
        0
    } else {
        sum_of(s.drop_last(), f) + f(s.last())
    }
}

pub proof fn lemma_sum_push<T>(s: Seq<T>, x: T, f: spec_fn(T) -> nat)
    ensures
        sum_of(s.push(x), f) == sum_of(s, f) + f(x),
{
    assert(s.push(x).drop_last() == s);
}

pub proof fn lemma_sum_prefix<T>(s: Seq<T>, i: int, f: spec_fn(T) -> nat)
    requires
        0 <= i <= s.len(),
    ensures
        sum_of(s.take(i), f) <= sum_of(s, f),
    decreases s.len(),
{
    if i < s.len() {
        assert(s.drop_last().take(i) == s.take(i));
        lemma_sum_prefix(s.drop_last(), i, f);
    } else {
        assert(s.take(i) == s);
    }
}

pub proof fn lemma_sum_remove<T>(s: Seq<T>, i: int, f: spec_fn(T) -> nat)
    requires
        0 <= i < s.len(),
    ensures
        sum_of(s.remove(i), f) + f(s[i]) == sum_of(s, f),
    decreases s.len(),
{
    if i == s.len() - 1 {
        assert(s.remove(i) == s.drop_last());
    } else {
        lemma_sum_remove(s.drop_last(), i, f);
        assert(s.remove(i).drop_last() == s.drop_last().remove(i));
        assert(s.remove(i).last() == s.last());
    }
}

/// The bytes a block contributes: a text block its text; a tool use its id,
/// name and input JSON text.
pub open spec fn block_bytes(b: BlockView) -> nat {
    match b {
        BlockView::Text(t) => text_bytes(t),
        BlockView::ToolUse(id, name, input) => text_bytes(id) + text_bytes(name) + text_bytes(input),
    }
}

/// The bytes a tool result contributes: its tool use id and its content.
pub open spec fn result_bytes(r: (Seq<char>, Seq<char>)) -> nat {
    text_bytes(r.0) + text_bytes(r.1)
}

/// `block_bytes` as a function value.
pub open spec fn block_bytes_fn() -> spec_fn(BlockView) -> nat {
    |b: BlockView| block_bytes(b)
}

/// `result_bytes` as a function value.
pub open spec fn result_bytes_fn() -> spec_fn((Seq<char>, Seq<char>)) -> nat {
    |r: (Seq<char>, Seq<char>)| result_bytes(r)
}

/// The bytes a message contributes.
pub open spec fn message_bytes(m: MessageView) -> nat {
    match m {
        MessageView::User(t) => text_bytes(t),
        MessageView::Assistant(blocks) => sum_of(blocks, block_bytes_fn()),
        MessageView::ToolResult(results) => sum_of(results, result_bytes_fn()),
    }
}

/// `message_bytes` as a function value.
pub open spec fn message_bytes_fn() -> spec_fn(MessageView) -> nat {
    |m: MessageView| message_bytes(m)
}

/// The bytes of a whole conversation.
pub open spec fn total_bytes(ms: Seq<MessageView>) -> nat {
    sum_of(ms, message_bytes_fn())
}

/// The tokens that `total` bytes make at the ratio `num / den` characters per
/// token: the bytes divided by the ratio, rounded down. A ratio with a zero
/// denominator is infinite (or undefined) and gives no tokens; a zero ratio
/// gives the largest count, `usize::MAX`, for any bytes at all.
pub open spec fn ratio_tokens(total: nat, num: nat, den: nat) -> nat {
    if den == 0 {
        0
    } else if num == 0 {
        if total == 0 { 0 } else { usize::MAX as nat }
    } else {
        (total * den) / num
    }
}

/// The estimated number of tokens of a conversation for the ratio `num / den`
/// characters per token: its bytes at that ratio plus four per message.
pub open spec fn token_estimate(num: nat, den: nat, ms: Seq<MessageView>) -> nat {
    ratio_tokens(total_bytes(ms), num, den) + 4 * ms.len()
}

/// More bytes never make fewer tokens.
pub proof fn lemma_ratio_tokens_monotone(a: nat, b: nat, num: nat, den: nat)
    requires
        a <= b,
    ensures
        ratio_tokens(a, num, den) <= ratio_tokens(b, num, den),
{
    if den != 0 && num != 0 {
        assert(a * den <= b * den) by (nonlinear_arith)
            requires
                a <= b,
        ;
        vstd::arithmetic::div_mod::lemma_div_is_ordered((a * den) as int, (b * den) as int, num as int);
    }
}

/// Approximate token counter.
#[derive(Clone, Copy, Debug)]
pub struct TokenCounter {
    chars_num: u64,
    chars_den: u64,
}

/// The number of bytes of `s`.
fn byte_len(s: &String) -> (n: usize)
    requires
        text_bytes(s@) <= usize::MAX,
    ensures
        n == text_bytes(s@),
{
    s.as_str().len()
}

fn block_len(b: &ContentBlock) -> (n: usize)
    requires
        block_bytes(b@) <= usize::MAX,
    ensures
        n == block_bytes(b@),
{
    match b {
        ContentBlock::Text { text } => byte_len(text),
        ContentBlock::ToolUse { id, name, input } => byte_len(id) + byte_len(name) + byte_len(input),
    }
}

fn result_len(r: &ToolResultContent) -> (n: usize)
    requires
        result_bytes(r@) <= usize::MAX,
    ensures
        n == result_bytes(r@),
{
    match r {
        ToolResultContent::ToolResult { tool_use_id, content } => byte_len(tool_use_id) + byte_len(content),
    }
}

/// The bytes that a message contributes to the count.
fn message_len(m: &Message) -> (n: usize)
    requires
        message_bytes(m@) <= usize::MAX,
    ensures
        n == message_bytes(m@),
{
    match m {
        Message::User { content } => byte_len(content),
        Message::Assistant { content } => {
            let ghost bv = blocks_view(content@);
            let ghost f = block_bytes_fn();
            let mut acc: usize = 0;
            let n = content.len();
            for i in 0..n
                invariant
                    n == content@.len(),
                    bv == blocks_view(content@),
                    f == block_bytes_fn(),
                    sum_of(bv, f) <= usize::MAX,
                    acc == sum_of(bv.take(i as int), f),
            {
                proof {
                    assert(bv.take(i + 1) == bv.take(i as int).push(bv[i as int]));
                    lemma_sum_push(bv.take(i as int), bv[i as int], f);
                    lemma_sum_prefix(bv, i + 1, f);
                    assert(bv[i as int] == content@[i as int]@);
                    assert(f(bv[i as int]) == block_bytes(content@[i as int]@));
                }
                acc = acc + block_len(&content[i]);
            }
            proof {
                assert(bv.take(n as int) == bv);
            }
            acc
        },
        Message::ToolResult { content } => {
            let ghost rv = results_view(content@);
            let ghost f = result_bytes_fn();
            let mut acc: usize = 0;
            let n = content.len();
            for i in 0..n
                invariant
                    n == content@.len(),
                    rv == results_view(content@),
                    f == result_bytes_fn(),
                    sum_of(rv, f) <= usize::MAX,
                    acc == sum_of(rv.take(i as int), f),
            {
                proof {
                    assert(rv.take(i + 1) == rv.take(i as int).push(rv[i as int]));
                    lemma_sum_push(rv.take(i as int), rv[i as int], f);
                    lemma_sum_prefix(rv, i + 1, f);
                    assert(rv[i as int] == content@[i as int]@);
                    assert(f(rv[i as int]) == result_bytes(content@[i as int]@));
                }
                acc = acc + result_len(&content[i]);
            }
            proof {
                assert(rv.take(n as int) == rv);
            }
            acc
        },
    }
}

/// The bytes of a whole conversation.
pub fn conversation_bytes(messages: &Vec<Message>) -> (n: usize)
    requires
        total_bytes(history(messages@)) <= usize::MAX,
    ensures
        n == total_bytes(history(messages@)),
{
    let ghost hv = history(messages@);
    let ghost f = message_bytes_fn();
    let mut acc: usize = 0;
    let n = messages.len();
    for i in 0..n
        invariant
            n == messages@.len(),
            hv == history(messages@),
            f == message_bytes_fn(),
            sum_of(hv, f) <= usize::MAX,
            acc == sum_of(hv.take(i as int), f),
    {
        proof {
            assert(hv.take(i + 1) == hv.take(i as int).push(hv[i as int]));
            lemma_sum_push(hv.take(i as int), hv[i as int], f);
            lemma_sum_prefix(hv, i + 1, f);
            assert(hv[i as int] == messages@[i as int]@);
            assert(f(hv[i as int]) == message_bytes(messages@[i as int]@));
        }
        acc = acc + message_len(&messages[i]);
    }
    proof {
        assert(hv.take(n as int) == hv);
    }
    acc
}

impl TokenCounter {
    /// The ratio's numerator (characters).
    pub closed spec fn num(self) -> nat {
        self.chars_num as nat
    }

    /// The ratio's denominator (tokens).
    pub closed spec fn den(self) -> nat {
        self.chars_den as nat
    }

    /// A counter for Anthropic models: 3.5 characters per token.
    pub fn anthropic() -> (c: TokenCounter)
        ensures
            c.num() == 7 && c.den() == 2,
    {
        TokenCounter { chars_num: 7, chars_den: 2 }
    }

    /// A counter for OpenAI models: 4 characters per token.
    pub fn openai() -> (c: TokenCounter)
        ensures
            c.num() == 4 && c.den() == 1,
    {
        TokenCounter { chars_num: 4, chars_den: 1 }
    }

    /// A counter with `chars_num / chars_den` characters per token.
    pub fn new(chars_num: u64, chars_den: u64) -> (c: TokenCounter)
        ensures
            c.num() == chars_num && c.den() == chars_den,
    {
        TokenCounter { chars_num, chars_den }
    }

    /// The characters per token, as the fraction (numerator, denominator).
    pub fn chars_per_token(&self) -> (r: (u64, u64))
        ensures
            r.0 == self.num() && r.1 == self.den(),
    {
        (self.chars_num, self.chars_den)
    }

    /// The estimated token count of a conversation.
    pub fn count_messages(&self, messages: &Vec<Message>) -> (n: usize)
        requires
            total_bytes(history(messages@)) <= usize::MAX,
            token_estimate(self.num(), self.den(), history(messages@)) <= usize::MAX,
        ensures
            n == token_estimate(self.num(), self.den(), history(messages@)),
    {
        let total = conversation_bytes(messages);
        let tokens: usize = if self.chars_den == 0 {
            0
        } else if self.chars_num == 0 {
            if total == 0 { 0 } else { usize::MAX }
        } else {
            assert((total as u128) * (self.chars_den as u128) <= u64::MAX as u128 * u64::MAX as u128) by (nonlinear_arith)
                requires
                    total as u128 <= u64::MAX as u128,
                    self.chars_den as u128 <= u64::MAX as u128;
            let scaled: u128 = (total as u128) * (self.chars_den as u128);
            (scaled / (self.chars_num as u128)) as usize
        };
        proof {
            assert(messages@.len() == history(messages@).len());
        }
        let overhead = messages.len() * 4;
        tokens + overhead
    }
}

impl Default for TokenCounter {
    fn default() -> (c: TokenCounter)
        ensures
            c.num() == 7 && c.den() == 2,
    {
        TokenCounter::anthropic()
    }
}

} // verus!

verus! {

/// Law: a longer conversation never gets a smaller estimate: appending a
/// message adds its bytes and four tokens of overhead.
pub proof fn estimate_grows_with_history(num: nat, den: nat, ms: Seq<MessageView>, m: MessageView)
    ensures
        token_estimate(num, den, ms.push(m)) >= token_estimate(num, den, ms) + 4,
{
    lemma_sum_push(ms, m, message_bytes_fn());
    lemma_ratio_tokens_monotone(total_bytes(ms), total_bytes(ms.push(m)), num, den);
}

} // verus!
