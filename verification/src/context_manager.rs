//! Compaction of a conversation that outgrows its token budget.
//!
//! Two layers run, cheapest first:
//! - trim long tool results to their first and last bytes, with a note of how
//!   many bytes were cut;
//! - drop the oldest messages after the first one, keeping at least the first
//!   message and the six most recent ones, until the estimate fits.
//!
//! Compaction starts when the estimate exceeds the threshold, a fraction of
//! the maximum (7/10 by default).

use vstd::prelude::*;
use vstd::utf8::{encode_utf8, decode_utf8, is_char_boundary};
use crate::message::{Message, MessageView, ToolResultContent, history, results_view};
use crate::text::{decimal, push_decimal};
use crate::token_counter::{
    TokenCounter, lemma_sum_push, lemma_sum_remove, message_bytes, message_bytes_fn, result_bytes,
    result_bytes_fn, sum_of, text_bytes, token_estimate, total_bytes, lemma_ratio_tokens_monotone,
};

verus! {

broadcast use vstd::utf8::group_utf8_lib;

/// The note that replaces the middle of a trimmed tool result.
pub open spec fn truncation_note(cut: nat) -> Seq<char> {
    "...\n["@ + decimal(cut) + " chars truncated]\n..."@
}

/// A tool result's text after trimming to `max` bytes: when longer, its first
/// and last `max / 2` bytes around the truncation note; else unchanged.
pub open spec fn trimmed_text(s: Seq<char>, max: nat) -> Seq<char> {
    let b = encode_utf8(s);
    let n = b.len();
    if n > max {
        let half = max / 2;
        decode_utf8(b.subrange(0, half as int)) + truncation_note((n - max) as nat) + decode_utf8(
            b.subrange(n - half, n as int),
        )
    } else {
        s
    }
}

/// Trimming `s` cuts it at character boundaries (else the cut would fail).
pub open spec fn trim_ok(s: Seq<char>, max: nat) -> bool {
    let b = encode_utf8(s);
    let n = b.len();
    n > max ==> is_char_boundary(b, (max / 2) as int) && is_char_boundary(b, n - max / 2)
}

/// A tool result with its text trimmed, as a function value.
pub open spec fn trim_result_fn(max: nat) -> spec_fn((Seq<char>, Seq<char>)) -> (Seq<char>, Seq<char>) {
    |r: (Seq<char>, Seq<char>)| (r.0, trimmed_text(r.1, max))
}

/// A message after its tool results are trimmed; other messages are unchanged.
pub open spec fn trimmed_message(m: MessageView, max: nat) -> MessageView {
    match m {
        MessageView::ToolResult(rs) => MessageView::ToolResult(rs.map_values(trim_result_fn(max))),
        _ => m,
    }
}

/// A conversation after all its tool results are trimmed.
pub open spec fn trimmed_history(ms: Seq<MessageView>, max: nat) -> Seq<MessageView> {
    ms.map_values(|m: MessageView| trimmed_message(m, max))
}

/// Every tool result of the conversation can be trimmed.
pub open spec fn trim_safe(ms: Seq<MessageView>, max: nat) -> bool {
    forall|i: int, j: int|
        0 <= i < ms.len() && ms[i] is ToolResult && 0 <= j < ms[i]->ToolResult_0.len() ==> trim_ok(
            #[trigger] ms[i]->ToolResult_0[j].1,
            max,
        )
}

/// The number of messages that dropping always keeps after the first one.
pub open spec fn min_keep() -> nat {
    6
}

/// The conversation after dropping, one at a time, the message after the first
/// while more than seven remain and the estimate exceeds `th`.
pub open spec fn after_drops(ms: Seq<MessageView>, num: nat, den: nat, th: nat) -> Seq<MessageView>
    decreases ms.len(),
{
    if ms.len() <= min_keep() + 1 || token_estimate(num, den, ms) <= th {
        ms
    } else {
        after_drops(ms.remove(1), num, den, th)
    }
}

/// The conversation after compaction.
pub open spec fn compacted(ms: Seq<MessageView>, num: nat, den: nat, th: nat, max_chars: nat) -> Seq<MessageView> {
    if token_estimate(num, den, ms) <= th {
        ms
    } else {
        let t = trimmed_history(ms, max_chars);
        if token_estimate(num, den, t) <= th {
            t
        } else {
            after_drops(t, num, den, th)
        }
    }
}

/// Compaction's arithmetic fits the machine: the byte total and the estimate of
/// the conversation fit a `usize`, and when compaction is due, the tool
/// results can be trimmed and the trimmed conversation fits too.
pub open spec fn compactable(ms: Seq<MessageView>, num: nat, den: nat, th: nat, max_chars: nat) -> bool {
    &&& total_bytes(ms) <= usize::MAX
    &&& token_estimate(num, den, ms) <= usize::MAX
    &&& token_estimate(num, den, ms) > th ==> {
        let t = trimmed_history(ms, max_chars);
        &&& trim_safe(ms, max_chars)
        &&& total_bytes(t) <= usize::MAX
        &&& token_estimate(num, den, t) <= usize::MAX
    }
}

/// Context manager that compacts messages when they exceed a token budget.
pub struct ContextManager {
    counter: TokenCounter,
    max_context_tokens: usize,
    threshold_num: u64,
    threshold_den: u64,
    max_tool_result_chars: usize,
}

proof fn lemma_sum_elem<T>(s: Seq<T>, i: int, f: spec_fn(T) -> nat)
    requires
        0 <= i < s.len(),
    ensures
        f(s[i]) <= sum_of(s, f),
{
    lemma_sum_remove(s, i, f);
}

proof fn lemma_estimate_monotone(num: nat, den: nat, a: Seq<MessageView>, b: Seq<MessageView>)
    requires
        total_bytes(a) <= total_bytes(b),
        a.len() <= b.len(),
    ensures
        token_estimate(num, den, a) <= token_estimate(num, den, b),
{
    lemma_ratio_tokens_monotone(total_bytes(a), total_bytes(b), num, den);
}

proof fn lemma_history_remove(v: Seq<Message>, i: int)
    requires
        0 <= i < v.len(),
    ensures
        history(v.remove(i)) == history(v).remove(i),
{
    assert(history(v.remove(i)) =~= history(v).remove(i));
}

/// The text of one tool result after trimming.
fn trim_text(s: &String, max: usize) -> (r: String)
    requires
        text_bytes(s@) <= usize::MAX,
        trim_ok(s@, max as nat),
    ensures
        r@ == trimmed_text(s@, max as nat),
{
    let n = s.as_str().len();
    if n > max {
        let half = max / 2;
        let (start, _) = s.as_str().split_at(half);
        let (_, end) = s.as_str().split_at(n - half);
        let mut r = start.to_owned();
        r.append("...\n[");
        push_decimal(&mut r, (n - max) as u64);
        r.append(" chars truncated]\n...");
        r.append(end);
        proof {
            let b = encode_utf8(s@);
            assert(start@ == decode_utf8(encode_utf8(start@)));
            assert(end@ == decode_utf8(encode_utf8(end@)));
            assert(start@ == decode_utf8(b.subrange(0, half as int)));
            assert(end@ == decode_utf8(b.subrange(n - half, n as int)));
            assert(r@ =~= trimmed_text(s@, max as nat));
        }
        r
    } else {
        s.clone()
    }
}

/// The tool results of one message after trimming.
fn trim_results(content: &Vec<ToolResultContent>, max: usize) -> (r: Vec<ToolResultContent>)
    requires
        sum_of(results_view(content@), result_bytes_fn()) <= usize::MAX,
        forall|j: int| 0 <= j < content@.len() ==> trim_ok(#[trigger] results_view(content@)[j].1, max as nat),
    ensures
        results_view(r@) == results_view(content@).map_values(trim_result_fn(max as nat)),
{
    let ghost rv = results_view(content@);
    let ghost g = trim_result_fn(max as nat);
    let mut out: Vec<ToolResultContent> = Vec::new();
    let n = content.len();
    for j in 0..n
        invariant
            n == content@.len(),
            rv == results_view(content@),
            g == trim_result_fn(max as nat),
            sum_of(rv, result_bytes_fn()) <= usize::MAX,
            forall|k: int| 0 <= k < n ==> trim_ok(#[trigger] rv[k].1, max as nat),
            results_view(out@) == rv.take(j as int).map_values(g),
    {
        proof {
            lemma_sum_elem(rv, j as int, result_bytes_fn());
            assert(rv[j as int] == content@[j as int]@);
        }
        let ghost before = out@;
        match &content[j] {
            ToolResultContent::ToolResult { tool_use_id, content: c } => {
                let t = trim_text(c, max);
                out.push(ToolResultContent::ToolResult { tool_use_id: tool_use_id.clone(), content: t });
            },
        }
        proof {
            assert(rv.take(j + 1) == rv.take(j as int).push(rv[j as int]));
            assert(results_view(out@) =~= results_view(before).push(g(rv[j as int])));
            assert(rv.take(j + 1).map_values(g) =~= rv.take(j as int).map_values(g).push(g(rv[j as int])));
        }
    }
    proof {
        assert(rv.take(n as int) == rv);
    }
    out
}

impl ContextManager {
    /// The maximum context size, in tokens.
    pub closed spec fn max_tokens(self) -> nat {
        self.max_context_tokens as nat
    }

    /// The counter's ratio numerator.
    pub closed spec fn counter_num(self) -> nat {
        self.counter.num()
    }

    /// The counter's ratio denominator.
    pub closed spec fn counter_den(self) -> nat {
        self.counter.den()
    }

    /// The compaction threshold as a fraction of the maximum.
    pub closed spec fn ratio_num(self) -> nat {
        self.threshold_num as nat
    }

    pub closed spec fn ratio_den(self) -> nat {
        self.threshold_den as nat
    }

    /// The most bytes a tool result keeps when trimmed.
    pub closed spec fn max_result_chars(self) -> nat {
        self.max_tool_result_chars as nat
    }

    /// The estimate above which compaction runs: the maximum times the
    /// threshold fraction, rounded down, at most `usize::MAX`. A fraction with
    /// a zero denominator is infinite when its numerator is not zero (the
    /// threshold is then `usize::MAX`, or 0 for a zero maximum) and undefined
    /// otherwise (the threshold is then 0).
    pub open spec fn threshold(self) -> nat {
        if self.ratio_den() == 0 {
            if self.ratio_num() > 0 && self.max_tokens() > 0 { usize::MAX as nat } else { 0 }
        } else {
            let t = self.max_tokens() * self.ratio_num() / self.ratio_den();
            if t > usize::MAX { usize::MAX as nat } else { t }
        }
    }

    /// A manager for a budget of `max_context_tokens`, with the Anthropic
    /// counter, a threshold of 7/10 and tool results trimmed to 1000 bytes.
    pub fn new(max_context_tokens: usize) -> (m: ContextManager)
        ensures
            m.max_tokens() == max_context_tokens,
            m.counter_num() == 7 && m.counter_den() == 2,
            m.ratio_num() == 7 && m.ratio_den() == 10,
            m.max_result_chars() == 1000,
    {
        ContextManager {
            counter: TokenCounter::anthropic(),
            max_context_tokens,
            threshold_num: 7,
            threshold_den: 10,
            max_tool_result_chars: 1000,
        }
    }

    /// Uses `counter` for the estimate.
    pub fn with_counter(self, counter: TokenCounter) -> (m: ContextManager)
        ensures
            m.max_tokens() == self.max_tokens(),
            m.counter_num() == counter.num() && m.counter_den() == counter.den(),
            m.ratio_num() == self.ratio_num() && m.ratio_den() == self.ratio_den(),
            m.max_result_chars() == self.max_result_chars(),
    {
        ContextManager { counter, ..self }
    }

    /// Sets the threshold to the fraction `num / den` of the maximum.
    pub fn with_threshold(self, num: u64, den: u64) -> (m: ContextManager)
        ensures
            m.max_tokens() == self.max_tokens(),
            m.counter_num() == self.counter_num() && m.counter_den() == self.counter_den(),
            m.ratio_num() == num && m.ratio_den() == den,
            m.max_result_chars() == self.max_result_chars(),
    {
        ContextManager { threshold_num: num, threshold_den: den, ..self }
    }

    /// Sets how many bytes a trimmed tool result keeps.
    pub fn with_max_tool_result_chars(self, max: usize) -> (m: ContextManager)
        ensures
            m.max_tokens() == self.max_tokens(),
            m.counter_num() == self.counter_num() && m.counter_den() == self.counter_den(),
            m.ratio_num() == self.ratio_num() && m.ratio_den() == self.ratio_den(),
            m.max_result_chars() == max,
    {
        ContextManager { max_tool_result_chars: max, ..self }
    }

    /// The maximum context size, in tokens.
    pub fn max_context_tokens(&self) -> (r: usize)
        ensures
            r == self.max_tokens(),
    {
        self.max_context_tokens
    }

    /// The compaction threshold as the fraction (numerator, denominator) of the maximum.
    pub fn compaction_threshold(&self) -> (r: (u64, u64))
        ensures
            r.0 == self.ratio_num() && r.1 == self.ratio_den(),
    {
        (self.threshold_num, self.threshold_den)
    }

    /// The most bytes a tool result keeps when trimmed.
    pub fn max_tool_result_chars(&self) -> (r: usize)
        ensures
            r == self.max_result_chars(),
    {
        self.max_tool_result_chars
    }

    /// The compaction threshold, in tokens.
    pub fn threshold_tokens(&self) -> (t: usize)
        ensures
            t == self.threshold(),
    {
        if self.threshold_den == 0 {
            return if self.threshold_num > 0 && self.max_context_tokens > 0 { usize::MAX } else { 0 };
        }
        let a: u128 = self.max_context_tokens as u128;
        let b: u128 = self.threshold_num as u128;
        assert(a * b <= u64::MAX as u128 * u64::MAX as u128) by (nonlinear_arith)
            requires
                a <= u64::MAX as u128,
                b <= u64::MAX as u128,
        ;
        let p: u128 = a * b;
        let t = p / (self.threshold_den as u128);
        if t > usize::MAX as u128 {
            usize::MAX
        } else {
            t as usize
        }
    }

    /// The current estimated token count.
    pub fn estimate_tokens(&self, messages: &Vec<Message>) -> (n: usize)
        requires
            total_bytes(history(messages@)) <= usize::MAX,
            token_estimate(self.counter_num(), self.counter_den(), history(messages@)) <= usize::MAX,
        ensures
            n == token_estimate(self.counter_num(), self.counter_den(), history(messages@)),
    {
        self.counter.count_messages(messages)
    }

    /// Layer 2: trims every tool result longer than the limit to its first and
    /// last bytes around a note of how many were cut.
    pub fn trim_tool_results(&self, messages: &mut Vec<Message>)
        requires
            total_bytes(history(old(messages)@)) <= usize::MAX,
            trim_safe(history(old(messages)@), self.max_result_chars()),
        ensures
            history(final(messages)@) == trimmed_history(history(old(messages)@), self.max_result_chars()),
    {
        let max = self.max_tool_result_chars;
        let ghost hv = history(messages@);
        let n = messages.len();
        for i in 0..n
            invariant
                n == messages@.len(),
                max == self.max_result_chars(),
                hv == history(old(messages)@),
                hv.len() == n,
                sum_of(hv, message_bytes_fn()) <= usize::MAX,
                trim_safe(hv, max as nat),
                forall|k: int| 0 <= k < i ==> #[trigger] history(messages@)[k] == trimmed_message(hv[k], max as nat),
                forall|k: int| i <= k < n ==> #[trigger] history(messages@)[k] == hv[k],
        {
            proof {
                lemma_sum_elem(hv, i as int, message_bytes_fn());
                assert(history(messages@)[i as int] == messages@[i as int]@);
            }
            let ghost before = messages@;
            let replacement = match &messages[i] {
                Message::ToolResult { content } => {
                    proof {
                        assert(hv[i as int] == MessageView::ToolResult(results_view(content@)));
                        assert forall|j: int| 0 <= j < content@.len() implies trim_ok(
                            #[trigger] results_view(content@)[j].1,
                            max as nat,
                        ) by {
                            assert(hv[i as int]->ToolResult_0[j] == results_view(content@)[j]);
                        }
                    }
                    Some(trim_results(content, max))
                },
                _ => None,
            };
            match replacement {
                Some(rs) => {
                    messages.set(i, Message::ToolResult { content: rs });
                },
                None => {},
            }
            proof {
                assert forall|k: int| 0 <= k < n && k != i implies #[trigger] history(messages@)[k] == history(before)[k] by {
                    assert(messages@[k] == before[k]);
                }
                assert(history(messages@)[i as int] == messages@[i as int]@);
                assert(history(before)[i as int] == before[i as int]@);
                assert(history(messages@)[i as int] == trimmed_message(hv[i as int], max as nat));
            }
        }
        proof {
            assert(history(messages@) =~= trimmed_history(hv, max as nat));
        }
    }

    /// Layer 3: drops the message after the first, one at a time, while more
    /// than seven messages remain and the estimate exceeds the threshold.
    pub fn drop_oldest(&self, messages: &mut Vec<Message>)
        requires
            total_bytes(history(old(messages)@)) <= usize::MAX,
            token_estimate(self.counter_num(), self.counter_den(), history(old(messages)@)) <= usize::MAX,
        ensures
            history(final(messages)@) == after_drops(
                history(old(messages)@),
                self.counter_num(),
                self.counter_den(),
                self.threshold(),
            ),
    {
        let threshold = self.threshold_tokens();
        let ghost num = self.counter_num();
        let ghost den = self.counter_den();
        while messages.len() > 7
            invariant
                num == self.counter_num(),
                den == self.counter_den(),
                threshold == self.threshold(),
                total_bytes(history(messages@)) <= usize::MAX,
                token_estimate(num, den, history(messages@)) <= usize::MAX,
                after_drops(history(messages@), num, den, threshold as nat) == after_drops(
                    history(old(messages)@),
                    num,
                    den,
                    threshold as nat,
                ),
            ensures
                history(messages@) == after_drops(history(old(messages)@), num, den, threshold as nat),
            decreases messages@.len(),
        {
            let tokens = self.counter.count_messages(messages);
            if tokens <= threshold {
                break;
            }
            let ghost before = messages@;
            messages.remove(1);
            proof {
                lemma_history_remove(before, 1);
                let h = history(before);
                lemma_sum_remove(h, 1, message_bytes_fn());
                lemma_estimate_monotone(num, den, h.remove(1), h);
            }
        }
    }

    /// Compacts the conversation when its estimate exceeds the threshold: first
    /// trims tool results, then, if that is not enough, drops old messages.
    pub fn compact_if_needed(&self, messages: &mut Vec<Message>)
        requires
            compactable(
                history(old(messages)@),
                self.counter_num(),
                self.counter_den(),
                self.threshold(),
                self.max_result_chars(),
            ),
        ensures
            history(final(messages)@) == compacted(
                history(old(messages)@),
                self.counter_num(),
                self.counter_den(),
                self.threshold(),
                self.max_result_chars(),
            ),
    {
        let threshold = self.threshold_tokens();
        let current = self.counter.count_messages(messages);
        if current <= threshold {
            return;
        }
        self.trim_tool_results(messages);
        let current = self.counter.count_messages(messages);
        if current <= threshold {
            return;
        }
        self.drop_oldest(messages);
    }
}

/// Whether `s` can be trimmed to `max` bytes: when it is longer, both cuts
/// fall on character boundaries.
fn text_trim_ok(s: &String, max: usize) -> (r: bool)
    ensures
        r == trim_ok(s@, max as nat),
{
    let n = s.as_str().as_bytes().len();
    if n > max {
        let half = max / 2;
        s.as_str().is_char_boundary(half) && s.as_str().is_char_boundary(n - half)
    } else {
        true
    }
}

impl ContextManager {
    /// Whether every tool result of `messages` can be trimmed: trimming a
    /// result whose cuts fall inside a character cannot be done.
    pub fn can_trim(&self, messages: &Vec<Message>) -> (r: bool)
        ensures
            r == trim_safe(history(messages@), self.max_result_chars()),
    {
        let max = self.max_tool_result_chars;
        let ghost hv = history(messages@);
        let mut i: usize = 0;
        while i < messages.len()
            invariant
                i <= messages@.len(),
                hv == history(messages@),
                hv.len() == messages@.len(),
                max == self.max_result_chars(),
                forall|a: int, j: int|
                    0 <= a < i && hv[a] is ToolResult && 0 <= j < hv[a]->ToolResult_0.len() ==> trim_ok(
                        #[trigger] hv[a]->ToolResult_0[j].1,
                        max as nat,
                    ),
            decreases messages@.len() - i,
        {
            proof {
                assert(hv[i as int] == messages@[i as int]@);
            }
            match &messages[i] {
                Message::ToolResult { content } => {
                    let mut j: usize = 0;
                    while j < content.len()
                        invariant
                            j <= content@.len(),
                            i < hv.len(),
                            hv == history(messages@),
                            max == self.max_result_chars(),
                            hv[i as int] == MessageView::ToolResult(results_view(content@)),
                            results_view(content@).len() == content@.len(),
                            forall|k: int| 0 <= k < j ==> trim_ok(#[trigger] results_view(content@)[k].1, max as nat),
                        decreases content@.len() - j,
                    {
                        let ToolResultContent::ToolResult { content: text, .. } = &content[j];
                        proof {
                            assert(results_view(content@)[j as int].1 == text@);
                        }
                        if !text_trim_ok(text, max) {
                            proof {
                                assert(hv[i as int] is ToolResult);
                                assert(hv[i as int]->ToolResult_0[j as int].1 == text@);
                                assert(!trim_ok(hv[i as int]->ToolResult_0[j as int].1, max as nat));
                            }
                            return false;
                        }
                        j = j + 1;
                    }
                },
                _ => {},
            }
            i = i + 1;
        }
        true
    }
}

/// Law: dropping keeps the first message and a run of the latest messages, at
/// least seven messages in all (or all of them, when there are fewer), and stops
/// as soon as the estimate fits the threshold.
pub proof fn dropping_keeps_first_and_latest(ms: Seq<MessageView>, num: nat, den: nat, th: nat)
    requires
        ms.len() > 0,
    ensures
        ({
            let r = after_drops(ms, num, den, th);
            &&& 0 < r.len() <= ms.len()
            &&& r[0] == ms[0]
            &&& r.len() >= if ms.len() < min_keep() + 1 { ms.len() } else { min_keep() + 1 }
            &&& r.skip(1) == ms.skip(ms.len() - r.len() + 1)
            &&& r.len() <= min_keep() + 1 || token_estimate(num, den, r) <= th
        }),
    decreases ms.len(),
{
    if ms.len() <= min_keep() + 1 || token_estimate(num, den, ms) <= th {
        assert(ms.skip(1) == ms.skip(ms.len() - ms.len() + 1));
    } else {
        let m2 = ms.remove(1);
        dropping_keeps_first_and_latest(m2, num, den, th);
        let r = after_drops(m2, num, den, th);
        let k = (m2.len() - r.len() + 1) as int;
        assert(k >= 1);
        assert(m2.skip(k) =~= ms.skip(k + 1));
        assert(m2[0] == ms[0]);
    }
}

/// Law: compaction changes nothing while the estimate is within the threshold,
/// and otherwise ends within the threshold or with at most seven messages left.
pub proof fn compaction_fits_or_keeps_minimum(ms: Seq<MessageView>, num: nat, den: nat, th: nat, max_chars: nat)
    ensures
        token_estimate(num, den, ms) <= th ==> compacted(ms, num, den, th, max_chars) == ms,
        ({
            let r = compacted(ms, num, den, th, max_chars);
            token_estimate(num, den, r) <= th || r.len() <= min_keep() + 1
        }),
{
    let t = trimmed_history(ms, max_chars);
    if token_estimate(num, den, ms) > th && token_estimate(num, den, t) > th && t.len() > 0 {
        dropping_keeps_first_and_latest(t, num, den, th);
    }
}

/// Law: trimming changes tool results only; user and assistant messages are
/// kept as they are, and the number of messages does not change.
pub proof fn trimming_touches_only_tool_results(ms: Seq<MessageView>, max_chars: nat)
    ensures
        trimmed_history(ms, max_chars).len() == ms.len(),
        forall|i: int| 0 <= i < ms.len() && !(ms[i] is ToolResult) ==> #[trigger] trimmed_history(ms, max_chars)[i] == ms[i],
{
}

/// Law: a tool result within the limit is not changed by trimming.
pub proof fn short_results_untouched(s: Seq<char>, max: nat)
    requires
        text_bytes(s) <= max,
    ensures
        trimmed_text(s, max) == s,
{
}

} // verus!
