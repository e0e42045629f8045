//! The conversation log: slot 0 holds the replaceable pre-prompt, the rest
//! is append-only history, and a temporary overlay holds messages visible
//! for the current render only. Also the token-budget rule that selects the
//! suffix of a persisted history to load.

use vstd::prelude::*;
use vstd::pervasive::VecAdditionalExecFns;
use vstd::string::StringExecFns;

use crate::format::{PromptFormat, PromptFormatView};
use crate::message::{ChatMessage, MessageView};
use crate::severity::SystemMessageSeverity;

verus! {

/// The views of a sequence of messages, in order.
pub open spec fn views_of(s: Seq<ChatMessage>) -> Seq<MessageView> {
    Seq::new(s.len(), |i: int| s[i]@)
}

/// The concatenation of the rendered messages, in order, with no separator.
pub open spec fn rendered_seq(msgs: Seq<MessageView>, fmt: PromptFormatView) -> Seq<char>
    decreases msgs.len(),
{
    if msgs.len() == 0 {
        Seq::empty()
    } else {
        rendered_seq(msgs.drop_last(), fmt) + msgs.last().rendered(fmt)
    }
}

/// Rendering distributes over concatenation of logs.
pub proof fn lemma_rendered_seq_add(a: Seq<MessageView>, b: Seq<MessageView>, fmt: PromptFormatView)
    ensures
        rendered_seq(a + b, fmt) == rendered_seq(a, fmt) + rendered_seq(b, fmt),
    decreases b.len(),
{
    if b.len() == 0 {
        assert(a + b =~= a);
        assert(rendered_seq(a, fmt) + rendered_seq(b, fmt) =~= rendered_seq(a, fmt));
    } else {
        lemma_rendered_seq_add(a, b.drop_last(), fmt);
        assert((a + b).drop_last() =~= a + b.drop_last());
        assert((a + b).last() == b.last());
        assert(rendered_seq(a + b, fmt) =~= rendered_seq(a, fmt) + rendered_seq(b, fmt));
    }
}

/// The token cost a message contributes to the budget: its cached count, or
/// nothing while no count has been computed.
pub open spec fn message_cost(m: MessageView) -> nat {
    match m.tokens() {
        Option::Some(t) => t as nat,
        Option::None => 0,
    }
}

/// The summed cost of the messages from position `i` to the end.
pub open spec fn tail_cost(msgs: Seq<MessageView>, i: int) -> nat
    decreases msgs.len() - i,
{
    if i < 0 || i >= msgs.len() {
        0
    } else {
        message_cost(msgs[i]) + tail_cost(msgs, i + 1)
    }
}

/// A later tail can never cost more than an earlier one.
pub proof fn lemma_tail_cost_antitone(msgs: Seq<MessageView>, i: int, j: int)
    requires
        0 <= i <= j,
    ensures
        tail_cost(msgs, i) >= tail_cost(msgs, j),
    decreases j - i,
{
    if i < j {
        lemma_tail_cost_antitone(msgs, i + 1, j);
    }
}

/// The first position whose tail fits the budget, searching from `i`.
pub open spec fn window_start_from(msgs: Seq<MessageView>, max: nat, i: int) -> int
    decreases msgs.len() - i,
{
    if i >= msgs.len() {
        msgs.len() as int
    } else if tail_cost(msgs, i) <= max {
        i
    } else {
        window_start_from(msgs, max, i + 1)
    }
}

/// Where the budgeted window of a history begins: the first position whose
/// trailing token sum fits within `max`. The selected window is the suffix
/// from here on; it preserves chronological order.
pub open spec fn window_start(msgs: Seq<MessageView>, max: nat) -> int {
    window_start_from(msgs, max, 0)
}

proof fn lemma_window_start_from_pinned(msgs: Seq<MessageView>, max: nat, lo: int, cut: int)
    requires
        0 <= lo <= cut <= msgs.len(),
        forall|j: int| lo <= j < cut ==> tail_cost(msgs, j) > max,
        tail_cost(msgs, cut) <= max,
    ensures
        window_start_from(msgs, max, lo) == cut,
    decreases cut - lo,
{
    if lo < cut {
        lemma_window_start_from_pinned(msgs, max, lo + 1, cut);
    }
}

/// The window start lies within the history, and every tail it admits fits
/// the budget: no selected message pushes the trailing token sum above it.
pub proof fn lemma_window_within_budget(msgs: Seq<MessageView>, max: nat)
    ensures
        0 <= window_start(msgs, max) <= msgs.len(),
        forall|j: int|
            window_start(msgs, max) <= j <= msgs.len() ==> tail_cost(msgs, j) <= max,
{
    lemma_window_start_from_bounds(msgs, max, 0);
    let start = window_start(msgs, max);
    assert forall|j: int| start <= j <= msgs.len() implies tail_cost(msgs, j) <= max by {
        lemma_tail_cost_antitone(msgs, start, j);
    }
}

proof fn lemma_window_start_from_bounds(msgs: Seq<MessageView>, max: nat, lo: int)
    requires
        0 <= lo <= msgs.len(),
    ensures
        lo <= window_start_from(msgs, max, lo) <= msgs.len(),
        tail_cost(msgs, window_start_from(msgs, max, lo)) <= max,
        forall|j: int| lo <= j < window_start_from(msgs, max, lo) ==> tail_cost(msgs, j) > max,
    decreases msgs.len() - lo,
{
    if lo < msgs.len() && tail_cost(msgs, lo) > max {
        lemma_window_start_from_bounds(msgs, max, lo + 1);
    }
}

/// A larger budget never starts the window later: everything selected under
/// the smaller budget is still selected under the larger one.
pub proof fn lemma_window_monotonic(msgs: Seq<MessageView>, lo_budget: nat, hi_budget: nat)
    requires
        lo_budget <= hi_budget,
    ensures
        window_start(msgs, hi_budget) <= window_start(msgs, lo_budget),
{
    lemma_window_start_from_bounds(msgs, lo_budget, 0);
    lemma_window_start_from_bounds(msgs, hi_budget, 0);
    let lo_start = window_start(msgs, lo_budget);
    let hi_start = window_start(msgs, hi_budget);
    if hi_start > lo_start {
        assert(tail_cost(msgs, lo_start) > hi_budget);
        assert(tail_cost(msgs, lo_start) <= lo_budget);
    }
}

/// Raising the token budget can only lengthen the rendered window: the
/// render of the suffix selected under the larger budget is at least as long
/// as the render of the suffix selected under the smaller one.
pub proof fn lemma_render_monotonic_in_budget(
    msgs: Seq<MessageView>,
    fmt: PromptFormatView,
    lo_budget: nat,
    hi_budget: nat,
)
    requires
        lo_budget <= hi_budget,
    ensures
        rendered_seq(msgs.subrange(window_start(msgs, lo_budget), msgs.len() as int), fmt).len()
            <= rendered_seq(
            msgs.subrange(window_start(msgs, hi_budget), msgs.len() as int),
            fmt,
        ).len(),
{
    lemma_window_monotonic(msgs, lo_budget, hi_budget);
    lemma_window_within_budget(msgs, lo_budget);
    lemma_window_within_budget(msgs, hi_budget);
    let lo_start = window_start(msgs, lo_budget);
    let hi_start = window_start(msgs, hi_budget);
    let hi_part = msgs.subrange(hi_start, msgs.len() as int);
    let lo_part = msgs.subrange(lo_start, msgs.len() as int);
    let front = msgs.subrange(hi_start, lo_start);
    assert(hi_part =~= front + lo_part);
    lemma_rendered_seq_add(front, lo_part, fmt);
}

/// Selects the suffix of a persisted history that fits a token budget:
/// walking newest-first, a message is kept only if the running sum of its
/// cost and everything newer stays within `max_tokens`. Chronological order
/// is preserved.
pub fn recent_window(messages: &Vec<ChatMessage>, max_tokens: usize) -> (r: Vec<ChatMessage>)
    ensures
        views_of(r@) == views_of(messages@).subrange(
            window_start(views_of(messages@), max_tokens as nat),
            messages@.len() as int,
        ),
{
    let ghost all: Seq<MessageView> = views_of(messages@);
    let mut cut: usize = messages.len();
    let mut total: u128 = 0;
    proof {
        assert(tail_cost(all, all.len() as int) == 0);
    }
    loop
        invariant
            cut <= messages.len(),
            all == views_of(messages@),
            all.len() == messages@.len(),
            total == tail_cost(all, cut as int),
            total <= max_tokens as u128,
        ensures
            cut <= messages@.len(),
            total == tail_cost(all, cut as int),
            total <= max_tokens as u128,
            cut == 0 || tail_cost(all, cut - 1) > max_tokens as nat,
        decreases cut,
    {
        if cut == 0 {
            break;
        }
        let cost: usize = match messages[cut - 1].get_tokens() {
            Option::Some(t) => t,
            Option::None => 0,
        };
        assert(cost as nat == message_cost(all[cut - 1]));
        if total + (cost as u128) > max_tokens as u128 {
            proof {
                assert(tail_cost(all, cut - 1) == message_cost(all[cut - 1]) + tail_cost(
                    all,
                    cut as int,
                ));
            }
            break;
        }
        total = total + (cost as u128);
        cut = cut - 1;
    }
    proof {
        assert forall|j: int| 0 <= j < cut implies tail_cost(all, j) > max_tokens as nat by {
            lemma_tail_cost_antitone(all, j, cut - 1);
        }
        lemma_window_start_from_pinned(all, max_tokens as nat, 0, cut as int);
    }
    let mut r: Vec<ChatMessage> = Vec::new();
    let mut i: usize = cut;
    while i < messages.len()
        invariant
            cut <= i <= messages.len(),
            all == views_of(messages@),
            all.len() == messages@.len(),
            views_of(r@) =~= all.subrange(cut as int, i as int),
        decreases messages.len() - i,
    {
        let copy = messages[i].clone();
        assert(copy@ == all[i as int]);
        let ghost prev_r: Seq<ChatMessage> = r@;
        r.push(copy);
        proof {
            let prev = all.subrange(cut as int, i as int);
            let cur = all.subrange(cut as int, i as int + 1);
            assert(views_of(prev_r).len() == prev_r.len());
            assert(prev_r.len() == prev.len());
            assert forall|j: int| 0 <= j < r@.len() implies views_of(r@)[j] == cur[j] by {
                assert(views_of(r@)[j] == r@[j]@);
                if j < prev_r.len() {
                    assert(r@[j] == prev_r[j]);
                    assert(views_of(prev_r)[j] == prev_r[j]@);
                    assert(views_of(prev_r)[j] == prev[j]);
                    assert(cur[j] == prev[j]);
                } else {
                    assert(r@[j] == copy);
                    assert(cur[j] == all[i as int]);
                }
            }
            assert(views_of(r@) =~= cur);
        }
        i = i + 1;
    }
    r
}

/// The ordered conversation log plus the discardable temporary overlay.
pub struct MessageLog {
    messages: Vec<ChatMessage>,
    temp_messages: Vec<ChatMessage>,
}

/// The mathematical model of a log: the persistent messages (slot 0 is the
/// pre-prompt) and the temporary overlay.
pub ghost struct MessageLogView {
    pub messages: Seq<MessageView>,
    pub temp: Seq<MessageView>,
}

impl MessageLogView {
    /// The log with its temporary overlay discarded.
    pub open spec fn cleared(self) -> MessageLogView {
        MessageLogView { messages: self.messages, temp: Seq::empty() }
    }

    /// The log with slot 0 replaced by a fresh pre-prompt.
    pub open spec fn with_preamble(self, content: Seq<char>, tokens: usize) -> MessageLogView {
        MessageLogView {
            messages: self.messages.update(
                0,
                MessageView::System {
                    severity: SystemMessageSeverity::Info,
                    content,
                    tokens: Option::Some(tokens),
                },
            ),
            temp: self.temp,
        }
    }

    /// Every message the log shows in a render: the persistent part followed
    /// by the overlay.
    pub open spec fn visible(self) -> Seq<MessageView> {
        self.messages + self.temp
    }
}

impl View for MessageLog {
    type V = MessageLogView;

    closed spec fn view(&self) -> MessageLogView {
        MessageLogView { messages: views_of(self.messages@), temp: views_of(self.temp_messages@) }
    }
}

impl MessageLog {
    /// A log is well formed when slot 0 (the pre-prompt) exists.
    pub open spec fn wf(self) -> bool {
        self@.messages.len() >= 1
    }

    /// Creates a log holding only a placeholder pre-prompt.
    pub fn new() -> (r: Self)
        ensures
            r.wf(),
            r@.messages.len() == 1,
            r@.messages[0] == (MessageView::System {
                severity: SystemMessageSeverity::Info,
                content: "Pre-Prompt Placeholder"@,
                tokens: Option::None,
            }),
            r@.temp.len() == 0,
    {
        let mut messages: Vec<ChatMessage> = Vec::new();
        messages.push(
            ChatMessage::System {
                severity: SystemMessageSeverity::Info,
                content: String::from_str("Pre-Prompt Placeholder"),
                tokens: Option::None,
            },
        );
        let r = MessageLog { messages, temp_messages: Vec::new() };
        proof {
            assert(r@.temp =~= Seq::<MessageView>::empty());
        }
        r
    }

    /// Drops all history and the overlay, keeping only the pre-prompt.
    pub fn clear_log(&mut self)
        requires
            old(self).wf(),
        ensures
            final(self).wf(),
            final(self)@.messages == old(self)@.messages.subrange(0, 1),
            final(self)@.temp.len() == 0,
    {
        self.messages.truncate(1);
        self.temp_messages.clear();
        proof {
            assert(final(self)@.messages =~= old(self)@.messages.subrange(0, 1));
            assert(final(self)@.temp =~= Seq::<MessageView>::empty());
        }
    }

    /// Discards the temporary overlay; the persistent log is untouched.
    /// Clearing twice has the same effect as clearing once.
    pub fn clear_temp(&mut self)
        ensures
            final(self)@ == old(self)@.cleared(),
    {
        self.temp_messages.clear();
        proof {
            assert(final(self)@.temp =~= Seq::<MessageView>::empty());
        }
    }

    /// Replaces slot 0, the pre-prompt, wholesale. History length and every
    /// other message are untouched.
    pub fn update_pre_prompt(&mut self, pre_prompt: String, tokens: usize)
        requires
            old(self).wf(),
        ensures
            final(self).wf(),
            final(self)@ == old(self)@.with_preamble(pre_prompt@, tokens),
            final(self)@.messages.len() == old(self)@.messages.len(),
    {
        self.messages.set(
            0,
            ChatMessage::System {
                severity: SystemMessageSeverity::Info,
                content: pre_prompt,
                tokens: Option::Some(tokens),
            },
        );
        proof {
            assert(final(self)@.messages =~= old(self)@.with_preamble(pre_prompt@, tokens).messages);
        }
    }

    /// Appends a message to the persistent history. By the time a message
    /// is persisted its token count has been computed.
    pub fn add_message(&mut self, message: ChatMessage)
        requires
            message@.tokens() is Some,
        ensures
            final(self)@.messages == old(self)@.messages.push(message@),
            final(self)@.temp == old(self)@.temp,
    {
        self.messages.push(message);
        proof {
            assert(final(self)@.messages =~= old(self)@.messages.push(message@));
        }
    }

    /// Appends a message to the temporary overlay: visible in the next
    /// render, gone after `clear_temp`, never persisted.
    pub fn add_temp_message(&mut self, message: ChatMessage)
        ensures
            final(self)@.temp == old(self)@.temp.push(message@),
            final(self)@.messages == old(self)@.messages,
    {
        self.temp_messages.push(message);
        proof {
            assert(final(self)@.temp =~= old(self)@.temp.push(message@));
        }
    }

    /// Every message the log shows, in render order: the persistent history
    /// followed by the temporary overlay.
    pub fn get_messages(&self) -> (r: Vec<&ChatMessage>)
        ensures
            r@.len() == self@.visible().len(),
            forall|i: int| 0 <= i < r@.len() ==> r@[i]@ == self@.visible()[i],
    {
        let mut r: Vec<&ChatMessage> = Vec::new();
        let mut i: usize = 0;
        while i < self.messages.len()
            invariant
                i <= self.messages@.len(),
                r@.len() == i,
                forall|j: int| 0 <= j < i ==> r@[j]@ == self@.messages[j],
            decreases self.messages@.len() - i,
        {
            r.push(&self.messages[i]);
            i = i + 1;
        }
        let mut k: usize = 0;
        while k < self.temp_messages.len()
            invariant
                k <= self.temp_messages@.len(),
                r@.len() == self.messages@.len() + k,
                forall|j: int| 0 <= j < self.messages@.len() ==> r@[j]@ == self@.messages[j],
                forall|j: int|
                    0 <= j < k ==> r@[self.messages@.len() + j]@ == self@.temp[j],
            decreases self.temp_messages@.len() - k,
        {
            r.push(&self.temp_messages[k]);
            k = k + 1;
        }
        r
    }

    /// Renders the whole log in order: pre-prompt, history, then overlay,
    /// each message wrapped in its role's prefix and suffix.
    pub fn format(&self, settings: &PromptFormat) -> (r: String)
        ensures
            r@ == rendered_seq(self@.visible(), settings@),
    {
        let ghost all: Seq<MessageView> = self@.visible();
        let mut prompt = String::new();
        let mut i: usize = 0;
        proof {
            assert(all.subrange(0, 0) =~= Seq::<MessageView>::empty());
        }
        while i < self.messages.len()
            invariant
                i <= self.messages@.len(),
                all == self@.visible(),
                all.len() == self.messages@.len() + self.temp_messages@.len(),
                forall|j: int| 0 <= j < self.messages@.len() ==> all[j] == self@.messages[j],
                forall|j: int|
                    0 <= j < self.temp_messages@.len() ==> all[self.messages@.len() + j]
                        == self@.temp[j],
                prompt@ == rendered_seq(all.subrange(0, i as int), settings@),
            decreases self.messages@.len() - i,
        {
            let line = self.messages[i].format(settings);
            prompt.append(line.as_str());
            proof {
                let cur = all.subrange(0, (i + 1) as int);
                assert(cur.drop_last() =~= all.subrange(0, i as int));
                assert(cur.last() == all[i as int]);
            }
            i = i + 1;
        }
        let mut k: usize = 0;
        while k < self.temp_messages.len()
            invariant
                k <= self.temp_messages@.len(),
                all == self@.visible(),
                all.len() == self.messages@.len() + self.temp_messages@.len(),
                forall|j: int|
                    0 <= j < self.temp_messages@.len() ==> all[self.messages@.len() + j]
                        == self@.temp[j],
                prompt@ == rendered_seq(
                    all.subrange(0, self.messages@.len() as int + k as int),
                    settings@,
                ),
            decreases self.temp_messages@.len() - k,
        {
            let line = self.temp_messages[k].format(settings);
            prompt.append(line.as_str());
            proof {
                let cur = all.subrange(0, self.messages@.len() as int + k as int + 1);
                assert(cur.drop_last() =~= all.subrange(
                    0,
                    self.messages@.len() as int + k as int,
                ));
                assert(cur.last() == all[self.messages@.len() as int + k as int]);
            }
            k = k + 1;
        }
        proof {
            assert(all.subrange(0, all.len() as int) =~= all);
        }
        prompt
    }
}

impl Default for MessageLog {
    /// The default log is the fresh one.
    fn default() -> (r: Self)
        ensures
            r.wf(),
            r@.messages.len() == 1,
            r@.temp.len() == 0,
    {
        Self::new()
    }
}

/// Discarding the temporary overlay is idempotent: clearing twice leaves the
/// log exactly as clearing once does, and never touches persistent history.
pub proof fn lemma_clear_temp_idempotent(v: MessageLogView)
    ensures
        v.cleared().cleared() == v.cleared(),
        v.cleared().messages == v.messages,
{
}

} // verus!
