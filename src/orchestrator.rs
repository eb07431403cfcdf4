//! The ordering barrier for agent-reasoning translation.
//!
//! At most one body translation is in flight. While it is pending, history
//! units are queued; when its result arrives (or the UI stops waiting for it)
//! the barrier closes and the queue is flushed in order. Results that no
//! longer match the open barrier or the active thread are dropped.
//!
//! The host drives the orchestrator with plain values (the time in
//! milliseconds, completion messages it received) and carries out the
//! effects it collects: inserting history units, starting translations and
//! scheduling frames.
use vstd::prelude::*;

use std::collections::VecDeque;

use crate::text::{
    bilingual_spec, chars_of, extract_first_bold, extract_reasoning_body_for_translation,
    first_bold_spec, format_bilingual_title, opt_view, push_text, reasoning_body_spec, string_of, trim_chars,
    trim_seq,
};
use crate::text_map::TextMap;

verus! {

/// Identifies a conversation thread.
#[derive(Debug, Clone, Copy, PartialEq, Eq, Structural)]
pub struct ThreadId {
    pub value: u128,
}

/// Settings of the translation hook, with durations in milliseconds.
pub struct AgentReasoningTranslationConfig {
    pub command: Vec<String>,
    pub timeout_ms: u64,
    pub ui_max_wait_ms: u64,
}

/// What the host reads at each call: the time and the optional override of
/// the UI wait, as text.
pub struct Clock {
    pub now_ms: u64,
    pub max_wait_override: Option<String>,
}

/// A unit of conversation history that the UI inserts.
pub enum HistoryUnit {
    /// One of the host's own cells; `reasoning` holds the full markdown of a
    /// completed reasoning block, which can be translated.
    Host { cell_id: u64, reasoning: Option<String> },
    /// The translated body of a reasoning block.
    TranslatedBody { text: String },
    /// A failed or abandoned translation.
    TranslationFailed { title: Option<String>, reason: String },
}

/// Work the host carries out on the orchestrator's behalf.
pub enum Effect {
    InsertHistory(HistoryUnit),
    /// Run a body translation of `text` and report it under `request_id`.
    StartTranslation { request_id: u64, thread_id: ThreadId, title: Option<String>, text: String },
    ScheduleFrameIn { delay_ms: u64 },
}

/// The open body translation.
pub struct Barrier {
    pub request_id: u64,
    pub thread_id: ThreadId,
    pub title: Option<String>,
    pub max_wait_ms: u64,
    pub deadline_ms: u64,
}

/// The result of one body translation, as its task reports it.
pub struct CompletionMessage {
    pub request_id: u64,
    pub thread_id: ThreadId,
    pub title: Option<String>,
    pub translated: Option<String>,
    pub error: Option<String>,
}

impl CompletionMessage {
    pub fn new(
        request_id: u64,
        thread_id: ThreadId,
        title: Option<String>,
        translated: Option<String>,
        error: Option<String>,
    ) -> (r: Self)
        ensures
            r == (CompletionMessage { request_id, thread_id, title, translated, error }),
    {
        CompletionMessage { request_id, thread_id, title, translated, error }
    }
}

/// What applying results asks of the host's status line.
pub struct OnBodyTranslatedResult {
    pub status_header_update: Option<String>,
    pub needs_redraw: bool,
}

/// The value of `u64::from_str` on `s`: an optional `+`, then one or more
/// decimal digits whose value fits.
pub open spec fn parse_u64_spec(s: Seq<char>) -> Option<u64> {
    if s.len() > 0 && s[0] == '+' {
        parse_digits_spec(s.drop_first())
    } else {
        parse_digits_spec(s)
    }
}

/// The value of decimal digits `d` when there is at least one and it fits.
pub open spec fn parse_digits_spec(d: Seq<char>) -> Option<u64> {
    if d.len() > 0 && (forall|i: int| 0 <= i < d.len() ==> '0' <= #[trigger] d[i] <= '9')
        && digits_value(d) <= u64::MAX {
        Some(digits_value(d) as u64)
    } else {
        None
    }
}

/// The number that decimal digits spell.
pub open spec fn digits_value(d: Seq<char>) -> int
    decreases d.len(),
{
    if d.len() == 0 {
        0
    } else {
        digits_value(d.drop_last()) * 10 + (d.last() as int - '0' as int)
    }
}

pub open spec fn digit_char(d: int) -> char {
    if d == 0 {
        '0'
    } else if d == 1 {
        '1'
    } else if d == 2 {
        '2'
    } else if d == 3 {
        '3'
    } else if d == 4 {
        '4'
    } else if d == 5 {
        '5'
    } else if d == 6 {
        '6'
    } else if d == 7 {
        '7'
    } else if d == 8 {
        '8'
    } else {
        '9'
    }
}

/// The decimal digits of `n`, without leading zeros.
pub open spec fn decimal_spec(n: nat) -> Seq<char>
    decreases n,
{
    if n < 10 {
        seq![digit_char(n as int)]
    } else {
        decimal_spec(n / 10).push(digit_char((n % 10) as int))
    }
}

/// Decimal digits carry a non-negative value.
proof fn lemma_digits_nonneg(d: Seq<char>)
    requires
        forall|i: int| 0 <= i < d.len() ==> '0' <= #[trigger] d[i] <= '9',
    ensures
        digits_value(d) >= 0,
    decreases d.len(),
{
    if d.len() > 0 {
        lemma_digits_nonneg(d.drop_last());
    }
}

/// More decimal digits never spell a smaller value.
proof fn lemma_digits_prefix(d: Seq<char>, j: int)
    requires
        forall|i: int| 0 <= i < d.len() ==> '0' <= #[trigger] d[i] <= '9',
        0 <= j <= d.len(),
    ensures
        digits_value(d) >= digits_value(d.subrange(0, j)),
    decreases d.len(),
{
    if j < d.len() {
        assert(d.drop_last().subrange(0, j) =~= d.subrange(0, j));
        lemma_digits_prefix(d.drop_last(), j);
        lemma_digits_nonneg(d.drop_last());
    } else {
        assert(d.subrange(0, j) =~= d);
    }
}

/// The value of `s` as `u64::from_str` reads it: an optional `+`, then
/// decimal digits whose value fits.
fn parse_u64(s: &str) -> (r: Option<u64>)
    ensures
        r == parse_u64_spec(s@),
{
    let c = chars_of(s);
    let start: usize = if c.len() > 0 && c[0] == '+' {
        1
    } else {
        0
    };
    let ghost d = if s@.len() > 0 && s@[0] == '+' {
        s@.drop_first()
    } else {
        s@
    };
    proof {
        assert(d =~= c@.subrange(start as int, c@.len() as int));
        assert(parse_u64_spec(s@) == parse_digits_spec(d));
    }
    if start == c.len() {
        return None;
    }
    let mut value: u64 = 0;
    let mut i: usize = start;
    while i < c.len()
        invariant
            start <= i <= c@.len(),
            start < c@.len(),
            d == c@.subrange(start as int, c@.len() as int),
            parse_u64_spec(s@) == parse_digits_spec(d),
            forall|j: int| start <= j < i ==> '0' <= #[trigger] c@[j] <= '9',
            value == digits_value(c@.subrange(start as int, i as int)),
        decreases c@.len() - i,
    {
        let ch = c[i];
        if !('0' <= ch && ch <= '9') {
            proof {
                assert(d[i - start] == ch);
            }
            return None;
        }
        let digit = (ch as u32 - '0' as u32) as u64;
        let ghost prefix = c@.subrange(start as int, i as int + 1);
        proof {
            assert(prefix.drop_last() =~= c@.subrange(start as int, i as int));
            assert(digits_value(prefix) == value * 10 + digit);
        }
        let next = match value.checked_mul(10) {
            Some(v) => v.checked_add(digit),
            None => None,
        };
        match next {
            Some(v) => {
                value = v;
            },
            None => {
                proof {
                    if forall|j: int| 0 <= j < d.len() ==> '0' <= #[trigger] d[j] <= '9' {
                        assert(d.subrange(0, i - start + 1) =~= prefix);
                        lemma_digits_prefix(d, i - start + 1);
                    }
                }
                return None;
            },
        }
        i = i + 1;
    }
    proof {
        assert(c@.subrange(start as int, i as int) =~= d);
        assert forall|j: int| 0 <= j < d.len() implies '0' <= #[trigger] d[j] <= '9' by {
            assert(d[j] == c@[start + j]);
        }
    }
    Some(value)
}

/// The digit character for `d`.
fn digit_to_char(d: u64) -> (r: char)
    requires
        d < 10,
    ensures
        r == digit_char(d as int),
{
    if d == 0 {
        '0'
    } else if d == 1 {
        '1'
    } else if d == 2 {
        '2'
    } else if d == 3 {
        '3'
    } else if d == 4 {
        '4'
    } else if d == 5 {
        '5'
    } else if d == 6 {
        '6'
    } else if d == 7 {
        '7'
    } else if d == 8 {
        '8'
    } else {
        '9'
    }
}

/// Appends the decimal digits of `n` to `out`.
fn push_decimal(out: &mut Vec<char>, n: u64)
    ensures
        final(out)@ == old(out)@ + decimal_spec(n as nat),
    decreases n,
{
    if n >= 10 {
        push_decimal(out, n / 10);
    }
    out.push(digit_to_char(n % 10));
    proof {
        if n >= 10 {
            assert(old(out)@ + decimal_spec(n as nat) =~= old(out)@ + decimal_spec(
                (n / 10) as nat,
            ) + seq![digit_char((n % 10) as int)]);
        } else {
            assert(old(out)@ + decimal_spec(n as nat) =~= old(out)@ + seq![
                digit_char((n % 10) as int),
            ]);
        }
    }
}

/// The decimal digits of `n`, as `u64`'s `Display` writes them.
fn u64_decimal(n: u64) -> (r: String)
    ensures
        r@ == decimal_spec(n as nat),
{
    let mut v: Vec<char> = Vec::new();
    push_decimal(&mut v, n);
    proof {
        assert(Seq::<char>::empty() + decimal_spec(n as nat) =~= decimal_spec(n as nat));
    }
    string_of(v.as_slice())
}

/// The UI wait: the override when it parses as milliseconds, else the
/// configured value.
pub open spec fn effective_max_wait_spec(config_max_wait_ms: u64, over: Option<String>) -> u64 {
    match over {
        Some(s) => match parse_u64_spec(trim_seq(s@)) {
            Some(v) => v,
            None => config_max_wait_ms,
        },
        None => config_max_wait_ms,
    }
}

/// `now + wait`, or `now` where the sum does not fit.
pub open spec fn deadline_spec(now_ms: u64, wait_ms: u64) -> u64 {
    if now_ms + wait_ms <= u64::MAX {
        (now_ms + wait_ms) as u64
    } else {
        now_ms
    }
}

/// A completed reasoning block is worth translating when it has a body.
pub open spec fn dispatchable_spec(full: Seq<char>) -> bool {
    reasoning_body_spec(full) matches Some(b) && trim_seq(b).len() > 0
}

/// The text shown for a translated body: the body after the translated
/// title, else the whole translation, trimmed; the raw translation when
/// that leaves nothing.
pub open spec fn translated_body_spec(t: Seq<char>) -> Seq<char> {
    let b = match reasoning_body_spec(t) {
        Some(b) => trim_seq(b),
        None => trim_seq(t),
    };
    if b.len() == 0 {
        t
    } else {
        b
    }
}

pub open spec fn timeout_reason_spec(max_wait_ms: u64) -> Seq<char> {
    "waiting timed out ("@ + decimal_spec(max_wait_ms as nat) + "ms); skipped translation output"@
}

pub open spec fn inserts(units: Seq<HistoryUnit>) -> Seq<Effect> {
    units.map_values(|u: HistoryUnit| Effect::InsertHistory(u))
}

/// A message is stale when no barrier is open, when it answers another
/// request or thread, or when its thread is no longer the active one.
pub open spec fn stale_spec(barrier: Option<Barrier>, msg: CompletionMessage, active: Option<
    ThreadId,
>) -> bool {
    match barrier {
        None => true,
        Some(b) => b.request_id != msg.request_id || b.thread_id != msg.thread_id || active
            != Some(msg.thread_id),
    }
}

pub open spec fn saturating_inc(n: u64) -> u64 {
    if n < u64::MAX {
        (n + 1) as u64
    } else {
        n
    }
}

/// The full markdown that a unit carries for translation, if any.
pub open spec fn reasoning_of(unit: HistoryUnit) -> Option<String> {
    match unit {
        HistoryUnit::Host { reasoning, .. } => reasoning,
        _ => None,
    }
}

/// Whether a translation of `full` starts when nothing is pending.
pub open spec fn translate_opens_spec(
    enabled: bool,
    config: Option<&AgentReasoningTranslationConfig>,
    thread_id: Option<ThreadId>,
    full: Seq<char>,
) -> bool {
    enabled && config is Some && thread_id is Some && dispatchable_spec(full)
}

/// Whether inserting `unit` while nothing is pending starts its translation.
pub open spec fn opens_spec(
    unit: HistoryUnit,
    enabled: bool,
    config: Option<&AgentReasoningTranslationConfig>,
    active: Option<ThreadId>,
) -> bool {
    reasoning_of(unit) matches Some(full) && translate_opens_spec(enabled, config, active, full@)
}

/// The last header update among `results`.
pub open spec fn last_header(results: Seq<OnBodyTranslatedResult>) -> Option<String>
    decreases results.len(),
{
    if results.len() == 0 {
        None
    } else if results.last().status_header_update is Some {
        results.last().status_header_update
    } else {
        last_header(results.drop_last())
    }
}

/// Whether any of `results` asks for a redraw.
pub open spec fn any_redraw(results: Seq<OnBodyTranslatedResult>) -> bool {
    exists|i: int| 0 <= i < results.len() && #[trigger] results[i].needs_redraw
}

/// Serializes body-translation results into the UI stream.
pub struct AgentReasoningTranslationOrchestrator {
    enabled: bool,
    title_translation_cache: TextMap,
    current_reasoning_title_raw: Option<String>,
    body_translation_barrier: Option<Barrier>,
    deferred_history_cells: VecDeque<HistoryUnit>,
    body_translation_seq: u64,
    effects: Vec<Effect>,
}

fn clone_opt(o: &Option<String>) -> (r: Option<String>)
    ensures
        r == *o,
{
    match o {
        Some(s) => Some(s.clone()),
        None => None,
    }
}

impl AgentReasoningTranslationOrchestrator {
    pub closed spec fn wf(&self) -> bool {
        self.title_translation_cache.wf()
    }

    pub closed spec fn enabled_spec(&self) -> bool {
        self.enabled
    }

    /// Original title to translated title.
    pub closed spec fn cache_spec(&self) -> Map<Seq<char>, Seq<char>> {
        self.title_translation_cache.view_map()
    }

    pub closed spec fn current_title_spec(&self) -> Option<String> {
        self.current_reasoning_title_raw
    }

    pub closed spec fn barrier_spec(&self) -> Option<Barrier> {
        self.body_translation_barrier
    }

    pub closed spec fn deferred_spec(&self) -> Seq<HistoryUnit> {
        self.deferred_history_cells@
    }

    pub closed spec fn seq_spec(&self) -> u64 {
        self.body_translation_seq
    }

    pub closed spec fn effects_spec(&self) -> Seq<Effect> {
        self.effects@
    }

    /// Everything but the barrier, the queue, the counter and the effects is
    /// as in `other`.
    pub open spec fn keeps(&self, other: &Self) -> bool {
        &&& self.enabled_spec() == other.enabled_spec()
        &&& self.cache_spec() == other.cache_spec()
        &&& self.current_title_spec() == other.current_title_spec()
    }

    /// A barrier for `full` in `thread_id` under request id `seq` was opened,
    /// and its two effects follow `before`.
    pub open spec fn dispatched(
        &self,
        before: Seq<Effect>,
        seq: u64,
        thread_id: ThreadId,
        full: String,
        config_max_wait_ms: u64,
        clock: &Clock,
    ) -> bool {
        let w = effective_max_wait_spec(config_max_wait_ms, clock.max_wait_override);
        &&& self.barrier_spec() matches Some(b)
        &&& b.request_id == seq
        &&& b.thread_id == thread_id
        &&& opt_view(b.title) == first_bold_spec(full@)
        &&& b.max_wait_ms == w
        &&& b.deadline_ms == deadline_spec(clock.now_ms, w)
        &&& self.seq_spec() == saturating_inc(seq)
        &&& self.effects_spec() == before.push(Effect::ScheduleFrameIn { delay_ms: w }).push(
            Effect::StartTranslation { request_id: seq, thread_id, title: b.title, text: full },
        )
    }

    /// After a flush that started from `queue`, with `before` as the effects
    /// and `seq` as the counter: the first `k` units were inserted in order.
    /// Either none of them starts a translation and the queue is empty, or
    /// the `k`-th is the first that does, the flush stopped right after it,
    /// and the open barrier is that unit's.
    pub open spec fn flushed_with(
        &self,
        queue: Seq<HistoryUnit>,
        before: Seq<Effect>,
        seq: u64,
        config: Option<&AgentReasoningTranslationConfig>,
        active: Option<ThreadId>,
        clock: &Clock,
        k: int,
    ) -> bool {
        &&& 0 <= k <= queue.len()
        &&& self.deferred_spec() == queue.skip(k)
        &&& forall|j: int|
            0 <= j < k - 1 ==> !opens_spec(#[trigger] queue[j], self.enabled_spec(), config, active)
        &&& self.barrier_spec() is None ==> {
            &&& k == queue.len()
            &&& k > 0 ==> !opens_spec(queue[k - 1], self.enabled_spec(), config, active)
            &&& self.effects_spec() == before + inserts(queue)
            &&& self.seq_spec() == seq
        }
        &&& self.barrier_spec() is Some ==> {
            &&& 0 < k
            &&& opens_spec(queue[k - 1], self.enabled_spec(), config, active)
            &&& self.dispatched(
                before + inserts(queue.take(k)),
                seq,
                active->Some_0,
                reasoning_of(queue[k - 1])->Some_0,
                config->Some_0.ui_max_wait_ms,
                clock,
            )
        }
    }

    /// Some prefix of `queue` was flushed, as `flushed_with` describes.
    pub open spec fn flushed_from(
        &self,
        queue: Seq<HistoryUnit>,
        before: Seq<Effect>,
        seq: u64,
        config: Option<&AgentReasoningTranslationConfig>,
        active: Option<ThreadId>,
        clock: &Clock,
    ) -> bool {
        exists|k: int| #[trigger] self.flushed_with(queue, before, seq, config, active, clock, k)
    }

    /// `self` is what applying `msg` to `prev` leaves, with result `r`. A
    /// stale message changes nothing. Otherwise the barrier closes; a
    /// translation caches the title pair, updates the header when the
    /// displayed title is the original, and inserts the translated body; a
    /// failure inserts a failure unit. Then the queue is flushed.
    pub open spec fn applied(
        &self,
        prev: Self,
        msg: CompletionMessage,
        active: Option<ThreadId>,
        config: Option<&AgentReasoningTranslationConfig>,
        clock: &Clock,
        r: OnBodyTranslatedResult,
    ) -> bool {
        if stale_spec(prev.barrier_spec(), msg, active) {
            &&& *self == prev
            &&& r.status_header_update is None
            &&& !r.needs_redraw
        } else {
            let n = prev.effects_spec().len() as int;
            &&& r.needs_redraw
            &&& self.enabled_spec() == prev.enabled_spec()
            &&& self.current_title_spec() == prev.current_title_spec()
            &&& self.effects_spec().len() > n
            &&& self.effects_spec().subrange(0, n) == prev.effects_spec()
            &&& self.flushed_from(
                prev.deferred_spec(),
                self.effects_spec().subrange(0, n + 1),
                prev.seq_spec(),
                config,
                active,
                clock,
            )
            &&& match msg.translated {
                Some(t) => {
                    &&& self.effects_spec()[n] matches Effect::InsertHistory(
                        HistoryUnit::TranslatedBody { text },
                    )
                    &&& text@ == translated_body_spec(t@)
                    &&& match (msg.title, first_bold_spec(t@)) {
                        (Some(o), Some(x)) => {
                            &&& self.cache_spec() == prev.cache_spec().insert(o@, x)
                            &&& (prev.current_title_spec() matches Some(c) && c@ == o@) ==> (
                            r.status_header_update matches Some(h) && h@ == bilingual_spec(o@, x))
                            &&& !(prev.current_title_spec() matches Some(c) && c@ == o@)
                                ==> r.status_header_update is None
                        },
                        _ => {
                            &&& self.cache_spec() == prev.cache_spec()
                            &&& r.status_header_update is None
                        },
                    }
                },
                None => {
                    &&& self.effects_spec()[n] matches Effect::InsertHistory(
                        HistoryUnit::TranslationFailed { title, reason },
                    )
                    &&& title == msg.title
                    &&& reason@ == match msg.error {
                        Some(e) => e@,
                        None => "unknown error"@,
                    }
                    &&& self.cache_spec() == prev.cache_spec()
                    &&& r.status_header_update is None
                },
            }
        }
    }

    /// `self` is what applying `messages` in order to `prev` leaves: a chain
    /// of states, each step as `applied` describes. The result carries the
    /// last header update and asks for a redraw if any step did.
    pub open spec fn drained(
        &self,
        prev: Self,
        messages: Seq<CompletionMessage>,
        active: Option<ThreadId>,
        config: Option<&AgentReasoningTranslationConfig>,
        clock: &Clock,
        r: OnBodyTranslatedResult,
    ) -> bool {
        exists|states: Seq<Self>, results: Seq<OnBodyTranslatedResult>|
            #![trigger states.len(), results.len()]
            {
                &&& states.len() == messages.len() + 1
                &&& results.len() == messages.len()
                &&& states[0] == prev
                &&& states.last() == *self
                &&& forall|i: int|
                    0 <= i < messages.len() ==> states[i + 1].applied(
                        states[i],
                        messages[i],
                        active,
                        config,
                        clock,
                        #[trigger] results[i],
                    )
                &&& r.needs_redraw == any_redraw(results)
                &&& r.status_header_update == last_header(results)
            }
    }

    /// Whether the deadline of the open barrier has passed.
    pub open spec fn timeout_due(&self, clock: &Clock) -> bool {
        &&& self.enabled_spec()
        &&& self.barrier_spec() matches Some(b)
        &&& clock.now_ms >= b.deadline_ms
    }

    /// `self` is what checking the deadline leaves after `prev`: nothing
    /// changes unless the deadline has passed; then the barrier closes, a
    /// failure unit with the barrier's title follows `prev`'s effects, and
    /// the queue is flushed.
    pub open spec fn timed_out(
        &self,
        prev: Self,
        config: Option<&AgentReasoningTranslationConfig>,
        active: Option<ThreadId>,
        clock: &Clock,
    ) -> bool {
        if !prev.timeout_due(clock) {
            *self == prev
        } else {
            let n = prev.effects_spec().len() as int;
            let b = prev.barrier_spec()->Some_0;
            &&& self.keeps(&prev)
            &&& self.effects_spec().len() > n
            &&& self.effects_spec().subrange(0, n) == prev.effects_spec()
            &&& self.effects_spec()[n] matches Effect::InsertHistory(
                HistoryUnit::TranslationFailed { title, reason },
            )
            &&& title == b.title
            &&& reason@ == timeout_reason_spec(b.max_wait_ms)
            &&& self.flushed_from(
                prev.deferred_spec(),
                self.effects_spec().subrange(0, n + 1),
                prev.seq_spec(),
                config,
                active,
                clock,
            )
        }
    }

    /// A flush that followed `mid` keeps `mid` as the start of its effects.
    proof fn lemma_flush_keeps_prefix(
        &self,
        queue: Seq<HistoryUnit>,
        mid: Seq<Effect>,
        seq: u64,
        config: Option<&AgentReasoningTranslationConfig>,
        active: Option<ThreadId>,
        clock: &Clock,
        k: int,
    )
        requires
            self.flushed_with(queue, mid, seq, config, active, clock, k),
        ensures
            self.effects_spec().len() >= mid.len(),
            self.effects_spec().subrange(0, mid.len() as int) == mid,
    {
        if self.barrier_spec() is None {
            assert(self.effects_spec().subrange(0, mid.len() as int) =~= mid);
        } else {
            assert(self.effects_spec().subrange(0, mid.len() as int) =~= mid);
        }
    }

    /// An orchestrator with nothing pending and an empty title cache.
    pub fn new(enabled: bool) -> (r: Self)
        ensures
            r.wf(),
            r.enabled_spec() == enabled,
            r.cache_spec() == Map::<Seq<char>, Seq<char>>::empty(),
            r.current_title_spec() is None,
            r.barrier_spec() is None,
            r.deferred_spec() == Seq::<HistoryUnit>::empty(),
            r.seq_spec() == 0,
            r.effects_spec() == Seq::<Effect>::empty(),
    {
        AgentReasoningTranslationOrchestrator {
            enabled,
            title_translation_cache: TextMap::new(),
            current_reasoning_title_raw: None,
            body_translation_barrier: None,
            deferred_history_cells: VecDeque::new(),
            body_translation_seq: 0,
            effects: Vec::new(),
        }
    }

    /// Hands over the effects collected so far.
    pub fn take_effects(&mut self) -> (r: Vec<Effect>)
        ensures
            r@ == old(self).effects_spec(),
            final(self).effects_spec() == Seq::<Effect>::empty(),
            final(self).wf() == old(self).wf(),
            final(self).keeps(old(self)),
            final(self).barrier_spec() == old(self).barrier_spec(),
            final(self).deferred_spec() == old(self).deferred_spec(),
            final(self).seq_spec() == old(self).seq_spec(),
    {
        let mut out: Vec<Effect> = Vec::new();
        std::mem::swap(&mut out, &mut self.effects);
        out
    }

    /// The status header for a reasoning buffer that is still streaming: its
    /// bold-leading title, in bilingual form when a translation of it is
    /// cached. The title is remembered as the one on display.
    pub fn maybe_status_header_from_reasoning_buffer(&mut self, reasoning_buffer: &str) -> (r:
        Option<String>)
        requires
            old(self).wf(),
        ensures
            final(self).wf(),
            first_bold_spec(reasoning_buffer@) is None ==> r is None && *final(self) == *old(
                self,
            ),
            first_bold_spec(reasoning_buffer@) matches Some(h) ==> {
                &&& final(self).current_title_spec() matches Some(c) && c@ == h
                &&& r matches Some(s) && s@ == if old(self).cache_spec().contains_key(h) {
                    bilingual_spec(h, old(self).cache_spec()[h])
                } else {
                    h
                }
                &&& final(self).enabled_spec() == old(self).enabled_spec()
                &&& final(self).cache_spec() == old(self).cache_spec()
                &&& final(self).barrier_spec() == old(self).barrier_spec()
                &&& final(self).deferred_spec() == old(self).deferred_spec()
                &&& final(self).seq_spec() == old(self).seq_spec()
                &&& final(self).effects_spec() == old(self).effects_spec()
            },
    {
        let header = match extract_first_bold(reasoning_buffer) {
            Some(h) => h,
            None => return None,
        };
        self.current_reasoning_title_raw = Some(header.clone());
        match self.title_translation_cache.get(&header) {
            Some(translated) => Some(format_bilingual_title(header.as_str(), translated.as_str())),
            None => Some(header),
        }
    }

    /// The override of the UI wait, read as milliseconds after trimming, or
    /// `None` when it does not parse.
    pub fn parse_max_wait_override(raw: &str) -> (r: Option<u64>)
        ensures
            r == parse_u64_spec(trim_seq(raw@)),
    {
        let trimmed = string_of(trim_chars(&chars_of(raw)).as_slice());
        parse_u64(trimmed.as_str())
    }

    /// The UI wait for a new barrier: the override when it parses, else
    /// `config_max_wait_ms`.
    pub fn max_wait_with_env_override(config_max_wait_ms: u64, over: &Option<String>) -> (r: u64)
        ensures
            r == effective_max_wait_spec(config_max_wait_ms, *over),
    {
        match over {
            Some(raw) => match Self::parse_max_wait_override(raw.as_str()) {
                Some(ms) => ms,
                None => config_max_wait_ms,
            },
            None => config_max_wait_ms,
        }
    }

    /// Opens a barrier for a new body translation, unless one is open.
    pub fn begin_body_translation_barrier(
        &mut self,
        config_max_wait_ms: u64,
        thread_id: ThreadId,
        title: Option<String>,
        clock: &Clock,
    ) -> (r: Option<u64>)
        requires
            old(self).wf(),
        ensures
            final(self).wf(),
            old(self).barrier_spec() is Some ==> r is None && *final(self) == *old(self),
            old(self).barrier_spec() is None ==> {
                let w = effective_max_wait_spec(config_max_wait_ms, clock.max_wait_override);
                &&& r == Some(old(self).seq_spec())
                &&& final(self).barrier_spec() == Some(
                    (Barrier {
                        request_id: old(self).seq_spec(),
                        thread_id,
                        title,
                        max_wait_ms: w,
                        deadline_ms: deadline_spec(clock.now_ms, w),
                    }),
                )
                &&& final(self).seq_spec() == saturating_inc(old(self).seq_spec())
                &&& final(self).effects_spec() == old(self).effects_spec().push(
                    Effect::ScheduleFrameIn { delay_ms: w },
                )
                &&& final(self).keeps(old(self))
                &&& final(self).deferred_spec() == old(self).deferred_spec()
            },
    {
        if self.body_translation_barrier.is_some() {
            return None;
        }
        let request_id = self.body_translation_seq;
        self.body_translation_seq = self.body_translation_seq.saturating_add(1);
        let max_wait_ms = Self::max_wait_with_env_override(
            config_max_wait_ms,
            &clock.max_wait_override,
        );
        let deadline_ms = match clock.now_ms.checked_add(max_wait_ms) {
            Some(d) => d,
            None => clock.now_ms,
        };
        self.body_translation_barrier = Some(
            Barrier { request_id, thread_id, title, max_wait_ms, deadline_ms },
        );
        self.effects.push(Effect::ScheduleFrameIn { delay_ms: max_wait_ms });
        Some(request_id)
    }

    /// Starts a body translation of a completed reasoning block when the
    /// hook is enabled and configured, a thread is active, the block has a
    /// body, and no other translation is pending.
    pub fn maybe_translate_reasoning_body(
        &mut self,
        config: Option<&AgentReasoningTranslationConfig>,
        thread_id: Option<ThreadId>,
        full_reasoning: String,
        clock: &Clock,
    )
        requires
            old(self).wf(),
        ensures
            final(self).wf(),
            ({
                &&& old(self).enabled_spec()
                &&& config is Some
                &&& thread_id is Some
                &&& dispatchable_spec(full_reasoning@)
                &&& old(self).barrier_spec() is None
            }) ==> {
                &&& final(self).dispatched(
                    old(self).effects_spec(),
                    old(self).seq_spec(),
                    thread_id->Some_0,
                    full_reasoning,
                    config->Some_0.ui_max_wait_ms,
                    clock,
                )
                &&& final(self).keeps(old(self))
                &&& final(self).deferred_spec() == old(self).deferred_spec()
            },
            !({
                &&& old(self).enabled_spec()
                &&& config is Some
                &&& thread_id is Some
                &&& dispatchable_spec(full_reasoning@)
                &&& old(self).barrier_spec() is None
            }) ==> *final(self) == *old(self),
    {
        if !self.enabled {
            return;
        }
        let config = match config {
            Some(c) => c,
            None => return,
        };
        let thread_id = match thread_id {
            Some(t) => t,
            None => return,
        };
        let title = extract_first_bold(full_reasoning.as_str());
        let body = match extract_reasoning_body_for_translation(full_reasoning.as_str()) {
            Some(b) => b,
            None => return,
        };
        if trim_chars(&chars_of(body.as_str())).len() == 0 {
            return;
        }
        let request_id = match self.begin_body_translation_barrier(
            config.ui_max_wait_ms,
            thread_id,
            clone_opt(&title),
            clock,
        ) {
            Some(id) => id,
            None => return,
        };
        self.effects.push(
            Effect::StartTranslation { request_id, thread_id, title, text: full_reasoning },
        );
    }

    /// Inserts a unit now, or queues it while a translation is pending.
    pub fn emit_history_cell(&mut self, unit: HistoryUnit)
        ensures
            final(self).wf() == old(self).wf(),
            final(self).keeps(old(self)),
            final(self).barrier_spec() == old(self).barrier_spec(),
            final(self).seq_spec() == old(self).seq_spec(),
            old(self).barrier_spec() is Some ==> {
                &&& final(self).deferred_spec() == old(self).deferred_spec().push(unit)
                &&& final(self).effects_spec() == old(self).effects_spec()
            },
            old(self).barrier_spec() is None ==> {
                &&& final(self).deferred_spec() == old(self).deferred_spec()
                &&& final(self).effects_spec() == old(self).effects_spec().push(
                    Effect::InsertHistory(unit),
                )
            },
    {
        if self.body_translation_barrier.is_some() {
            self.deferred_history_cells.push_back(unit);
        } else {
            self.effects.push(Effect::InsertHistory(unit));
        }
    }

    /// Like `emit_history_cell`, and a completed reasoning block inserted
    /// now also starts its translation.
    pub fn emit_history_cell_with_translation_hook(
        &mut self,
        config: Option<&AgentReasoningTranslationConfig>,
        active_thread_id: Option<ThreadId>,
        clock: &Clock,
        unit: HistoryUnit,
    )
        requires
            old(self).wf(),
        ensures
            final(self).wf(),
            final(self).keeps(old(self)),
            old(self).barrier_spec() is Some ==> {
                &&& final(self).deferred_spec() == old(self).deferred_spec().push(unit)
                &&& final(self).effects_spec() == old(self).effects_spec()
                &&& final(self).barrier_spec() == old(self).barrier_spec()
                &&& final(self).seq_spec() == old(self).seq_spec()
            },
            old(self).barrier_spec() is None ==> {
                &&& final(self).deferred_spec() == old(self).deferred_spec()
                &&& opens_spec(unit, old(self).enabled_spec(), config, active_thread_id)
                    ==> final(self).dispatched(
                    old(self).effects_spec().push(Effect::InsertHistory(unit)),
                    old(self).seq_spec(),
                    active_thread_id->Some_0,
                    reasoning_of(unit)->Some_0,
                    config->Some_0.ui_max_wait_ms,
                    clock,
                )
                &&& !opens_spec(unit, old(self).enabled_spec(), config, active_thread_id) ==> {
                    &&& final(self).barrier_spec() is None
                    &&& final(self).effects_spec() == old(self).effects_spec().push(
                        Effect::InsertHistory(unit),
                    )
                    &&& final(self).seq_spec() == old(self).seq_spec()
                }
            },
    {
        if self.body_translation_barrier.is_some() {
            self.deferred_history_cells.push_back(unit);
            return;
        }
        let reasoning = match &unit {
            HistoryUnit::Host { reasoning: Some(full), .. } => Some(full.clone()),
            _ => None,
        };
        self.effects.push(Effect::InsertHistory(unit));
        if let Some(full) = reasoning {
            self.maybe_translate_reasoning_body(config, active_thread_id, full, clock);
        }
    }

    /// Inserts the queued units in order. A completed reasoning block among
    /// them starts its own translation when nothing is pending, and the
    /// flush stops there until that translation is resolved.
    fn flush_deferred_history_cells(
        &mut self,
        config: Option<&AgentReasoningTranslationConfig>,
        active_thread_id: Option<ThreadId>,
        clock: &Clock,
    ) -> (flushed: Ghost<int>)
        requires
            old(self).wf(),
            old(self).barrier_spec() is None,
        ensures
            final(self).wf(),
            final(self).keeps(old(self)),
            final(self).flushed_with(
                old(self).deferred_spec(),
                old(self).effects_spec(),
                old(self).seq_spec(),
                config,
                active_thread_id,
                clock,
                flushed@,
            ),
    {
        let ghost queue = self.deferred_history_cells@;
        let ghost before = self.effects@;
        let ghost seq = self.body_translation_seq;
        let ghost enabled = self.enabled;
        let ghost mut k: int = 0;
        let mut opened = false;
        while !opened && self.deferred_history_cells.len() > 0
            invariant
                self.wf(),
                self.keeps(old(self)),
                enabled == self.enabled,
                0 <= k <= queue.len(),
                self.deferred_history_cells@ == queue.skip(k),
                forall|j: int|
                    0 <= j < k - 1 ==> !opens_spec(#[trigger] queue[j], enabled, config, active_thread_id),
                !opened ==> {
                    &&& self.body_translation_barrier is None
                    &&& self.effects@ == before + inserts(queue.take(k))
                    &&& self.body_translation_seq == seq
                    &&& k > 0 ==> !opens_spec(queue[k - 1], enabled, config, active_thread_id)
                },
                opened ==> {
                    &&& self.body_translation_barrier is Some
                    &&& 0 < k
                    &&& opens_spec(queue[k - 1], enabled, config, active_thread_id)
                    &&& self.dispatched(
                        before + inserts(queue.take(k)),
                        seq,
                        active_thread_id->Some_0,
                        reasoning_of(queue[k - 1])->Some_0,
                        config->Some_0.ui_max_wait_ms,
                        clock,
                    )
                },
            decreases self.deferred_history_cells@.len(),
        {
            let unit = self.deferred_history_cells.pop_front().unwrap();
            let reasoning = match &unit {
                HistoryUnit::Host { reasoning: Some(full), .. } => Some(full.clone()),
                _ => None,
            };
            proof {
                assert(unit == queue[k]);
                assert(queue.take(k + 1) =~= queue.take(k).push(unit));
                assert(inserts(queue.take(k + 1)) =~= inserts(queue.take(k)).push(
                    Effect::InsertHistory(unit),
                ));
                assert(queue.skip(k).drop_first() =~= queue.skip(k + 1));
                k = k + 1;
            }
            self.effects.push(Effect::InsertHistory(unit));
            proof {
                assert(self.effects@ =~= before + inserts(queue.take(k)));
            }
            if let Some(full) = reasoning {
                self.maybe_translate_reasoning_body(config, active_thread_id, full, clock);
                if self.body_translation_barrier.is_some() {
                    opened = true;
                }
            }
        }
        proof {
            if !opened {
                assert(self.deferred_history_cells@.len() == 0);
                assert(k == queue.len());
                assert(queue.take(k) =~= queue);
            }
            assert(self.flushed_with(queue, before, seq, config, active_thread_id, clock, k));
        }
        Ghost(k)
    }

    /// Applies one completion message, as `applied` describes.
    pub fn on_body_translated(
        &mut self,
        msg: CompletionMessage,
        active_thread_id: Option<ThreadId>,
        config: Option<&AgentReasoningTranslationConfig>,
        clock: &Clock,
    ) -> (r: OnBodyTranslatedResult)
        requires
            old(self).wf(),
        ensures
            final(self).wf(),
            final(self).applied(*old(self), msg, active_thread_id, config, clock, r),
    {
        let CompletionMessage { request_id, thread_id, title, translated, error } = msg;
        let matches = match &self.body_translation_barrier {
            Some(b) => b.request_id == request_id && b.thread_id == thread_id,
            None => false,
        };
        if !matches {
            return OnBodyTranslatedResult { status_header_update: None, needs_redraw: false };
        }
        match active_thread_id {
            Some(a) => {
                if a != thread_id {
                    return OnBodyTranslatedResult {
                        status_header_update: None,
                        needs_redraw: false,
                    };
                }
            },
            None => {
                return OnBodyTranslatedResult { status_header_update: None, needs_redraw: false };
            },
        }
        self.body_translation_barrier = None;
        let mut status_header_update: Option<String> = None;
        match translated {
            Some(translated) => {
                let translated_title = extract_first_bold(translated.as_str());
                let body_source = match extract_reasoning_body_for_translation(
                    translated.as_str(),
                ) {
                    Some(b) => b,
                    None => translated.clone(),
                };
                let translated_body = trim_chars(&chars_of(body_source.as_str()));
                match (&title, &translated_title) {
                    (Some(original), Some(tt)) => {
                        self.title_translation_cache.insert(original.clone(), tt.clone());
                        let shown = match &self.current_reasoning_title_raw {
                            Some(c) => *c == *original,
                            None => false,
                        };
                        if shown {
                            status_header_update = Some(
                                format_bilingual_title(original.as_str(), tt.as_str()),
                            );
                        }
                    },
                    _ => {},
                }
                let text = if translated_body.len() == 0 {
                    translated
                } else {
                    string_of(translated_body.as_slice())
                };
                self.effects.push(Effect::InsertHistory(HistoryUnit::TranslatedBody { text }));
            },
            None => {
                let reason = match error {
                    Some(e) => e,
                    None => string_of(chars_of("unknown error").as_slice()),
                };
                self.effects.push(
                    Effect::InsertHistory(HistoryUnit::TranslationFailed { title, reason }),
                );
            },
        }
        let ghost mid = self.effects@;
        let flushed = self.flush_deferred_history_cells(config, active_thread_id, clock);
        proof {
            self.lemma_flush_keeps_prefix(
                old(self).deferred_history_cells@,
                mid,
                old(self).body_translation_seq,
                config,
                active_thread_id,
                clock,
                flushed@,
            );
            let n = old(self).effects@.len() as int;
            assert(self.effects@[n] == mid[n]);
            assert(self.effects@.subrange(0, n) =~= old(self).effects@);
        }
        OnBodyTranslatedResult { status_header_update, needs_redraw: true }
    }

    /// Closes a barrier whose deadline has passed, as `timed_out` describes.
    /// Returns whether it did so.
    pub fn maybe_flush_timeout(
        &mut self,
        config: Option<&AgentReasoningTranslationConfig>,
        active_thread_id: Option<ThreadId>,
        clock: &Clock,
    ) -> (r: bool)
        requires
            old(self).wf(),
        ensures
            final(self).wf(),
            r == old(self).timeout_due(clock),
            final(self).timed_out(*old(self), config, active_thread_id, clock),
    {
        if !self.enabled {
            return false;
        }
        let (title, max_wait_ms) = match &self.body_translation_barrier {
            Some(b) => {
                if clock.now_ms < b.deadline_ms {
                    return false;
                }
                (clone_opt(&b.title), b.max_wait_ms)
            },
            None => return false,
        };
        self.body_translation_barrier = None;
        let mut reason = chars_of("waiting timed out (");
        push_text(&mut reason, u64_decimal(max_wait_ms).as_str());
        push_text(&mut reason, "ms); skipped translation output");
        self.effects.push(
            Effect::InsertHistory(
                HistoryUnit::TranslationFailed { title, reason: string_of(reason.as_slice()) },
            ),
        );
        let ghost mid = self.effects@;
        let flushed = self.flush_deferred_history_cells(config, active_thread_id, clock);
        proof {
            self.lemma_flush_keeps_prefix(
                old(self).deferred_history_cells@,
                mid,
                old(self).body_translation_seq,
                config,
                active_thread_id,
                clock,
                flushed@,
            );
            let n = old(self).effects@.len() as int;
            assert(self.effects@[n] == mid[n]);
            assert(self.effects@.subrange(0, n) =~= old(self).effects@);
        }
        true
    }

    /// Applies a batch of completion messages in the order they arrived, as
    /// `drained` describes. A disabled orchestrator reads none of them.
    pub fn drain_body_translation_results(
        &mut self,
        messages: Vec<CompletionMessage>,
        active_thread_id: Option<ThreadId>,
        config: Option<&AgentReasoningTranslationConfig>,
        clock: &Clock,
    ) -> (r: OnBodyTranslatedResult)
        requires
            old(self).wf(),
        ensures
            final(self).wf(),
            !old(self).enabled_spec() ==> {
                &&& *final(self) == *old(self)
                &&& r.status_header_update is None
                &&& !r.needs_redraw
            },
            old(self).enabled_spec() ==> final(self).drained(
                *old(self),
                messages@,
                active_thread_id,
                config,
                clock,
                r,
            ),
    {
        let mut out = OnBodyTranslatedResult { status_header_update: None, needs_redraw: false };
        if !self.enabled {
            return out;
        }
        let mut messages = messages;
        let ghost all = messages@;
        let ghost mut taken: int = 0;
        let ghost mut states: Seq<Self> = seq![*self];
        let ghost mut results: Seq<OnBodyTranslatedResult> = Seq::empty();
        while messages.len() > 0
            invariant
                self.wf(),
                0 <= taken <= all.len(),
                messages@ == all.skip(taken),
                states.len() == taken + 1,
                results.len() == taken,
                states[0] == *old(self),
                states.last() == *self,
                forall|i: int|
                    0 <= i < taken ==> states[i + 1].applied(
                        states[i],
                        all[i],
                        active_thread_id,
                        config,
                        clock,
                        #[trigger] results[i],
                    ),
                out.needs_redraw == any_redraw(results),
                out.status_header_update == last_header(results),
            decreases messages@.len(),
        {
            let msg = messages.remove(0);
            let ghost m = msg;
            let ghost prev = *self;
            proof {
                assert(msg == all[taken]);
                assert(all.skip(taken).drop_first() =~= all.skip(taken + 1));
            }
            let result = self.on_body_translated(msg, active_thread_id, config, clock);
            let ghost res = result;
            proof {
                let new_states = states.push(*self);
                let new_results = results.push(res);
                assert forall|i: int| 0 <= i < taken + 1 implies new_states[i + 1].applied(
                    new_states[i],
                    all[i],
                    active_thread_id,
                    config,
                    clock,
                    #[trigger] new_results[i],
                ) by {
                    if i < taken {
                        assert(new_results[i] == results[i]);
                        assert(states[i + 1].applied(
                            states[i],
                            all[i],
                            active_thread_id,
                            config,
                            clock,
                            results[i],
                        ));
                    }
                }
                assert(new_results.drop_last() =~= results);
                if res.needs_redraw {
                    assert(new_results[taken] == res);
                } else {
                    assert forall|i: int|
                        0 <= i < new_results.len() && #[trigger] new_results[i].needs_redraw
                        implies 0 <= i < results.len() && results[i].needs_redraw by {
                        assert(i != taken);
                    }
                    assert forall|i: int|
                        0 <= i < results.len() && #[trigger] results[i].needs_redraw
                        implies 0 <= i < new_results.len() && new_results[i].needs_redraw by {
                        assert(new_results[i] == results[i]);
                    }
                }
                states = new_states;
                results = new_results;
                taken = taken + 1;
            }
            if result.status_header_update.is_some() {
                out.status_header_update = result.status_header_update;
            }
            out.needs_redraw = out.needs_redraw || result.needs_redraw;
        }
        proof {
            assert(taken == all.len());
            assert(self.drained(*old(self), all, active_thread_id, config, clock, out));
        }
        out
    }

    /// One redraw tick: applies the messages that arrived, as `drained`
    /// describes, then checks the deadline of whatever barrier is left open,
    /// as `timed_out` describes.
    pub fn on_draw_tick(
        &mut self,
        messages: Vec<CompletionMessage>,
        active_thread_id: Option<ThreadId>,
        config: Option<&AgentReasoningTranslationConfig>,
        clock: &Clock,
    ) -> (r: OnBodyTranslatedResult)
        requires
            old(self).wf(),
        ensures
            final(self).wf(),
            !old(self).enabled_spec() ==> {
                &&& *final(self) == *old(self)
                &&& r.status_header_update is None
                &&& !r.needs_redraw
            },
            old(self).enabled_spec() ==> exists|mid: Self, drained: OnBodyTranslatedResult|
                #![trigger mid.drained(*old(self), messages@, active_thread_id, config, clock, drained)]
                {
                    &&& mid.drained(
                        *old(self),
                        messages@,
                        active_thread_id,
                        config,
                        clock,
                        drained,
                    )
                    &&& final(self).timed_out(mid, config, active_thread_id, clock)
                    &&& r.status_header_update == drained.status_header_update
                    &&& r.needs_redraw == (drained.needs_redraw || mid.timeout_due(clock))
                },
    {
        if !self.enabled {
            return OnBodyTranslatedResult { status_header_update: None, needs_redraw: false };
        }
        let mut result = self.drain_body_translation_results(
            messages,
            active_thread_id,
            config,
            clock,
        );
        let ghost mid = *self;
        let ghost drained = result;
        if self.maybe_flush_timeout(config, active_thread_id, clock) {
            result.needs_redraw = true;
        }
        proof {
            assert(mid.drained(*old(self), messages@, active_thread_id, config, clock, drained));
        }
        result
    }

    /// Whether a body translation is pending.
    pub fn is_pending(&self) -> (r: bool)
        ensures
            r == self.barrier_spec() is Some,
    {
        self.body_translation_barrier.is_some()
    }

    /// The request id of the open barrier.
    pub fn barrier_request_id(&self) -> (r: Option<u64>)
        ensures
            r == match self.barrier_spec() {
                Some(b) => Some(b.request_id),
                None => None::<u64>,
            },
    {
        match &self.body_translation_barrier {
            Some(b) => Some(b.request_id),
            None => None,
        }
    }

    /// The UI wait of the open barrier.
    pub fn barrier_max_wait_ms(&self) -> (r: Option<u64>)
        ensures
            r == match self.barrier_spec() {
                Some(b) => Some(b.max_wait_ms),
                None => None::<u64>,
            },
    {
        match &self.body_translation_barrier {
            Some(b) => Some(b.max_wait_ms),
            None => None,
        }
    }

    /// Moves the deadline of the open barrier, if any.
    pub fn set_barrier_deadline_ms(&mut self, deadline_ms: u64)
        ensures
            final(self).wf() == old(self).wf(),
            final(self).keeps(old(self)),
            final(self).deferred_spec() == old(self).deferred_spec(),
            final(self).seq_spec() == old(self).seq_spec(),
            final(self).effects_spec() == old(self).effects_spec(),
            match (old(self).barrier_spec(), final(self).barrier_spec()) {
                (Some(a), Some(b)) => b == (Barrier { deadline_ms, ..a }),
                (None, None) => true,
                _ => false,
            },
    {
        match self.body_translation_barrier.take() {
            Some(b) => {
                self.body_translation_barrier = Some(Barrier { deadline_ms, ..b });
            },
            None => {},
        }
    }

    /// How many units wait for the barrier to close.
    pub fn deferred_len(&self) -> (r: usize)
        ensures
            r == self.deferred_spec().len(),
    {
        self.deferred_history_cells.len()
    }

    /// The cached translation of a title.
    pub fn cached_title_translation(&self, original: &String) -> (r: Option<String>)
        requires
            self.wf(),
        ensures
            r matches Some(t) ==> self.cache_spec().contains_key(original@) && t@
                == self.cache_spec()[original@],
            r is None ==> !self.cache_spec().contains_key(original@),
    {
        self.title_translation_cache.get(original)
    }
}

impl Default for AgentReasoningTranslationOrchestrator {
    /// An enabled orchestrator with nothing pending.
    fn default() -> (r: Self)
        ensures
            r.wf(),
            r.enabled_spec(),
            r.barrier_spec() is None,
            r.deferred_spec() == Seq::<HistoryUnit>::empty(),
            r.effects_spec() == Seq::<Effect>::empty(),
    {
        Self::new(true)
    }
}

} // verus!
