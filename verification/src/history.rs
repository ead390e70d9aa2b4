//! Rolling buffer of recent chat messages.
//!
//! Every pushed message gets the next sequence number. The buffer holds at
//! most as many entries as the capacity read from the current settings at
//! the time of the push; older entries are dropped first. `query` pages
//! backwards through the buffer with optional user and substring filters.
use std::collections::VecDeque;

use vstd::prelude::*;

use crate::settings::Settings;
use crate::text::{ascii_lower, chars_of, contains, opt_view, str_contains, to_ascii_lowercase, trim, trimmed};

verus! {

/// Upper bound on the messages one query returns.
pub const MAX_TOOL_RESULT_MESSAGES: usize = 200;

/// Messages a query returns when it names no limit.
pub const DEFAULT_TOOL_RESULT_MESSAGES: usize = 50;

#[derive(Debug, Clone, Copy, PartialEq, Eq)]
pub enum ChatHistorySource {
    User,
    Bot,
}

/// One remembered chat line; `timestamp_ms` is milliseconds since the Unix
/// epoch.
#[derive(Debug, Clone, PartialEq, Eq)]
pub struct ChatHistoryEntry {
    pub seq: u64,
    pub username: String,
    pub text: String,
    pub source: ChatHistorySource,
    pub timestamp_ms: i64,
}

impl ChatHistoryEntry {
    /// A field-for-field copy.
    pub fn copy(&self) -> (r: ChatHistoryEntry)
        ensures
            r == *self,
    {
        ChatHistoryEntry {
            seq: self.seq,
            username: self.username.clone(),
            text: self.text.clone(),
            source: self.source,
            timestamp_ms: self.timestamp_ms,
        }
    }
}

/// Which history length setting bounds a buffer.
#[derive(Debug, Clone, Copy, PartialEq, Eq)]
pub enum HistoryCapacity {
    /// `ai.history.length`, for the main channel.
    Primary,
    /// `ai.history.ai_channel_length`, for the AI channel.
    AiChannel,
}

pub open spec fn capacity_in(kind: HistoryCapacity, s: Settings) -> usize {
    match kind {
        HistoryCapacity::Primary => s.ai.history.length as usize,
        HistoryCapacity::AiChannel => s.ai.history.ai_channel_length as usize,
    }
}

/// Capacity of the main channel's buffer.
pub fn primary_history_capacity(s: &Settings) -> (r: usize)
    ensures
        r == capacity_in(HistoryCapacity::Primary, *s),
{
    s.ai.history.length as usize
}

/// Capacity of the AI channel's buffer.
pub fn ai_channel_history_capacity(s: &Settings) -> (r: usize)
    ensures
        r == capacity_in(HistoryCapacity::AiChannel, *s),
{
    s.ai.history.ai_channel_length as usize
}

#[derive(Debug, Clone)]
pub struct ChatHistoryQuery {
    pub limit: Option<usize>,
    pub user: Option<String>,
    pub contains: Option<String>,
    pub before_seq: Option<u64>,
}

impl Default for ChatHistoryQuery {
    fn default() -> (r: Self)
        ensures
            r.limit is None,
            r.user is None,
            r.contains is None,
            r.before_seq is None,
    {
        ChatHistoryQuery { limit: None, user: None, contains: None, before_seq: None }
    }
}

#[derive(Debug, Clone, PartialEq, Eq)]
pub struct ChatHistoryPage {
    pub messages: Vec<ChatHistoryEntry>,
    pub has_more: bool,
    pub next_before_seq: Option<u64>,
}

pub struct ChatHistoryBuffer {
    capacity: HistoryCapacity,
    next_seq: u64,
    entries: VecDeque<ChatHistoryEntry>,
}

// ---------------------------------------------------------------------------
// Specification of a query
// ---------------------------------------------------------------------------

/// The effective page size: the requested limit (default 50) clamped to
/// `1..=200`.
pub open spec fn effective_limit(limit: Option<usize>) -> usize {
    let l = match limit {
        Some(l) => l,
        None => DEFAULT_TOOL_RESULT_MESSAGES,
    };
    if l < 1 {
        1
    } else if l > MAX_TOOL_RESULT_MESSAGES {
        MAX_TOOL_RESULT_MESSAGES
    } else {
        l
    }
}

/// A text filter: trimmed and lower-cased, absent when blank.
pub open spec fn filter_text(o: Option<Seq<char>>) -> Option<Seq<char>> {
    match o {
        Some(s) => if trim(s).len() == 0 {
            None
        } else {
            Some(ascii_lower(trim(s)))
        },
        None => None,
    }
}

/// Whether `e` passes the query's cursor and filters.
pub open spec fn entry_matches(
    e: ChatHistoryEntry,
    before: Option<u64>,
    user: Option<Seq<char>>,
    needle: Option<Seq<char>>,
) -> bool {
    &&& (before matches Some(b) ==> e.seq < b)
    &&& (user matches Some(u) ==> ascii_lower(e.username@) == u)
    &&& (needle matches Some(n) ==> contains(ascii_lower(e.text@), n))
}

/// The entries of `es` that pass, in order.
pub open spec fn matching(
    es: Seq<ChatHistoryEntry>,
    before: Option<u64>,
    user: Option<Seq<char>>,
    needle: Option<Seq<char>>,
) -> Seq<ChatHistoryEntry>
    decreases es.len(),
{
    if es.len() == 0 {
        Seq::empty()
    } else {
        let rest = matching(es.drop_first(), before, user, needle);
        if entry_matches(es[0], before, user, needle) {
            seq![es[0]] + rest
        } else {
            rest
        }
    }
}

/// The page `query` returns for the buffer contents `es`: the newest
/// `limit` passing entries in chronological order, whether older passing
/// entries remain, and the cursor to fetch them.
pub open spec fn page_spec(es: Seq<ChatHistoryEntry>, q: ChatHistoryQuery) -> (
    Seq<ChatHistoryEntry>,
    bool,
    Option<u64>,
) {
    let sel = matching(
        es,
        q.before_seq,
        filter_text(opt_view(q.user)),
        filter_text(opt_view(q.contains)),
    );
    let limit = effective_limit(q.limit);
    if sel.len() > limit {
        let msgs = sel.skip(sel.len() - limit);
        (msgs, true, Some(msgs[0].seq))
    } else {
        (sel, false, None)
    }
}

impl ChatHistoryBuffer {
    pub closed spec fn entries_view(&self) -> Seq<ChatHistoryEntry> {
        self.entries@
    }

    pub closed spec fn next_seq_view(&self) -> u64 {
        self.next_seq
    }

    pub closed spec fn capacity_kind(&self) -> HistoryCapacity {
        self.capacity
    }

    /// Sequence numbers strictly increase along the buffer and stay below
    /// the next one to hand out.
    pub open spec fn well_formed(&self) -> bool {
        &&& self.next_seq_view() >= 1
        &&& forall|i: int, j: int|
            0 <= i < j < self.entries_view().len() ==> (#[trigger] self.entries_view()[i]).seq
                < (#[trigger] self.entries_view()[j]).seq
        &&& forall|i: int|
            0 <= i < self.entries_view().len() ==> (#[trigger] self.entries_view()[i]).seq
                < self.next_seq_view()
    }

    /// An empty buffer bounded by the `capacity` setting.
    pub fn new(capacity: HistoryCapacity) -> (r: Self)
        ensures
            r.well_formed(),
            r.entries_view().len() == 0,
            r.next_seq_view() == 1,
            r.capacity_kind() == capacity,
    {
        ChatHistoryBuffer { capacity, next_seq: 1, entries: VecDeque::new() }
    }

    pub fn len(&self) -> (r: usize)
        ensures
            r == self.entries_view().len(),
    {
        self.entries.len()
    }

    pub fn is_empty(&self) -> (r: bool)
        ensures
            r == (self.entries_view().len() == 0),
    {
        self.entries.len() == 0
    }

    /// The capacity the current settings give this buffer.
    pub fn capacity_for(&self, settings: &Settings) -> (r: usize)
        ensures
            r == capacity_in(self.capacity_kind(), *settings),
    {
        match self.capacity {
            HistoryCapacity::Primary => primary_history_capacity(settings),
            HistoryCapacity::AiChannel => ai_channel_history_capacity(settings),
        }
    }
}

/// The buffer contents after pushing `e` with capacity `cap`: nothing
/// changes when `cap` is zero; otherwise the oldest entries are dropped
/// until fewer than `cap` remain, and `e` is appended.
pub open spec fn pushed(es: Seq<ChatHistoryEntry>, cap: usize, e: ChatHistoryEntry) -> Seq<
    ChatHistoryEntry,
> {
    if cap == 0 {
        es
    } else if es.len() >= cap {
        es.skip(es.len() - cap + 1).push(e)
    } else {
        es.push(e)
    }
}

/// `n + 1`, saturating at `u64::MAX`.
pub open spec fn next_after(n: u64) -> u64 {
    if n == u64::MAX {
        n
    } else {
        (n + 1) as u64
    }
}

impl ChatHistoryBuffer {
    fn push(
        &mut self,
        settings: &Settings,
        username: String,
        text: String,
        source: ChatHistorySource,
        timestamp_ms: i64,
    )
        ensures
            ({
                let cap = capacity_in(old(self).capacity_kind(), *settings);
                let e = ChatHistoryEntry {
                    seq: old(self).next_seq_view(),
                    username,
                    text,
                    source,
                    timestamp_ms,
                };
                &&& final(self).entries_view() == pushed(old(self).entries_view(), cap, e)
                &&& final(self).next_seq_view() == (if cap == 0 {
                    old(self).next_seq_view()
                } else {
                    next_after(old(self).next_seq_view())
                })
            }),
            final(self).capacity_kind() == old(self).capacity_kind(),
            old(self).well_formed() && old(self).next_seq_view() < u64::MAX ==> final(self).well_formed(),
    {
        let cap = self.capacity_for(settings);
        if cap == 0 {
            return;
        }
        let ghost es = self.entries@;
        while self.entries.len() >= cap
            invariant
                cap > 0,
                es.len() >= self.entries@.len(),
                self.entries@.len() >= (if es.len() >= cap {
                    cap - 1
                } else {
                    es.len() as int
                }),
                self.entries@ == es.skip(es.len() - self.entries@.len()),
                self.next_seq == old(self).next_seq,
                self.capacity == old(self).capacity,
                es == old(self).entries@,
            decreases self.entries@.len(),
        {
            let ghost before = self.entries@;
            self.entries.pop_front();
            assert(self.entries@ =~= es.skip(es.len() - self.entries@.len()));
        }
        let ghost kept = self.entries@;
        let seq = self.next_seq;
        self.next_seq = self.next_seq.saturating_add(1);
        self.entries.push_back(ChatHistoryEntry { seq, username, text, source, timestamp_ms });
        proof {
            if es.len() >= cap {
                assert(kept =~= es.skip(es.len() - cap + 1));
            } else {
                assert(kept =~= es);
            }
            if old(self).well_formed() && old(self).next_seq_view() < u64::MAX {
                assert forall|i: int, j: int|
                    0 <= i < j < self.entries@.len() implies (#[trigger] self.entries@[i]).seq
                    < (#[trigger] self.entries@[j]).seq by {
                    let off = es.len() - kept.len();
                    assert(kept[i] == es[i + off]);
                    if j < kept.len() {
                        assert(kept[j] == es[j + off]);
                    }
                }
                assert forall|i: int|
                    0 <= i < self.entries@.len() implies (#[trigger] self.entries@[i]).seq
                    < self.next_seq by {
                    let off = es.len() - kept.len();
                    if i < kept.len() {
                        assert(kept[i] == es[i + off]);
                    }
                }
            }
        }
    }

    /// Records a viewer's message sent at `timestamp_ms`.
    pub fn push_user_at(&mut self, settings: &Settings, username: String, text: String, timestamp_ms: i64)
        ensures
            final(self).entries_view() == pushed(
                old(self).entries_view(),
                capacity_in(old(self).capacity_kind(), *settings),
                ChatHistoryEntry {
                    seq: old(self).next_seq_view(),
                    username,
                    text,
                    source: ChatHistorySource::User,
                    timestamp_ms,
                },
            ),
            capacity_in(old(self).capacity_kind(), *settings) > 0 ==> final(self).next_seq_view()
                == next_after(old(self).next_seq_view()),
            capacity_in(old(self).capacity_kind(), *settings) == 0 ==> final(self).next_seq_view() == old(self).next_seq_view(),
            final(self).capacity_kind() == old(self).capacity_kind(),
            old(self).well_formed() && old(self).next_seq_view() < u64::MAX ==> final(self).well_formed(),
    {
        self.push(settings, username, text, ChatHistorySource::User, timestamp_ms);
    }

    /// Records the bot's own message sent at `timestamp_ms`.
    pub fn push_bot_at(&mut self, settings: &Settings, username: String, text: String, timestamp_ms: i64)
        ensures
            final(self).entries_view() == pushed(
                old(self).entries_view(),
                capacity_in(old(self).capacity_kind(), *settings),
                ChatHistoryEntry {
                    seq: old(self).next_seq_view(),
                    username,
                    text,
                    source: ChatHistorySource::Bot,
                    timestamp_ms,
                },
            ),
            capacity_in(old(self).capacity_kind(), *settings) > 0 ==> final(self).next_seq_view()
                == next_after(old(self).next_seq_view()),
            capacity_in(old(self).capacity_kind(), *settings) == 0 ==> final(self).next_seq_view() == old(self).next_seq_view(),
            final(self).capacity_kind() == old(self).capacity_kind(),
            old(self).well_formed() && old(self).next_seq_view() < u64::MAX ==> final(self).well_formed(),
    {
        self.push(settings, username, text, ChatHistorySource::Bot, timestamp_ms);
    }

    /// Records a viewer's message sent now.
    pub fn push_user(&mut self, settings: &Settings, username: String, text: String)
        ensures
            exists|t: i64|
                final(self).entries_view() == pushed(
                    old(self).entries_view(),
                    capacity_in(old(self).capacity_kind(), *settings),
                    ChatHistoryEntry {
                        seq: old(self).next_seq_view(),
                        username,
                        text,
                        source: ChatHistorySource::User,
                        timestamp_ms: t,
                    },
                ),
            capacity_in(old(self).capacity_kind(), *settings) > 0 ==> final(self).next_seq_view()
                == next_after(old(self).next_seq_view()),
            capacity_in(old(self).capacity_kind(), *settings) == 0 ==> final(self).next_seq_view() == old(self).next_seq_view(),
            final(self).capacity_kind() == old(self).capacity_kind(),
            old(self).well_formed() && old(self).next_seq_view() < u64::MAX ==> final(self).well_formed(),
    {
        let now = crate::memory::store::now_ms();
        self.push_user_at(settings, username, text, now);
    }

    /// Records the bot's own message sent now.
    pub fn push_bot(&mut self, settings: &Settings, username: String, text: String)
        ensures
            exists|t: i64|
                final(self).entries_view() == pushed(
                    old(self).entries_view(),
                    capacity_in(old(self).capacity_kind(), *settings),
                    ChatHistoryEntry {
                        seq: old(self).next_seq_view(),
                        username,
                        text,
                        source: ChatHistorySource::Bot,
                        timestamp_ms: t,
                    },
                ),
            capacity_in(old(self).capacity_kind(), *settings) > 0 ==> final(self).next_seq_view()
                == next_after(old(self).next_seq_view()),
            capacity_in(old(self).capacity_kind(), *settings) == 0 ==> final(self).next_seq_view() == old(self).next_seq_view(),
            final(self).capacity_kind() == old(self).capacity_kind(),
            old(self).well_formed() && old(self).next_seq_view() < u64::MAX ==> final(self).well_formed(),
    {
        let now = crate::memory::store::now_ms();
        self.push_bot_at(settings, username, text, now);
    }

    /// Records the bot's own line `text` under `username`, sent now: what
    /// [`ChatHistoryBuffer::push_bot`] does, stated over the text's views.
    pub open spec fn bot_line_recorded(
        old: ChatHistoryBuffer,
        new: ChatHistoryBuffer,
        settings: Settings,
        username: Seq<char>,
        text: Seq<char>,
    ) -> bool {
        let cap = capacity_in(old.capacity_kind(), settings);
        &&& exists|e: ChatHistoryEntry|
            #![trigger pushed(old.entries_view(), cap, e)]
            e.username@ == username && e.text@ == text && e.seq == old.next_seq_view() && e.source
                == ChatHistorySource::Bot && new.entries_view() == pushed(old.entries_view(), cap, e)
        &&& cap > 0 ==> new.next_seq_view() == next_after(old.next_seq_view())
        &&& cap == 0 ==> new.next_seq_view() == old.next_seq_view()
        &&& new.capacity_kind() == old.capacity_kind()
        &&& old.well_formed() && old.next_seq_view() < u64::MAX ==> new.well_formed()
    }

    /// [`ChatHistoryBuffer::push_bot`] for a borrowed name and text.
    pub fn record_bot_line(&mut self, settings: &Settings, username: &str, text: &str)
        ensures
            ChatHistoryBuffer::bot_line_recorded(*old(self), *final(self), *settings, username@, text@),
    {
        let u = crate::text::owned(username);
        let t = crate::text::owned(text);
        let ghost before = *self;
        self.push_bot(settings, u, t);
        proof {
            let cap = capacity_in(before.capacity_kind(), *settings);
            let tt = choose|tt: i64|
                self.entries_view() == pushed(
                    before.entries_view(),
                    cap,
                    ChatHistoryEntry {
                        seq: before.next_seq_view(),
                        username: u,
                        text: t,
                        source: ChatHistorySource::Bot,
                        timestamp_ms: tt,
                    },
                );
            let e = ChatHistoryEntry {
                seq: before.next_seq_view(),
                username: u,
                text: t,
                source: ChatHistorySource::Bot,
                timestamp_ms: tt,
            };
            assert(self.entries_view() == pushed(before.entries_view(), cap, e));
        }
    }

    /// Copies of all entries, oldest first.
    pub fn snapshot(&self) -> (r: Vec<ChatHistoryEntry>)
        ensures
            r@ == self.entries_view(),
    {
        let mut out: Vec<ChatHistoryEntry> = Vec::new();
        let mut i: usize = 0;
        while i < self.entries.len()
            invariant
                i <= self.entries@.len(),
                out@ == self.entries@.take(i as int),
            decreases self.entries@.len() - i,
        {
            out.push(self.entries[i].copy());
            assert(out@ =~= self.entries@.take(i + 1));
            i += 1;
        }
        assert(self.entries@.take(i as int) =~= self.entries@);
        out
    }
}

/// Matching distributes over a split of the buffer.
pub proof fn lemma_matching_split(
    es: Seq<ChatHistoryEntry>,
    i: int,
    before: Option<u64>,
    user: Option<Seq<char>>,
    needle: Option<Seq<char>>,
)
    requires
        0 <= i <= es.len(),
    ensures
        matching(es, before, user, needle) == matching(es.take(i), before, user, needle) + matching(
            es.skip(i),
            before,
            user,
            needle,
        ),
    decreases i,
{
    if i == 0 {
        assert(es.take(0) =~= Seq::<ChatHistoryEntry>::empty());
        assert(es.skip(0) =~= es);
        assert(Seq::<ChatHistoryEntry>::empty() + matching(es, before, user, needle) =~= matching(
            es,
            before,
            user,
            needle,
        ));
    } else {
        lemma_matching_split(es.drop_first(), i - 1, before, user, needle);
        assert(es.drop_first().take(i - 1) =~= es.take(i).drop_first());
        assert(es.drop_first().skip(i - 1) =~= es.skip(i));
        assert(es.take(i)[0] == es[0]);
        let a = matching(es.take(i).drop_first(), before, user, needle);
        let b = matching(es.skip(i), before, user, needle);
        if entry_matches(es[0], before, user, needle) {
            assert(seq![es[0]] + (a + b) =~= (seq![es[0]] + a) + b);
        }
    }
}

proof fn lemma_matching_step(
    es: Seq<ChatHistoryEntry>,
    i: int,
    before: Option<u64>,
    user: Option<Seq<char>>,
    needle: Option<Seq<char>>,
)
    requires
        0 < i <= es.len(),
    ensures
        matching(es.skip(i - 1), before, user, needle) == (if entry_matches(
            es[i - 1],
            before,
            user,
            needle,
        ) {
            seq![es[i - 1]] + matching(es.skip(i), before, user, needle)
        } else {
            matching(es.skip(i), before, user, needle)
        }),
{
    assert(es.skip(i - 1)[0] == es[i - 1]);
    assert(es.skip(i - 1).drop_first() =~= es.skip(i));
}

fn filter_of(o: &Option<String>) -> (r: Option<String>)
    ensures
        opt_view(r) == filter_text(opt_view(*o)),
{
    match o {
        Some(s) => {
            let t = trimmed(s.as_str());
            if chars_of(t.as_str()).len() == 0 {
                None
            } else {
                Some(to_ascii_lowercase(t.as_str()))
            }
        },
        None => None,
    }
}

fn passes(
    e: &ChatHistoryEntry,
    before: Option<u64>,
    user: &Option<String>,
    needle: &Option<String>,
) -> (r: bool)
    ensures
        r == entry_matches(*e, before, opt_view(*user), opt_view(*needle)),
{
    match before {
        Some(b) => {
            if e.seq >= b {
                return false;
            }
        },
        None => {},
    }
    match user {
        Some(u) => {
            let name = to_ascii_lowercase(e.username.as_str());
            if name != *u {
                return false;
            }
        },
        None => {},
    }
    match needle {
        Some(n) => {
            let body = to_ascii_lowercase(e.text.as_str());
            if !str_contains(body.as_str(), n.as_str()) {
                return false;
            }
        },
        None => {},
    }
    true
}

impl ChatHistoryBuffer {
    /// The newest passing entries, at most the effective limit, oldest
    /// first; `has_more` when older passing entries remain, with the
    /// cursor (the oldest returned `seq`) to fetch them.
    pub fn query(&self, query: &ChatHistoryQuery) -> (r: ChatHistoryPage)
        ensures
            (r.messages@, r.has_more, r.next_before_seq) == page_spec(self.entries_view(), *query),
    {
        let limit: usize = match query.limit {
            Some(l) => if l < 1 {
                1
            } else if l > MAX_TOOL_RESULT_MESSAGES {
                MAX_TOOL_RESULT_MESSAGES
            } else {
                l
            },
            None => DEFAULT_TOOL_RESULT_MESSAGES,
        };
        let user = filter_of(&query.user);
        let needle = filter_of(&query.contains);
        let ghost es = self.entries@;
        let ghost fu = opt_view(user);
        let ghost fnd = opt_view(needle);
        let ghost before = query.before_seq;
        let mut newest_first: Vec<ChatHistoryEntry> = Vec::new();
        let mut i: usize = self.entries.len();
        assert(es.skip(es.len() as int) =~= Seq::<ChatHistoryEntry>::empty());
        while i > 0 && newest_first.len() <= limit
            invariant
                i <= es.len(),
                es == self.entries@,
                fu == opt_view(user),
                fnd == opt_view(needle),
                before == query.before_seq,
                newest_first@.len() <= limit + 1,
                newest_first@.len() == matching(es.skip(i as int), before, fu, fnd).len(),
                forall|k: int|
                    0 <= k < newest_first@.len() ==> #[trigger] newest_first@[k] == matching(
                        es.skip(i as int),
                        before,
                        fu,
                        fnd,
                    )[newest_first@.len() - 1 - k],
            decreases i,
        {
            proof {
                lemma_matching_step(es, i as int, before, fu, fnd);
            }
            let ghost old_nf = newest_first@;
            i -= 1;
            let e = &self.entries[i];
            if passes(e, query.before_seq, &user, &needle) {
                newest_first.push(e.copy());
                proof {
                    let m = matching(es.skip(i as int), before, fu, fnd);
                    assert forall|k: int|
                        0 <= k < newest_first@.len() implies #[trigger] newest_first@[k]
                        == m[newest_first@.len() - 1 - k] by {
                        if k < old_nf.len() {
                            assert(m[newest_first@.len() - 1 - k] == matching(
                                es.skip(i + 1),
                                before,
                                fu,
                                fnd,
                            )[old_nf.len() - 1 - k]);
                        }
                    }
                }
            }
        }
        let ghost suffix = matching(es.skip(i as int), before, fu, fnd);
        proof {
            lemma_matching_split(es, i as int, before, fu, fnd);
        }
        let has_more = newest_first.len() > limit;
        let m: usize = if has_more {
            limit
        } else {
            newest_first.len()
        };
        let mut messages: Vec<ChatHistoryEntry> = Vec::new();
        let mut k: usize = 0;
        while k < m
            invariant
                k <= m <= newest_first@.len(),
                newest_first@.len() == suffix.len(),
                forall|j: int|
                    0 <= j < newest_first@.len() ==> #[trigger] newest_first@[j] == suffix[
                        newest_first@.len() - 1 - j],
                messages@ == suffix.subrange(suffix.len() - m, suffix.len() - m + k),
            decreases m - k,
        {
            messages.push(newest_first[m - 1 - k].copy());
            assert(messages@ =~= suffix.subrange(suffix.len() - m, suffix.len() - m + k + 1));
            k += 1;
        }
        proof {
            let sel = matching(es, before, fu, fnd);
            if has_more {
                assert(messages@ =~= sel.skip(sel.len() - limit));
            } else {
                assert(es.take(0) =~= Seq::<ChatHistoryEntry>::empty());
                assert(messages@ =~= sel);
            }
        }
        let next_before_seq = if has_more {
            Some(messages[0].seq)
        } else {
            None
        };
        ChatHistoryPage { messages, has_more, next_before_seq }
    }
}

/// The messages a prefill keeps: the newest `cap`.
pub open spec fn prefill_kept(items: Seq<(String, String, i64)>, cap: usize) -> Seq<
    (String, String, i64),
> {
    if items.len() > cap {
        items.skip(items.len() - cap)
    } else {
        items
    }
}

/// The buffer a prefill builds: the kept messages as viewer messages
/// numbered from 1.
pub open spec fn prefill_entries(items: Seq<(String, String, i64)>, cap: usize) -> Seq<
    ChatHistoryEntry,
> {
    let kept = prefill_kept(items, cap);
    Seq::new(
        kept.len(),
        |i: int|
            ChatHistoryEntry {
                seq: (i + 1) as u64,
                username: kept[i].0,
                text: kept[i].1,
                source: ChatHistorySource::User,
                timestamp_ms: kept[i].2,
            },
    )
}

impl ChatHistoryBuffer {
    /// A buffer seeded with `(username, text, timestamp_ms)` messages,
    /// oldest first; only the newest that fit the current capacity are kept.
    pub fn from_prefill(
        capacity: HistoryCapacity,
        settings: &Settings,
        messages: Vec<(String, String, i64)>,
    ) -> (r: Self)
        requires
            messages@.len() < u64::MAX,
        ensures
            r.well_formed(),
            r.capacity_kind() == capacity,
            r.entries_view() == prefill_entries(
                messages@,
                capacity_in(capacity, *settings),
            ),
    {
        let mut buf = ChatHistoryBuffer::new(capacity);
        let cap = buf.capacity_for(settings);
        let mut items = messages;
        let ghost all = items@;
        if items.len() > cap {
            let extra = items.len() - cap;
            let mut kept: Vec<(String, String, i64)> = Vec::new();
            let mut j: usize = extra;
            while j < items.len()
                invariant
                    extra <= j <= items@.len(),
                    items@ == all,
                    kept@ == all.subrange(extra as int, j as int),
                decreases items@.len() - j,
            {
                let (u, t, ts) = (items[j].0.clone(), items[j].1.clone(), items[j].2);
                kept.push((u, t, ts));
                assert(kept@ =~= all.subrange(extra as int, j + 1));
                j += 1;
            }
            items = kept;
        }
        let ghost kept_items = items@;
        assert(kept_items =~= prefill_kept(all, cap));
        if cap == 0 {
            assert(kept_items.len() == 0);
            assert(buf.entries@ =~= prefill_entries(all, cap));
            return buf;
        }
        let mut i: usize = 0;
        while i < items.len()
            invariant
                cap > 0,
                cap == capacity_in(capacity, *settings),
                buf.capacity == capacity,
                items@ == kept_items,
                kept_items == prefill_kept(all, cap),
                kept_items.len() <= cap,
                kept_items.len() < u64::MAX,
                i <= kept_items.len(),
                buf.next_seq == i + 1,
                buf.well_formed(),
                buf.entries@ == prefill_entries(all, cap).take(i as int),
                prefill_entries(all, cap).len() == kept_items.len(),
            decreases kept_items.len() - i,
        {
            let (u, t, ts) = (items[i].0.clone(), items[i].1.clone(), items[i].2);
            let ghost before = buf.entries@;
            buf.push_user_at(settings, u, t, ts);
            proof {
                let e = ChatHistoryEntry {
                    seq: (i + 1) as u64,
                    username: u,
                    text: t,
                    source: ChatHistorySource::User,
                    timestamp_ms: ts,
                };
                assert(before.len() < cap);
                assert(buf.entries@ == before.push(e));
                assert(prefill_entries(all, cap)[i as int] == e);
            }
            assert(buf.entries@ =~= prefill_entries(all, cap).take(i + 1));
            i += 1;
        }
        assert(buf.entries@ =~= prefill_entries(all, cap));
        buf
    }
}

/// After a push with a non-zero capacity the buffer holds at most that
/// many entries, the pushed one last; a shrunken capacity takes effect on
/// that push.
pub proof fn lemma_push_respects_capacity(es: Seq<ChatHistoryEntry>, cap: usize, e: ChatHistoryEntry)
    requires
        cap > 0,
    ensures
        pushed(es, cap, e).len() <= cap,
        pushed(es, cap, e).last() == e,
{
}

/// A page never holds more than the effective limit, and a page that says
/// more remain holds exactly that many, with the cursor at its oldest entry.
pub proof fn lemma_page_within_limit(es: Seq<ChatHistoryEntry>, q: ChatHistoryQuery)
    ensures
        page_spec(es, q).0.len() <= effective_limit(q.limit),
        page_spec(es, q).1 ==> page_spec(es, q).0.len() == effective_limit(q.limit)
            && page_spec(es, q).2 == Some(page_spec(es, q).0[0].seq),
        !page_spec(es, q).1 ==> page_spec(es, q).2 is None,
{
}

/// Entries ordered by strictly increasing sequence number.
pub open spec fn seq_sorted(s: Seq<ChatHistoryEntry>) -> bool {
    forall|i: int, j: int| 0 <= i < j < s.len() ==> (#[trigger] s[i]).seq < (#[trigger] s[j]).seq
}

/// The entries of `s` below sequence number `c`, in order.
pub open spec fn older_than(s: Seq<ChatHistoryEntry>, c: u64) -> Seq<ChatHistoryEntry>
    decreases s.len(),
{
    if s.len() == 0 {
        Seq::empty()
    } else {
        let rest = older_than(s.drop_first(), c);
        if s[0].seq < c {
            seq![s[0]] + rest
        } else {
            rest
        }
    }
}

proof fn lemma_matching_then_older(
    es: Seq<ChatHistoryEntry>,
    b: Option<u64>,
    c: u64,
    user: Option<Seq<char>>,
    needle: Option<Seq<char>>,
)
    requires
        b matches Some(x) ==> c <= x,
    ensures
        matching(es, Some(c), user, needle) == older_than(matching(es, b, user, needle), c),
    decreases es.len(),
{
    if es.len() > 0 {
        lemma_matching_then_older(es.drop_first(), b, c, user, needle);
        let rest = matching(es.drop_first(), b, user, needle);
        if entry_matches(es[0], b, user, needle) {
            let m = seq![es[0]] + rest;
            assert(m[0] == es[0]);
            assert(m.drop_first() =~= rest);
        }
    }
}

proof fn lemma_matching_sorted(
    es: Seq<ChatHistoryEntry>,
    b: Option<u64>,
    user: Option<Seq<char>>,
    needle: Option<Seq<char>>,
)
    requires
        seq_sorted(es),
    ensures
        seq_sorted(matching(es, b, user, needle)),
        forall|i: int|
            0 <= i < matching(es, b, user, needle).len() ==> exists|j: int|
                0 <= j < es.len() && (#[trigger] matching(es, b, user, needle)[i]) == es[j],
    decreases es.len(),
{
    if es.len() > 0 {
        let tail = es.drop_first();
        assert(seq_sorted(tail)) by {
            assert forall|i: int, j: int| 0 <= i < j < tail.len() implies (#[trigger] tail[i]).seq
                < (#[trigger] tail[j]).seq by {
                assert(es[i + 1].seq < es[j + 1].seq);
            }
        }
        lemma_matching_sorted(tail, b, user, needle);
        let rest = matching(tail, b, user, needle);
        assert forall|i: int| 0 <= i < rest.len() implies es[0].seq < (#[trigger] rest[i]).seq by {
            let j = choose|j: int| 0 <= j < tail.len() && rest[i] == tail[j];
            assert(es[0].seq < es[j + 1].seq);
        }
        assert forall|i: int| 0 <= i < rest.len() implies exists|j: int|
            0 <= j < es.len() && (#[trigger] rest[i]) == es[j] by {
            let j = choose|j: int| 0 <= j < tail.len() && rest[i] == tail[j];
            assert(rest[i] == es[j + 1]);
        }
        if entry_matches(es[0], b, user, needle) {
            let m = seq![es[0]] + rest;
            assert forall|i: int, j: int| 0 <= i < j < m.len() implies (#[trigger] m[i]).seq
                < (#[trigger] m[j]).seq by {
                if i == 0 {
                    assert(m[j] == rest[j - 1]);
                } else {
                    assert(m[i] == rest[i - 1]);
                    assert(m[j] == rest[j - 1]);
                }
            }
            assert forall|i: int| 0 <= i < m.len() implies exists|j: int|
                0 <= j < es.len() && (#[trigger] m[i]) == es[j] by {
                if i == 0 {
                    assert(m[0] == es[0]);
                } else {
                    assert(m[i] == rest[i - 1]);
                }
            }
        }
    }
}

proof fn lemma_older_than_prefix(s: Seq<ChatHistoryEntry>, k: int)
    requires
        seq_sorted(s),
        0 <= k < s.len(),
    ensures
        older_than(s, s[k].seq) == s.take(k),
    decreases s.len(),
{
    if k == 0 {
        assert forall|i: int| 0 <= i < s.len() implies !((#[trigger] s[i]).seq < s[0].seq) by {
            if i > 0 {
                assert(s[0].seq < s[i].seq);
            }
        }
        lemma_older_than_none(s, s[0].seq);
        assert(s.take(0) =~= Seq::<ChatHistoryEntry>::empty());
    } else {
        let tail = s.drop_first();
        assert(seq_sorted(tail)) by {
            assert forall|i: int, j: int| 0 <= i < j < tail.len() implies (#[trigger] tail[i]).seq
                < (#[trigger] tail[j]).seq by {
                assert(s[i + 1].seq < s[j + 1].seq);
            }
        }
        assert(tail[k - 1] == s[k]);
        lemma_older_than_prefix(tail, k - 1);
        assert(s[0].seq < s[k].seq);
        assert(s.take(k) =~= seq![s[0]] + tail.take(k - 1));
    }
}

proof fn lemma_older_than_none(s: Seq<ChatHistoryEntry>, c: u64)
    requires
        forall|i: int| 0 <= i < s.len() ==> !((#[trigger] s[i]).seq < c),
    ensures
        older_than(s, c) == Seq::<ChatHistoryEntry>::empty(),
    decreases s.len(),
{
    if s.len() > 0 {
        assert(!(s[0].seq < c));
        assert forall|i: int| 0 <= i < s.drop_first().len() implies !((
        #[trigger] s.drop_first()[i]).seq < c) by {
            assert(s.drop_first()[i] == s[i + 1]);
        }
        lemma_older_than_none(s.drop_first(), c);
    }
}

/// Paging with the cursor: when a page says more remain, asking again
/// with the same filters and its cursor returns exactly the passing
/// entries older than that page, so successive pages neither overlap nor
/// skip a message.
pub proof fn lemma_next_page_continues(es: Seq<ChatHistoryEntry>, q: ChatHistoryQuery)
    requires
        seq_sorted(es),
        page_spec(es, q).1,
    ensures
        ({
            let user = filter_text(opt_view(q.user));
            let needle = filter_text(opt_view(q.contains));
            let sel = matching(es, q.before_seq, user, needle);
            let shown = page_spec(es, q).0;
            &&& matching(es, page_spec(es, q).2, user, needle) + shown == sel
            &&& page_spec(es, q).2 == Some(shown[0].seq)
        }),
{
    let user = filter_text(opt_view(q.user));
    let needle = filter_text(opt_view(q.contains));
    let sel = matching(es, q.before_seq, user, needle);
    let limit = effective_limit(q.limit);
    let k = sel.len() - limit;
    let c = sel[k].seq;
    lemma_matching_sorted(es, q.before_seq, user, needle);
    assert(sel.skip(k)[0] == sel[k]);
    if let Some(b) = q.before_seq {
        lemma_matching_entry_passes(es, q.before_seq, user, needle, k);
    }
    lemma_matching_then_older(es, q.before_seq, c, user, needle);
    lemma_older_than_prefix(sel, k);
    assert(sel.take(k) + sel.skip(k) =~= sel);
}

proof fn lemma_matching_entry_passes(
    es: Seq<ChatHistoryEntry>,
    b: Option<u64>,
    user: Option<Seq<char>>,
    needle: Option<Seq<char>>,
    k: int,
)
    requires
        0 <= k < matching(es, b, user, needle).len(),
    ensures
        entry_matches(matching(es, b, user, needle)[k], b, user, needle),
    decreases es.len(),
{
    if es.len() > 0 {
        let rest = matching(es.drop_first(), b, user, needle);
        if entry_matches(es[0], b, user, needle) {
            if k > 0 {
                lemma_matching_entry_passes(es.drop_first(), b, user, needle, k - 1);
                assert((seq![es[0]] + rest)[k] == rest[k - 1]);
            }
        } else {
            lemma_matching_entry_passes(es.drop_first(), b, user, needle, k);
        }
    }
}

} // verus!
