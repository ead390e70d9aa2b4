//! Prompt composition: nonce-fenced memory file bodies, recent-chat
//! sections, and placeholder substitution in prompt files.
use vstd::prelude::*;

use crate::clock::{berlin_hh_mm, berlin_hh_mm_text};
use crate::history::ChatHistoryEntry;
use crate::text::{
    chars_of, contains, hex_lower, hex_lower_string, join, replace_all, str_contains, str_replace,
    utf8_len, utf8_len_upto,
};

verus! {

pub const FENCE_OPEN: &'static str = "<<<FILE";

pub const FENCE_CLOSE: &'static str = "<<<ENDFILE";

/// Byte cap of the main channel's recent-chat section.
pub const RECENT_CHAT_PRIMARY_BYTES: usize = 2048;

/// Byte cap of the AI channel's recent-chat section.
pub const RECENT_CHAT_AI_CHANNEL_BYTES: usize = 1024;

/// The channel an AI turn was invoked from.
#[derive(Clone, Copy, Debug, PartialEq, Eq)]
pub enum InvocationChannel {
    Primary,
    AiChannel,
}

/// Eight bytes from the thread-local random generator
/// (`rand::rng().fill_bytes`). Nothing is stated about their values.
#[verifier::external_body]
fn random_bytes() -> (r: Vec<u8>)
    ensures
        r@.len() == 8,
{
    let mut bytes = [0u8; 8];
    rand::Rng::fill_bytes(&mut rand::rng(), &mut bytes);
    bytes.to_vec()
}

/// A fresh 16-character lower-case hex nonce for one prompt build.
pub fn fresh_nonce() -> (r: String)
    ensures
        r@.len() == 16,
        exists|b: Seq<u8>| b.len() == 8 && r@ == hex_lower(b),
{
    let bytes = random_bytes();
    let r = hex_lower_string(bytes.as_slice());
    proof {
        lemma_hex_lower_len(bytes@);
    }
    r
}

proof fn lemma_hex_lower_len(b: Seq<u8>)
    ensures
        hex_lower(b).len() == 2 * b.len(),
    decreases b.len(),
{
    if b.len() > 0 {
        lemma_hex_lower_len(b.drop_last());
    }
}

/// A body that holds a fence sentinel is replaced wholesale.
pub open spec fn scrubbed(body: Seq<char>) -> Seq<char> {
    if contains(body, FENCE_OPEN@) || contains(body, FENCE_CLOSE@) {
        "<corrupt: rejected>"@
    } else {
        body
    }
}

/// If `body` holds either fence sentinel, `<corrupt: rejected>`; else `body`.
pub fn scrub_for_inject(body: &str) -> (r: String)
    ensures
        r@ == scrubbed(body@),
{
    if str_contains(body, FENCE_OPEN) || str_contains(body, FENCE_CLOSE) {
        String::from_str("<corrupt: rejected>")
    } else {
        String::from_str(body)
    }
}

pub open spec fn fenced(path: Seq<char>, nonce: Seq<char>, body: Seq<char>) -> Seq<char> {
    "<<<FILE path="@ + path + " nonce="@ + nonce + ">>>\n"@ + scrubbed(body) + "\n<<<ENDFILE nonce="@
        + nonce + ">>>"@
}

/// `body` (scrubbed) between an opening fence naming `path` and `nonce`
/// and a closing fence naming `nonce`.
pub fn fence_block(path: &str, nonce: &str, body: &str) -> (r: String)
    ensures
        r@ == fenced(path@, nonce@, body@),
{
    let safe = scrub_for_inject(body);
    let mut s = String::from_str("<<<FILE path=");
    crate::text::append(&mut s, path);
    crate::text::append(&mut s, " nonce=");
    crate::text::append(&mut s, nonce);
    crate::text::append(&mut s, ">>>\n");
    crate::text::append(&mut s, safe.as_str());
    crate::text::append(&mut s, "\n<<<ENDFILE nonce=");
    crate::text::append(&mut s, nonce);
    crate::text::append(&mut s, ">>>");
    s
}

/// The values of the prompt-file placeholders.
#[derive(Clone, Copy)]
pub struct SubstitutionVars<'a> {
    pub speaker_username: &'a str,
    pub speaker_role: &'a str,
    pub channel: &'a str,
    pub date: &'a str,
}

pub open spec fn substituted(
    template: Seq<char>,
    user: Seq<char>,
    role: Seq<char>,
    channel: Seq<char>,
    date: Seq<char>,
) -> Seq<char> {
    replace_all(
        replace_all(
            replace_all(replace_all(template, "{speaker_username}"@, user), "{speaker_role}"@, role),
            "{channel}"@,
            channel,
        ),
        "{date}"@,
        date,
    )
}

/// Replaces `{speaker_username}`, `{speaker_role}`, `{channel}` and
/// `{date}`, in that order; every other text is kept.
pub fn substitute(template: &str, v: SubstitutionVars<'_>) -> (r: String)
    ensures
        r@ == substituted(template@, v.speaker_username@, v.speaker_role@, v.channel@, v.date@),
{
    proof {
        reveal_strlit("{speaker_username}");
        reveal_strlit("{speaker_role}");
        reveal_strlit("{channel}");
        reveal_strlit("{date}");
    }
    let a = str_replace(template, "{speaker_username}", v.speaker_username);
    let b = str_replace(a.as_str(), "{speaker_role}", v.speaker_role);
    let c = str_replace(b.as_str(), "{channel}", v.channel);
    str_replace(c.as_str(), "{date}", v.date)
}

// ---------------------------------------------------------------------------
// Joining
// ---------------------------------------------------------------------------

pub open spec fn views_of(v: Seq<String>) -> Seq<Seq<char>> {
    v.map_values(|s: String| s@)
}

/// `parts.join(sep)`.
pub fn join_strings(parts: &Vec<String>, sep: &str) -> (r: String)
    ensures
        r@ == join(views_of(parts@), sep@),
{
    let mut out = String::new();
    let mut i: usize = 0;
    while i < parts.len()
        invariant
            i <= parts@.len(),
            out@ == join(views_of(parts@.take(i as int)), sep@),
        decreases parts@.len() - i,
    {
        let ghost prev = views_of(parts@.take(i as int));
        let ghost next = views_of(parts@.take(i + 1));
        assert(next.drop_last() =~= prev);
        if i > 0 {
            crate::text::append(&mut out, sep);
        }
        crate::text::append(&mut out, parts[i].as_str());
        proof {
            if i == 0 {
                assert(next.len() == 1);
            }
        }
        i += 1;
    }
    assert(parts@.take(i as int) =~= parts@);
    out
}

// ---------------------------------------------------------------------------
// Budgets
// ---------------------------------------------------------------------------

/// How many leading items fit into `room`, each costing its size, stopping
/// at the first that does not fit.
pub open spec fn fit_count(sizes: Seq<nat>, room: int) -> nat
    decreases sizes.len(),
{
    if sizes.len() == 0 {
        0
    } else if sizes[0] > room {
        0
    } else {
        1 + fit_count(sizes.drop_first(), room - sizes[0])
    }
}

proof fn lemma_fit_count_step(sizes: Seq<nat>, j: int, room: int)
    requires
        0 <= j < sizes.len(),
    ensures
        fit_count(sizes.skip(j), room) == (if sizes[j] > room {
            0
        } else {
            1 + fit_count(sizes.skip(j + 1), room - sizes[j])
        }),
{
    assert(sizes.skip(j)[0] == sizes[j]);
    assert(sizes.skip(j).drop_first() =~= sizes.skip(j + 1));
}

proof fn lemma_fit_count_bound(sizes: Seq<nat>, room: int)
    ensures
        fit_count(sizes, room) <= sizes.len(),
    decreases sizes.len(),
{
    if sizes.len() > 0 && sizes[0] <= room {
        lemma_fit_count_bound(sizes.drop_first(), room - sizes[0]);
    }
}

/// The sum of `sizes`.
pub open spec fn total_size(sizes: Seq<nat>) -> nat
    decreases sizes.len(),
{
    if sizes.len() == 0 {
        0
    } else {
        sizes[0] + total_size(sizes.drop_first())
    }
}

/// Taking items in order while they fit: the items kept fit the room,
/// and when one is left out, the first of them would not have fit. This is
/// how memory files (newest first) meet the inject budget and chat lines
/// (newest first) meet a section's cap: the oldest are the ones dropped.
pub proof fn lemma_kept_items_fit(sizes: Seq<nat>, room: int)
    requires
        room >= 0,
    ensures
        total_size(sizes.take(fit_count(sizes, room) as int)) <= room,
        fit_count(sizes, room) < sizes.len() ==> total_size(
            sizes.take(fit_count(sizes, room) as int),
        ) + sizes[fit_count(sizes, room) as int] > room,
    decreases sizes.len(),
{
    lemma_fit_count_bound(sizes, room);
    if sizes.len() == 0 || sizes[0] > room {
        assert(sizes.take(0) =~= Seq::<nat>::empty());
    } else {
        let rest = sizes.drop_first();
        let k: int = fit_count(rest, room - sizes[0]) as int;
        lemma_kept_items_fit(rest, room - sizes[0]);
        lemma_fit_count_bound(rest, room - sizes[0]);
        assert(sizes.take(k + 1).drop_first() =~= rest.take(k));
        assert(sizes.take(k + 1)[0] == sizes[0]);
        if k < rest.len() {
            assert(sizes[k + 1] == rest[k]);
        }
    }
}

proof fn lemma_total_size_take_step(sizes: Seq<nat>, k: int)
    requires
        0 <= k < sizes.len(),
    ensures
        total_size(sizes.take(k + 1)) == total_size(sizes.take(k)) + sizes[k],
    decreases k,
{
    if k == 0 {
        assert(sizes.take(1).drop_first() =~= Seq::<nat>::empty());
        assert(sizes.take(0) =~= Seq::<nat>::empty());
    } else {
        let rest = sizes.drop_first();
        lemma_total_size_take_step(rest, k - 1);
        assert(sizes.take(k + 1).drop_first() =~= rest.take(k));
        assert(sizes.take(k).drop_first() =~= rest.take(k - 1));
        assert(rest[k - 1] == sizes[k]);
    }
}

proof fn lemma_total_size_take_mono(sizes: Seq<nat>, a: int, b: int)
    requires
        0 <= a <= b <= sizes.len(),
    ensures
        total_size(sizes.take(a)) <= total_size(sizes.take(b)),
    decreases b - a,
{
    if a < b {
        lemma_total_size_take_mono(sizes, a, b - 1);
        lemma_total_size_take_step(sizes, b - 1);
    }
}

/// Taking items in order while they fit keeps the longest prefix that fits:
/// every longer prefix is over the room.
pub proof fn lemma_kept_prefix_is_longest(sizes: Seq<nat>, room: int, k: int)
    requires
        room >= 0,
        fit_count(sizes, room) < k <= sizes.len(),
    ensures
        total_size(sizes.take(k)) > room,
{
    let f = fit_count(sizes, room) as int;
    lemma_kept_items_fit(sizes, room);
    lemma_total_size_take_step(sizes, f);
    lemma_total_size_take_mono(sizes, f + 1, k);
}

// ---------------------------------------------------------------------------
// Recent chat sections
// ---------------------------------------------------------------------------

/// `[HH:MM] user: text`, the time in Berlin.
pub open spec fn entry_line(e: ChatHistoryEntry) -> Seq<char> {
    "["@ + berlin_hh_mm_text(e.timestamp_ms) + "] "@ + e.username@ + ": "@ + e.text@
}

pub fn format_entry_line(e: &ChatHistoryEntry) -> (r: String)
    ensures
        r@ == entry_line(*e),
        utf8_len(r@) <= utf8_len(e.username@) + utf8_len(e.text@) + 10,
{
    let ts = berlin_hh_mm(e.timestamp_ms);
    proof {
        crate::clock::lemma_hh_mm_bytes(ts@);
        reveal_with_fuel(utf8_len, 3);
        reveal_strlit("[");
        reveal_strlit("] ");
        reveal_strlit(": ");
        assert(utf8_len("["@) == 1) by {
            assert("["@.drop_last() =~= Seq::<char>::empty());
        }
        assert(utf8_len("] "@) == 2) by {
            assert("] "@.drop_last().drop_last() =~= Seq::<char>::empty());
        }
        assert(utf8_len(": "@) == 2) by {
            assert(": "@.drop_last().drop_last() =~= Seq::<char>::empty());
        }
        let a = "["@;
        let b = a + ts@;
        let c = b + "] "@;
        let d = c + e.username@;
        let f = d + ": "@;
        crate::text::lemma_utf8_len_concat(a, ts@);
        crate::text::lemma_utf8_len_concat(b, "] "@);
        crate::text::lemma_utf8_len_concat(c, e.username@);
        crate::text::lemma_utf8_len_concat(d, ": "@);
        crate::text::lemma_utf8_len_concat(f, e.text@);
    }
    let mut s = String::from_str("[");
    crate::text::append(&mut s, ts.as_str());
    crate::text::append(&mut s, "] ");
    crate::text::append(&mut s, e.username.as_str());
    crate::text::append(&mut s, ": ");
    crate::text::append(&mut s, e.text.as_str());
    s
}

/// Byte cost of each line, newest first (the line and its newline).
pub open spec fn newest_line_costs(es: Seq<ChatHistoryEntry>) -> Seq<nat> {
    Seq::new(es.len(), |i: int| utf8_len(entry_line(es[es.len() - 1 - i])) + 1)
}

/// A `## Recent chat (#login)` section of the newest lines that fit in
/// `cap` bytes, in chronological order; `None` when no line fits.
pub open spec fn recent_section(es: Seq<ChatHistoryEntry>, login: Seq<char>, cap: usize) -> Option<
    Seq<char>,
> {
    let k = fit_count(newest_line_costs(es), cap as int);
    if k == 0 {
        None
    } else {
        Some(
            "## Recent chat (#"@ + login + ")\n"@ + join(
                Seq::new(k, |j: int| entry_line(es[es.len() - k + j])),
                "\n"@,
            ),
        )
    }
}

/// Renders one recent-chat section from a buffer snapshot: newest lines
/// first until the byte cap, then back to chronological order.
pub fn render_recent_section(entries: &Vec<ChatHistoryEntry>, login: &str, cap: usize) -> (r:
    Option<String>)
    ensures
        match r {
            Some(s) => recent_section(entries@, login@, cap) == Some(s@),
            None => recent_section(entries@, login@, cap) is None,
        },
        entries@.len() > 0 && utf8_len(entries@.last().username@) + utf8_len(entries@.last().text@)
            + 11 <= cap ==> r is Some,
{
    let ghost es = entries@;
    let ghost costs = newest_line_costs(es);
    let n = entries.len();
    let mut chosen: Vec<String> = Vec::new();
    let mut bytes: usize = 0;
    let mut j: usize = 0;
    let mut full = false;
    assert(costs.skip(0) =~= costs);
    while j < n && !full
        invariant
            n == es.len(),
            es == entries@,
            costs == newest_line_costs(es),
            j <= n,
            bytes <= cap,
            chosen@.len() == j,
            forall|t: int| 0 <= t < j ==> #[trigger] chosen@[t]@ == entry_line(es[n - 1 - t]),
            fit_count(costs, cap as int) == j + fit_count(costs.skip(j as int), cap - bytes),
            full ==> fit_count(costs.skip(j as int), cap - bytes) == 0,
            j == 0 ==> bytes == 0,
            n > 0 && (j > 0 || full) ==> utf8_len(entry_line(es[n - 1])) <= utf8_len(
                es[n - 1].username@,
            ) + utf8_len(es[n - 1].text@) + 10,
        decreases n - j + (if full {
            0int
        } else {
            1int
        }),
    {
        let line = format_entry_line(&entries[n - 1 - j]);
        let cs = chars_of(line.as_str());
        let fits = utf8_len_upto(&cs, cap);
        proof {
            lemma_fit_count_step(costs, j as int, cap - bytes);
            assert(costs[j as int] == utf8_len(entry_line(es[n - 1 - j])) + 1);
        }
        match fits {
            Some(lb) if lb < cap - bytes => {
                bytes = bytes + lb + 1;
                chosen.push(line);
                j += 1;
            },
            _ => {
                full = true;
            },
        }
    }
    let k = j;
    proof {
        if !full {
            assert(costs.skip(k as int).len() == 0);
        }
    }
    if k == 0 {
        proof {
            if n > 0 {
                assert(es.last() == es[n - 1]);
                assert(costs.skip(0)[0] == costs[0]);
                assert(costs[0] == utf8_len(entry_line(es[n - 1])) + 1);
            }
        }
        return None;
    }
    let mut lines: Vec<String> = Vec::new();
    let mut t: usize = 0;
    while t < k
        invariant
            k <= n,
            n == es.len(),
            chosen@.len() == k,
            forall|u: int| 0 <= u < k ==> #[trigger] chosen@[u]@ == entry_line(es[n - 1 - u]),
            t <= k,
            lines@.len() == t,
            forall|u: int| 0 <= u < t ==> #[trigger] lines@[u]@ == entry_line(es[n - k + u]),
        decreases k - t,
    {
        lines.push(chosen[k - 1 - t].clone());
        t += 1;
    }
    let body = join_strings(&lines, "\n");
    let mut s = String::from_str("## Recent chat (#");
    crate::text::append(&mut s, login);
    crate::text::append(&mut s, ")\n");
    crate::text::append(&mut s, body.as_str());
    proof {
        assert(views_of(lines@) =~= Seq::new(k as nat, |u: int| entry_line(es[n - k + u])));
    }
    Some(s)
}

/// The recent sections in prompt order: the invoking channel's first.
pub fn order_recent_sections(
    primary: Option<String>,
    ai_channel: Option<String>,
    channel: InvocationChannel,
) -> (r: Vec<String>)
    ensures
        views_of(r@) == (match channel {
            InvocationChannel::AiChannel => opt_seq(ai_channel) + opt_seq(primary),
            InvocationChannel::Primary => opt_seq(primary) + opt_seq(ai_channel),
        }),
{
    let (first, second) = match channel {
        InvocationChannel::AiChannel => (ai_channel, primary),
        InvocationChannel::Primary => (primary, ai_channel),
    };
    let ghost f = first;
    let ghost g = second;
    let mut out: Vec<String> = Vec::new();
    match first {
        Some(s) => out.push(s),
        None => {},
    }
    match second {
        Some(s) => out.push(s),
        None => {},
    }
    assert(views_of(out@) =~= opt_seq(f) + opt_seq(g));
    out
}

/// The string of an option as a sequence of zero or one strings.
pub open spec fn opt_seq(o: Option<String>) -> Seq<Seq<char>> {
    match o {
        Some(s) => seq![s@],
        None => Seq::empty(),
    }
}

// ---------------------------------------------------------------------------
// Memory blocks
// ---------------------------------------------------------------------------

/// A user or state memory file to inject: its path relative to the memory
/// root, its body, and when it was last updated (milliseconds since the
/// Unix epoch).
#[derive(Debug, Clone)]
pub struct MemoryBlockSource {
    pub path: String,
    pub body: String,
    pub updated_at_ms: i64,
}

impl MemoryBlockSource {
    pub fn copy(&self) -> (r: MemoryBlockSource)
        ensures
            r == *self,
    {
        MemoryBlockSource {
            path: self.path.clone(),
            body: self.body.clone(),
            updated_at_ms: self.updated_at_ms,
        }
    }
}

/// Where a file updated at `key` goes in a newest-first list: after every
/// file at least as new.
pub open spec fn desc_insert_pos(sorted: Seq<MemoryBlockSource>, key: i64) -> nat
    decreases sorted.len(),
{
    if sorted.len() == 0 {
        0
    } else if sorted[0].updated_at_ms >= key {
        1 + desc_insert_pos(sorted.drop_first(), key)
    } else {
        0
    }
}

/// `files` ordered newest first; files updated at the same time keep their
/// relative order (a stable sort by descending update time).
pub open spec fn newest_first(files: Seq<MemoryBlockSource>) -> Seq<MemoryBlockSource>
    decreases files.len(),
{
    if files.len() == 0 {
        Seq::empty()
    } else {
        let r = newest_first(files.drop_last());
        let p = desc_insert_pos(r, files.last().updated_at_ms);
        r.take(p as int) + seq![files.last()] + r.skip(p as int)
    }
}

proof fn lemma_insert_pos_bound(sorted: Seq<MemoryBlockSource>, key: i64)
    ensures
        desc_insert_pos(sorted, key) <= sorted.len(),
    decreases sorted.len(),
{
    if sorted.len() > 0 && sorted[0].updated_at_ms >= key {
        lemma_insert_pos_bound(sorted.drop_first(), key);
    }
}

proof fn lemma_newest_first_len(files: Seq<MemoryBlockSource>)
    ensures
        newest_first(files).len() == files.len(),
    decreases files.len(),
{
    if files.len() > 0 {
        lemma_newest_first_len(files.drop_last());
        lemma_insert_pos_bound(newest_first(files.drop_last()), files.last().updated_at_ms);
    }
}

/// Orders `files` newest first, stably.
pub fn sort_newest_first(files: &Vec<MemoryBlockSource>) -> (r: Vec<MemoryBlockSource>)
    ensures
        r@ == newest_first(files@),
{
    let mut out: Vec<MemoryBlockSource> = Vec::new();
    let mut i: usize = 0;
    assert(files@.take(0) =~= Seq::<MemoryBlockSource>::empty());
    while i < files.len()
        invariant
            i <= files@.len(),
            out@ == newest_first(files@.take(i as int)),
        decreases files@.len() - i,
    {
        let item = files[i].copy();
        let key = item.updated_at_ms;
        let mut p: usize = 0;
        assert(out@.skip(0) =~= out@);
        while p < out.len() && out[p].updated_at_ms >= key
            invariant
                p <= out@.len(),
                desc_insert_pos(out@, key) == p + desc_insert_pos(out@.skip(p as int), key),
            decreases out@.len() - p,
        {
            assert(out@.skip(p as int)[0] == out@[p as int]);
            assert(out@.skip(p as int).drop_first() =~= out@.skip(p + 1));
            p += 1;
        }
        proof {
            if p < out@.len() {
                assert(out@.skip(p as int)[0] == out@[p as int]);
            }
            assert(files@.take(i + 1).drop_last() =~= files@.take(i as int));
            assert(files@.take(i + 1).last() == files@[i as int]);
        }
        let ghost before = out@;
        out.insert(p, item);
        assert(out@ =~= before.take(p as int) + seq![files@[i as int]] + before.skip(p as int));
        i += 1;
    }
    assert(files@.take(i as int) =~= files@);
    out
}

pub open spec fn file_block(f: MemoryBlockSource, nonce: Seq<char>) -> Seq<char> {
    fenced(f.path@, nonce, f.body@)
}

/// The memory part of a chat-turn prompt: SOUL and LORE always, then the
/// newest user and state files while they fit in what the budget leaves,
/// each costing its bytes plus a newline; blocks joined by newlines.
pub open spec fn memory_body(
    soul: Seq<char>,
    lore: Seq<char>,
    files: Seq<MemoryBlockSource>,
    nonce: Seq<char>,
    budget: usize,
) -> Seq<char> {
    let b0 = fenced("SOUL.md"@, nonce, soul);
    let b1 = fenced("LORE.md"@, nonce, lore);
    let sorted = newest_first(files);
    let costs = Seq::new(sorted.len(), |i: int| utf8_len(file_block(sorted[i], nonce)) + 1);
    let k = fit_count(costs, budget - utf8_len(b0) - utf8_len(b1));
    join(seq![b0, b1] + Seq::new(k, |i: int| file_block(sorted[i], nonce)), "\n"@)
}

/// The memory part keeps SOUL and LORE, then the longest prefix of the
/// newest-first files whose blocks (each with its newline) fit in what the
/// budget leaves after SOUL and LORE: the kept ones fit, and one more would
/// not.
pub proof fn lemma_memory_body_longest_prefix(
    soul: Seq<char>,
    lore: Seq<char>,
    files: Seq<MemoryBlockSource>,
    nonce: Seq<char>,
    budget: usize,
)
    ensures
        ({
            let b0 = fenced("SOUL.md"@, nonce, soul);
            let b1 = fenced("LORE.md"@, nonce, lore);
            let sorted = newest_first(files);
            let costs = Seq::new(sorted.len(), |i: int| utf8_len(file_block(sorted[i], nonce)) + 1);
            let room = budget - utf8_len(b0) - utf8_len(b1);
            let k = fit_count(costs, room);
            &&& k <= sorted.len()
            &&& memory_body(soul, lore, files, nonce, budget) == join(
                seq![b0, b1] + Seq::new(k, |i: int| file_block(sorted[i], nonce)),
                "\n"@,
            )
            &&& room >= 0 ==> total_size(costs.take(k as int)) <= room
            &&& forall|j: int| k < j <= sorted.len() ==> total_size(#[trigger] costs.take(j)) > room
        }),
{
    let b0 = fenced("SOUL.md"@, nonce, soul);
    let b1 = fenced("LORE.md"@, nonce, lore);
    let sorted = newest_first(files);
    let costs = Seq::new(sorted.len(), |i: int| utf8_len(file_block(sorted[i], nonce)) + 1);
    let room = budget - utf8_len(b0) - utf8_len(b1);
    lemma_fit_count_bound(costs, room);
    let k = fit_count(costs, room);
    if room >= 0 {
        lemma_kept_items_fit(costs, room);
        assert forall|j: int| k < j <= sorted.len() implies total_size(#[trigger] costs.take(j))
            > room by {
            lemma_kept_prefix_is_longest(costs, room, j);
        }
    } else {
        assert forall|j: int| k < j <= sorted.len() implies total_size(#[trigger] costs.take(j))
            > room by {
            assert(total_size(costs.take(j)) >= 0);
        }
    }
}

/// The whole injected context: recent sections (joined by blank lines)
/// and a blank line before the memory part, when there are any.
pub open spec fn chat_turn_context(
    recent: Seq<Seq<char>>,
    soul: Seq<char>,
    lore: Seq<char>,
    files: Seq<MemoryBlockSource>,
    nonce: Seq<char>,
    budget: usize,
) -> Seq<char> {
    let body = memory_body(soul, lore, files, nonce, budget);
    if recent.len() == 0 {
        body
    } else {
        join(recent, "\n\n"@) + "\n\n"@ + body
    }
}

/// Composes the injected memory context of a chat turn from the recent
/// sections (already in prompt order), the SOUL and LORE bodies, and the
/// user and state files.
pub fn compose_chat_turn_context(
    recent: &Vec<String>,
    soul: &str,
    lore: &str,
    files: &Vec<MemoryBlockSource>,
    nonce: &str,
    budget: usize,
) -> (r: String)
    ensures
        r@ == chat_turn_context(views_of(recent@), soul@, lore@, files@, nonce@, budget),
{
    let b0 = fence_block("SOUL.md", nonce, soul);
    let b1 = fence_block("LORE.md", nonce, lore);
    let s0 = utf8_len_upto(&chars_of(b0.as_str()), budget);
    let s1 = utf8_len_upto(&chars_of(b1.as_str()), budget);
    let fixed: Option<usize> = match (s0, s1) {
        (Some(a), Some(b)) if (a as u128) + (b as u128) <= budget as u128 => Some(a + b),
        _ => None,
    };
    let sorted = sort_newest_first(files);
    let ghost costs = Seq::new(
        sorted@.len(),
        |i: int| utf8_len(file_block(sorted@[i], nonce@)) + 1,
    );
    let ghost room0: int = budget - utf8_len(b0@) - utf8_len(b1@);
    let mut blocks: Vec<String> = Vec::new();
    blocks.push(b0);
    blocks.push(b1);
    let mut j: usize = 0;
    let mut full = false;
    let mut room: usize = 0;
    match fixed {
        Some(both) => {
            room = budget - both;
        },
        None => {
            full = true;
            proof {
                if costs.len() > 0 {
                    lemma_fit_count_step(costs, 0, room0);
                }
                assert(costs.skip(0) =~= costs);
            }
        },
    }
    assert(costs.skip(0) =~= costs);
    while j < sorted.len() && !full
        invariant
            costs == Seq::new(sorted@.len(), |i: int| utf8_len(file_block(sorted@[i], nonce@)) + 1),
            j <= sorted@.len(),
            room <= budget,
            blocks@.len() == j + 2,
            blocks@[0]@ == fenced("SOUL.md"@, nonce@, soul@),
            blocks@[1]@ == fenced("LORE.md"@, nonce@, lore@),
            forall|t: int|
                2 <= t < j + 2 ==> #[trigger] blocks@[t]@ == file_block(sorted@[t - 2], nonce@),
            !full ==> fit_count(costs, room0) == j + fit_count(costs.skip(j as int), room as int),
            full ==> fit_count(costs, room0) == j,
        decreases sorted@.len() - j + (if full {
            0int
        } else {
            1int
        }),
    {
        let block = fence_block(sorted[j].path.as_str(), nonce, sorted[j].body.as_str());
        let fits = utf8_len_upto(&chars_of(block.as_str()), budget);
        proof {
            lemma_fit_count_step(costs, j as int, room as int);
        }
        match fits {
            Some(lb) if lb < room => {
                room = room - lb - 1;
                blocks.push(block);
                j += 1;
            },
            _ => {
                full = true;
            },
        }
    }
    proof {
        if !full {
            assert(costs.skip(j as int).len() == 0);
        }
        lemma_newest_first_len(files@);
        assert(views_of(blocks@) =~= seq![b0@, b1@] + Seq::new(
            j as nat,
            |i: int| file_block(sorted@[i], nonce@),
        ));
    }
    let body = join_strings(&blocks, "\n");
    if recent.len() == 0 {
        body
    } else {
        let mut out = join_strings(recent, "\n\n");
        crate::text::append(&mut out, "\n\n");
        crate::text::append(&mut out, body.as_str());
        out
    }
}

/// An injected body never holds a fence sentinel, so it cannot close its
/// fence or open a forged one.
pub proof fn lemma_scrubbed_has_no_fence(body: Seq<char>)
    ensures
        !contains(scrubbed(body), FENCE_OPEN@),
        !contains(scrubbed(body), FENCE_CLOSE@),
{
    reveal_strlit("<<<FILE");
    reveal_strlit("<<<ENDFILE");
    reveal_strlit("<corrupt: rejected>");
    let c = "<corrupt: rejected>"@;
    if contains(body, FENCE_OPEN@) || contains(body, FENCE_CLOSE@) {
        assert forall|i: int| !crate::text::occurs_at(c, FENCE_OPEN@, i) by {
            if crate::text::occurs_at(c, FENCE_OPEN@, i) {
                assert(c.subrange(i, i + 7)[1] == '<');
                assert(c[i + 1] == '<');
            }
        }
        assert forall|i: int| !crate::text::occurs_at(c, FENCE_CLOSE@, i) by {
            if crate::text::occurs_at(c, FENCE_CLOSE@, i) {
                assert(c.subrange(i, i + 10)[1] == '<');
                assert(c[i + 1] == '<');
            }
        }
    }
}

} // verus!
