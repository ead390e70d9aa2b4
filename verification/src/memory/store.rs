//! The key/fact memory store and the tools the model uses to edit it.
//!
//! Keys are unique. Timestamps are milliseconds since the Unix epoch.
use vstd::prelude::*;

use crate::llm::{json_string_member, ToolCall, ToolDefinition};
use crate::memory::scope::Scope;
use crate::text::{
    ascii_lower_char, decimal, decimal_string, is_ascii_alphanumeric, lex_le, lex_le_chars,
    opt_view,
};

verus! {

/// One remembered fact.
#[derive(Debug, Clone)]
pub struct Memory {
    pub fact: String,
    pub scope: Scope,
    pub sources: Vec<String>,
    pub confidence: u8,
    pub created_at_ms: i64,
    pub updated_at_ms: i64,
    pub last_accessed_ms: i64,
    pub access_count: u32,
}

impl Memory {
    /// A fresh fact from one source, created, updated and accessed `now`.
    pub fn new(fact: String, scope: Scope, source: String, confidence: u8, now_ms: i64) -> (r: Memory)
        ensures
            r.fact == fact,
            r.scope == scope,
            r.sources@ == seq![source],
            r.confidence == confidence,
            r.created_at_ms == now_ms,
            r.updated_at_ms == now_ms,
            r.last_accessed_ms == now_ms,
            r.access_count == 0,
    {
        let mut sources: Vec<String> = Vec::new();
        sources.push(source);
        Memory {
            fact,
            scope,
            sources,
            confidence,
            created_at_ms: now_ms,
            updated_at_ms: now_ms,
            last_accessed_ms: now_ms,
            access_count: 0,
        }
    }
}

/// The current display name of a viewer id.
#[derive(Debug, Clone)]
pub struct Identity {
    pub username: String,
    pub updated_at_ms: i64,
}

/// The persistent memory store.
#[derive(Debug, Clone)]
pub struct MemoryStore {
    pub version: u32,
    /// Facts by key, keys unique.
    pub memories: Vec<(String, Memory)>,
    /// Identities by viewer id, ids unique.
    pub identities: Vec<(String, Identity)>,
}

/// The store format version a file without one is read as.
pub fn default_version() -> (r: u32)
    ensures
        r == 2,
{
    2
}

impl Default for MemoryStore {
    fn default() -> (r: Self)
        ensures
            r.version == 2,
            r.memories@.len() == 0,
            r.identities@.len() == 0,
    {
        MemoryStore { version: default_version(), memories: Vec::new(), identities: Vec::new() }
    }
}

// ---------------------------------------------------------------------------
// Keys
// ---------------------------------------------------------------------------

pub open spec fn keys_unique<T>(es: Seq<(String, T)>) -> bool {
    forall|i: int, j: int|
        0 <= i < j < es.len() ==> (#[trigger] es[i]).0@ != (#[trigger] es[j]).0@
}

pub open spec fn has_key<T>(es: Seq<(String, T)>, k: Seq<char>) -> bool {
    exists|i: int| 0 <= i < es.len() && (#[trigger] es[i]).0@ == k
}

/// The position of `k` (meaningful when it is present).
pub open spec fn key_index<T>(es: Seq<(String, T)>, k: Seq<char>) -> int {
    choose|i: int| 0 <= i < es.len() && (#[trigger] es[i]).0@ == k
}

pub(crate) fn find_key<T>(es: &Vec<(String, T)>, k: &str) -> (r: Option<usize>)
    requires
        keys_unique(es@),
    ensures
        match r {
            Some(i) => has_key(es@, k@) && i == key_index(es@, k@) && i < es@.len(),
            None => !has_key(es@, k@),
        },
{
    let mut i: usize = 0;
    while i < es.len()
        invariant
            i <= es@.len(),
            keys_unique(es@),
            forall|j: int| 0 <= j < i ==> (#[trigger] es@[j]).0@ != k@,
        decreases es@.len() - i,
    {
        if crate::text::str_eq(es[i].0.as_str(), k) {
            proof {
                assert(has_key(es@, k@));
                let c = key_index(es@, k@);
                assert(es@[c].0@ == k@);
                if c < i as int {
                    assert(es@[c].0@ != es@[i as int].0@);
                } else if c > i as int {
                    assert(es@[i as int].0@ != es@[c].0@);
                }
            }
            return Some(i);
        }
        i += 1;
    }
    None
}

// ---------------------------------------------------------------------------
// Prompt listings
// ---------------------------------------------------------------------------

/// `- key: fact`.
pub open spec fn fact_line(e: (String, Memory)) -> Seq<char> {
    "- "@ + e.0@ + ": "@ + e.1.fact@
}

/// Where `x` goes among `sorted` lines: after every line not above it.
pub open spec fn lex_insert_pos(sorted: Seq<Seq<char>>, x: Seq<char>) -> nat
    decreases sorted.len(),
{
    if sorted.len() == 0 {
        0
    } else if lex_le(sorted[0], x) {
        1 + lex_insert_pos(sorted.drop_first(), x)
    } else {
        0
    }
}

/// `lines` in ascending string order (insertion order among equals).
pub open spec fn sorted_lines(lines: Seq<Seq<char>>) -> Seq<Seq<char>>
    decreases lines.len(),
{
    if lines.len() == 0 {
        Seq::empty()
    } else {
        let r = sorted_lines(lines.drop_last());
        let p = lex_insert_pos(r, lines.last());
        r.take(p as int) + seq![lines.last()] + r.skip(p as int)
    }
}

pub open spec fn fact_lines(es: Seq<(String, Memory)>) -> Seq<Seq<char>> {
    Seq::new(es.len(), |i: int| fact_line(es[i]))
}

/// The sorted `- key: fact` lines joined by newlines.
pub open spec fn fact_listing(es: Seq<(String, Memory)>) -> Seq<char> {
    crate::text::join(sorted_lines(fact_lines(es)), "\n"@)
}

fn sort_lines(lines: Vec<String>) -> (r: Vec<String>)
    ensures
        crate::memory::inject::views_of(r@) == sorted_lines(
            crate::memory::inject::views_of(lines@),
        ),
{
    let ghost all = crate::memory::inject::views_of(lines@);
    let mut out: Vec<String> = Vec::new();
    let mut i: usize = 0;
    assert(all.take(0) =~= Seq::<Seq<char>>::empty());
    assert(crate::memory::inject::views_of(out@) =~= Seq::<Seq<char>>::empty());
    while i < lines.len()
        invariant
            i <= lines@.len(),
            all == crate::memory::inject::views_of(lines@),
            crate::memory::inject::views_of(out@) == sorted_lines(all.take(i as int)),
        decreases lines@.len() - i,
    {
        let x = lines[i].clone();
        let xs = crate::text::chars_of(x.as_str());
        let ghost ov = crate::memory::inject::views_of(out@);
        let mut p: usize = 0;
        assert(ov.skip(0) =~= ov);
        while p < out.len() && lex_le_chars(&crate::text::chars_of(out[p].as_str()), &xs)
            invariant
                p <= out@.len(),
                ov == crate::memory::inject::views_of(out@),
                xs@ == x@,
                lex_insert_pos(ov, x@) == p + lex_insert_pos(ov.skip(p as int), x@),
            decreases out@.len() - p,
        {
            assert(ov.skip(p as int)[0] == ov[p as int]);
            assert(ov.skip(p as int).drop_first() =~= ov.skip(p + 1));
            p += 1;
        }
        proof {
            if p < out@.len() {
                assert(ov.skip(p as int)[0] == ov[p as int]);
            }
            assert(all.take(i + 1).drop_last() =~= all.take(i as int));
            assert(all.take(i + 1).last() == x@);
        }
        out.insert(p, x);
        assert(crate::memory::inject::views_of(out@) =~= ov.take(p as int) + seq![x@] + ov.skip(
            p as int,
        ));
        i += 1;
    }
    assert(all.take(i as int) =~= all);
    out
}

impl MemoryStore {
    fn listing(&self) -> (r: String)
        ensures
            r@ == fact_listing(self.memories@),
    {
        let mut lines: Vec<String> = Vec::new();
        let mut i: usize = 0;
        while i < self.memories.len()
            invariant
                i <= self.memories@.len(),
                crate::memory::inject::views_of(lines@) == fact_lines(self.memories@).take(i as int),
            decreases self.memories@.len() - i,
        {
            let mut line = String::from_str("- ");
            crate::text::append(&mut line, self.memories[i].0.as_str());
            crate::text::append(&mut line, ": ");
            crate::text::append(&mut line, self.memories[i].1.fact.as_str());
            let ghost before = crate::memory::inject::views_of(lines@);
            lines.push(line);
            assert(fact_lines(self.memories@)[i as int] == line@);
            assert(crate::memory::inject::views_of(lines@) == before.push(line@));
            assert(crate::memory::inject::views_of(lines@) =~= fact_lines(self.memories@).take(
                i + 1,
            ));
            i += 1;
        }
        assert(fact_lines(self.memories@).take(i as int) =~= fact_lines(self.memories@));
        let sorted = sort_lines(lines);
        crate::memory::inject::join_strings(&sorted, "\n")
    }

    /// The facts for the system prompt: `None` when there are none, else a
    /// `## Known facts` section of sorted `- key: fact` lines.
    pub fn format_for_prompt(&self) -> (r: Option<String>)
        ensures
            self.memories@.len() == 0 ==> r is None,
            self.memories@.len() > 0 ==> opt_view(r) == Some(
                "\n\n## Known facts\n"@ + fact_listing(self.memories@),
            ),
    {
        if self.memories.len() == 0 {
            return None;
        }
        let body = self.listing();
        let mut s = String::from_str("\n\n## Known facts\n");
        crate::text::append(&mut s, body.as_str());
        Some(s)
    }

    /// The facts for the extraction prompt: `(none)` or the sorted lines.
    pub fn format_for_extraction(&self) -> (r: String)
        ensures
            self.memories@.len() == 0 ==> r@ == "(none)"@,
            self.memories@.len() > 0 ==> r@ == fact_listing(self.memories@),
    {
        if self.memories.len() == 0 {
            return String::from_str("(none)");
        }
        self.listing()
    }
}

// ---------------------------------------------------------------------------
// The memory tools
// ---------------------------------------------------------------------------

/// The entries after `save_memory(k, f)`: the fact of an existing key is
/// replaced (and its update time set); a new key is appended as a lore fact
/// with confidence 70 and an empty source, unless `max` entries exist.
pub open spec fn saved(
    before: Seq<(String, Memory)>,
    after: Seq<(String, Memory)>,
    k: Seq<char>,
    f: Seq<char>,
    now_ms: i64,
    max: usize,
) -> bool {
    if has_key(before, k) {
        let i = key_index(before, k);
        &&& after.len() == before.len()
        &&& forall|j: int| 0 <= j < before.len() && j != i ==> #[trigger] after[j] == before[j]
        &&& after[i].0 == before[i].0
        &&& after[i].1.fact@ == f
        &&& after[i].1.updated_at_ms == now_ms
        &&& after[i].1.scope == before[i].1.scope
        &&& after[i].1.sources == before[i].1.sources
        &&& after[i].1.confidence == before[i].1.confidence
        &&& after[i].1.created_at_ms == before[i].1.created_at_ms
        &&& after[i].1.last_accessed_ms == before[i].1.last_accessed_ms
        &&& after[i].1.access_count == before[i].1.access_count
    } else if before.len() >= max {
        after == before
    } else {
        &&& after.len() == before.len() + 1
        &&& after.drop_last() == before
        &&& after.last().0@ == k
        &&& after.last().1.fact@ == f
        &&& after.last().1.scope == Scope::Lore
        &&& after.last().1.sources@.len() == 1
        &&& after.last().1.sources@[0]@ == Seq::<char>::empty()
        &&& after.last().1.confidence == 70
        &&& after.last().1.created_at_ms == now_ms
        &&& after.last().1.updated_at_ms == now_ms
        &&& after.last().1.last_accessed_ms == now_ms
        &&& after.last().1.access_count == 0
    }
}

pub open spec fn save_reply(before: Seq<(String, Memory)>, k: Seq<char>, max: usize) -> Seq<char> {
    if has_key(before, k) {
        "Updated memory '"@ + k + "'"@
    } else if before.len() >= max {
        "Memory full ("@ + decimal(before.len()) + "/"@ + decimal(max as nat)
            + ") — delete a memory first"@
    } else {
        "Saved memory '"@ + k + "'"@
    }
}

/// The store and the reply after one tool call made at `now_ms`.
pub open spec fn tool_call_effect(
    before: Seq<(String, Memory)>,
    after: Seq<(String, Memory)>,
    reply: Seq<char>,
    call: ToolCall,
    max: usize,
    now_ms: i64,
) -> bool {
    match call.arguments_parse_error {
        Some(e) => after == before && reply == "Error: tool '"@ + call.name@
            + "' arguments were not valid JSON ("@ + e.error@ + "). Raw text: "@ + e.raw@
            + ". Resend with a valid JSON object."@,
        None => if call.name@ == "save_memory"@ {
            match (
                json_string_member(call.arguments@, "key"@),
                json_string_member(call.arguments@, "fact"@),
            ) {
                (Some(k), Some(f)) => saved(before, after, k, f, now_ms, max) && reply
                    == save_reply(before, k, max),
                _ => after == before && reply
                    == "Error: save_memory requires 'key' and 'fact' parameters"@,
            }
        } else if call.name@ == "delete_memory"@ {
            match json_string_member(call.arguments@, "key"@) {
                Some(k) => if has_key(before, k) {
                    after == before.remove(key_index(before, k)) && reply == "Deleted memory '"@ + k
                        + "'"@
                } else {
                    after == before && reply == "No memory with key '"@ + k + "'"@
                },
                None => after == before && reply == "Error: delete_memory requires 'key' parameter"@,
            }
        } else {
            after == before && reply == "Unknown tool: "@ + call.name@
        },
    }
}

/// Milliseconds since the Unix epoch now (`chrono::Utc::now()`). chrono
/// panics on a system clock before the epoch rather than return such a time,
/// so the value is never negative; which instant it is rests on the clock
/// and is not stated.
#[verifier::external_body]
pub(crate) fn now_ms() -> (r: i64)
    ensures
        r >= 0,
{
    chrono::Utc::now().timestamp_millis()
}

fn quoted_reply(prefix: &str, k: &str) -> (r: String)
    ensures
        r@ == prefix@ + k@ + "'"@,
{
    let mut s = String::from_str(prefix);
    crate::text::append(&mut s, k);
    crate::text::append(&mut s, "'");
    s
}

impl MemoryStore {
    fn save_memory(&mut self, k: String, f: String, max: usize, now_ms: i64) -> (r: String)
        requires
            keys_unique(old(self).memories@),
        ensures
            keys_unique(final(self).memories@),
            saved(old(self).memories@, final(self).memories@, k@, f@, now_ms, max),
            r@ == save_reply(old(self).memories@, k@, max),
            final(self).version == old(self).version,
            final(self).identities == old(self).identities,
    {
        match find_key(&self.memories, k.as_str()) {
            Some(i) => {
                let ghost before = self.memories@;
                let mut entry = self.memories.remove(i);
                entry.1.fact = f;
                entry.1.updated_at_ms = now_ms;
                self.memories.insert(i, entry);
                proof {
                    assert forall|j: int| 0 <= j < before.len() && j != i implies #[trigger] self.memories@[j]
                        == before[j] by {}
                    assert forall|a: int, b: int|
                        0 <= a < b < self.memories@.len() implies (#[trigger] self.memories@[a]).0@
                        != (#[trigger] self.memories@[b]).0@ by {
                        assert(self.memories@[a].0 == before[a].0);
                        assert(self.memories@[b].0 == before[b].0);
                    }
                }
                quoted_reply("Updated memory '", k.as_str())
            },
            None => {
                if self.memories.len() >= max {
                    let mut s = String::from_str("Memory full (");
                    crate::text::append(&mut s, decimal_string(self.memories.len() as u64).as_str());
                    crate::text::append(&mut s, "/");
                    crate::text::append(&mut s, decimal_string(max as u64).as_str());
                    crate::text::append(&mut s, ") — delete a memory first");
                    s
                } else {
                    let ghost before = self.memories@;
                    let reply = quoted_reply("Saved memory '", k.as_str());
                    let m = Memory::new(f, Scope::Lore, String::new(), 70, now_ms);
                    self.memories.push((k, m));
                    proof {
                        assert(self.memories@.drop_last() =~= before);
                        assert forall|a: int, b: int|
                            0 <= a < b < self.memories@.len() implies (
                            #[trigger] self.memories@[a]).0@ != (#[trigger] self.memories@[b]).0@ by {
                            if b == before.len() {
                                assert(self.memories@[a] == before[a]);
                            } else {
                                assert(self.memories@[a] == before[a]);
                                assert(self.memories@[b] == before[b]);
                            }
                        }
                    }
                    reply
                }
            },
        }
    }

    /// Runs one `save_memory` / `delete_memory` call made at `now_ms`
    /// against the store and returns the reply for the model.
    pub fn execute_tool_call_at(&mut self, call: &ToolCall, max_memories: usize, now_ms: i64) -> (r:
        String)
        requires
            keys_unique(old(self).memories@),
        ensures
            keys_unique(final(self).memories@),
            tool_call_effect(old(self).memories@, final(self).memories@, r@, *call, max_memories, now_ms),
            final(self).version == old(self).version,
            final(self).identities == old(self).identities,
    {
        match &call.arguments_parse_error {
            Some(e) => {
                let mut s = String::from_str("Error: tool '");
                crate::text::append(&mut s, call.name.as_str());
                crate::text::append(&mut s, "' arguments were not valid JSON (");
                crate::text::append(&mut s, e.error.as_str());
                crate::text::append(&mut s, "). Raw text: ");
                crate::text::append(&mut s, e.raw.as_str());
                crate::text::append(&mut s, ". Resend with a valid JSON object.");
                return s;
            },
            None => {},
        }
        if crate::text::str_eq(call.name.as_str(), "save_memory") {
            let key = call.str_arg("key");
            let fact = call.str_arg("fact");
            match (key, fact) {
                (Some(k), Some(f)) => self.save_memory(k, f, max_memories, now_ms),
                _ => String::from_str("Error: save_memory requires 'key' and 'fact' parameters"),
            }
        } else if crate::text::str_eq(call.name.as_str(), "delete_memory") {
            match call.str_arg("key") {
                Some(k) => match find_key(&self.memories, k.as_str()) {
                    Some(i) => {
                        let ghost before = self.memories@;
                        self.memories.remove(i);
                        proof {
                            assert forall|a: int, b: int|
                                0 <= a < b < self.memories@.len() implies (
                                #[trigger] self.memories@[a]).0@ != (
                                #[trigger] self.memories@[b]).0@ by {
                                let a0 = if a < i { a } else { a + 1 };
                                let b0 = if b < i { b } else { b + 1 };
                                assert(self.memories@[a] == before[a0]);
                                assert(self.memories@[b] == before[b0]);
                            }
                        }
                        quoted_reply("Deleted memory '", k.as_str())
                    },
                    None => quoted_reply("No memory with key '", k.as_str()),
                },
                None => String::from_str("Error: delete_memory requires 'key' parameter"),
            }
        } else {
            let mut s = String::from_str("Unknown tool: ");
            crate::text::append(&mut s, call.name.as_str());
            s
        }
    }

    /// Runs one tool call now.
    pub fn execute_tool_call(&mut self, call: &ToolCall, max_memories: usize) -> (r: String)
        requires
            keys_unique(old(self).memories@),
        ensures
            keys_unique(final(self).memories@),
            exists|t: i64|
                tool_call_effect(old(self).memories@, final(self).memories@, r@, *call, max_memories, t),
    {
        let t = now_ms();
        self.execute_tool_call_at(call, max_memories, t)
    }
}

// ---------------------------------------------------------------------------
// Keys from labels
// ---------------------------------------------------------------------------

/// The slug built so far and whether it ends in a separator (or is empty).
pub open spec fn slug_state(s: Seq<char>) -> (Seq<char>, bool)
    decreases s.len(),
{
    if s.len() == 0 {
        (Seq::empty(), true)
    } else {
        let (out, last_dash) = slug_state(s.drop_last());
        let n = ascii_lower_char(s.last());
        if is_ascii_alphanumeric(n) {
            (out.push(n), false)
        } else if !last_dash {
            (out.push('-'), true)
        } else {
            (out, last_dash)
        }
    }
}

pub open spec fn without_trailing_dashes(s: Seq<char>) -> Seq<char>
    decreases s.len(),
{
    if s.len() > 0 && s.last() == '-' {
        without_trailing_dashes(s.drop_last())
    } else {
        s
    }
}

/// Lower-case ASCII letters and digits; every run of other characters
/// becomes one `-`, and no `-` leads or trails.
pub open spec fn slug_of(s: Seq<char>) -> Seq<char> {
    without_trailing_dashes(slug_state(s).0)
}

/// Turns a label into a lower-case ASCII slug.
pub fn sanitize_slug(s: &str) -> (r: String)
    ensures
        r@ == slug_of(s@),
{
    let cs = crate::text::chars_of(s);
    let mut out: Vec<char> = Vec::new();
    let mut last_dash = true;
    let mut i: usize = 0;
    while i < cs.len()
        invariant
            i <= cs@.len(),
            cs@ == s@,
            (out@, last_dash) == slug_state(cs@.take(i as int)),
        decreases cs@.len() - i,
    {
        assert(cs@.take(i + 1).drop_last() =~= cs@.take(i as int));
        let norm = crate::text::lower_char(cs[i]);
        if ('a' <= norm && norm <= 'z') || ('A' <= norm && norm <= 'Z') || ('0' <= norm && norm
            <= '9') {
            out.push(norm);
            last_dash = false;
        } else if !last_dash {
            out.push('-');
            last_dash = true;
        }
        i += 1;
    }
    assert(cs@.take(i as int) =~= s@);
    let ghost full = out@;
    while out.len() > 0 && out[out.len() - 1] == '-'
        invariant
            without_trailing_dashes(out@) == without_trailing_dashes(full),
        decreases out@.len(),
    {
        let ghost before = out@;
        out.pop();
        assert(out@ =~= before.drop_last());
    }
    crate::text::string_from(&out)
}

/// A character a slug may hold: a lower-case ASCII letter, a digit, or `-`.
pub open spec fn is_slug_char(c: char) -> bool {
    ('a' <= c && c <= 'z') || ('0' <= c && c <= '9') || c == '-'
}

/// Two separators in a row at `i`.
pub open spec fn dash_pair(s: Seq<char>, i: int) -> bool {
    s[i] == '-' && s[i + 1] == '-'
}

/// Only slug characters, no `-` at either end, never two `-` in a row.
pub open spec fn slug_shaped(s: Seq<char>) -> bool {
    &&& forall|i: int| 0 <= i < s.len() ==> is_slug_char(#[trigger] s[i])
    &&& s.len() > 0 ==> s[0] != '-' && s.last() != '-'
    &&& forall|i: int| 0 <= i < s.len() - 1 ==> !#[trigger] dash_pair(s, i)
}

proof fn lemma_slug_state_shape(s: Seq<char>)
    ensures
        ({
            let (out, d) = slug_state(s);
            &&& forall|i: int| 0 <= i < out.len() ==> is_slug_char(#[trigger] out[i])
            &&& out.len() > 0 ==> out[0] != '-'
            &&& forall|i: int| 0 <= i < out.len() - 1 ==> !#[trigger] dash_pair(out, i)
            &&& d <==> (out.len() == 0 || out.last() == '-')
        }),
    decreases s.len(),
{
    if s.len() > 0 {
        lemma_slug_state_shape(s.drop_last());
        let (o, d) = slug_state(s.drop_last());
        let (out, d2) = slug_state(s);
        let c = s.last();
        let n = ascii_lower_char(c);
        if 'A' <= c && c <= 'Z' {
            assert(n == ((c as u32) + 32) as char);
            assert('a' <= n && n <= 'z');
        }
        if is_ascii_alphanumeric(n) {
            assert(out == o.push(n));
            assert(is_slug_char(n));
            assert forall|i: int| 0 <= i < out.len() - 1 implies !#[trigger] dash_pair(out, i) by {
                if i < o.len() - 1 {
                    assert(dash_pair(o, i) == dash_pair(out, i));
                }
            }
        } else if !d {
            assert(out == o.push('-'));
            assert forall|i: int| 0 <= i < out.len() - 1 implies !#[trigger] dash_pair(out, i) by {
                if i < o.len() - 1 {
                    assert(dash_pair(o, i) == dash_pair(out, i));
                }
            }
        }
    }
}

proof fn lemma_without_trailing_dashes(s: Seq<char>)
    ensures
        without_trailing_dashes(s).len() <= s.len(),
        without_trailing_dashes(s) == s.take(without_trailing_dashes(s).len() as int),
        without_trailing_dashes(s).len() > 0 ==> without_trailing_dashes(s).last() != '-',
    decreases s.len(),
{
    if s.len() > 0 && s.last() == '-' {
        lemma_without_trailing_dashes(s.drop_last());
        let w = without_trailing_dashes(s.drop_last());
        assert(s.drop_last().take(w.len() as int) =~= s.take(w.len() as int));
    } else {
        assert(s.take(s.len() as int) =~= s);
    }
}

/// A slug holds only lower-case ASCII letters, digits and `-`, never starts
/// or ends with `-`, and never has two `-` in a row.
pub proof fn lemma_slug_shape(s: Seq<char>)
    ensures
        slug_shaped(slug_of(s)),
{
    lemma_slug_state_shape(s);
    let out = slug_state(s).0;
    lemma_without_trailing_dashes(out);
    let w = slug_of(s);
    assert forall|i: int| 0 <= i < w.len() implies is_slug_char(#[trigger] w[i]) by {
        assert(w[i] == out[i]);
    }
    assert forall|i: int| 0 <= i < w.len() - 1 implies !#[trigger] dash_pair(w, i) by {
        assert(dash_pair(w, i) == dash_pair(out, i));
    }
    if w.len() > 0 {
        assert(w[0] == out[0]);
    }
}

proof fn lemma_slug_state_of_shaped(t: Seq<char>)
    requires
        forall|i: int| 0 <= i < t.len() ==> is_slug_char(#[trigger] t[i]),
        t.len() > 0 ==> t[0] != '-',
        forall|i: int| 0 <= i < t.len() - 1 ==> !#[trigger] dash_pair(t, i),
    ensures
        slug_state(t) == (t, t.len() == 0 || t.last() == '-'),
    decreases t.len(),
{
    if t.len() > 0 {
        let p = t.drop_last();
        assert forall|i: int| 0 <= i < p.len() - 1 implies !#[trigger] dash_pair(p, i) by {
            assert(dash_pair(p, i) == dash_pair(t, i));
        }
        assert forall|i: int| 0 <= i < p.len() implies is_slug_char(#[trigger] p[i]) by {
            assert(p[i] == t[i]);
        }
        lemma_slug_state_of_shaped(p);
        let c = t.last();
        assert(is_slug_char(t[t.len() - 1]));
        assert(ascii_lower_char(c) == c);
        if c == '-' {
            assert(p.len() > 0);
            assert(!dash_pair(t, t.len() - 2));
            assert(p.last() != '-');
        }
        assert(p.push(c) =~= t);
    } else {
        assert(t =~= Seq::<char>::empty());
    }
}

/// Sanitizing a slug again changes nothing.
pub proof fn lemma_slug_idempotent(s: Seq<char>)
    ensures
        slug_of(slug_of(s)) == slug_of(s),
{
    lemma_slug_shape(s);
    let w = slug_of(s);
    lemma_slug_state_of_shaped(w);
}

/// The ASCII letters and digits of `s`, lower-cased, in order.
pub open spec fn alnum_lowered(s: Seq<char>) -> Seq<char>
    decreases s.len(),
{
    if s.len() == 0 {
        Seq::empty()
    } else {
        let n = ascii_lower_char(s.last());
        alnum_lowered(s.drop_last()) + if is_ascii_alphanumeric(n) {
            seq![n]
        } else {
            Seq::empty()
        }
    }
}

/// `s` with every `-` removed.
pub open spec fn without_dashes(s: Seq<char>) -> Seq<char>
    decreases s.len(),
{
    if s.len() == 0 {
        Seq::empty()
    } else {
        without_dashes(s.drop_last()) + if s.last() == '-' {
            Seq::empty()
        } else {
            seq![s.last()]
        }
    }
}

proof fn lemma_slug_state_letters(s: Seq<char>)
    ensures
        without_dashes(slug_state(s).0) == alnum_lowered(s),
    decreases s.len(),
{
    if s.len() > 0 {
        lemma_slug_state_letters(s.drop_last());
        let (o, d) = slug_state(s.drop_last());
        let n = ascii_lower_char(s.last());
        if is_ascii_alphanumeric(n) {
            assert(o.push(n).drop_last() =~= o);
        } else if !d {
            assert(o.push('-').drop_last() =~= o);
            assert(without_dashes(o.push('-')) =~= without_dashes(o));
        }
    }
}

proof fn lemma_trailing_dashes_keep_letters(s: Seq<char>)
    ensures
        without_dashes(without_trailing_dashes(s)) == without_dashes(s),
    decreases s.len(),
{
    if s.len() > 0 && s.last() == '-' {
        lemma_trailing_dashes_keep_letters(s.drop_last());
        assert(without_dashes(s) =~= without_dashes(s.drop_last()));
    }
}

/// A slug without its separators is the label's ASCII letters and digits,
/// lower-cased, in order.
pub proof fn lemma_slug_letters(s: Seq<char>)
    ensures
        without_dashes(slug_of(s)) == alnum_lowered(s),
{
    lemma_slug_state_letters(s);
    lemma_trailing_dashes_keep_letters(slug_state(s).0);
}

/// The maximal runs of ASCII letters and digits of `s`, lower-cased, in
/// order.
pub open spec fn alnum_runs(s: Seq<char>) -> Seq<Seq<char>>
    decreases s.len(),
{
    if s.len() == 0 {
        Seq::empty()
    } else {
        let r = alnum_runs(s.drop_last());
        let n = ascii_lower_char(s.last());
        if !is_ascii_alphanumeric(n) {
            r
        } else if s.len() > 1 && is_ascii_alphanumeric(ascii_lower_char(s[s.len() - 2])) && r.len()
            > 0 {
            r.update(r.len() - 1, r.last().push(n))
        } else {
            r.push(seq![n])
        }
    }
}

/// `s` ends in a letter or digit.
pub open spec fn ends_alnum(s: Seq<char>) -> bool {
    s.len() > 0 && is_ascii_alphanumeric(ascii_lower_char(s.last()))
}

proof fn lemma_join_extend_last(r: Seq<Seq<char>>, n: char)
    requires
        r.len() > 0,
    ensures
        crate::text::join(r.update(r.len() - 1, r.last().push(n)), "-"@) == crate::text::join(r, "-"@).push(n),
{
    let r2 = r.update(r.len() - 1, r.last().push(n));
    if r.len() > 1 {
        assert(r2.drop_last() =~= r.drop_last());
    }
}

proof fn lemma_join_last_char(r: Seq<Seq<char>>)
    requires
        r.len() > 0,
        r.last().len() > 0,
    ensures
        crate::text::join(r, "-"@).len() > 0,
        crate::text::join(r, "-"@).last() == r.last().last(),
{
}

proof fn lemma_slug_state_runs(s: Seq<char>)
    ensures
        ({
            let (out, d) = slug_state(s);
            let r = alnum_runs(s);
            &&& ends_alnum(s) ==> r.len() > 0
            &&& r.len() > 0 ==> r.last().len() > 0 && is_ascii_alphanumeric(r.last().last())
            &&& d == !ends_alnum(s)
            &&& out == (if r.len() == 0 {
                Seq::empty()
            } else if ends_alnum(s) {
                crate::text::join(r, "-"@)
            } else {
                crate::text::join(r, "-"@).push('-')
            })
        }),
    decreases s.len(),
{
    reveal_strlit("-");
    if s.len() > 0 {
        let p = s.drop_last();
        lemma_slug_state_runs(p);
        let (o, dp) = slug_state(p);
        let rp = alnum_runs(p);
        let n = ascii_lower_char(s.last());
        if s.len() > 1 {
            assert(s[s.len() - 2] == p.last());
        }
        if 'A' <= s.last() && s.last() <= 'Z' {
            assert('a' <= n && n <= 'z');
        }
        if is_ascii_alphanumeric(n) {
            if ends_alnum(p) {
                lemma_join_extend_last(rp, n);
            } else if rp.len() > 0 {
                assert(rp.push(seq![n]).drop_last() =~= rp);
                assert("-"@ =~= seq!['-']);
                assert(crate::text::join(rp.push(seq![n]), "-"@) =~= crate::text::join(rp, "-"@).push(
                    '-',
                ).push(n));
            } else {
                assert(crate::text::join(rp.push(seq![n]), "-"@) =~= seq![n]);
                assert(o.push(n) =~= seq![n]);
            }
        }
    }
}

/// Where the dashes of a slug stand: it is the label's runs of letters and
/// digits, lower-cased, joined by single dashes; every other stretch of
/// the label between two such runs becomes one `-`, and none stands at
/// either end.
pub proof fn lemma_slug_is_joined_runs(s: Seq<char>)
    ensures
        slug_of(s) == crate::text::join(alnum_runs(s), "-"@),
{
    reveal_strlit("-");
    lemma_slug_state_runs(s);
    let r = alnum_runs(s);
    let out = slug_state(s).0;
    if r.len() > 0 {
        lemma_join_last_char(r);
        let j = crate::text::join(r, "-"@);
        assert(j.last() != '-');
        assert(without_trailing_dashes(j) == j);
        if !ends_alnum(s) {
            assert(out.drop_last() =~= j);
            assert(without_trailing_dashes(out) == without_trailing_dashes(j));
        }
    } else {
        assert(without_trailing_dashes(out) == out);
    }
}

pub open spec fn key_for(scope: Scope, slug: Seq<char>) -> Seq<char> {
    match scope {
        Scope::User { subject_id } => "user:"@ + subject_id@ + ":"@ + slug_of(slug),
        Scope::Lore => "lore::"@ + slug_of(slug),
        Scope::Pref { subject_id } => "pref:"@ + subject_id@ + ":"@ + slug_of(slug),
    }
}

/// The canonical key of a fact: `user:<id>:<slug>`, `lore::<slug>` or
/// `pref:<id>:<slug>`, the slug sanitized first.
pub fn build_key(scope: &Scope, slug: &str) -> (r: String)
    ensures
        r@ == key_for(*scope, slug@),
{
    let slug = sanitize_slug(slug);
    match scope {
        Scope::User { subject_id } => {
            let mut s = String::from_str("user:");
            crate::text::append(&mut s, subject_id.as_str());
            crate::text::append(&mut s, ":");
            crate::text::append(&mut s, slug.as_str());
            s
        },
        Scope::Lore => {
            let mut s = String::from_str("lore::");
            crate::text::append(&mut s, slug.as_str());
            s
        },
        Scope::Pref { subject_id } => {
            let mut s = String::from_str("pref:");
            crate::text::append(&mut s, subject_id.as_str());
            crate::text::append(&mut s, ":");
            crate::text::append(&mut s, slug.as_str());
            s
        },
    }
}

// ---------------------------------------------------------------------------
// Consolidation
// ---------------------------------------------------------------------------

/// Sources that count as corroboration: all but the `legacy` and
/// `__identity__` sentinels.
pub open spec fn real_sources(s: Seq<String>) -> nat
    decreases s.len(),
{
    if s.len() == 0 {
        0
    } else {
        real_sources(s.drop_last()) + (if s.last()@ == "legacy"@ || s.last()@ == "__identity__"@ {
            0nat
        } else {
            1nat
        })
    }
}

/// Confidence plus five per corroborating source beyond the first, at
/// most 100.
pub open spec fn boosted(confidence: u8, sources: nat) -> nat {
    let bonus: nat = if sources > 0 {
        5 * ((sources - 1) as nat)
    } else {
        0
    };
    if confidence + bonus > 100 {
        100
    } else {
        (confidence + bonus) as nat
    }
}

/// Corroboration is clamped to 100 and never lowers a confidence that is
/// within it; more corroborating sources never lower the result.
pub proof fn lemma_boost_bounds(confidence: u8, sources: nat, more: nat)
    requires
        sources <= more,
    ensures
        boosted(confidence, sources) <= 100,
        confidence <= 100 ==> boosted(confidence, sources) >= confidence,
        boosted(confidence, sources) <= boosted(confidence, more),
{
}

pub fn corroboration_boost(m: &Memory) -> (r: u8)
    ensures
        r == boosted(m.confidence, real_sources(m.sources@)),
{
    let mut d: usize = 0;
    let mut i: usize = 0;
    while i < m.sources.len()
        invariant
            i <= m.sources@.len(),
            d == real_sources(m.sources@.take(i as int)),
            d <= i,
        decreases m.sources@.len() - i,
    {
        assert(m.sources@.take(i + 1).drop_last() =~= m.sources@.take(i as int));
        let src = m.sources[i].as_str();
        if !crate::text::str_eq(src, "legacy") && !crate::text::str_eq(src, "__identity__") {
            d = d + 1;
        }
        i += 1;
    }
    assert(m.sources@.take(i as int) =~= m.sources@);
    let extra: usize = if d > 0 {
        d - 1
    } else {
        0
    };
    if extra >= 20 {
        100
    } else {
        let total: u32 = m.confidence as u32 + 5 * (extra as u32);
        if total > 100 {
            100
        } else {
            total as u8
        }
    }
}

/// Whole days from `then_ms` to `now_ms`, truncated toward zero.
pub open spec fn whole_days(now_ms: i64, then_ms: i64) -> int {
    let d = now_ms - then_ms;
    if d >= 0 {
        d / 86400000
    } else {
        -((-d) / 86400000)
    }
}

/// Low-confidence (below 10) facts not accessed for more than 60 days.
pub open spec fn droppable(m: Memory, now_ms: i64) -> bool {
    m.confidence < 10 && whole_days(now_ms, m.last_accessed_ms) > 60
}

pub open spec fn drop_reason(m: Memory, now_ms: i64) -> Seq<char> {
    "confidence="@ + decimal(m.confidence as nat) + " stale_days="@ + decimal(
        whole_days(now_ms, m.last_accessed_ms) as nat,
    )
}

/// The `(key, reason)` of every droppable fact, in store order.
pub open spec fn drop_candidates(es: Seq<(String, Memory)>, now_ms: i64) -> Seq<
    (Seq<char>, Seq<char>),
>
    decreases es.len(),
{
    if es.len() == 0 {
        Seq::empty()
    } else {
        let rest = drop_candidates(es.drop_last(), now_ms);
        if droppable(es.last().1, now_ms) {
            rest.push((es.last().0@, drop_reason(es.last().1, now_ms)))
        } else {
            rest
        }
    }
}

fn days_between(now_ms: i64, then_ms: i64) -> (r: i128)
    ensures
        r == whole_days(now_ms, then_ms),
{
    let d: i128 = now_ms as i128 - then_ms as i128;
    if d >= 0 {
        d / 86400000
    } else {
        -((-d) / 86400000)
    }
}

/// The deterministic pre-filter of a consolidation pass.
pub fn hard_drop_candidates(store: &MemoryStore, now_ms: i64) -> (r: Vec<(String, String)>)
    ensures
        r@.map_values(|p: (String, String)| (p.0@, p.1@)) == drop_candidates(
            store.memories@,
            now_ms,
        ),
{
    let mut out: Vec<(String, String)> = Vec::new();
    let mut i: usize = 0;
    while i < store.memories.len()
        invariant
            i <= store.memories@.len(),
            out@.map_values(|p: (String, String)| (p.0@, p.1@)) == drop_candidates(
                store.memories@.take(i as int),
                now_ms,
            ),
        decreases store.memories@.len() - i,
    {
        assert(store.memories@.take(i + 1).drop_last() =~= store.memories@.take(i as int));
        let m = &store.memories[i].1;
        let days = days_between(now_ms, m.last_accessed_ms);
        if m.confidence < 10 && days > 60 {
            let mut reason = String::from_str("confidence=");
            crate::text::append(&mut reason, decimal_string(m.confidence as u64).as_str());
            crate::text::append(&mut reason, " stale_days=");
            crate::text::append(&mut reason, decimal_string(days as u64).as_str());
            let ghost before = out@;
            out.push((store.memories[i].0.clone(), reason));
            assert(out@.map_values(|p: (String, String)| (p.0@, p.1@)) =~= before.map_values(
                |p: (String, String)| (p.0@, p.1@),
            ).push((store.memories@[i as int].0@, drop_reason(*m, now_ms))));
        }
        i += 1;
    }
    assert(store.memories@.take(i as int) =~= store.memories@);
    out
}

// ---------------------------------------------------------------------------
// Extraction prompt
// ---------------------------------------------------------------------------

/// Tool rounds of one extraction pass.
pub const MAX_EXTRACTION_ROUNDS: usize = 3;

pub const EXTRACTION_SYSTEM_PROMPT: &'static str = "You just had a conversation in a Twitch chat. Based on the exchange below, decide if any facts are worth remembering long-term about users, the channel, or the community. You can save new facts, overwrite outdated ones, or delete incorrect ones. Only save things that would be useful across future conversations. Do not save trivial or ephemeral things like greetings or simple questions.";

/// The user turn of an extraction pass: the current facts, then the
/// exchange.
pub fn extraction_user_content(
    current_memories: &str,
    username: &str,
    user_message: &str,
    ai_response: &str,
) -> (r: String)
    ensures
        r@ == "Current memories:\n"@ + current_memories@ + "\n\nConversation:\nUser ("@ + username@
            + "): "@ + user_message@ + "\nAssistant: "@ + ai_response@,
{
    let mut s = String::from_str("Current memories:\n");
    crate::text::append(&mut s, current_memories);
    crate::text::append(&mut s, "\n\nConversation:\nUser (");
    crate::text::append(&mut s, username);
    crate::text::append(&mut s, "): ");
    crate::text::append(&mut s, user_message);
    crate::text::append(&mut s, "\nAssistant: ");
    crate::text::append(&mut s, ai_response);
    s
}


/// What `save_memory` tells the model.
pub const SAVE_MEMORY_DESCRIPTION: &'static str = "Save or update a fact. Use a short descriptive slug as the key (e.g. 'chrono-favorite-game'). If the key already exists, the fact is overwritten.";

pub const SAVE_MEMORY_PARAMETERS: &'static str = "{\"type\":\"object\",\"properties\":{\"key\":{\"type\":\"string\",\"description\":\"Short slug identifier for this memory\"},\"fact\":{\"type\":\"string\",\"description\":\"The fact to remember\"}},\"required\":[\"key\",\"fact\"]}";

/// What `delete_memory` tells the model.
pub const DELETE_MEMORY_DESCRIPTION: &'static str = "Delete a stored memory by its key.";

pub const DELETE_MEMORY_PARAMETERS: &'static str = "{\"type\":\"object\",\"properties\":{\"key\":{\"type\":\"string\",\"description\":\"The key of the memory to delete\"}},\"required\":[\"key\"]}";

/// The extraction tools `save_memory` and `delete_memory`.
pub fn memory_tool_definitions() -> (r: Vec<ToolDefinition>)
    ensures
        r@.len() == 2,
        r@[0].name@ == "save_memory"@,
        r@[0].description@ == SAVE_MEMORY_DESCRIPTION@,
        r@[0].parameters@ == SAVE_MEMORY_PARAMETERS@,
        r@[1].name@ == "delete_memory"@,
        r@[1].description@ == DELETE_MEMORY_DESCRIPTION@,
        r@[1].parameters@ == DELETE_MEMORY_PARAMETERS@,
{
    let mut v: Vec<ToolDefinition> = Vec::new();
    v.push(ToolDefinition {
        name: String::from_str("save_memory"),
        description: String::from_str(SAVE_MEMORY_DESCRIPTION),
        parameters: String::from_str(SAVE_MEMORY_PARAMETERS),
    });
    v.push(ToolDefinition {
        name: String::from_str("delete_memory"),
        description: String::from_str(DELETE_MEMORY_DESCRIPTION),
        parameters: String::from_str(DELETE_MEMORY_PARAMETERS),
    });
    v
}

} // verus!
