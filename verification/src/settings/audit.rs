//! Audit records of settings changes.
//!
//! `diff_changes(prior, next)` lists, in a fixed key order, every resolved
//! field whose value differs between two snapshots, with both values. The
//! toggle cards (`ai.prefill`, `ai.web`, `ai.emotes`) are reported as one
//! whole-block change when they are switched on or off, and field by field
//! while they stay on.
use vstd::prelude::*;

use crate::settings::{AiBackendKind, AiEmotes, AiPrefill, AiSettings, AiWeb, Settings};

verus! {

/// A value as it is written into the audit log.
#[derive(Debug, Clone, PartialEq, Eq)]
pub enum AuditValue {
    Null,
    Bool(bool),
    Number(u64),
    Text(String),
    /// An `f64`, by its IEEE-754 bit pattern.
    Float(u64),
    Prefill(AiPrefill),
    Web(AiWeb),
    Emotes(AiEmotes),
}

/// `AuditValue` with its strings taken by their characters.
pub enum AuditValueView {
    Null,
    Bool(bool),
    Number(u64),
    Text(Seq<char>),
    Float(u64),
    Prefill(Seq<char>, u64),
    Web(Seq<char>, u64, usize, usize, u64, usize),
    Emotes(bool, u64, usize, usize, Option<Seq<char>>),
}

pub open spec fn opt_chars(o: Option<String>) -> Option<Seq<char>> {
    match o {
        Some(s) => Some(s@),
        None => None,
    }
}

impl View for AuditValue {
    type V = AuditValueView;

    open spec fn view(&self) -> AuditValueView {
        match *self {
            AuditValue::Null => AuditValueView::Null,
            AuditValue::Bool(b) => AuditValueView::Bool(b),
            AuditValue::Number(n) => AuditValueView::Number(n),
            AuditValue::Text(s) => AuditValueView::Text(s@),
            AuditValue::Float(b) => AuditValueView::Float(b),
            AuditValue::Prefill(p) => prefill_value(p),
            AuditValue::Web(w) => web_value(w),
            AuditValue::Emotes(e) => emotes_value(e),
        }
    }
}

pub open spec fn prefill_value(p: AiPrefill) -> AuditValueView {
    AuditValueView::Prefill(p.base_url@, p.threshold_bits)
}

pub open spec fn web_value(w: AiWeb) -> AuditValueView {
    AuditValueView::Web(
        w.base_url@,
        w.timeout,
        w.max_results,
        w.max_rounds,
        w.cache_ttl_secs,
        w.cache_capacity,
    )
}

pub open spec fn emotes_value(e: AiEmotes) -> AuditValueView {
    AuditValueView::Emotes(
        e.include_global,
        e.refresh_interval_secs,
        e.max_prompt_emotes,
        e.min_baseline_emotes,
        opt_chars(e.base_url),
    )
}

/// One changed key with its old and new value.
#[derive(Debug, Clone, PartialEq, Eq)]
pub struct AuditChange {
    pub key: String,
    pub old: AuditValue,
    pub new: AuditValue,
}

pub type ChangeView = (Seq<char>, AuditValueView, AuditValueView);

impl View for AuditChange {
    type V = ChangeView;

    open spec fn view(&self) -> ChangeView {
        (self.key@, self.old@, self.new@)
    }
}

pub open spec fn change_views(v: Seq<AuditChange>) -> Seq<ChangeView> {
    v.map_values(|c: AuditChange| c@)
}

// ---------------------------------------------------------------------------
// The specification of a diff
// ---------------------------------------------------------------------------

/// One entry for `key` when the two values differ, none otherwise.
pub open spec fn change(key: Seq<char>, old: AuditValueView, new: AuditValueView) -> Seq<ChangeView> {
    if old != new {
        seq![(key, old, new)]
    } else {
        Seq::empty()
    }
}

pub open spec fn num(n: u64) -> AuditValueView {
    AuditValueView::Number(n)
}

pub open spec fn unum(n: usize) -> AuditValueView {
    AuditValueView::Number(n as u64)
}

pub open spec fn text(s: String) -> AuditValueView {
    AuditValueView::Text(s@)
}

pub open spec fn opt_text(o: Option<String>) -> AuditValueView {
    match o {
        Some(s) => AuditValueView::Text(s@),
        None => AuditValueView::Null,
    }
}

pub open spec fn backend_name(b: AiBackendKind) -> Seq<char> {
    match b {
        AiBackendKind::OpenAi => "openai"@,
        AiBackendKind::Ollama => "ollama"@,
    }
}

pub open spec fn top_changes(p: Settings, n: Settings) -> Seq<ChangeView> {
    change("cooldowns.ai"@, num(p.cooldowns.ai), num(n.cooldowns.ai)) + change(
        "cooldowns.news"@,
        num(p.cooldowns.news),
        num(n.cooldowns.news),
    ) + change("cooldowns.up"@, num(p.cooldowns.up), num(n.cooldowns.up)) + change(
        "cooldowns.feedback"@,
        num(p.cooldowns.feedback),
        num(n.cooldowns.feedback),
    ) + change("cooldowns.doener"@, num(p.cooldowns.doener), num(n.cooldowns.doener)) + change(
        "pings.cooldown"@,
        num(p.pings.cooldown),
        num(n.pings.cooldown),
    ) + change(
        "pings.public"@,
        AuditValueView::Bool(p.pings.public),
        AuditValueView::Bool(n.pings.public),
    )
}

pub open spec fn connection_changes(p: AiSettings, n: AiSettings) -> Seq<ChangeView> {
    change(
        "ai.connection.backend"@,
        AuditValueView::Text(backend_name(p.connection.backend)),
        AuditValueView::Text(backend_name(n.connection.backend)),
    ) + change(
        "ai.connection.base_url"@,
        opt_text(p.connection.base_url),
        opt_text(n.connection.base_url),
    ) + change("ai.connection.model"@, text(p.connection.model), text(n.connection.model))
        + change("ai.connection.timeout"@, num(p.connection.timeout), num(n.connection.timeout))
        + change(
        "ai.connection.reasoning_effort"@,
        opt_text(p.connection.reasoning_effort),
        opt_text(n.connection.reasoning_effort),
    )
}

pub open spec fn behavior_history_changes(p: AiSettings, n: AiSettings) -> Seq<ChangeView> {
    change(
        "ai.behavior.max_turn_rounds"@,
        unum(p.behavior.max_turn_rounds),
        unum(n.behavior.max_turn_rounds),
    ) + change(
        "ai.behavior.max_writes_per_turn"@,
        unum(p.behavior.max_writes_per_turn),
        unum(n.behavior.max_writes_per_turn),
    ) + change("ai.history.length"@, num(p.history.length), num(n.history.length)) + change(
        "ai.history.ai_channel_length"@,
        num(p.history.ai_channel_length),
        num(n.history.ai_channel_length),
    )
}

pub open spec fn memory_changes(p: AiSettings, n: AiSettings) -> Seq<ChangeView> {
    change("ai.memory.soul_bytes"@, unum(p.memory.soul_bytes), unum(n.memory.soul_bytes))
        + change("ai.memory.lore_bytes"@, unum(p.memory.lore_bytes), unum(n.memory.lore_bytes))
        + change("ai.memory.user_bytes"@, unum(p.memory.user_bytes), unum(n.memory.user_bytes))
        + change(
        "ai.memory.state_bytes"@,
        unum(p.memory.state_bytes),
        unum(n.memory.state_bytes),
    ) + change(
        "ai.memory.inject_byte_budget"@,
        unum(p.memory.inject_byte_budget),
        unum(n.memory.inject_byte_budget),
    ) + change(
        "ai.memory.max_state_files"@,
        unum(p.memory.max_state_files),
        unum(n.memory.max_state_files),
    )
}

pub open spec fn dreamer_changes(p: AiSettings, n: AiSettings) -> Seq<ChangeView> {
    change(
        "ai.dreamer.enabled"@,
        AuditValueView::Bool(p.dreamer.enabled),
        AuditValueView::Bool(n.dreamer.enabled),
    ) + change("ai.dreamer.model"@, opt_text(p.dreamer.model), opt_text(n.dreamer.model))
        + change(
        "ai.dreamer.reasoning_effort"@,
        opt_text(p.dreamer.reasoning_effort),
        opt_text(n.dreamer.reasoning_effort),
    ) + change("ai.dreamer.run_at"@, text(p.dreamer.run_at), text(n.dreamer.run_at)) + change(
        "ai.dreamer.timeout_secs"@,
        num(p.dreamer.timeout_secs),
        num(n.dreamer.timeout_secs),
    ) + change(
        "ai.dreamer.max_rounds"@,
        unum(p.dreamer.max_rounds),
        unum(n.dreamer.max_rounds),
    )
}

pub open spec fn opt_prefill_value(o: Option<AiPrefill>) -> AuditValueView {
    match o {
        Some(p) => prefill_value(p),
        None => AuditValueView::Null,
    }
}

pub open spec fn opt_web_value(o: Option<AiWeb>) -> AuditValueView {
    match o {
        Some(w) => web_value(w),
        None => AuditValueView::Null,
    }
}

pub open spec fn opt_emotes_value(o: Option<AiEmotes>) -> AuditValueView {
    match o {
        Some(e) => emotes_value(e),
        None => AuditValueView::Null,
    }
}

pub open spec fn prefill_changes(p: Option<AiPrefill>, n: Option<AiPrefill>) -> Seq<ChangeView> {
    match (p, n) {
        (None, None) => Seq::empty(),
        (Some(a), Some(b)) => change("ai.prefill.base_url"@, text(a.base_url), text(b.base_url))
            + change(
            "ai.prefill.threshold"@,
            AuditValueView::Float(a.threshold_bits),
            AuditValueView::Float(b.threshold_bits),
        ),
        _ => seq![("ai.prefill"@, opt_prefill_value(p), opt_prefill_value(n))],
    }
}

pub open spec fn web_changes(p: Option<AiWeb>, n: Option<AiWeb>) -> Seq<ChangeView> {
    match (p, n) {
        (None, None) => Seq::empty(),
        (Some(a), Some(b)) => change("ai.web.base_url"@, text(a.base_url), text(b.base_url))
            + change("ai.web.timeout"@, num(a.timeout), num(b.timeout)) + change(
            "ai.web.max_results"@,
            unum(a.max_results),
            unum(b.max_results),
        ) + change("ai.web.max_rounds"@, unum(a.max_rounds), unum(b.max_rounds)) + change(
            "ai.web.cache_ttl_secs"@,
            num(a.cache_ttl_secs),
            num(b.cache_ttl_secs),
        ) + change("ai.web.cache_capacity"@, unum(a.cache_capacity), unum(b.cache_capacity)),
        _ => seq![("ai.web"@, opt_web_value(p), opt_web_value(n))],
    }
}

pub open spec fn emotes_changes(p: Option<AiEmotes>, n: Option<AiEmotes>) -> Seq<ChangeView> {
    match (p, n) {
        (None, None) => Seq::empty(),
        (Some(a), Some(b)) => change(
            "ai.emotes.include_global"@,
            AuditValueView::Bool(a.include_global),
            AuditValueView::Bool(b.include_global),
        ) + change(
            "ai.emotes.refresh_interval_secs"@,
            num(a.refresh_interval_secs),
            num(b.refresh_interval_secs),
        ) + change(
            "ai.emotes.max_prompt_emotes"@,
            unum(a.max_prompt_emotes),
            unum(b.max_prompt_emotes),
        ) + change(
            "ai.emotes.min_baseline_emotes"@,
            unum(a.min_baseline_emotes),
            unum(b.min_baseline_emotes),
        ) + change("ai.emotes.base_url"@, opt_text(a.base_url), opt_text(b.base_url)),
        _ => seq![("ai.emotes"@, opt_emotes_value(p), opt_emotes_value(n))],
    }
}

pub open spec fn media_changes(p: AiSettings, n: AiSettings) -> Seq<ChangeView> {
    change("ai.media.model"@, text(p.media.model), text(n.media.model)) + change(
        "ai.media.timeout"@,
        num(p.media.timeout),
        num(n.media.timeout),
    ) + change(
        "ai.media.max_image_size"@,
        num(p.media.max_image_size),
        num(n.media.max_image_size),
    ) + change("ai.media.max_pdf_size"@, num(p.media.max_pdf_size), num(n.media.max_pdf_size))
        + change(
        "ai.media.max_audio_size"@,
        num(p.media.max_audio_size),
        num(n.media.max_audio_size),
    ) + change(
        "ai.media.max_video_size"@,
        num(p.media.max_video_size),
        num(n.media.max_video_size),
    ) + change(
        "ai.media.max_text_size"@,
        num(p.media.max_text_size),
        num(n.media.max_text_size),
    )
}

/// The leaf `key` with its two values.
pub open spec fn leaf(key: Seq<char>, old: AuditValueView, new: AuditValueView) -> Seq<ChangeView> {
    seq![(key, old, new)]
}

pub open spec fn top_leaves(p: Settings, n: Settings) -> Seq<ChangeView> {
    leaf("cooldowns.ai"@, num(p.cooldowns.ai), num(n.cooldowns.ai)) + leaf(
        "cooldowns.news"@,
        num(p.cooldowns.news),
        num(n.cooldowns.news),
    ) + leaf("cooldowns.up"@, num(p.cooldowns.up), num(n.cooldowns.up)) + leaf(
        "cooldowns.feedback"@,
        num(p.cooldowns.feedback),
        num(n.cooldowns.feedback),
    ) + leaf("cooldowns.doener"@, num(p.cooldowns.doener), num(n.cooldowns.doener)) + leaf(
        "pings.cooldown"@,
        num(p.pings.cooldown),
        num(n.pings.cooldown),
    ) + leaf(
        "pings.public"@,
        AuditValueView::Bool(p.pings.public),
        AuditValueView::Bool(n.pings.public),
    )
}

pub open spec fn connection_leaves(p: AiSettings, n: AiSettings) -> Seq<ChangeView> {
    leaf(
        "ai.connection.backend"@,
        AuditValueView::Text(backend_name(p.connection.backend)),
        AuditValueView::Text(backend_name(n.connection.backend)),
    ) + leaf(
        "ai.connection.base_url"@,
        opt_text(p.connection.base_url),
        opt_text(n.connection.base_url),
    ) + leaf("ai.connection.model"@, text(p.connection.model), text(n.connection.model))
        + leaf("ai.connection.timeout"@, num(p.connection.timeout), num(n.connection.timeout))
        + leaf(
        "ai.connection.reasoning_effort"@,
        opt_text(p.connection.reasoning_effort),
        opt_text(n.connection.reasoning_effort),
    )
}

pub open spec fn behavior_history_leaves(p: AiSettings, n: AiSettings) -> Seq<ChangeView> {
    leaf(
        "ai.behavior.max_turn_rounds"@,
        unum(p.behavior.max_turn_rounds),
        unum(n.behavior.max_turn_rounds),
    ) + leaf(
        "ai.behavior.max_writes_per_turn"@,
        unum(p.behavior.max_writes_per_turn),
        unum(n.behavior.max_writes_per_turn),
    ) + leaf("ai.history.length"@, num(p.history.length), num(n.history.length)) + leaf(
        "ai.history.ai_channel_length"@,
        num(p.history.ai_channel_length),
        num(n.history.ai_channel_length),
    )
}

pub open spec fn memory_leaves(p: AiSettings, n: AiSettings) -> Seq<ChangeView> {
    leaf("ai.memory.soul_bytes"@, unum(p.memory.soul_bytes), unum(n.memory.soul_bytes))
        + leaf("ai.memory.lore_bytes"@, unum(p.memory.lore_bytes), unum(n.memory.lore_bytes))
        + leaf("ai.memory.user_bytes"@, unum(p.memory.user_bytes), unum(n.memory.user_bytes))
        + leaf(
        "ai.memory.state_bytes"@,
        unum(p.memory.state_bytes),
        unum(n.memory.state_bytes),
    ) + leaf(
        "ai.memory.inject_byte_budget"@,
        unum(p.memory.inject_byte_budget),
        unum(n.memory.inject_byte_budget),
    ) + leaf(
        "ai.memory.max_state_files"@,
        unum(p.memory.max_state_files),
        unum(n.memory.max_state_files),
    )
}

pub open spec fn dreamer_leaves(p: AiSettings, n: AiSettings) -> Seq<ChangeView> {
    leaf(
        "ai.dreamer.enabled"@,
        AuditValueView::Bool(p.dreamer.enabled),
        AuditValueView::Bool(n.dreamer.enabled),
    ) + leaf("ai.dreamer.model"@, opt_text(p.dreamer.model), opt_text(n.dreamer.model))
        + leaf(
        "ai.dreamer.reasoning_effort"@,
        opt_text(p.dreamer.reasoning_effort),
        opt_text(n.dreamer.reasoning_effort),
    ) + leaf("ai.dreamer.run_at"@, text(p.dreamer.run_at), text(n.dreamer.run_at)) + leaf(
        "ai.dreamer.timeout_secs"@,
        num(p.dreamer.timeout_secs),
        num(n.dreamer.timeout_secs),
    ) + leaf(
        "ai.dreamer.max_rounds"@,
        unum(p.dreamer.max_rounds),
        unum(n.dreamer.max_rounds),
    )
}

pub open spec fn prefill_leaves(p: Option<AiPrefill>, n: Option<AiPrefill>) -> Seq<ChangeView> {
    match (p, n) {
        (None, None) => Seq::empty(),
        (Some(a), Some(b)) => leaf("ai.prefill.base_url"@, text(a.base_url), text(b.base_url))
            + leaf(
            "ai.prefill.threshold"@,
            AuditValueView::Float(a.threshold_bits),
            AuditValueView::Float(b.threshold_bits),
        ),
        _ => seq![("ai.prefill"@, opt_prefill_value(p), opt_prefill_value(n))],
    }
}

pub open spec fn web_leaves(p: Option<AiWeb>, n: Option<AiWeb>) -> Seq<ChangeView> {
    match (p, n) {
        (None, None) => Seq::empty(),
        (Some(a), Some(b)) => leaf("ai.web.base_url"@, text(a.base_url), text(b.base_url))
            + leaf("ai.web.timeout"@, num(a.timeout), num(b.timeout)) + leaf(
            "ai.web.max_results"@,
            unum(a.max_results),
            unum(b.max_results),
        ) + leaf("ai.web.max_rounds"@, unum(a.max_rounds), unum(b.max_rounds)) + leaf(
            "ai.web.cache_ttl_secs"@,
            num(a.cache_ttl_secs),
            num(b.cache_ttl_secs),
        ) + leaf("ai.web.cache_capacity"@, unum(a.cache_capacity), unum(b.cache_capacity)),
        _ => seq![("ai.web"@, opt_web_value(p), opt_web_value(n))],
    }
}

pub open spec fn emotes_leaves(p: Option<AiEmotes>, n: Option<AiEmotes>) -> Seq<ChangeView> {
    match (p, n) {
        (None, None) => Seq::empty(),
        (Some(a), Some(b)) => leaf(
            "ai.emotes.include_global"@,
            AuditValueView::Bool(a.include_global),
            AuditValueView::Bool(b.include_global),
        ) + leaf(
            "ai.emotes.refresh_interval_secs"@,
            num(a.refresh_interval_secs),
            num(b.refresh_interval_secs),
        ) + leaf(
            "ai.emotes.max_prompt_emotes"@,
            unum(a.max_prompt_emotes),
            unum(b.max_prompt_emotes),
        ) + leaf(
            "ai.emotes.min_baseline_emotes"@,
            unum(a.min_baseline_emotes),
            unum(b.min_baseline_emotes),
        ) + leaf("ai.emotes.base_url"@, opt_text(a.base_url), opt_text(b.base_url)),
        _ => seq![("ai.emotes"@, opt_emotes_value(p), opt_emotes_value(n))],
    }
}

pub open spec fn media_leaves(p: AiSettings, n: AiSettings) -> Seq<ChangeView> {
    leaf("ai.media.model"@, text(p.media.model), text(n.media.model)) + leaf(
        "ai.media.timeout"@,
        num(p.media.timeout),
        num(n.media.timeout),
    ) + leaf(
        "ai.media.max_image_size"@,
        num(p.media.max_image_size),
        num(n.media.max_image_size),
    ) + leaf("ai.media.max_pdf_size"@, num(p.media.max_pdf_size), num(n.media.max_pdf_size))
        + leaf(
        "ai.media.max_audio_size"@,
        num(p.media.max_audio_size),
        num(n.media.max_audio_size),
    ) + leaf(
        "ai.media.max_video_size"@,
        num(p.media.max_video_size),
        num(n.media.max_video_size),
    ) + leaf(
        "ai.media.max_text_size"@,
        num(p.media.max_text_size),
        num(n.media.max_text_size),
    )
}

/// Every audited leaf of two snapshots, changed or not, in the audit order;
/// an optional block that is set on one side only is one leaf.
pub open spec fn all_leaves(p: Settings, n: Settings) -> Seq<ChangeView> {
    top_leaves(p, n) + connection_leaves(p.ai, n.ai) + behavior_history_leaves(p.ai, n.ai)
        + memory_leaves(p.ai, n.ai) + dreamer_leaves(p.ai, n.ai) + prefill_leaves(
        p.ai.prefill,
        n.ai.prefill,
    ) + web_leaves(p.ai.web, n.ai.web) + emotes_leaves(p.ai.emotes, n.ai.emotes)
        + media_leaves(p.ai, n.ai)
}

/// Every changed key between two resolved snapshots, in the audit order.
pub open spec fn diff_spec(p: Settings, n: Settings) -> Seq<ChangeView> {
    top_changes(p, n) + connection_changes(p.ai, n.ai) + behavior_history_changes(p.ai, n.ai)
        + memory_changes(p.ai, n.ai) + dreamer_changes(p.ai, n.ai) + prefill_changes(
        p.ai.prefill,
        n.ai.prefill,
    ) + web_changes(p.ai.web, n.ai.web) + emotes_changes(p.ai.emotes, n.ai.emotes)
        + media_changes(p.ai, n.ai)
}

// ---------------------------------------------------------------------------
// Computing a diff
// ---------------------------------------------------------------------------

fn push_change(out: &mut Vec<AuditChange>, key: &str, was: AuditValue, now: AuditValue)
    requires
        was@ != now@,
    ensures
        change_views(final(out)@) == change_views(old(out)@) + change(key@, was@, now@),
{
    let ghost before = change_views(out@);
    let ghost entry = (key@, was@, now@);
    out.push(AuditChange { key: String::from_str(key), old: was, new: now });
    assert(change_views(out@) =~= before + seq![entry]);
}

proof fn lemma_no_change(out: Seq<AuditChange>, key: Seq<char>, v: AuditValueView)
    ensures
        change_views(out) + change(key, v, v) == change_views(out),
{
    assert(change_views(out) + change(key, v, v) =~= change_views(out));
}

fn note_num(out: &mut Vec<AuditChange>, key: &str, a: u64, b: u64)
    ensures
        change_views(final(out)@) == change_views(old(out)@) + change(key@, num(a), num(b)),
{
    if a != b {
        push_change(out, key, AuditValue::Number(a), AuditValue::Number(b));
    } else {
        proof {
            lemma_no_change(out@, key@, num(a));
        }
    }
}

fn note_unum(out: &mut Vec<AuditChange>, key: &str, a: usize, b: usize)
    ensures
        change_views(final(out)@) == change_views(old(out)@) + change(key@, unum(a), unum(b)),
{
    if a != b {
        push_change(out, key, AuditValue::Number(a as u64), AuditValue::Number(b as u64));
    } else {
        proof {
            lemma_no_change(out@, key@, unum(a));
        }
    }
}

fn note_bool(out: &mut Vec<AuditChange>, key: &str, a: bool, b: bool)
    ensures
        change_views(final(out)@) == change_views(old(out)@) + change(
            key@,
            AuditValueView::Bool(a),
            AuditValueView::Bool(b),
        ),
{
    if a != b {
        push_change(out, key, AuditValue::Bool(a), AuditValue::Bool(b));
    } else {
        proof {
            lemma_no_change(out@, key@, AuditValueView::Bool(a));
        }
    }
}

fn note_float(out: &mut Vec<AuditChange>, key: &str, a: u64, b: u64)
    ensures
        change_views(final(out)@) == change_views(old(out)@) + change(
            key@,
            AuditValueView::Float(a),
            AuditValueView::Float(b),
        ),
{
    if a != b {
        push_change(out, key, AuditValue::Float(a), AuditValue::Float(b));
    } else {
        proof {
            lemma_no_change(out@, key@, AuditValueView::Float(a));
        }
    }
}

fn note_text(out: &mut Vec<AuditChange>, key: &str, a: &String, b: &String)
    ensures
        change_views(final(out)@) == change_views(old(out)@) + change(key@, text(*a), text(*b)),
{
    if *a != *b {
        push_change(out, key, AuditValue::Text(a.clone()), AuditValue::Text(b.clone()));
    } else {
        proof {
            lemma_no_change(out@, key@, text(*a));
        }
    }
}

fn opt_text_value(o: &Option<String>) -> (r: AuditValue)
    ensures
        r@ == opt_text(*o),
{
    match o {
        Some(s) => AuditValue::Text(s.clone()),
        None => AuditValue::Null,
    }
}

fn same_opt_text(a: &Option<String>, b: &Option<String>) -> (r: bool)
    ensures
        r == (opt_text(*a) == opt_text(*b)),
{
    match (a, b) {
        (Some(x), Some(y)) => *x == *y,
        (None, None) => true,
        _ => false,
    }
}

fn note_opt_text(out: &mut Vec<AuditChange>, key: &str, a: &Option<String>, b: &Option<String>)
    ensures
        change_views(final(out)@) == change_views(old(out)@) + change(
            key@,
            opt_text(*a),
            opt_text(*b),
        ),
{
    if !same_opt_text(a, b) {
        push_change(out, key, opt_text_value(a), opt_text_value(b));
    } else {
        proof {
            lemma_no_change(out@, key@, opt_text(*a));
        }
    }
}

fn backend_value(b: AiBackendKind) -> (r: AuditValue)
    ensures
        r@ == AuditValueView::Text(backend_name(b)),
{
    AuditValue::Text(String::from_str(b.as_str()))
}

fn diff_top(p: &Settings, n: &Settings, out: &mut Vec<AuditChange>)
    ensures
        change_views(final(out)@) == change_views(old(out)@) + top_changes(*p, *n),
{
    let ghost e0 = change_views(out@);
    note_num(out, "cooldowns.ai", p.cooldowns.ai, n.cooldowns.ai);
    note_num(out, "cooldowns.news", p.cooldowns.news, n.cooldowns.news);
    note_num(out, "cooldowns.up", p.cooldowns.up, n.cooldowns.up);
    note_num(out, "cooldowns.feedback", p.cooldowns.feedback, n.cooldowns.feedback);
    note_num(out, "cooldowns.doener", p.cooldowns.doener, n.cooldowns.doener);
    note_num(out, "pings.cooldown", p.pings.cooldown, n.pings.cooldown);
    note_bool(out, "pings.public", p.pings.public, n.pings.public);
    assert(change_views(out@) =~= e0 + top_changes(*p, *n));
}

fn diff_connection(p: &AiSettings, n: &AiSettings, out: &mut Vec<AuditChange>)
    ensures
        change_views(final(out)@) == change_views(old(out)@) + connection_changes(*p, *n),
{
    let ghost e0 = change_views(out@);
    let same_backend = match (p.connection.backend, n.connection.backend) {
        (AiBackendKind::OpenAi, AiBackendKind::OpenAi) => true,
        (AiBackendKind::Ollama, AiBackendKind::Ollama) => true,
        _ => false,
    };
    if !same_backend {
        proof {
            reveal_strlit("openai");
            reveal_strlit("ollama");
            assert("openai"@[1] != "ollama"@[1]);
        }
        push_change(
            out,
            "ai.connection.backend",
            backend_value(p.connection.backend),
            backend_value(n.connection.backend),
        );
    } else {
        proof {
            lemma_no_change(
                out@,
                "ai.connection.backend"@,
                AuditValueView::Text(backend_name(p.connection.backend)),
            );
        }
    }
    note_opt_text(out, "ai.connection.base_url", &p.connection.base_url, &n.connection.base_url);
    note_text(out, "ai.connection.model", &p.connection.model, &n.connection.model);
    note_num(out, "ai.connection.timeout", p.connection.timeout, n.connection.timeout);
    note_opt_text(
        out,
        "ai.connection.reasoning_effort",
        &p.connection.reasoning_effort,
        &n.connection.reasoning_effort,
    );
    assert(change_views(out@) =~= e0 + connection_changes(*p, *n));
}

fn diff_behavior_history(p: &AiSettings, n: &AiSettings, out: &mut Vec<AuditChange>)
    ensures
        change_views(final(out)@) == change_views(old(out)@) + behavior_history_changes(*p, *n),
{
    let ghost e0 = change_views(out@);
    note_unum(
        out,
        "ai.behavior.max_turn_rounds",
        p.behavior.max_turn_rounds,
        n.behavior.max_turn_rounds,
    );
    note_unum(
        out,
        "ai.behavior.max_writes_per_turn",
        p.behavior.max_writes_per_turn,
        n.behavior.max_writes_per_turn,
    );
    note_num(out, "ai.history.length", p.history.length, n.history.length);
    note_num(
        out,
        "ai.history.ai_channel_length",
        p.history.ai_channel_length,
        n.history.ai_channel_length,
    );
    assert(change_views(out@) =~= e0 + behavior_history_changes(*p, *n));
}

fn diff_memory(p: &AiSettings, n: &AiSettings, out: &mut Vec<AuditChange>)
    ensures
        change_views(final(out)@) == change_views(old(out)@) + memory_changes(*p, *n),
{
    let ghost e0 = change_views(out@);
    note_unum(out, "ai.memory.soul_bytes", p.memory.soul_bytes, n.memory.soul_bytes);
    note_unum(out, "ai.memory.lore_bytes", p.memory.lore_bytes, n.memory.lore_bytes);
    note_unum(out, "ai.memory.user_bytes", p.memory.user_bytes, n.memory.user_bytes);
    note_unum(out, "ai.memory.state_bytes", p.memory.state_bytes, n.memory.state_bytes);
    note_unum(
        out,
        "ai.memory.inject_byte_budget",
        p.memory.inject_byte_budget,
        n.memory.inject_byte_budget,
    );
    note_unum(out, "ai.memory.max_state_files", p.memory.max_state_files, n.memory.max_state_files);
    assert(change_views(out@) =~= e0 + memory_changes(*p, *n));
}

fn diff_dreamer(p: &AiSettings, n: &AiSettings, out: &mut Vec<AuditChange>)
    ensures
        change_views(final(out)@) == change_views(old(out)@) + dreamer_changes(*p, *n),
{
    let ghost e0 = change_views(out@);
    note_bool(out, "ai.dreamer.enabled", p.dreamer.enabled, n.dreamer.enabled);
    note_opt_text(out, "ai.dreamer.model", &p.dreamer.model, &n.dreamer.model);
    note_opt_text(
        out,
        "ai.dreamer.reasoning_effort",
        &p.dreamer.reasoning_effort,
        &n.dreamer.reasoning_effort,
    );
    note_text(out, "ai.dreamer.run_at", &p.dreamer.run_at, &n.dreamer.run_at);
    note_num(out, "ai.dreamer.timeout_secs", p.dreamer.timeout_secs, n.dreamer.timeout_secs);
    note_unum(out, "ai.dreamer.max_rounds", p.dreamer.max_rounds, n.dreamer.max_rounds);
    assert(change_views(out@) =~= e0 + dreamer_changes(*p, *n));
}

fn copy_prefill(p: &AiPrefill) -> (r: AiPrefill)
    ensures
        r == *p,
{
    AiPrefill { base_url: p.base_url.clone(), threshold_bits: p.threshold_bits }
}

fn copy_web(w: &AiWeb) -> (r: AiWeb)
    ensures
        r == *w,
{
    AiWeb {
        base_url: w.base_url.clone(),
        timeout: w.timeout,
        max_results: w.max_results,
        max_rounds: w.max_rounds,
        cache_ttl_secs: w.cache_ttl_secs,
        cache_capacity: w.cache_capacity,
    }
}

fn copy_emotes(e: &AiEmotes) -> (r: AiEmotes)
    ensures
        r == *e,
{
    AiEmotes {
        include_global: e.include_global,
        refresh_interval_secs: e.refresh_interval_secs,
        max_prompt_emotes: e.max_prompt_emotes,
        min_baseline_emotes: e.min_baseline_emotes,
        base_url: match &e.base_url {
            Some(s) => Some(s.clone()),
            None => None,
        },
    }
}

fn prefill_block_value(o: &Option<AiPrefill>) -> (r: AuditValue)
    ensures
        r@ == opt_prefill_value(*o),
{
    match o {
        Some(p) => AuditValue::Prefill(copy_prefill(p)),
        None => AuditValue::Null,
    }
}

fn web_block_value(o: &Option<AiWeb>) -> (r: AuditValue)
    ensures
        r@ == opt_web_value(*o),
{
    match o {
        Some(w) => AuditValue::Web(copy_web(w)),
        None => AuditValue::Null,
    }
}

fn emotes_block_value(o: &Option<AiEmotes>) -> (r: AuditValue)
    ensures
        r@ == opt_emotes_value(*o),
{
    match o {
        Some(e) => AuditValue::Emotes(copy_emotes(e)),
        None => AuditValue::Null,
    }
}

fn diff_prefill(p: &Option<AiPrefill>, n: &Option<AiPrefill>, out: &mut Vec<AuditChange>)
    ensures
        change_views(final(out)@) == change_views(old(out)@) + prefill_changes(*p, *n),
{
    let ghost e0 = change_views(out@);
    match (p, n) {
        (None, None) => {
            assert(e0 + prefill_changes(*p, *n) =~= e0);
        },
        (Some(a), Some(b)) => {
            note_text(out, "ai.prefill.base_url", &a.base_url, &b.base_url);
            note_float(out, "ai.prefill.threshold", a.threshold_bits, b.threshold_bits);
            assert(change_views(out@) =~= e0 + prefill_changes(*p, *n));
        },
        _ => {
            push_change(out, "ai.prefill", prefill_block_value(p), prefill_block_value(n));
        },
    }
}

fn diff_web(p: &Option<AiWeb>, n: &Option<AiWeb>, out: &mut Vec<AuditChange>)
    ensures
        change_views(final(out)@) == change_views(old(out)@) + web_changes(*p, *n),
{
    let ghost e0 = change_views(out@);
    match (p, n) {
        (None, None) => {
            assert(e0 + web_changes(*p, *n) =~= e0);
        },
        (Some(a), Some(b)) => {
            note_text(out, "ai.web.base_url", &a.base_url, &b.base_url);
            note_num(out, "ai.web.timeout", a.timeout, b.timeout);
            note_unum(out, "ai.web.max_results", a.max_results, b.max_results);
            note_unum(out, "ai.web.max_rounds", a.max_rounds, b.max_rounds);
            note_num(out, "ai.web.cache_ttl_secs", a.cache_ttl_secs, b.cache_ttl_secs);
            note_unum(out, "ai.web.cache_capacity", a.cache_capacity, b.cache_capacity);
            assert(change_views(out@) =~= e0 + web_changes(*p, *n));
        },
        _ => {
            push_change(out, "ai.web", web_block_value(p), web_block_value(n));
        },
    }
}

fn diff_emotes(p: &Option<AiEmotes>, n: &Option<AiEmotes>, out: &mut Vec<AuditChange>)
    ensures
        change_views(final(out)@) == change_views(old(out)@) + emotes_changes(*p, *n),
{
    let ghost e0 = change_views(out@);
    match (p, n) {
        (None, None) => {
            assert(e0 + emotes_changes(*p, *n) =~= e0);
        },
        (Some(a), Some(b)) => {
            note_bool(out, "ai.emotes.include_global", a.include_global, b.include_global);
            note_num(
                out,
                "ai.emotes.refresh_interval_secs",
                a.refresh_interval_secs,
                b.refresh_interval_secs,
            );
            note_unum(out, "ai.emotes.max_prompt_emotes", a.max_prompt_emotes, b.max_prompt_emotes);
            note_unum(
                out,
                "ai.emotes.min_baseline_emotes",
                a.min_baseline_emotes,
                b.min_baseline_emotes,
            );
            note_opt_text(out, "ai.emotes.base_url", &a.base_url, &b.base_url);
            assert(change_views(out@) =~= e0 + emotes_changes(*p, *n));
        },
        _ => {
            push_change(out, "ai.emotes", emotes_block_value(p), emotes_block_value(n));
        },
    }
}

fn diff_media(p: &AiSettings, n: &AiSettings, out: &mut Vec<AuditChange>)
    ensures
        change_views(final(out)@) == change_views(old(out)@) + media_changes(*p, *n),
{
    let ghost e0 = change_views(out@);
    note_text(out, "ai.media.model", &p.media.model, &n.media.model);
    note_num(out, "ai.media.timeout", p.media.timeout, n.media.timeout);
    note_num(out, "ai.media.max_image_size", p.media.max_image_size, n.media.max_image_size);
    note_num(out, "ai.media.max_pdf_size", p.media.max_pdf_size, n.media.max_pdf_size);
    note_num(out, "ai.media.max_audio_size", p.media.max_audio_size, n.media.max_audio_size);
    note_num(out, "ai.media.max_video_size", p.media.max_video_size, n.media.max_video_size);
    note_num(out, "ai.media.max_text_size", p.media.max_text_size, n.media.max_text_size);
    assert(change_views(out@) =~= e0 + media_changes(*p, *n));
}

/// Every resolved field that differs between `prior` and `next`, with both
/// values, in the audit order.
pub fn diff_changes(prior: &Settings, next: &Settings) -> (r: Vec<AuditChange>)
    ensures
        change_views(r@) == diff_spec(*prior, *next),
{
    let mut out: Vec<AuditChange> = Vec::new();
    assert(change_views(out@) =~= Seq::<ChangeView>::empty());
    diff_top(prior, next, &mut out);
    diff_connection(&prior.ai, &next.ai, &mut out);
    diff_behavior_history(&prior.ai, &next.ai, &mut out);
    diff_memory(&prior.ai, &next.ai, &mut out);
    diff_dreamer(&prior.ai, &next.ai, &mut out);
    diff_prefill(&prior.ai.prefill, &next.ai.prefill, &mut out);
    diff_web(&prior.ai.web, &next.ai.web, &mut out);
    diff_emotes(&prior.ai.emotes, &next.ai.emotes, &mut out);
    diff_media(&prior.ai, &next.ai, &mut out);
    assert(change_views(out@) =~= diff_spec(*prior, *next));
    out
}

// ---------------------------------------------------------------------------
// Laws
// ---------------------------------------------------------------------------

/// A snapshot compared with itself has no changes.
pub proof fn lemma_diff_of_identical_snapshots_is_empty(s: Settings)
    ensures
        diff_spec(s, s).len() == 0,
{
    assert(top_changes(s, s) =~= Seq::empty());
    assert(connection_changes(s.ai, s.ai) =~= Seq::empty());
    assert(behavior_history_changes(s.ai, s.ai) =~= Seq::empty());
    assert(memory_changes(s.ai, s.ai) =~= Seq::empty());
    assert(dreamer_changes(s.ai, s.ai) =~= Seq::empty());
    assert(prefill_changes(s.ai.prefill, s.ai.prefill) =~= Seq::empty());
    assert(web_changes(s.ai.web, s.ai.web) =~= Seq::empty());
    assert(emotes_changes(s.ai.emotes, s.ai.emotes) =~= Seq::empty());
    assert(media_changes(s.ai, s.ai) =~= Seq::empty());
}

/// No entry records a value as changed into itself.
pub open spec fn entries_differ(s: Seq<ChangeView>) -> bool {
    forall|i: int| 0 <= i < s.len() ==> (#[trigger] s[i]).1 != s[i].2
}

broadcast proof fn lemma_concat_differ(a: Seq<ChangeView>, b: Seq<ChangeView>)
    requires
        entries_differ(a),
        entries_differ(b),
    ensures
        #[trigger] entries_differ(a + b),
{
    assert forall|i: int| 0 <= i < (a + b).len() implies (#[trigger] (a + b)[i]).1 != (a
        + b)[i].2 by {
        if i < a.len() {
            assert((a + b)[i] == a[i]);
        } else {
            assert((a + b)[i] == b[i - a.len()]);
        }
    }
}

broadcast proof fn lemma_change_differs(key: Seq<char>, was: AuditValueView, now: AuditValueView)
    ensures
        #[trigger] entries_differ(change(key, was, now)),
{
}

proof fn lemma_top_differ(p: Settings, n: Settings)
    ensures
        entries_differ(top_changes(p, n)),
{
    broadcast use lemma_change_differs, lemma_concat_differ;
    assert(entries_differ(top_changes(p, n)));
}

proof fn lemma_connection_differ(p: AiSettings, n: AiSettings)
    ensures
        entries_differ(connection_changes(p, n)),
{
    broadcast use lemma_change_differs, lemma_concat_differ;
    assert(entries_differ(connection_changes(p, n)));
}

proof fn lemma_behavior_history_differ(p: AiSettings, n: AiSettings)
    ensures
        entries_differ(behavior_history_changes(p, n)),
{
    broadcast use lemma_change_differs, lemma_concat_differ;
    assert(entries_differ(behavior_history_changes(p, n)));
}

proof fn lemma_memory_differ(p: AiSettings, n: AiSettings)
    ensures
        entries_differ(memory_changes(p, n)),
{
    broadcast use lemma_change_differs, lemma_concat_differ;
    assert(entries_differ(memory_changes(p, n)));
}

proof fn lemma_dreamer_differ(p: AiSettings, n: AiSettings)
    ensures
        entries_differ(dreamer_changes(p, n)),
{
    broadcast use lemma_change_differs, lemma_concat_differ;
    assert(entries_differ(dreamer_changes(p, n)));
}

proof fn lemma_media_differ(p: AiSettings, n: AiSettings)
    ensures
        entries_differ(media_changes(p, n)),
{
    broadcast use lemma_change_differs, lemma_concat_differ;
    assert(entries_differ(media_changes(p, n)));
}

proof fn lemma_blocks_differ(p: AiSettings, n: AiSettings)
    ensures
        entries_differ(prefill_changes(p.prefill, n.prefill)),
        entries_differ(web_changes(p.web, n.web)),
        entries_differ(emotes_changes(p.emotes, n.emotes)),
{
    broadcast use lemma_change_differs, lemma_concat_differ;

    assert(entries_differ(prefill_changes(p.prefill, n.prefill)));
    assert(entries_differ(web_changes(p.web, n.web)));
    assert(entries_differ(emotes_changes(p.emotes, n.emotes)));
}

/// Every recorded change carries two different values.
pub proof fn lemma_every_change_differs(p: Settings, n: Settings)
    ensures
        entries_differ(diff_spec(p, n)),
{
    lemma_top_differ(p, n);
    lemma_connection_differ(p.ai, n.ai);
    lemma_behavior_history_differ(p.ai, n.ai);
    lemma_memory_differ(p.ai, n.ai);
    lemma_dreamer_differ(p.ai, n.ai);
    lemma_blocks_differ(p.ai, n.ai);
    lemma_media_differ(p.ai, n.ai);
    let a = top_changes(p, n);
    let b = connection_changes(p.ai, n.ai);
    let c = behavior_history_changes(p.ai, n.ai);
    let d = memory_changes(p.ai, n.ai);
    let e = dreamer_changes(p.ai, n.ai);
    let f = prefill_changes(p.ai.prefill, n.ai.prefill);
    let g = web_changes(p.ai.web, n.ai.web);
    let h = emotes_changes(p.ai.emotes, n.ai.emotes);
    let m = media_changes(p.ai, n.ai);
    lemma_concat_differ(a, b);
    lemma_concat_differ(a + b, c);
    lemma_concat_differ(a + b + c, d);
    lemma_concat_differ(a + b + c + d, e);
    lemma_concat_differ(a + b + c + d + e, f);
    lemma_concat_differ(a + b + c + d + e + f, g);
    lemma_concat_differ(a + b + c + d + e + f + g, h);
    lemma_concat_differ(a + b + c + d + e + f + g + h, m);
}

/// Each entry with its old and new values exchanged.
pub open spec fn swapped(s: Seq<ChangeView>) -> Seq<ChangeView> {
    s.map_values(|c: ChangeView| (c.0, c.2, c.1))
}

broadcast proof fn lemma_swapped_add(a: Seq<ChangeView>, b: Seq<ChangeView>)
    ensures
        #[trigger] swapped(a + b) == swapped(a) + swapped(b),
{
    assert(swapped(a + b) =~= swapped(a) + swapped(b));
}

broadcast proof fn lemma_swapped_change(key: Seq<char>, old: AuditValueView, new: AuditValueView)
    ensures
        #[trigger] swapped(change(key, old, new)) == change(key, new, old),
{
    assert(swapped(change(key, old, new)) =~= change(key, new, old));
}

proof fn lemma_swapped_single(key: Seq<char>, old: AuditValueView, new: AuditValueView)
    ensures
        swapped(seq![(key, old, new)]) == seq![(key, new, old)],
        swapped(Seq::<ChangeView>::empty()) == Seq::<ChangeView>::empty(),
{
    assert(swapped(seq![(key, old, new)]) =~= seq![(key, new, old)]);
    assert(swapped(Seq::<ChangeView>::empty()) =~= Seq::<ChangeView>::empty());
}

/// Comparing the snapshots the other way round gives the same keys, in the
/// same order, with old and new exchanged.
pub proof fn lemma_diff_symmetric(p: Settings, n: Settings)
    ensures
        diff_spec(n, p) == swapped(diff_spec(p, n)),
{
    broadcast use lemma_swapped_add, lemma_swapped_change;

    assert(top_changes(n, p) == swapped(top_changes(p, n)));
    assert(connection_changes(n.ai, p.ai) == swapped(connection_changes(p.ai, n.ai)));
    assert(behavior_history_changes(n.ai, p.ai) == swapped(behavior_history_changes(p.ai, n.ai)));
    assert(memory_changes(n.ai, p.ai) == swapped(memory_changes(p.ai, n.ai)));
    assert(dreamer_changes(n.ai, p.ai) == swapped(dreamer_changes(p.ai, n.ai)));
    assert(media_changes(n.ai, p.ai) == swapped(media_changes(p.ai, n.ai)));
    lemma_swapped_single("ai.prefill"@, opt_prefill_value(p.ai.prefill), opt_prefill_value(n.ai.prefill));
    assert(prefill_changes(n.ai.prefill, p.ai.prefill) == swapped(prefill_changes(p.ai.prefill, n.ai.prefill)));
    lemma_swapped_single("ai.web"@, opt_web_value(p.ai.web), opt_web_value(n.ai.web));
    assert(web_changes(n.ai.web, p.ai.web) == swapped(web_changes(p.ai.web, n.ai.web)));
    lemma_swapped_single("ai.emotes"@, opt_emotes_value(p.ai.emotes), opt_emotes_value(n.ai.emotes));
    assert(emotes_changes(n.ai.emotes, p.ai.emotes) == swapped(emotes_changes(p.ai.emotes, n.ai.emotes)));
}

/// The leaves whose two values differ.
pub open spec fn changed_only(s: Seq<ChangeView>) -> Seq<ChangeView> {
    s.filter(|c: ChangeView| c.1 != c.2)
}

broadcast proof fn lemma_changed_only_add(a: Seq<ChangeView>, b: Seq<ChangeView>)
    ensures
        #[trigger] changed_only(a + b) == changed_only(a) + changed_only(b),
{
    Seq::filter_distributes_over_add(a, b, |c: ChangeView| c.1 != c.2);
}

broadcast proof fn lemma_changed_only_leaf(key: Seq<char>, old: AuditValueView, new: AuditValueView)
    ensures
        #[trigger] changed_only(leaf(key, old, new)) == change(key, old, new),
{
    reveal_with_fuel(Seq::filter, 2);
    assert(leaf(key, old, new).drop_last() =~= Seq::<ChangeView>::empty());
    assert(changed_only(leaf(key, old, new)) =~= change(key, old, new));
}

proof fn lemma_changed_only_empty()
    ensures
        changed_only(Seq::<ChangeView>::empty()) == Seq::<ChangeView>::empty(),
{
    assert(changed_only(Seq::<ChangeView>::empty()) =~= Seq::<ChangeView>::empty());
}

/// The diff is exactly the leaves whose values differ, in the audit order:
/// each leaf is listed, with both of its values, when and only when they
/// differ.
pub proof fn lemma_diff_is_changed_leaves(p: Settings, n: Settings)
    ensures
        diff_spec(p, n) == changed_only(all_leaves(p, n)),
{
    broadcast use lemma_changed_only_add, lemma_changed_only_leaf;

    lemma_changed_only_empty();
    assert(top_changes(p, n) == changed_only(top_leaves(p, n)));
    assert(connection_changes(p.ai, n.ai) == changed_only(connection_leaves(p.ai, n.ai)));
    assert(behavior_history_changes(p.ai, n.ai) == changed_only(behavior_history_leaves(p.ai, n.ai)));
    assert(memory_changes(p.ai, n.ai) == changed_only(memory_leaves(p.ai, n.ai)));
    assert(dreamer_changes(p.ai, n.ai) == changed_only(dreamer_leaves(p.ai, n.ai)));
    assert(media_changes(p.ai, n.ai) == changed_only(media_leaves(p.ai, n.ai)));
    lemma_changed_only_leaf("ai.prefill"@, opt_prefill_value(p.ai.prefill), opt_prefill_value(n.ai.prefill));
    assert(prefill_changes(p.ai.prefill, n.ai.prefill) == changed_only(prefill_leaves(p.ai.prefill, n.ai.prefill)));
    lemma_changed_only_leaf("ai.web"@, opt_web_value(p.ai.web), opt_web_value(n.ai.web));
    assert(web_changes(p.ai.web, n.ai.web) == changed_only(web_leaves(p.ai.web, n.ai.web)));
    lemma_changed_only_leaf("ai.emotes"@, opt_emotes_value(p.ai.emotes), opt_emotes_value(n.ai.emotes));
    assert(emotes_changes(p.ai.emotes, n.ai.emotes) == changed_only(emotes_leaves(p.ai.emotes, n.ai.emotes)));
}

} // verus!
