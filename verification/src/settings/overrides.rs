//! Sparse overrides persisted by the dashboard, and the operations on them.
//!
//! Every field is optional; `None` means "use the compiled default". The
//! `Option<Option<String>>` fields can override a default with "no value".
use vstd::prelude::*;

use crate::settings::{AiBackendKind, SettingsSection, SCHEMA_VERSION};

verus! {

#[derive(Debug, Clone, PartialEq, Eq)]
pub struct SettingsOverrides {
    pub schema_version: u32,
    pub cooldowns: CooldownsOverrides,
    pub pings: PingsOverrides,
    pub ai: AiOverrides,
}

#[derive(Debug, Clone, PartialEq, Eq)]
pub struct CooldownsOverrides {
    pub ai: Option<u64>,
    pub news: Option<u64>,
    pub up: Option<u64>,
    pub feedback: Option<u64>,
    pub doener: Option<u64>,
}

#[derive(Debug, Clone, PartialEq, Eq)]
pub struct PingsOverrides {
    pub cooldown: Option<u64>,
    pub public: Option<bool>,
}

#[derive(Debug, Clone, PartialEq, Eq)]
pub struct AiOverrides {
    pub connection: AiConnectionOverrides,
    pub behavior: AiBehaviorOverrides,
    pub history: AiHistoryOverrides,
    pub memory: AiMemoryOverrides,
    pub dreamer: AiDreamerOverrides,
    pub prefill: AiPrefillOverrides,
    pub web: AiWebOverrides,
    pub emotes: AiEmotesOverrides,
    pub media: AiMediaOverrides,
}

#[derive(Debug, Clone, PartialEq, Eq)]
pub struct AiConnectionOverrides {
    pub backend: Option<AiBackendKind>,
    pub base_url: Option<Option<String>>,
    pub model: Option<String>,
    pub timeout: Option<u64>,
    pub reasoning_effort: Option<Option<String>>,
}

#[derive(Debug, Clone, PartialEq, Eq)]
pub struct AiBehaviorOverrides {
    pub max_turn_rounds: Option<usize>,
    pub max_writes_per_turn: Option<usize>,
    pub persona_name: Option<String>,
}

#[derive(Debug, Clone, PartialEq, Eq)]
pub struct AiHistoryOverrides {
    pub length: Option<u64>,
    pub ai_channel_length: Option<u64>,
}

#[derive(Debug, Clone, PartialEq, Eq)]
pub struct AiMemoryOverrides {
    pub soul_bytes: Option<usize>,
    pub lore_bytes: Option<usize>,
    pub user_bytes: Option<usize>,
    pub state_bytes: Option<usize>,
    pub inject_byte_budget: Option<usize>,
    pub max_state_files: Option<usize>,
}

#[derive(Debug, Clone, PartialEq, Eq)]
pub struct AiDreamerOverrides {
    pub enabled: Option<bool>,
    pub model: Option<Option<String>>,
    pub reasoning_effort: Option<Option<String>>,
    pub run_at: Option<String>,
    pub timeout_secs: Option<u64>,
    pub max_rounds: Option<usize>,
}

/// The threshold override is the bit pattern of the `f64` value.
#[derive(Debug, Clone, PartialEq, Eq)]
pub struct AiPrefillOverrides {
    pub enabled: Option<bool>,
    pub base_url: Option<String>,
    pub threshold_bits: Option<u64>,
}

#[derive(Debug, Clone, PartialEq, Eq)]
pub struct AiWebOverrides {
    pub enabled: Option<bool>,
    pub base_url: Option<String>,
    pub timeout: Option<u64>,
    pub max_results: Option<usize>,
    pub max_rounds: Option<usize>,
    pub cache_ttl_secs: Option<u64>,
    pub cache_capacity: Option<usize>,
}

#[derive(Debug, Clone, PartialEq, Eq)]
pub struct AiEmotesOverrides {
    pub enabled: Option<bool>,
    pub include_global: Option<bool>,
    pub refresh_interval_secs: Option<u64>,
    pub max_prompt_emotes: Option<usize>,
    pub min_baseline_emotes: Option<usize>,
    pub base_url: Option<Option<String>>,
}

/// Size caps are byte counts.
#[derive(Debug, Clone, PartialEq, Eq)]
pub struct AiMediaOverrides {
    pub model: Option<String>,
    pub timeout: Option<u64>,
    pub max_image_size: Option<u64>,
    pub max_pdf_size: Option<u64>,
    pub max_audio_size: Option<u64>,
    pub max_video_size: Option<u64>,
    pub max_text_size: Option<u64>,
}

// ---------------------------------------------------------------------------
// Empty overrides
// ---------------------------------------------------------------------------

pub open spec fn empty_connection() -> AiConnectionOverrides {
    AiConnectionOverrides {
        backend: None,
        base_url: None,
        model: None,
        timeout: None,
        reasoning_effort: None,
    }
}

pub open spec fn empty_behavior() -> AiBehaviorOverrides {
    AiBehaviorOverrides { max_turn_rounds: None, max_writes_per_turn: None, persona_name: None }
}

pub open spec fn empty_history() -> AiHistoryOverrides {
    AiHistoryOverrides { length: None, ai_channel_length: None }
}

pub open spec fn empty_memory() -> AiMemoryOverrides {
    AiMemoryOverrides {
        soul_bytes: None,
        lore_bytes: None,
        user_bytes: None,
        state_bytes: None,
        inject_byte_budget: None,
        max_state_files: None,
    }
}

pub open spec fn empty_dreamer() -> AiDreamerOverrides {
    AiDreamerOverrides {
        enabled: None,
        model: None,
        reasoning_effort: None,
        run_at: None,
        timeout_secs: None,
        max_rounds: None,
    }
}

pub open spec fn empty_prefill() -> AiPrefillOverrides {
    AiPrefillOverrides { enabled: None, base_url: None, threshold_bits: None }
}

pub open spec fn empty_web() -> AiWebOverrides {
    AiWebOverrides {
        enabled: None,
        base_url: None,
        timeout: None,
        max_results: None,
        max_rounds: None,
        cache_ttl_secs: None,
        cache_capacity: None,
    }
}

pub open spec fn empty_emotes() -> AiEmotesOverrides {
    AiEmotesOverrides {
        enabled: None,
        include_global: None,
        refresh_interval_secs: None,
        max_prompt_emotes: None,
        min_baseline_emotes: None,
        base_url: None,
    }
}

pub open spec fn empty_media() -> AiMediaOverrides {
    AiMediaOverrides {
        model: None,
        timeout: None,
        max_image_size: None,
        max_pdf_size: None,
        max_audio_size: None,
        max_video_size: None,
        max_text_size: None,
    }
}

pub open spec fn empty_ai() -> AiOverrides {
    AiOverrides {
        connection: empty_connection(),
        behavior: empty_behavior(),
        history: empty_history(),
        memory: empty_memory(),
        dreamer: empty_dreamer(),
        prefill: empty_prefill(),
        web: empty_web(),
        emotes: empty_emotes(),
        media: empty_media(),
    }
}

pub open spec fn empty_cooldowns() -> CooldownsOverrides {
    CooldownsOverrides { ai: None, news: None, up: None, feedback: None, doener: None }
}

pub open spec fn empty_pings() -> PingsOverrides {
    PingsOverrides { cooldown: None, public: None }
}

/// No field overridden.
pub open spec fn is_empty_overrides(o: SettingsOverrides) -> bool {
    o.cooldowns == empty_cooldowns() && o.pings == empty_pings() && o.ai == empty_ai()
}

impl Default for CooldownsOverrides {
    fn default() -> (r: Self)
        ensures
            r == empty_cooldowns(),
    {
        CooldownsOverrides { ai: None, news: None, up: None, feedback: None, doener: None }
    }
}

impl Default for PingsOverrides {
    fn default() -> (r: Self)
        ensures
            r == empty_pings(),
    {
        PingsOverrides { cooldown: None, public: None }
    }
}

impl Default for AiConnectionOverrides {
    fn default() -> (r: Self)
        ensures
            r == empty_connection(),
    {
        AiConnectionOverrides {
            backend: None,
            base_url: None,
            model: None,
            timeout: None,
            reasoning_effort: None,
        }
    }
}

impl Default for AiBehaviorOverrides {
    fn default() -> (r: Self)
        ensures
            r == empty_behavior(),
    {
        AiBehaviorOverrides { max_turn_rounds: None, max_writes_per_turn: None, persona_name: None }
    }
}

impl Default for AiHistoryOverrides {
    fn default() -> (r: Self)
        ensures
            r == empty_history(),
    {
        AiHistoryOverrides { length: None, ai_channel_length: None }
    }
}

impl Default for AiMemoryOverrides {
    fn default() -> (r: Self)
        ensures
            r == empty_memory(),
    {
        AiMemoryOverrides {
            soul_bytes: None,
            lore_bytes: None,
            user_bytes: None,
            state_bytes: None,
            inject_byte_budget: None,
            max_state_files: None,
        }
    }
}

impl Default for AiDreamerOverrides {
    fn default() -> (r: Self)
        ensures
            r == empty_dreamer(),
    {
        AiDreamerOverrides {
            enabled: None,
            model: None,
            reasoning_effort: None,
            run_at: None,
            timeout_secs: None,
            max_rounds: None,
        }
    }
}

impl Default for AiPrefillOverrides {
    fn default() -> (r: Self)
        ensures
            r == empty_prefill(),
    {
        AiPrefillOverrides { enabled: None, base_url: None, threshold_bits: None }
    }
}

impl Default for AiWebOverrides {
    fn default() -> (r: Self)
        ensures
            r == empty_web(),
    {
        AiWebOverrides {
            enabled: None,
            base_url: None,
            timeout: None,
            max_results: None,
            max_rounds: None,
            cache_ttl_secs: None,
            cache_capacity: None,
        }
    }
}

impl Default for AiEmotesOverrides {
    fn default() -> (r: Self)
        ensures
            r == empty_emotes(),
    {
        AiEmotesOverrides {
            enabled: None,
            include_global: None,
            refresh_interval_secs: None,
            max_prompt_emotes: None,
            min_baseline_emotes: None,
            base_url: None,
        }
    }
}

impl Default for AiMediaOverrides {
    fn default() -> (r: Self)
        ensures
            r == empty_media(),
    {
        AiMediaOverrides {
            model: None,
            timeout: None,
            max_image_size: None,
            max_pdf_size: None,
            max_audio_size: None,
            max_video_size: None,
            max_text_size: None,
        }
    }
}

impl Default for AiOverrides {
    fn default() -> (r: Self)
        ensures
            r == empty_ai(),
    {
        AiOverrides {
            connection: AiConnectionOverrides::default(),
            behavior: AiBehaviorOverrides::default(),
            history: AiHistoryOverrides::default(),
            memory: AiMemoryOverrides::default(),
            dreamer: AiDreamerOverrides::default(),
            prefill: AiPrefillOverrides::default(),
            web: AiWebOverrides::default(),
            emotes: AiEmotesOverrides::default(),
            media: AiMediaOverrides::default(),
        }
    }
}

impl Default for SettingsOverrides {
    fn default() -> (r: Self)
        ensures
            r.schema_version == SCHEMA_VERSION,
            is_empty_overrides(r),
    {
        SettingsOverrides {
            schema_version: SCHEMA_VERSION,
            cooldowns: CooldownsOverrides::default(),
            pings: PingsOverrides::default(),
            ai: AiOverrides::default(),
        }
    }
}

// ---------------------------------------------------------------------------
// Merging a patch into stored overrides
// ---------------------------------------------------------------------------

/// A set field of the patch replaces the stored one; an unset field keeps it.
pub open spec fn over<T>(into: Option<T>, patch: Option<T>) -> Option<T> {
    if patch is Some {
        patch
    } else {
        into
    }
}

pub open spec fn merge_connection(i: AiConnectionOverrides, p: AiConnectionOverrides) -> AiConnectionOverrides {
    AiConnectionOverrides {
        backend: over(i.backend, p.backend),
        base_url: over(i.base_url, p.base_url),
        model: over(i.model, p.model),
        timeout: over(i.timeout, p.timeout),
        reasoning_effort: over(i.reasoning_effort, p.reasoning_effort),
    }
}

/// The persona name is not carried over by a merge: a dashboard save keeps
/// the persona stored in the settings file, which only an edit of that file
/// changes. (The diff has no persona key for the same reason: a save never
/// changes it.)
pub open spec fn merge_behavior(i: AiBehaviorOverrides, p: AiBehaviorOverrides) -> AiBehaviorOverrides {
    AiBehaviorOverrides {
        max_turn_rounds: over(i.max_turn_rounds, p.max_turn_rounds),
        max_writes_per_turn: over(i.max_writes_per_turn, p.max_writes_per_turn),
        persona_name: i.persona_name,
    }
}

pub open spec fn merge_history(i: AiHistoryOverrides, p: AiHistoryOverrides) -> AiHistoryOverrides {
    AiHistoryOverrides {
        length: over(i.length, p.length),
        ai_channel_length: over(i.ai_channel_length, p.ai_channel_length),
    }
}

pub open spec fn merge_memory(i: AiMemoryOverrides, p: AiMemoryOverrides) -> AiMemoryOverrides {
    AiMemoryOverrides {
        soul_bytes: over(i.soul_bytes, p.soul_bytes),
        lore_bytes: over(i.lore_bytes, p.lore_bytes),
        user_bytes: over(i.user_bytes, p.user_bytes),
        state_bytes: over(i.state_bytes, p.state_bytes),
        inject_byte_budget: over(i.inject_byte_budget, p.inject_byte_budget),
        max_state_files: over(i.max_state_files, p.max_state_files),
    }
}

pub open spec fn merge_dreamer(i: AiDreamerOverrides, p: AiDreamerOverrides) -> AiDreamerOverrides {
    AiDreamerOverrides {
        enabled: over(i.enabled, p.enabled),
        model: over(i.model, p.model),
        reasoning_effort: over(i.reasoning_effort, p.reasoning_effort),
        run_at: over(i.run_at, p.run_at),
        timeout_secs: over(i.timeout_secs, p.timeout_secs),
        max_rounds: over(i.max_rounds, p.max_rounds),
    }
}

pub open spec fn merge_prefill(i: AiPrefillOverrides, p: AiPrefillOverrides) -> AiPrefillOverrides {
    AiPrefillOverrides {
        enabled: over(i.enabled, p.enabled),
        base_url: over(i.base_url, p.base_url),
        threshold_bits: over(i.threshold_bits, p.threshold_bits),
    }
}

pub open spec fn merge_web(i: AiWebOverrides, p: AiWebOverrides) -> AiWebOverrides {
    AiWebOverrides {
        enabled: over(i.enabled, p.enabled),
        base_url: over(i.base_url, p.base_url),
        timeout: over(i.timeout, p.timeout),
        max_results: over(i.max_results, p.max_results),
        max_rounds: over(i.max_rounds, p.max_rounds),
        cache_ttl_secs: over(i.cache_ttl_secs, p.cache_ttl_secs),
        cache_capacity: over(i.cache_capacity, p.cache_capacity),
    }
}

pub open spec fn merge_emotes(i: AiEmotesOverrides, p: AiEmotesOverrides) -> AiEmotesOverrides {
    AiEmotesOverrides {
        enabled: over(i.enabled, p.enabled),
        include_global: over(i.include_global, p.include_global),
        refresh_interval_secs: over(i.refresh_interval_secs, p.refresh_interval_secs),
        max_prompt_emotes: over(i.max_prompt_emotes, p.max_prompt_emotes),
        min_baseline_emotes: over(i.min_baseline_emotes, p.min_baseline_emotes),
        base_url: over(i.base_url, p.base_url),
    }
}

pub open spec fn merge_media(i: AiMediaOverrides, p: AiMediaOverrides) -> AiMediaOverrides {
    AiMediaOverrides {
        model: over(i.model, p.model),
        timeout: over(i.timeout, p.timeout),
        max_image_size: over(i.max_image_size, p.max_image_size),
        max_pdf_size: over(i.max_pdf_size, p.max_pdf_size),
        max_audio_size: over(i.max_audio_size, p.max_audio_size),
        max_video_size: over(i.max_video_size, p.max_video_size),
        max_text_size: over(i.max_text_size, p.max_text_size),
    }
}

/// The stored overrides after applying `patch`. The schema version of the
/// stored overrides is kept.
pub open spec fn merge_spec(i: SettingsOverrides, p: SettingsOverrides) -> SettingsOverrides {
    SettingsOverrides {
        schema_version: i.schema_version,
        cooldowns: CooldownsOverrides {
            ai: over(i.cooldowns.ai, p.cooldowns.ai),
            news: over(i.cooldowns.news, p.cooldowns.news),
            up: over(i.cooldowns.up, p.cooldowns.up),
            feedback: over(i.cooldowns.feedback, p.cooldowns.feedback),
            doener: over(i.cooldowns.doener, p.cooldowns.doener),
        },
        pings: PingsOverrides {
            cooldown: over(i.pings.cooldown, p.pings.cooldown),
            public: over(i.pings.public, p.pings.public),
        },
        ai: AiOverrides {
            connection: merge_connection(i.ai.connection, p.ai.connection),
            behavior: merge_behavior(i.ai.behavior, p.ai.behavior),
            history: merge_history(i.ai.history, p.ai.history),
            memory: merge_memory(i.ai.memory, p.ai.memory),
            dreamer: merge_dreamer(i.ai.dreamer, p.ai.dreamer),
            prefill: merge_prefill(i.ai.prefill, p.ai.prefill),
            web: merge_web(i.ai.web, p.ai.web),
            emotes: merge_emotes(i.ai.emotes, p.ai.emotes),
            media: merge_media(i.ai.media, p.ai.media),
        },
    }
}

fn set_u64(into: &mut Option<u64>, patch: Option<u64>)
    ensures
        *final(into) == over(*old(into), patch),
{
    if let Some(v) = patch {
        *into = Some(v);
    }
}

fn set_usize(into: &mut Option<usize>, patch: Option<usize>)
    ensures
        *final(into) == over(*old(into), patch),
{
    if let Some(v) = patch {
        *into = Some(v);
    }
}

fn set_bool(into: &mut Option<bool>, patch: Option<bool>)
    ensures
        *final(into) == over(*old(into), patch),
{
    if let Some(v) = patch {
        *into = Some(v);
    }
}

fn set_string(into: &mut Option<String>, patch: &Option<String>)
    ensures
        *final(into) == over(*old(into), *patch),
{
    if let Some(v) = patch {
        *into = Some(v.clone());
    }
}

fn set_opt_string(into: &mut Option<Option<String>>, patch: &Option<Option<String>>)
    ensures
        *final(into) == over(*old(into), *patch),
{
    if let Some(v) = patch {
        *into = Some(crate::settings::clone_opt(v));
    }
}

fn merge_ai_connection(into: &mut AiConnectionOverrides, p: &AiConnectionOverrides)
    ensures
        *final(into) == merge_connection(*old(into), *p),
{
    if let Some(v) = p.backend {
        into.backend = Some(v);
    }
    set_opt_string(&mut into.base_url, &p.base_url);
    set_string(&mut into.model, &p.model);
    set_u64(&mut into.timeout, p.timeout);
    set_opt_string(&mut into.reasoning_effort, &p.reasoning_effort);
}

fn merge_ai_dreamer(into: &mut AiDreamerOverrides, p: &AiDreamerOverrides)
    ensures
        *final(into) == merge_dreamer(*old(into), *p),
{
    set_bool(&mut into.enabled, p.enabled);
    set_opt_string(&mut into.model, &p.model);
    set_opt_string(&mut into.reasoning_effort, &p.reasoning_effort);
    set_string(&mut into.run_at, &p.run_at);
    set_u64(&mut into.timeout_secs, p.timeout_secs);
    set_usize(&mut into.max_rounds, p.max_rounds);
}

fn merge_ai_web(into: &mut AiWebOverrides, p: &AiWebOverrides)
    ensures
        *final(into) == merge_web(*old(into), *p),
{
    set_bool(&mut into.enabled, p.enabled);
    set_string(&mut into.base_url, &p.base_url);
    set_u64(&mut into.timeout, p.timeout);
    set_usize(&mut into.max_results, p.max_results);
    set_usize(&mut into.max_rounds, p.max_rounds);
    set_u64(&mut into.cache_ttl_secs, p.cache_ttl_secs);
    set_usize(&mut into.cache_capacity, p.cache_capacity);
}

fn merge_ai_emotes(into: &mut AiEmotesOverrides, p: &AiEmotesOverrides)
    ensures
        *final(into) == merge_emotes(*old(into), *p),
{
    set_bool(&mut into.enabled, p.enabled);
    set_bool(&mut into.include_global, p.include_global);
    set_u64(&mut into.refresh_interval_secs, p.refresh_interval_secs);
    set_usize(&mut into.max_prompt_emotes, p.max_prompt_emotes);
    set_usize(&mut into.min_baseline_emotes, p.min_baseline_emotes);
    set_opt_string(&mut into.base_url, &p.base_url);
}

fn merge_ai_media(into: &mut AiMediaOverrides, p: &AiMediaOverrides)
    ensures
        *final(into) == merge_media(*old(into), *p),
{
    set_string(&mut into.model, &p.model);
    set_u64(&mut into.timeout, p.timeout);
    set_u64(&mut into.max_image_size, p.max_image_size);
    set_u64(&mut into.max_pdf_size, p.max_pdf_size);
    set_u64(&mut into.max_audio_size, p.max_audio_size);
    set_u64(&mut into.max_video_size, p.max_video_size);
    set_u64(&mut into.max_text_size, p.max_text_size);
}

/// Folds `patch` into the stored overrides `into`: every field the patch
/// sets replaces the stored value, every field it leaves unset is kept.
pub fn merge_into(into: &mut SettingsOverrides, patch: &SettingsOverrides)
    ensures
        *final(into) == merge_spec(*old(into), *patch),
{
    set_u64(&mut into.cooldowns.ai, patch.cooldowns.ai);
    set_u64(&mut into.cooldowns.news, patch.cooldowns.news);
    set_u64(&mut into.cooldowns.up, patch.cooldowns.up);
    set_u64(&mut into.cooldowns.feedback, patch.cooldowns.feedback);
    set_u64(&mut into.cooldowns.doener, patch.cooldowns.doener);
    set_u64(&mut into.pings.cooldown, patch.pings.cooldown);
    set_bool(&mut into.pings.public, patch.pings.public);
    merge_ai_connection(&mut into.ai.connection, &patch.ai.connection);
    set_usize(&mut into.ai.behavior.max_turn_rounds, patch.ai.behavior.max_turn_rounds);
    set_usize(&mut into.ai.behavior.max_writes_per_turn, patch.ai.behavior.max_writes_per_turn);
    set_u64(&mut into.ai.history.length, patch.ai.history.length);
    set_u64(&mut into.ai.history.ai_channel_length, patch.ai.history.ai_channel_length);
    set_usize(&mut into.ai.memory.soul_bytes, patch.ai.memory.soul_bytes);
    set_usize(&mut into.ai.memory.lore_bytes, patch.ai.memory.lore_bytes);
    set_usize(&mut into.ai.memory.user_bytes, patch.ai.memory.user_bytes);
    set_usize(&mut into.ai.memory.state_bytes, patch.ai.memory.state_bytes);
    set_usize(&mut into.ai.memory.inject_byte_budget, patch.ai.memory.inject_byte_budget);
    set_usize(&mut into.ai.memory.max_state_files, patch.ai.memory.max_state_files);
    merge_ai_dreamer(&mut into.ai.dreamer, &patch.ai.dreamer);
    set_bool(&mut into.ai.prefill.enabled, patch.ai.prefill.enabled);
    set_string(&mut into.ai.prefill.base_url, &patch.ai.prefill.base_url);
    set_u64(&mut into.ai.prefill.threshold_bits, patch.ai.prefill.threshold_bits);
    merge_ai_web(&mut into.ai.web, &patch.ai.web);
    merge_ai_emotes(&mut into.ai.emotes, &patch.ai.emotes);
    merge_ai_media(&mut into.ai.media, &patch.ai.media);
}

// ---------------------------------------------------------------------------
// Resetting one section
// ---------------------------------------------------------------------------

/// The stored overrides with `section` cleared and everything else kept.
pub open spec fn reset_spec(o: SettingsOverrides, section: SettingsSection) -> SettingsOverrides {
    match section {
        SettingsSection::Cooldowns => SettingsOverrides { cooldowns: empty_cooldowns(), ..o },
        SettingsSection::Pings => SettingsOverrides { pings: empty_pings(), ..o },
        SettingsSection::AiConnection => SettingsOverrides {
            ai: AiOverrides { connection: empty_connection(), ..o.ai },
            ..o
        },
        SettingsSection::AiBehavior => SettingsOverrides {
            ai: AiOverrides { behavior: empty_behavior(), ..o.ai },
            ..o
        },
        SettingsSection::AiHistory => SettingsOverrides {
            ai: AiOverrides { history: empty_history(), ..o.ai },
            ..o
        },
        SettingsSection::AiMemory => SettingsOverrides {
            ai: AiOverrides { memory: empty_memory(), ..o.ai },
            ..o
        },
        SettingsSection::AiDreamer => SettingsOverrides {
            ai: AiOverrides { dreamer: empty_dreamer(), ..o.ai },
            ..o
        },
        SettingsSection::AiPrefill => SettingsOverrides {
            ai: AiOverrides { prefill: empty_prefill(), ..o.ai },
            ..o
        },
        SettingsSection::AiWeb => SettingsOverrides {
            ai: AiOverrides { web: empty_web(), ..o.ai },
            ..o
        },
        SettingsSection::AiEmotes => SettingsOverrides {
            ai: AiOverrides { emotes: empty_emotes(), ..o.ai },
            ..o
        },
        SettingsSection::AiMedia => SettingsOverrides {
            ai: AiOverrides { media: empty_media(), ..o.ai },
            ..o
        },
    }
}

/// Clears every override of `section`.
pub fn reset_section(o: &mut SettingsOverrides, section: SettingsSection)
    ensures
        *final(o) == reset_spec(*old(o), section),
{
    match section {
        SettingsSection::Cooldowns => o.cooldowns = CooldownsOverrides::default(),
        SettingsSection::Pings => o.pings = PingsOverrides::default(),
        SettingsSection::AiConnection => o.ai.connection = AiConnectionOverrides::default(),
        SettingsSection::AiBehavior => o.ai.behavior = AiBehaviorOverrides::default(),
        SettingsSection::AiHistory => o.ai.history = AiHistoryOverrides::default(),
        SettingsSection::AiMemory => o.ai.memory = AiMemoryOverrides::default(),
        SettingsSection::AiDreamer => o.ai.dreamer = AiDreamerOverrides::default(),
        SettingsSection::AiPrefill => o.ai.prefill = AiPrefillOverrides::default(),
        SettingsSection::AiWeb => o.ai.web = AiWebOverrides::default(),
        SettingsSection::AiEmotes => o.ai.emotes = AiEmotesOverrides::default(),
        SettingsSection::AiMedia => o.ai.media = AiMediaOverrides::default(),
    }
}

} // verus!
