//! Dashboard-managed runtime settings.
//!
//! `Settings` is the fully resolved snapshot read by the command handlers.
//! Sparse `SettingsOverrides` (see `overrides`) are what the dashboard
//! persists; every field they leave unset falls through to
//! `Settings::compiled_defaults()`.
use vstd::prelude::*;

pub mod audit;
pub mod laws;
pub mod overrides;
pub mod plan;
pub mod validate;

use crate::settings::overrides::{
    AiBehaviorOverrides, AiConnectionOverrides, AiDreamerOverrides, AiEmotesOverrides,
    AiHistoryOverrides, AiMediaOverrides, AiMemoryOverrides, AiOverrides, AiPrefillOverrides,
    AiWebOverrides, SettingsOverrides,
};

verus! {

pub const SCHEMA_VERSION: u32 = 2;

/// Default length of the primary chat history buffer.
pub const DEFAULT_HISTORY_LENGTH: u64 = 200;

/// Upper bound on either chat history buffer.
pub const MAX_HISTORY_LENGTH: u64 = 5000;

/// One mebibyte.
pub const MIB: u64 = 1048576;

/// IEEE-754 bit pattern of the prefill threshold `0.5`.
pub const THRESHOLD_HALF_BITS: u64 = 0x3fe0000000000000;

#[derive(Debug, Clone, PartialEq, Eq)]
pub struct Settings {
    pub schema_version: u32,
    pub cooldowns: Cooldowns,
    pub pings: PingsSettings,
    pub ai: AiSettings,
}

/// Per-command cooldowns in seconds.
#[derive(Debug, Clone, PartialEq, Eq)]
pub struct Cooldowns {
    pub ai: u64,
    pub news: u64,
    pub up: u64,
    pub feedback: u64,
    pub doener: u64,
}

#[derive(Debug, Clone, PartialEq, Eq)]
pub struct PingsSettings {
    pub cooldown: u64,
    pub public: bool,
}

#[derive(Debug, Clone, PartialEq, Eq)]
pub struct AiSettings {
    pub connection: AiConnection,
    pub behavior: AiBehavior,
    pub history: AiHistory,
    pub memory: AiMemory,
    pub dreamer: AiDreamer,
    pub prefill: Option<AiPrefill>,
    pub web: Option<AiWeb>,
    pub emotes: Option<AiEmotes>,
    pub media: AiMedia,
}

#[derive(Debug, Clone, PartialEq, Eq)]
pub struct AiConnection {
    pub backend: AiBackendKind,
    pub base_url: Option<String>,
    pub model: String,
    pub timeout: u64,
    pub reasoning_effort: Option<String>,
}

#[derive(Debug, Clone, Copy, PartialEq, Eq)]
pub enum AiBackendKind {
    OpenAi,
    Ollama,
}

#[derive(Debug, Clone, PartialEq, Eq)]
pub struct AiBehavior {
    pub max_turn_rounds: usize,
    pub max_writes_per_turn: usize,
    pub persona_name: String,
}

#[derive(Debug, Clone, PartialEq, Eq)]
pub struct AiHistory {
    pub length: u64,
    pub ai_channel_length: u64,
}

#[derive(Debug, Clone, PartialEq, Eq)]
pub struct AiMemory {
    pub soul_bytes: usize,
    pub lore_bytes: usize,
    pub user_bytes: usize,
    pub state_bytes: usize,
    pub inject_byte_budget: usize,
    pub max_state_files: usize,
}

#[derive(Debug, Clone, PartialEq, Eq)]
pub struct AiDreamer {
    pub enabled: bool,
    pub model: Option<String>,
    pub reasoning_effort: Option<String>,
    pub run_at: String,
    pub timeout_secs: u64,
    pub max_rounds: usize,
}

/// History prefill. The threshold is kept as the bit pattern of its `f64`
/// value, which is also how two prefill configurations are compared.
#[derive(Debug, Clone, PartialEq, Eq)]
pub struct AiPrefill {
    pub base_url: String,
    pub threshold_bits: u64,
}

#[derive(Debug, Clone, PartialEq, Eq)]
pub struct AiWeb {
    pub base_url: String,
    pub timeout: u64,
    pub max_results: usize,
    pub max_rounds: usize,
    pub cache_ttl_secs: u64,
    pub cache_capacity: usize,
}

#[derive(Debug, Clone, PartialEq, Eq)]
pub struct AiEmotes {
    pub include_global: bool,
    pub refresh_interval_secs: u64,
    pub max_prompt_emotes: usize,
    pub min_baseline_emotes: usize,
    pub base_url: Option<String>,
}

/// Media analysis settings; the size caps are byte counts.
#[derive(Debug, Clone, PartialEq, Eq)]
pub struct AiMedia {
    pub model: String,
    pub timeout: u64,
    pub max_image_size: u64,
    pub max_pdf_size: u64,
    pub max_audio_size: u64,
    pub max_video_size: u64,
    pub max_text_size: u64,
}

/// Content buckets a fetched payload is sorted into.
#[derive(Debug, Clone, Copy, PartialEq, Eq)]
pub enum Bucket {
    Image,
    Pdf,
    Audio,
    Video,
    Text,
}

/// A section of the settings page that can be reset on its own.
#[derive(Debug, Clone, Copy, PartialEq, Eq)]
pub enum SettingsSection {
    Cooldowns,
    Pings,
    AiConnection,
    AiBehavior,
    AiHistory,
    AiMemory,
    AiDreamer,
    AiPrefill,
    AiWeb,
    AiEmotes,
    AiMedia,
}

/// Who made a change, as the audit log records it.
#[derive(Debug, Clone, PartialEq, Eq)]
pub struct Actor {
    pub user_id: String,
    pub user_login: String,
}

/// One validation failure: the dotted field path and a human message.
#[derive(Debug, Clone, PartialEq, Eq)]
pub struct FieldError {
    pub field: String,
    pub message: String,
}

impl View for FieldError {
    type V = (Seq<char>, Seq<char>);

    open spec fn view(&self) -> (Seq<char>, Seq<char>) {
        (self.field@, self.message@)
    }
}

// ---------------------------------------------------------------------------
// Small helpers
// ---------------------------------------------------------------------------

/// `Option::unwrap_or` in specifications.
pub open spec fn or_else<T>(o: Option<T>, d: T) -> T {
    match o {
        Some(v) => v,
        None => d,
    }
}

/// A copy of an optional string.
pub fn clone_opt(o: &Option<String>) -> (r: Option<String>)
    ensures
        r == *o,
{
    match o {
        Some(s) => Some(s.clone()),
        None => None,
    }
}

/// `o.clone().unwrap_or(d.clone())` for strings.
pub fn pick_string(o: &Option<String>, d: &String) -> (r: String)
    ensures
        r == or_else(*o, *d),
{
    match o {
        Some(s) => s.clone(),
        None => d.clone(),
    }
}

/// `o.clone().unwrap_or(d.clone())` for optional strings.
pub fn pick_opt_string(o: &Option<Option<String>>, d: &Option<String>) -> (r: Option<String>)
    ensures
        r == or_else(*o, *d),
{
    match o {
        Some(v) => clone_opt(v),
        None => clone_opt(d),
    }
}

pub fn pick_u64(o: Option<u64>, d: u64) -> (r: u64)
    ensures
        r == or_else(o, d),
{
    match o {
        Some(v) => v,
        None => d,
    }
}

pub fn pick_usize(o: Option<usize>, d: usize) -> (r: usize)
    ensures
        r == or_else(o, d),
{
    match o {
        Some(v) => v,
        None => d,
    }
}

pub fn pick_bool(o: Option<bool>, d: bool) -> (r: bool)
    ensures
        r == or_else(o, d),
{
    match o {
        Some(v) => v,
        None => d,
    }
}

// ---------------------------------------------------------------------------
// Defaults
// ---------------------------------------------------------------------------

impl AiBackendKind {
    /// Stable lowercase name, as used on the settings page.
    pub fn as_str(self) -> (r: &'static str)
        ensures
            self == AiBackendKind::OpenAi ==> r@ == "openai"@,
            self == AiBackendKind::Ollama ==> r@ == "ollama"@,
    {
        match self {
            AiBackendKind::OpenAi => "openai",
            AiBackendKind::Ollama => "ollama",
        }
    }
}

impl Default for AiConnection {
    fn default() -> (r: Self)
        ensures
            r.backend == AiBackendKind::OpenAi,
            r.base_url is None,
            r.model@ == Seq::<char>::empty(),
            r.timeout == 30,
            r.reasoning_effort is None,
    {
        AiConnection {
            backend: AiBackendKind::OpenAi,
            base_url: None,
            model: String::new(),
            timeout: 30,
            reasoning_effort: None,
        }
    }
}

impl Default for AiBehavior {
    fn default() -> (r: Self)
        ensures
            r.max_turn_rounds == 4,
            r.max_writes_per_turn == 8,
            r.persona_name@ == "Aurora"@,
    {
        AiBehavior {
            max_turn_rounds: 4,
            max_writes_per_turn: 8,
            persona_name: String::from_str("Aurora"),
        }
    }
}

impl Default for AiHistory {
    fn default() -> (r: Self)
        ensures
            r.length == DEFAULT_HISTORY_LENGTH,
            r.ai_channel_length == 50,
    {
        AiHistory { length: DEFAULT_HISTORY_LENGTH, ai_channel_length: 50 }
    }
}

impl Default for AiMemory {
    fn default() -> (r: Self)
        ensures
            r == (AiMemory {
                soul_bytes: 4096,
                lore_bytes: 12288,
                user_bytes: 4096,
                state_bytes: 2048,
                inject_byte_budget: 24576,
                max_state_files: 16,
            }),
    {
        AiMemory {
            soul_bytes: 4096,
            lore_bytes: 12288,
            user_bytes: 4096,
            state_bytes: 2048,
            inject_byte_budget: 24576,
            max_state_files: 16,
        }
    }
}

impl Default for AiDreamer {
    fn default() -> (r: Self)
        ensures
            r.enabled,
            r.model is None,
            r.reasoning_effort is None,
            r.run_at@ == "04:00"@,
            r.timeout_secs == 120,
            r.max_rounds == 20,
    {
        AiDreamer {
            enabled: true,
            model: None,
            reasoning_effort: None,
            run_at: String::from_str("04:00"),
            timeout_secs: 120,
            max_rounds: 20,
        }
    }
}

impl Default for AiPrefill {
    fn default() -> (r: Self)
        ensures
            r.base_url@ == "https://logs.zonian.dev"@,
            r.threshold_bits == THRESHOLD_HALF_BITS,
    {
        AiPrefill {
            base_url: String::from_str("https://logs.zonian.dev"),
            threshold_bits: THRESHOLD_HALF_BITS,
        }
    }
}

impl Default for AiWeb {
    fn default() -> (r: Self)
        ensures
            r.base_url@ == "http://localhost:8080/search"@,
            r.timeout == 15,
            r.max_results == 5,
            r.max_rounds == 3,
            r.cache_ttl_secs == 300,
            r.cache_capacity == 100,
    {
        AiWeb {
            base_url: String::from_str("http://localhost:8080/search"),
            timeout: 15,
            max_results: 5,
            max_rounds: 3,
            cache_ttl_secs: 300,
            cache_capacity: 100,
        }
    }
}

impl Default for AiEmotes {
    fn default() -> (r: Self)
        ensures
            r == (AiEmotes {
                include_global: true,
                refresh_interval_secs: 3600,
                max_prompt_emotes: 12,
                min_baseline_emotes: 4,
                base_url: None,
            }),
    {
        AiEmotes {
            include_global: true,
            refresh_interval_secs: 3600,
            max_prompt_emotes: 12,
            min_baseline_emotes: 4,
            base_url: None,
        }
    }
}

impl Default for AiMedia {
    fn default() -> (r: Self)
        ensures
            r.model@ == "~google/gemini-flash-latest"@,
            r.timeout == 60,
            r.max_image_size == 10 * MIB,
            r.max_pdf_size == 25 * MIB,
            r.max_audio_size == 25 * MIB,
            r.max_video_size == 50 * MIB,
            r.max_text_size == MIB,
    {
        AiMedia {
            model: String::from_str("~google/gemini-flash-latest"),
            timeout: 60,
            max_image_size: 10 * MIB,
            max_pdf_size: 25 * MIB,
            max_audio_size: 25 * MIB,
            max_video_size: 50 * MIB,
            max_text_size: MIB,
        }
    }
}

impl AiMedia {
    /// The size cap, in bytes, for payloads of `bucket`.
    pub fn cap_for(&self, bucket: Bucket) -> (r: u64)
        ensures
            r == match bucket {
                Bucket::Image => self.max_image_size,
                Bucket::Pdf => self.max_pdf_size,
                Bucket::Audio => self.max_audio_size,
                Bucket::Video => self.max_video_size,
                Bucket::Text => self.max_text_size,
            },
    {
        match bucket {
            Bucket::Image => self.max_image_size,
            Bucket::Pdf => self.max_pdf_size,
            Bucket::Audio => self.max_audio_size,
            Bucket::Video => self.max_video_size,
            Bucket::Text => self.max_text_size,
        }
    }
}

/// The AI defaults that hold before any dashboard override.
pub open spec fn ai_defaults(a: AiSettings) -> bool {
    &&& a.connection.backend == AiBackendKind::OpenAi
    &&& a.connection.base_url is None
    &&& a.connection.model@ == Seq::<char>::empty()
    &&& a.connection.timeout == 30
    &&& a.connection.reasoning_effort is None
    &&& a.behavior.max_turn_rounds == 4
    &&& a.behavior.max_writes_per_turn == 8
    &&& a.behavior.persona_name@ == "Aurora"@
    &&& a.history.length == DEFAULT_HISTORY_LENGTH
    &&& a.history.ai_channel_length == 50
    &&& a.memory == (AiMemory {
        soul_bytes: 4096,
        lore_bytes: 12288,
        user_bytes: 4096,
        state_bytes: 2048,
        inject_byte_budget: 24576,
        max_state_files: 16,
    })
    &&& a.dreamer.enabled
    &&& a.dreamer.model is None
    &&& a.dreamer.reasoning_effort is None
    &&& a.dreamer.run_at@ == "04:00"@
    &&& a.dreamer.timeout_secs == 120
    &&& a.dreamer.max_rounds == 20
    &&& a.prefill is None
    &&& a.web is None
    &&& a.emotes is None
    &&& a.media.model@ == "~google/gemini-flash-latest"@
    &&& a.media.timeout == 60
    &&& a.media.max_image_size == 10 * MIB
    &&& a.media.max_pdf_size == 25 * MIB
    &&& a.media.max_audio_size == 25 * MIB
    &&& a.media.max_video_size == 50 * MIB
    &&& a.media.max_text_size == MIB
}

impl Default for AiSettings {
    fn default() -> (r: Self)
        ensures
            ai_defaults(r),
    {
        AiSettings {
            connection: AiConnection::default(),
            behavior: AiBehavior::default(),
            history: AiHistory::default(),
            memory: AiMemory::default(),
            dreamer: AiDreamer::default(),
            prefill: None,
            web: None,
            emotes: None,
            media: AiMedia::default(),
        }
    }
}

/// The compile-time settings every deployment starts from.
pub open spec fn compiled_defaults_spec(s: Settings) -> bool {
    &&& s.schema_version == SCHEMA_VERSION
    &&& s.cooldowns == (Cooldowns { ai: 30, news: 60, up: 30, feedback: 300, doener: 30 })
    &&& s.pings == (PingsSettings { cooldown: 300, public: false })
    &&& ai_defaults(s.ai)
}

// ---------------------------------------------------------------------------
// Resolution of overrides against defaults
// ---------------------------------------------------------------------------

pub open spec fn resolve_connection(d: AiConnection, o: AiConnectionOverrides) -> AiConnection {
    AiConnection {
        backend: or_else(o.backend, d.backend),
        base_url: or_else(o.base_url, d.base_url),
        model: or_else(o.model, d.model),
        timeout: or_else(o.timeout, d.timeout),
        reasoning_effort: or_else(o.reasoning_effort, d.reasoning_effort),
    }
}

pub open spec fn resolve_behavior(d: AiBehavior, o: AiBehaviorOverrides) -> AiBehavior {
    AiBehavior {
        max_turn_rounds: or_else(o.max_turn_rounds, d.max_turn_rounds),
        max_writes_per_turn: or_else(o.max_writes_per_turn, d.max_writes_per_turn),
        persona_name: or_else(o.persona_name, d.persona_name),
    }
}

pub open spec fn resolve_history(d: AiHistory, o: AiHistoryOverrides) -> AiHistory {
    AiHistory {
        length: or_else(o.length, d.length),
        ai_channel_length: or_else(o.ai_channel_length, d.ai_channel_length),
    }
}

pub open spec fn resolve_memory(d: AiMemory, o: AiMemoryOverrides) -> AiMemory {
    AiMemory {
        soul_bytes: or_else(o.soul_bytes, d.soul_bytes),
        lore_bytes: or_else(o.lore_bytes, d.lore_bytes),
        user_bytes: or_else(o.user_bytes, d.user_bytes),
        state_bytes: or_else(o.state_bytes, d.state_bytes),
        inject_byte_budget: or_else(o.inject_byte_budget, d.inject_byte_budget),
        max_state_files: or_else(o.max_state_files, d.max_state_files),
    }
}

pub open spec fn resolve_dreamer(d: AiDreamer, o: AiDreamerOverrides) -> AiDreamer {
    AiDreamer {
        enabled: or_else(o.enabled, d.enabled),
        model: or_else(o.model, d.model),
        reasoning_effort: or_else(o.reasoning_effort, d.reasoning_effort),
        run_at: or_else(o.run_at, d.run_at),
        timeout_secs: or_else(o.timeout_secs, d.timeout_secs),
        max_rounds: or_else(o.max_rounds, d.max_rounds),
    }
}

pub open spec fn resolve_media(d: AiMedia, o: AiMediaOverrides) -> AiMedia {
    AiMedia {
        model: or_else(o.model, d.model),
        timeout: or_else(o.timeout, d.timeout),
        max_image_size: or_else(o.max_image_size, d.max_image_size),
        max_pdf_size: or_else(o.max_pdf_size, d.max_pdf_size),
        max_audio_size: or_else(o.max_audio_size, d.max_audio_size),
        max_video_size: or_else(o.max_video_size, d.max_video_size),
        max_text_size: or_else(o.max_text_size, d.max_text_size),
    }
}

/// A toggle card is on when its override says so, else when the default
/// block is present.
pub open spec fn card_enabled<T>(d: Option<T>, enabled: Option<bool>) -> bool {
    or_else(enabled, d is Some)
}

pub open spec fn resolve_prefill_spec(d: Option<AiPrefill>, o: AiPrefillOverrides, fallback: AiPrefill)
    -> Option<AiPrefill> {
    if !card_enabled(d, o.enabled) {
        None
    } else {
        let base = or_else(d, fallback);
        Some(
            AiPrefill {
                base_url: or_else(o.base_url, base.base_url),
                threshold_bits: or_else(o.threshold_bits, base.threshold_bits),
            },
        )
    }
}

pub open spec fn resolve_web_spec(d: Option<AiWeb>, o: AiWebOverrides, fallback: AiWeb) -> Option<AiWeb> {
    if !card_enabled(d, o.enabled) {
        None
    } else {
        let base = or_else(d, fallback);
        Some(
            AiWeb {
                base_url: or_else(o.base_url, base.base_url),
                timeout: or_else(o.timeout, base.timeout),
                max_results: or_else(o.max_results, base.max_results),
                max_rounds: or_else(o.max_rounds, base.max_rounds),
                cache_ttl_secs: or_else(o.cache_ttl_secs, base.cache_ttl_secs),
                cache_capacity: or_else(o.cache_capacity, base.cache_capacity),
            },
        )
    }
}

pub open spec fn resolve_emotes_spec(d: Option<AiEmotes>, o: AiEmotesOverrides, fallback: AiEmotes)
    -> Option<AiEmotes> {
    if !card_enabled(d, o.enabled) {
        None
    } else {
        let base = or_else(d, fallback);
        Some(
            AiEmotes {
                include_global: or_else(o.include_global, base.include_global),
                refresh_interval_secs: or_else(o.refresh_interval_secs, base.refresh_interval_secs),
                max_prompt_emotes: or_else(o.max_prompt_emotes, base.max_prompt_emotes),
                min_baseline_emotes: or_else(o.min_baseline_emotes, base.min_baseline_emotes),
                base_url: or_else(o.base_url, base.base_url),
            },
        )
    }
}

/// Every field of the result is the override's value when it is set and the
/// default's value otherwise. A disabled toggle card resolves to `None`; an
/// enabled one without a default block starts from `fallback_*` (the
/// block's own `Default`).
pub open spec fn resolve_ai_spec(
    d: AiSettings,
    o: AiOverrides,
    fallback_prefill: AiPrefill,
    fallback_web: AiWeb,
    fallback_emotes: AiEmotes,
) -> AiSettings {
    AiSettings {
        connection: resolve_connection(d.connection, o.connection),
        behavior: resolve_behavior(d.behavior, o.behavior),
        history: resolve_history(d.history, o.history),
        memory: resolve_memory(d.memory, o.memory),
        dreamer: resolve_dreamer(d.dreamer, o.dreamer),
        prefill: resolve_prefill_spec(d.prefill, o.prefill, fallback_prefill),
        web: resolve_web_spec(d.web, o.web, fallback_web),
        emotes: resolve_emotes_spec(d.emotes, o.emotes, fallback_emotes),
        media: resolve_media(d.media, o.media),
    }
}

/// The `Default` blocks toggle cards start from.
pub open spec fn is_default_prefill(p: AiPrefill) -> bool {
    p.base_url@ == "https://logs.zonian.dev"@ && p.threshold_bits == THRESHOLD_HALF_BITS
}

pub open spec fn is_default_web(w: AiWeb) -> bool {
    &&& w.base_url@ == "http://localhost:8080/search"@
    &&& w.timeout == 15
    &&& w.max_results == 5
    &&& w.max_rounds == 3
    &&& w.cache_ttl_secs == 300
    &&& w.cache_capacity == 100
}

pub open spec fn is_default_emotes(e: AiEmotes) -> bool {
    e == (AiEmotes {
        include_global: true,
        refresh_interval_secs: 3600,
        max_prompt_emotes: 12,
        min_baseline_emotes: 4,
        base_url: None,
    })
}

/// `resolve(defaults, overrides)`, given the fallback blocks it used.
pub open spec fn resolve_spec(
    d: Settings,
    o: SettingsOverrides,
    fallback_prefill: AiPrefill,
    fallback_web: AiWeb,
    fallback_emotes: AiEmotes,
) -> Settings {
    Settings {
        schema_version: SCHEMA_VERSION,
        cooldowns: Cooldowns {
            ai: or_else(o.cooldowns.ai, d.cooldowns.ai),
            news: or_else(o.cooldowns.news, d.cooldowns.news),
            up: or_else(o.cooldowns.up, d.cooldowns.up),
            feedback: or_else(o.cooldowns.feedback, d.cooldowns.feedback),
            doener: or_else(o.cooldowns.doener, d.cooldowns.doener),
        },
        pings: PingsSettings {
            cooldown: or_else(o.pings.cooldown, d.pings.cooldown),
            public: or_else(o.pings.public, d.pings.public),
        },
        ai: resolve_ai_spec(d.ai, o.ai, fallback_prefill, fallback_web, fallback_emotes),
    }
}

/// `r` is what resolving `o` against `d` gives.
pub open spec fn resolves_to(d: Settings, o: SettingsOverrides, r: Settings) -> bool {
    exists|fp: AiPrefill, fw: AiWeb, fe: AiEmotes|
        is_default_prefill(fp) && is_default_web(fw) && is_default_emotes(fe) && r
            == resolve_spec(d, o, fp, fw, fe)
}

fn resolve_connection_exec(d: &AiConnection, o: &AiConnectionOverrides) -> (r: AiConnection)
    ensures
        r == resolve_connection(*d, *o),
{
    AiConnection {
        backend: match o.backend {
            Some(b) => b,
            None => d.backend,
        },
        base_url: pick_opt_string(&o.base_url, &d.base_url),
        model: pick_string(&o.model, &d.model),
        timeout: pick_u64(o.timeout, d.timeout),
        reasoning_effort: pick_opt_string(&o.reasoning_effort, &d.reasoning_effort),
    }
}

fn resolve_dreamer_exec(d: &AiDreamer, o: &AiDreamerOverrides) -> (r: AiDreamer)
    ensures
        r == resolve_dreamer(*d, *o),
{
    AiDreamer {
        enabled: pick_bool(o.enabled, d.enabled),
        model: pick_opt_string(&o.model, &d.model),
        reasoning_effort: pick_opt_string(&o.reasoning_effort, &d.reasoning_effort),
        run_at: pick_string(&o.run_at, &d.run_at),
        timeout_secs: pick_u64(o.timeout_secs, d.timeout_secs),
        max_rounds: pick_usize(o.max_rounds, d.max_rounds),
    }
}

fn resolve_media_exec(d: &AiMedia, o: &AiMediaOverrides) -> (r: AiMedia)
    ensures
        r == resolve_media(*d, *o),
{
    AiMedia {
        model: pick_string(&o.model, &d.model),
        timeout: pick_u64(o.timeout, d.timeout),
        max_image_size: pick_u64(o.max_image_size, d.max_image_size),
        max_pdf_size: pick_u64(o.max_pdf_size, d.max_pdf_size),
        max_audio_size: pick_u64(o.max_audio_size, d.max_audio_size),
        max_video_size: pick_u64(o.max_video_size, d.max_video_size),
        max_text_size: pick_u64(o.max_text_size, d.max_text_size),
    }
}

/// Resolves the prefill toggle card.
pub fn resolve_prefill(d: &Option<AiPrefill>, o: &AiPrefillOverrides) -> (r: Option<AiPrefill>)
    ensures
        exists|fp: AiPrefill| #![trigger resolve_prefill_spec(*d, *o, fp)] is_default_prefill(fp) && r == resolve_prefill_spec(*d, *o, fp),
{
    let fallback = AiPrefill::default();
    let enabled = pick_bool(o.enabled, d.is_some());
    if !enabled {
        assert(is_default_prefill(fallback));
        assert(resolve_prefill_spec(*d, *o, fallback) is None);
        return None;
    }
    let base_url;
    let threshold_bits;
    match d {
        Some(p) => {
            base_url = pick_string(&o.base_url, &p.base_url);
            threshold_bits = pick_u64(o.threshold_bits, p.threshold_bits);
        },
        None => {
            base_url = pick_string(&o.base_url, &fallback.base_url);
            threshold_bits = pick_u64(o.threshold_bits, fallback.threshold_bits);
        },
    }
    let r = Some(AiPrefill { base_url, threshold_bits });
    assert(is_default_prefill(fallback));
    assert(r == resolve_prefill_spec(*d, *o, fallback));
    r
}

/// Resolves the web toggle card.
pub fn resolve_web(d: &Option<AiWeb>, o: &AiWebOverrides) -> (r: Option<AiWeb>)
    ensures
        exists|fw: AiWeb| #![trigger resolve_web_spec(*d, *o, fw)] is_default_web(fw) && r == resolve_web_spec(*d, *o, fw),
{
    let fallback = AiWeb::default();
    let enabled = pick_bool(o.enabled, d.is_some());
    if !enabled {
        assert(is_default_web(fallback));
        assert(resolve_web_spec(*d, *o, fallback) is None);
        return None;
    }
    let r = match d {
        Some(b) => Some(
            AiWeb {
                base_url: pick_string(&o.base_url, &b.base_url),
                timeout: pick_u64(o.timeout, b.timeout),
                max_results: pick_usize(o.max_results, b.max_results),
                max_rounds: pick_usize(o.max_rounds, b.max_rounds),
                cache_ttl_secs: pick_u64(o.cache_ttl_secs, b.cache_ttl_secs),
                cache_capacity: pick_usize(o.cache_capacity, b.cache_capacity),
            },
        ),
        None => Some(
            AiWeb {
                base_url: pick_string(&o.base_url, &fallback.base_url),
                timeout: pick_u64(o.timeout, fallback.timeout),
                max_results: pick_usize(o.max_results, fallback.max_results),
                max_rounds: pick_usize(o.max_rounds, fallback.max_rounds),
                cache_ttl_secs: pick_u64(o.cache_ttl_secs, fallback.cache_ttl_secs),
                cache_capacity: pick_usize(o.cache_capacity, fallback.cache_capacity),
            },
        ),
    };
    assert(is_default_web(fallback));
    assert(r == resolve_web_spec(*d, *o, fallback));
    r
}

/// Resolves the emotes toggle card.
pub fn resolve_emotes(d: &Option<AiEmotes>, o: &AiEmotesOverrides) -> (r: Option<AiEmotes>)
    ensures
        exists|fe: AiEmotes| #![trigger resolve_emotes_spec(*d, *o, fe)] is_default_emotes(fe) && r == resolve_emotes_spec(*d, *o, fe),
{
    let fallback = AiEmotes::default();
    let enabled = pick_bool(o.enabled, d.is_some());
    if !enabled {
        assert(is_default_emotes(fallback));
        assert(resolve_emotes_spec(*d, *o, fallback) is None);
        return None;
    }
    let r = match d {
        Some(b) => Some(
            AiEmotes {
                include_global: pick_bool(o.include_global, b.include_global),
                refresh_interval_secs: pick_u64(o.refresh_interval_secs, b.refresh_interval_secs),
                max_prompt_emotes: pick_usize(o.max_prompt_emotes, b.max_prompt_emotes),
                min_baseline_emotes: pick_usize(o.min_baseline_emotes, b.min_baseline_emotes),
                base_url: pick_opt_string(&o.base_url, &b.base_url),
            },
        ),
        None => Some(
            AiEmotes {
                include_global: pick_bool(o.include_global, fallback.include_global),
                refresh_interval_secs: pick_u64(
                    o.refresh_interval_secs,
                    fallback.refresh_interval_secs,
                ),
                max_prompt_emotes: pick_usize(o.max_prompt_emotes, fallback.max_prompt_emotes),
                min_baseline_emotes: pick_usize(
                    o.min_baseline_emotes,
                    fallback.min_baseline_emotes,
                ),
                base_url: pick_opt_string(&o.base_url, &fallback.base_url),
            },
        ),
    };
    assert(is_default_emotes(fallback));
    assert(r == resolve_emotes_spec(*d, *o, fallback));
    r
}

/// Resolves the whole AI block.
pub fn resolve_ai(d: &AiSettings, o: &AiOverrides) -> (r: AiSettings)
    ensures
        exists|fp: AiPrefill, fw: AiWeb, fe: AiEmotes|
            is_default_prefill(fp) && is_default_web(fw) && is_default_emotes(fe) && r
                == resolve_ai_spec(*d, *o, fp, fw, fe),
{
    let prefill = resolve_prefill(&d.prefill, &o.prefill);
    let web = resolve_web(&d.web, &o.web);
    let emotes = resolve_emotes(&d.emotes, &o.emotes);
    let r = AiSettings {
        connection: resolve_connection_exec(&d.connection, &o.connection),
        behavior: AiBehavior {
            max_turn_rounds: pick_usize(o.behavior.max_turn_rounds, d.behavior.max_turn_rounds),
            max_writes_per_turn: pick_usize(
                o.behavior.max_writes_per_turn,
                d.behavior.max_writes_per_turn,
            ),
            persona_name: pick_string(&o.behavior.persona_name, &d.behavior.persona_name),
        },
        history: AiHistory {
            length: pick_u64(o.history.length, d.history.length),
            ai_channel_length: pick_u64(o.history.ai_channel_length, d.history.ai_channel_length),
        },
        memory: AiMemory {
            soul_bytes: pick_usize(o.memory.soul_bytes, d.memory.soul_bytes),
            lore_bytes: pick_usize(o.memory.lore_bytes, d.memory.lore_bytes),
            user_bytes: pick_usize(o.memory.user_bytes, d.memory.user_bytes),
            state_bytes: pick_usize(o.memory.state_bytes, d.memory.state_bytes),
            inject_byte_budget: pick_usize(o.memory.inject_byte_budget, d.memory.inject_byte_budget),
            max_state_files: pick_usize(o.memory.max_state_files, d.memory.max_state_files),
        },
        dreamer: resolve_dreamer_exec(&d.dreamer, &o.dreamer),
        prefill,
        web,
        emotes,
        media: resolve_media_exec(&d.media, &o.media),
    };
    let ghost fp = choose|fp: AiPrefill| is_default_prefill(fp) && prefill == resolve_prefill_spec(d.prefill, o.prefill, fp);
    let ghost fw = choose|fw: AiWeb| is_default_web(fw) && web == resolve_web_spec(d.web, o.web, fw);
    let ghost fe = choose|fe: AiEmotes| is_default_emotes(fe) && emotes == resolve_emotes_spec(d.emotes, o.emotes, fe);
    assert(r == resolve_ai_spec(*d, *o, fp, fw, fe));
    r
}

impl Settings {
    /// The compile-time defaults.
    pub fn compiled_defaults() -> (r: Settings)
        ensures
            compiled_defaults_spec(r),
    {
        Settings {
            schema_version: SCHEMA_VERSION,
            cooldowns: Cooldowns { ai: 30, news: 60, up: 30, feedback: 300, doener: 30 },
            pings: PingsSettings { cooldown: 300, public: false },
            ai: AiSettings::default(),
        }
    }

    /// Overlays the sparse `overrides` on `defaults`.
    pub fn resolve(defaults: &Settings, overrides: &SettingsOverrides) -> (r: Settings)
        ensures
            resolves_to(*defaults, *overrides, r),
    {
        let ai = resolve_ai(&defaults.ai, &overrides.ai);
        let r = Settings {
            schema_version: SCHEMA_VERSION,
            cooldowns: Cooldowns {
                ai: pick_u64(overrides.cooldowns.ai, defaults.cooldowns.ai),
                news: pick_u64(overrides.cooldowns.news, defaults.cooldowns.news),
                up: pick_u64(overrides.cooldowns.up, defaults.cooldowns.up),
                feedback: pick_u64(overrides.cooldowns.feedback, defaults.cooldowns.feedback),
                doener: pick_u64(overrides.cooldowns.doener, defaults.cooldowns.doener),
            },
            pings: PingsSettings {
                cooldown: pick_u64(overrides.pings.cooldown, defaults.pings.cooldown),
                public: pick_bool(overrides.pings.public, defaults.pings.public),
            },
            ai,
        };
        let ghost (fp, fw, fe) = choose|fp: AiPrefill, fw: AiWeb, fe: AiEmotes|
            is_default_prefill(fp) && is_default_web(fw) && is_default_emotes(fe) && ai
                == resolve_ai_spec(defaults.ai, overrides.ai, fp, fw, fe);
        assert(r == resolve_spec(*defaults, *overrides, fp, fw, fe));
        r
    }
}

} // verus!
