//! Validation of resolved settings.
//!
//! `validate_with` collects every violated bound, in a fixed order, as
//! `FieldError`s. The three answers that come from outside parsers (is the
//! dreamer time `HH:MM`, does a base URL parse) are inputs of
//! `validate_with`; `Settings::validate` asks the parsers and passes them on.
use vstd::prelude::*;

use crate::settings::{AiSettings, FieldError, Settings, MAX_HISTORY_LENGTH};
use crate::text::{blank, decimal, decimal_string, is_blank};

verus! {

/// What chrono's `NaiveTime::parse_from_str(s, fmt)` accepts.
pub uninterp spec fn time_parses(s: Seq<char>, fmt: Seq<char>) -> bool;

/// Whether `s` is a time of day in `%H:%M` form.
pub open spec fn hh_mm_parses(s: Seq<char>) -> bool {
    time_parses(s, "%H:%M"@)
}

/// What `url::Url::parse` accepts.
pub uninterp spec fn url_parses(s: Seq<char>) -> bool;

/// The `Debug` rendering of a string (quoted and escaped).
pub uninterp spec fn debug_quoted(s: Seq<char>) -> Seq<char>;

/// Whether `s` parses as a time of day in the chrono format `fmt`
/// (`chrono::NaiveTime::parse_from_str(s, fmt).is_ok()`).
#[verifier::external_body]
fn parses_as_time(s: &str, fmt: &str) -> (r: bool)
    ensures
        r == time_parses(s@, fmt@),
{
    chrono::NaiveTime::parse_from_str(s, fmt).is_ok()
}

/// Whether `s` is a time of day in `%H:%M` form.
pub(crate) fn parses_as_hh_mm(s: &str) -> (r: bool)
    ensures
        r == hh_mm_parses(s@),
{
    parses_as_time(s, "%H:%M")
}

/// Whether `s` parses as an absolute URL (`url::Url::parse(s).is_ok()`).
#[verifier::external_body]
pub(crate) fn parses_as_url(s: &str) -> (r: bool)
    ensures
        r == url_parses(s@),
{
    url::Url::parse(s).is_ok()
}

/// `format!("{s:?}")`: the string quoted, with std's escapes.
#[verifier::external_body]
pub(crate) fn debug_string(s: &str) -> (r: String)
    ensures
        r@ == debug_quoted(s@),
{
    format!("{s:?}")
}

/// Answers of the outside parsers, and the `Display` text of the prefill
/// threshold, that validation needs.
pub struct ValidationChecks {
    /// `ai.dreamer.run_at` is a valid `%H:%M` time.
    pub run_at_ok: bool,
    /// `ai.connection.base_url`, when set, parses as a URL.
    pub connection_url_ok: bool,
    /// `ai.prefill.base_url`, when prefill is on, parses as a URL.
    pub prefill_url_ok: bool,
    /// `ai.web.base_url`, when web tools are on, parses as a URL.
    pub web_url_ok: bool,
    /// How the prefill threshold prints.
    pub threshold_text: String,
}

pub type ErrSeq = Seq<(Seq<char>, Seq<char>)>;

pub open spec fn views(v: Seq<FieldError>) -> ErrSeq {
    v.map_values(|e: FieldError| e@)
}

/// One entry when `cond` holds, none otherwise.
pub open spec fn when(cond: bool, field: Seq<char>, msg: Seq<char>) -> ErrSeq {
    if cond {
        seq![(field, msg)]
    } else {
        Seq::empty()
    }
}

/// "must be LO..=HI seconds (got V)" when `v` is outside `lo..=hi`.
pub open spec fn bound_err(field: Seq<char>, v: u64, lo: u64, hi: u64) -> ErrSeq {
    when(
        v < lo || v > hi,
        field,
        "must be "@ + decimal(lo as nat) + "..="@ + decimal(hi as nat) + " seconds (got "@
            + decimal(v as nat) + ")"@,
    )
}

/// "must be LO..=HI (got V)" when `v` is outside `lo..=hi`.
pub open spec fn range_err(field: Seq<char>, v: usize, lo: usize, hi: usize) -> ErrSeq {
    when(
        v < lo || v > hi,
        field,
        "must be "@ + decimal(lo as nat) + "..="@ + decimal(hi as nat) + " (got "@ + decimal(
            v as nat,
        ) + ")"@,
    )
}

pub open spec fn cooldown_errors(s: Settings) -> ErrSeq {
    bound_err("cooldowns.ai"@, s.cooldowns.ai, 1, 3600) + bound_err(
        "cooldowns.news"@,
        s.cooldowns.news,
        1,
        3600,
    ) + bound_err("cooldowns.up"@, s.cooldowns.up, 1, 3600) + bound_err(
        "cooldowns.feedback"@,
        s.cooldowns.feedback,
        1,
        3600,
    ) + bound_err("cooldowns.doener"@, s.cooldowns.doener, 1, 3600) + bound_err(
        "pings.cooldown"@,
        s.pings.cooldown,
        1,
        86400,
    )
}

/// A set optional string that is blank.
pub open spec fn set_but_blank(o: Option<String>) -> bool {
    o matches Some(v) && blank(v@)
}

pub open spec fn behavior_errors(ai: AiSettings) -> ErrSeq {
    range_err("ai.behavior.max_turn_rounds"@, ai.behavior.max_turn_rounds, 1, 20) + range_err(
        "ai.behavior.max_writes_per_turn"@,
        ai.behavior.max_writes_per_turn,
        1,
        64,
    ) + when(blank(ai.behavior.persona_name@), "ai.behavior.persona_name"@, "must not be empty"@)
}

pub open spec fn history_memory_errors(ai: AiSettings) -> ErrSeq {
    when(
        ai.history.length > MAX_HISTORY_LENGTH,
        "ai.history.length"@,
        "must be <= "@ + decimal(MAX_HISTORY_LENGTH as nat),
    ) + when(
        ai.history.ai_channel_length > MAX_HISTORY_LENGTH,
        "ai.history.ai_channel_length"@,
        "must be <= "@ + decimal(MAX_HISTORY_LENGTH as nat),
    ) + when(
        ai.memory.inject_byte_budget < ai.memory.soul_bytes + ai.memory.lore_bytes,
        "ai.memory.inject_byte_budget"@,
        "must be >= soul_bytes + lore_bytes"@,
    )
}

pub open spec fn dreamer_errors(ai: AiSettings, c: ValidationChecks) -> ErrSeq {
    range_err("ai.dreamer.max_rounds"@, ai.dreamer.max_rounds, 1, 200) + when(
        ai.dreamer.timeout_secs == 0,
        "ai.dreamer.timeout_secs"@,
        "must be > 0"@,
    ) + when(
        !c.run_at_ok,
        "ai.dreamer.run_at"@,
        "must be HH:MM (got "@ + debug_quoted(ai.dreamer.run_at@) + ")"@,
    )
}

pub open spec fn connection_errors(ai: AiSettings, c: ValidationChecks) -> ErrSeq {
    when(
        set_but_blank(ai.connection.reasoning_effort),
        "ai.connection.reasoning_effort"@,
        "must be non-empty when set"@,
    ) + when(
        set_but_blank(ai.dreamer.reasoning_effort),
        "ai.dreamer.reasoning_effort"@,
        "must be non-empty when set"@,
    ) + when(
        ai.connection.base_url is Some && !c.connection_url_ok,
        "ai.connection.base_url"@,
        "must be a valid URL (got "@ + debug_quoted(ai.connection.base_url->0@) + ")"@,
    ) + when(ai.connection.timeout == 0, "ai.connection.timeout"@, "must be > 0"@)
}

/// The bit pattern of an `f64` in `0.0..=1.0` (negative zero included).
pub open spec fn unit_interval_bits(bits: u64) -> bool {
    bits <= 0x3ff0000000000000 || bits == 0x8000000000000000
}

pub open spec fn prefill_errors(ai: AiSettings, c: ValidationChecks) -> ErrSeq {
    match ai.prefill {
        None => Seq::empty(),
        Some(p) => when(
            !c.prefill_url_ok,
            "ai.prefill.base_url"@,
            "must be a valid URL (got "@ + debug_quoted(p.base_url@) + ")"@,
        ) + when(
            !unit_interval_bits(p.threshold_bits),
            "ai.prefill.threshold"@,
            "must be 0.0..=1.0 (got "@ + c.threshold_text@ + ")"@,
        ) + when(ai.history.length == 0, "ai.prefill"@, "requires ai.history.length > 0"@),
    }
}

pub open spec fn web_errors(ai: AiSettings, c: ValidationChecks) -> ErrSeq {
    match ai.web {
        None => Seq::empty(),
        Some(w) => when(
            !c.web_url_ok,
            "ai.web.base_url"@,
            "must be a valid URL (got "@ + debug_quoted(w.base_url@) + ")"@,
        ) + range_err("ai.web.max_results"@, w.max_results, 1, 10) + range_err(
            "ai.web.max_rounds"@,
            w.max_rounds,
            1,
            6,
        ) + when(w.cache_capacity == 0, "ai.web.cache_capacity"@, "must be > 0"@),
    }
}

pub open spec fn emotes_errors(ai: AiSettings) -> ErrSeq {
    match ai.emotes {
        None => Seq::empty(),
        Some(e) => when(
            e.refresh_interval_secs == 0,
            "ai.emotes.refresh_interval_secs"@,
            "must be > 0"@,
        ) + range_err("ai.emotes.max_prompt_emotes"@, e.max_prompt_emotes, 1, 200) + when(
            e.min_baseline_emotes > e.max_prompt_emotes,
            "ai.emotes.min_baseline_emotes"@,
            "must be <= max_prompt_emotes"@,
        ) + when(
            set_but_blank(e.base_url),
            "ai.emotes.base_url"@,
            "must be non-empty when set"@,
        ),
    }
}

pub open spec fn ai_errors(ai: AiSettings, c: ValidationChecks) -> ErrSeq {
    behavior_errors(ai) + history_memory_errors(ai) + dreamer_errors(ai, c) + connection_errors(
        ai,
        c,
    )
        + prefill_errors(ai, c) + web_errors(ai, c) + emotes_errors(ai)
}

/// Every violated bound of `s`, in the order the checks run.
pub open spec fn settings_errors(s: Settings, c: ValidationChecks) -> ErrSeq {
    cooldown_errors(s) + ai_errors(s.ai, c)
}

/// Each check in order: its field, its message, and whether it is violated.
pub type CheckSeq = Seq<(Seq<char>, Seq<char>, bool)>;

/// One check of `field`, violated when `cond` holds.
pub open spec fn check(cond: bool, field: Seq<char>, msg: Seq<char>) -> CheckSeq {
    seq![(field, msg, cond)]
}

pub open spec fn bound_check(field: Seq<char>, v: u64, lo: u64, hi: u64) -> CheckSeq {
    check(
        v < lo || v > hi,
        field,
        "must be "@ + decimal(lo as nat) + "..="@ + decimal(hi as nat) + " seconds (got "@
            + decimal(v as nat) + ")"@,
    )
}

pub open spec fn range_check(field: Seq<char>, v: usize, lo: usize, hi: usize) -> CheckSeq {
    check(
        v < lo || v > hi,
        field,
        "must be "@ + decimal(lo as nat) + "..="@ + decimal(hi as nat) + " (got "@ + decimal(
            v as nat,
        ) + ")"@,
    )
}

pub open spec fn cooldown_checks(s: Settings) -> CheckSeq {
    bound_check("cooldowns.ai"@, s.cooldowns.ai, 1, 3600) + bound_check(
        "cooldowns.news"@,
        s.cooldowns.news,
        1,
        3600,
    ) + bound_check("cooldowns.up"@, s.cooldowns.up, 1, 3600) + bound_check(
        "cooldowns.feedback"@,
        s.cooldowns.feedback,
        1,
        3600,
    ) + bound_check("cooldowns.doener"@, s.cooldowns.doener, 1, 3600) + bound_check(
        "pings.cooldown"@,
        s.pings.cooldown,
        1,
        86400,
    )
}

pub open spec fn behavior_checks(ai: AiSettings) -> CheckSeq {
    range_check("ai.behavior.max_turn_rounds"@, ai.behavior.max_turn_rounds, 1, 20) + range_check(
        "ai.behavior.max_writes_per_turn"@,
        ai.behavior.max_writes_per_turn,
        1,
        64,
    ) + check(blank(ai.behavior.persona_name@), "ai.behavior.persona_name"@, "must not be empty"@)
}

pub open spec fn history_memory_checks(ai: AiSettings) -> CheckSeq {
    check(
        ai.history.length > MAX_HISTORY_LENGTH,
        "ai.history.length"@,
        "must be <= "@ + decimal(MAX_HISTORY_LENGTH as nat),
    ) + check(
        ai.history.ai_channel_length > MAX_HISTORY_LENGTH,
        "ai.history.ai_channel_length"@,
        "must be <= "@ + decimal(MAX_HISTORY_LENGTH as nat),
    ) + check(
        ai.memory.inject_byte_budget < ai.memory.soul_bytes + ai.memory.lore_bytes,
        "ai.memory.inject_byte_budget"@,
        "must be >= soul_bytes + lore_bytes"@,
    )
}

pub open spec fn dreamer_checks(ai: AiSettings, c: ValidationChecks) -> CheckSeq {
    range_check("ai.dreamer.max_rounds"@, ai.dreamer.max_rounds, 1, 200) + check(
        ai.dreamer.timeout_secs == 0,
        "ai.dreamer.timeout_secs"@,
        "must be > 0"@,
    ) + check(
        !c.run_at_ok,
        "ai.dreamer.run_at"@,
        "must be HH:MM (got "@ + debug_quoted(ai.dreamer.run_at@) + ")"@,
    )
}

pub open spec fn connection_checks(ai: AiSettings, c: ValidationChecks) -> CheckSeq {
    check(
        set_but_blank(ai.connection.reasoning_effort),
        "ai.connection.reasoning_effort"@,
        "must be non-empty when set"@,
    ) + check(
        set_but_blank(ai.dreamer.reasoning_effort),
        "ai.dreamer.reasoning_effort"@,
        "must be non-empty when set"@,
    ) + check(
        ai.connection.base_url is Some && !c.connection_url_ok,
        "ai.connection.base_url"@,
        "must be a valid URL (got "@ + debug_quoted(ai.connection.base_url->0@) + ")"@,
    ) + check(ai.connection.timeout == 0, "ai.connection.timeout"@, "must be > 0"@)
}

pub open spec fn prefill_checks(ai: AiSettings, c: ValidationChecks) -> CheckSeq {
    match ai.prefill {
        None => Seq::empty(),
        Some(p) => check(
            !c.prefill_url_ok,
            "ai.prefill.base_url"@,
            "must be a valid URL (got "@ + debug_quoted(p.base_url@) + ")"@,
        ) + check(
            !unit_interval_bits(p.threshold_bits),
            "ai.prefill.threshold"@,
            "must be 0.0..=1.0 (got "@ + c.threshold_text@ + ")"@,
        ) + check(ai.history.length == 0, "ai.prefill"@, "requires ai.history.length > 0"@),
    }
}

pub open spec fn web_checks(ai: AiSettings, c: ValidationChecks) -> CheckSeq {
    match ai.web {
        None => Seq::empty(),
        Some(w) => check(
            !c.web_url_ok,
            "ai.web.base_url"@,
            "must be a valid URL (got "@ + debug_quoted(w.base_url@) + ")"@,
        ) + range_check("ai.web.max_results"@, w.max_results, 1, 10) + range_check(
            "ai.web.max_rounds"@,
            w.max_rounds,
            1,
            6,
        ) + check(w.cache_capacity == 0, "ai.web.cache_capacity"@, "must be > 0"@),
    }
}

pub open spec fn emotes_checks(ai: AiSettings) -> CheckSeq {
    match ai.emotes {
        None => Seq::empty(),
        Some(e) => check(
            e.refresh_interval_secs == 0,
            "ai.emotes.refresh_interval_secs"@,
            "must be > 0"@,
        ) + range_check("ai.emotes.max_prompt_emotes"@, e.max_prompt_emotes, 1, 200) + check(
            e.min_baseline_emotes > e.max_prompt_emotes,
            "ai.emotes.min_baseline_emotes"@,
            "must be <= max_prompt_emotes"@,
        ) + check(
            set_but_blank(e.base_url),
            "ai.emotes.base_url"@,
            "must be non-empty when set"@,
        ),
    }
}

pub open spec fn ai_checks(ai: AiSettings, c: ValidationChecks) -> CheckSeq {
    behavior_checks(ai) + history_memory_checks(ai) + dreamer_checks(ai, c) + connection_checks(
        ai,
        c,
    )
        + prefill_checks(ai, c) + web_checks(ai, c) + emotes_checks(ai)
}

pub open spec fn settings_checks(s: Settings, c: ValidationChecks) -> CheckSeq {
    cooldown_checks(s) + ai_checks(s.ai, c)
}

/// The field and message of every violated check, in order.
pub open spec fn violations(cs: CheckSeq) -> ErrSeq {
    cs.filter(|x: (Seq<char>, Seq<char>, bool)| x.2).map_values(
        |x: (Seq<char>, Seq<char>, bool)| (x.0, x.1),
    )
}

broadcast proof fn lemma_violations_add(a: CheckSeq, b: CheckSeq)
    ensures
        #[trigger] violations(a + b) == violations(a) + violations(b),
{
    Seq::filter_distributes_over_add(a, b, |x: (Seq<char>, Seq<char>, bool)| x.2);
    assert(violations(a + b) =~= violations(a) + violations(b));
}

broadcast proof fn lemma_violations_check(cond: bool, field: Seq<char>, msg: Seq<char>)
    ensures
        #[trigger] violations(check(cond, field, msg)) == when(cond, field, msg),
{
    reveal_with_fuel(Seq::filter, 2);
    assert(check(cond, field, msg).drop_last() =~= CheckSeq::empty());
    assert(violations(check(cond, field, msg)) =~= when(cond, field, msg));
}

/// Validation reports exactly the violated checks, in the order they run:
/// each field appears, with its message, when and only when its own
/// condition fails.
pub proof fn lemma_errors_are_violated_checks(s: Settings, c: ValidationChecks)
    ensures
        settings_errors(s, c) == violations(settings_checks(s, c)),
{
    broadcast use lemma_violations_add, lemma_violations_check;

    let ai = s.ai;
    assert(violations(CheckSeq::empty()) =~= ErrSeq::empty());
    assert(cooldown_errors(s) == violations(cooldown_checks(s)));
    assert(behavior_errors(ai) == violations(behavior_checks(ai)));
    assert(history_memory_errors(ai) == violations(history_memory_checks(ai)));
    assert(dreamer_errors(ai, c) == violations(dreamer_checks(ai, c)));
    assert(connection_errors(ai, c) == violations(connection_checks(ai, c)));
    assert(prefill_errors(ai, c) == violations(prefill_checks(ai, c)));
    assert(web_errors(ai, c) == violations(web_checks(ai, c)));
    assert(emotes_errors(ai) == violations(emotes_checks(ai)));
    assert(ai_errors(ai, c) == violations(ai_checks(ai, c)));
}

// ---------------------------------------------------------------------------
// Executable checks
// ---------------------------------------------------------------------------

fn push_err(errs: &mut Vec<FieldError>, field: &str, message: String)
    ensures
        views(final(errs)@) == views(old(errs)@).push((field@, message@)),
{
    let ghost before = errs@;
    errs.push(FieldError { field: String::from_str(field), message });
    assert(views(errs@) =~= views(before).push((field@, message@)));
}

fn lemma_views_empty(errs: &Vec<FieldError>)
    ensures
        views(errs@) + Seq::<(Seq<char>, Seq<char>)>::empty() == views(errs@),
{
    assert(views(errs@) + Seq::<(Seq<char>, Seq<char>)>::empty() =~= views(errs@));
}

/// Appends `when(cond, field, msg)`.
fn push_when(errs: &mut Vec<FieldError>, cond: bool, field: &str, message: String)
    ensures
        views(final(errs)@) == views(old(errs)@) + when(cond, field@, message@),
{
    let ghost before = views(errs@);
    if cond {
        push_err(errs, field, message);
        assert(before.push((field@, message@)) =~= before + seq![(field@, message@)]);
    } else {
        assert(before + when(cond, field@, message@) =~= before);
    }
}

/// `prefix + middle + suffix` as a `String`.
fn wrap(prefix: &str, middle: &str, suffix: &str) -> (r: String)
    ensures
        r@ == prefix@ + middle@ + suffix@,
{
    let mut s = String::from_str(prefix);
    crate::text::append(&mut s, middle);
    crate::text::append(&mut s, suffix);
    s
}

fn bound(errs: &mut Vec<FieldError>, field: &str, v: u64, lo: u64, hi: u64)
    ensures
        views(final(errs)@) == views(old(errs)@) + bound_err(field@, v, lo, hi),
{
    let ghost before = views(errs@);
    if v < lo || v > hi {
        let mut m = String::from_str("must be ");
        crate::text::append(&mut m, decimal_string(lo).as_str());
        crate::text::append(&mut m, "..=");
        crate::text::append(&mut m, decimal_string(hi).as_str());
        crate::text::append(&mut m, " seconds (got ");
        crate::text::append(&mut m, decimal_string(v).as_str());
        crate::text::append(&mut m, ")");
        push_when(errs, true, field, m);
    } else {
        assert(before + bound_err(field@, v, lo, hi) =~= before);
    }
}

fn range(errs: &mut Vec<FieldError>, field: &str, v: usize, lo: usize, hi: usize)
    ensures
        views(final(errs)@) == views(old(errs)@) + range_err(field@, v, lo, hi),
{
    let ghost before = views(errs@);
    if v < lo || v > hi {
        let mut m = String::from_str("must be ");
        crate::text::append(&mut m, decimal_string(lo as u64).as_str());
        crate::text::append(&mut m, "..=");
        crate::text::append(&mut m, decimal_string(hi as u64).as_str());
        crate::text::append(&mut m, " (got ");
        crate::text::append(&mut m, decimal_string(v as u64).as_str());
        crate::text::append(&mut m, ")");
        push_when(errs, true, field, m);
    } else {
        assert(before + range_err(field@, v, lo, hi) =~= before);
    }
}

fn opt_blank(o: &Option<String>) -> (r: bool)
    ensures
        r == set_but_blank(*o),
{
    match o {
        Some(v) => is_blank(v.as_str()),
        None => false,
    }
}

fn check_cooldowns(s: &Settings, errs: &mut Vec<FieldError>)
    ensures
        views(final(errs)@) == views(old(errs)@) + cooldown_errors(*s),
{
    let ghost e0 = views(errs@);
    bound(errs, "cooldowns.ai", s.cooldowns.ai, 1, 3600);
    bound(errs, "cooldowns.news", s.cooldowns.news, 1, 3600);
    bound(errs, "cooldowns.up", s.cooldowns.up, 1, 3600);
    bound(errs, "cooldowns.feedback", s.cooldowns.feedback, 1, 3600);
    bound(errs, "cooldowns.doener", s.cooldowns.doener, 1, 3600);
    bound(errs, "pings.cooldown", s.pings.cooldown, 1, 86400);
    assert(views(errs@) =~= e0 + cooldown_errors(*s));
}

fn check_behavior(ai: &AiSettings, errs: &mut Vec<FieldError>)
    ensures
        views(final(errs)@) == views(old(errs)@) + behavior_errors(*ai),
{
    let ghost e0 = views(errs@);
    range(errs, "ai.behavior.max_turn_rounds", ai.behavior.max_turn_rounds, 1, 20);
    range(errs, "ai.behavior.max_writes_per_turn", ai.behavior.max_writes_per_turn, 1, 64);
    push_when(
        errs,
        is_blank(ai.behavior.persona_name.as_str()),
        "ai.behavior.persona_name",
        String::from_str("must not be empty"),
    );
    assert(views(errs@) =~= e0 + behavior_errors(*ai));
}

fn check_history_memory(ai: &AiSettings, errs: &mut Vec<FieldError>)
    ensures
        views(final(errs)@) == views(old(errs)@) + history_memory_errors(*ai),
{
    let ghost e0 = views(errs@);
    let max_text = decimal_string(MAX_HISTORY_LENGTH);
    push_when(
        errs,
        ai.history.length > MAX_HISTORY_LENGTH,
        "ai.history.length",
        crate::text::concat("must be <= ", max_text.as_str()),
    );
    push_when(
        errs,
        ai.history.ai_channel_length > MAX_HISTORY_LENGTH,
        "ai.history.ai_channel_length",
        crate::text::concat("must be <= ", max_text.as_str()),
    );
    let sum: u128 = ai.memory.soul_bytes as u128 + ai.memory.lore_bytes as u128;
    push_when(
        errs,
        (ai.memory.inject_byte_budget as u128) < sum,
        "ai.memory.inject_byte_budget",
        String::from_str("must be >= soul_bytes + lore_bytes"),
    );
    assert(views(errs@) =~= e0 + history_memory_errors(*ai));
}

fn check_dreamer(ai: &AiSettings, c: &ValidationChecks, errs: &mut Vec<FieldError>)
    ensures
        views(final(errs)@) == views(old(errs)@) + dreamer_errors(*ai, *c),
{
    let ghost e0 = views(errs@);
    range(errs, "ai.dreamer.max_rounds", ai.dreamer.max_rounds, 1, 200);
    push_when(
        errs,
        ai.dreamer.timeout_secs == 0,
        "ai.dreamer.timeout_secs",
        String::from_str("must be > 0"),
    );
    let ghost e2 = views(errs@);
    if !c.run_at_ok {
        let shown = debug_string(ai.dreamer.run_at.as_str());
        push_when(errs, true, "ai.dreamer.run_at", wrap("must be HH:MM (got ", shown.as_str(), ")"));
    } else {
        assert(e2 + when(
            !c.run_at_ok,
            "ai.dreamer.run_at"@,
            "must be HH:MM (got "@ + debug_quoted(ai.dreamer.run_at@) + ")"@,
        ) =~= e2);
    }
    assert(views(errs@) =~= e0 + dreamer_errors(*ai, *c));
}

fn check_connection(ai: &AiSettings, c: &ValidationChecks, errs: &mut Vec<FieldError>)
    ensures
        views(final(errs)@) == views(old(errs)@) + connection_errors(*ai, *c),
{
    let ghost e0 = views(errs@);
    push_when(
        errs,
        opt_blank(&ai.connection.reasoning_effort),
        "ai.connection.reasoning_effort",
        String::from_str("must be non-empty when set"),
    );
    push_when(
        errs,
        opt_blank(&ai.dreamer.reasoning_effort),
        "ai.dreamer.reasoning_effort",
        String::from_str("must be non-empty when set"),
    );
    let ghost e2 = views(errs@);
    match &ai.connection.base_url {
        Some(url) if !c.connection_url_ok => {
            let shown = debug_string(url.as_str());
            push_when(
                errs,
                true,
                "ai.connection.base_url",
                wrap("must be a valid URL (got ", shown.as_str(), ")"),
            );
        },
        _ => {
            assert(e2 + when(
                ai.connection.base_url is Some && !c.connection_url_ok,
                "ai.connection.base_url"@,
                "must be a valid URL (got "@ + debug_quoted(ai.connection.base_url->0@) + ")"@,
            ) =~= e2);
        },
    }
    push_when(
        errs,
        ai.connection.timeout == 0,
        "ai.connection.timeout",
        String::from_str("must be > 0"),
    );
    assert(views(errs@) =~= e0 + connection_errors(*ai, *c));
}

fn check_prefill(ai: &AiSettings, c: &ValidationChecks, errs: &mut Vec<FieldError>)
    ensures
        views(final(errs)@) == views(old(errs)@) + prefill_errors(*ai, *c),
{
    let ghost e0 = views(errs@);
    match &ai.prefill {
        None => {
            assert(views(errs@) + prefill_errors(*ai, *c) =~= views(errs@));
        },
        Some(p) => {
            if !c.prefill_url_ok {
                let shown = debug_string(p.base_url.as_str());
                push_when(
                    errs,
                    true,
                    "ai.prefill.base_url",
                    wrap("must be a valid URL (got ", shown.as_str(), ")"),
                );
            } else {
                assert(views(errs@) + when(
                    !c.prefill_url_ok,
                    "ai.prefill.base_url"@,
                    "must be a valid URL (got "@ + debug_quoted(p.base_url@) + ")"@,
                ) =~= views(errs@));
            }
            let ghost e1 = views(errs@);
            let in_unit = p.threshold_bits <= 0x3ff0000000000000u64 || p.threshold_bits
                == 0x8000000000000000u64;
            push_when(
                errs,
                !in_unit,
                "ai.prefill.threshold",
                wrap("must be 0.0..=1.0 (got ", c.threshold_text.as_str(), ")"),
            );
            push_when(
                errs,
                ai.history.length == 0,
                "ai.prefill",
                String::from_str("requires ai.history.length > 0"),
            );
            assert(views(errs@) =~= e0 + prefill_errors(*ai, *c));
        },
    }
}

fn check_web(ai: &AiSettings, c: &ValidationChecks, errs: &mut Vec<FieldError>)
    ensures
        views(final(errs)@) == views(old(errs)@) + web_errors(*ai, *c),
{
    let ghost e0 = views(errs@);
    match &ai.web {
        None => {
            assert(views(errs@) + web_errors(*ai, *c) =~= views(errs@));
        },
        Some(w) => {
            if !c.web_url_ok {
                let shown = debug_string(w.base_url.as_str());
                push_when(
                    errs,
                    true,
                    "ai.web.base_url",
                    wrap("must be a valid URL (got ", shown.as_str(), ")"),
                );
            } else {
                assert(views(errs@) + when(
                    !c.web_url_ok,
                    "ai.web.base_url"@,
                    "must be a valid URL (got "@ + debug_quoted(w.base_url@) + ")"@,
                ) =~= views(errs@));
            }
            range(errs, "ai.web.max_results", w.max_results, 1, 10);
            range(errs, "ai.web.max_rounds", w.max_rounds, 1, 6);
            push_when(
                errs,
                w.cache_capacity == 0,
                "ai.web.cache_capacity",
                String::from_str("must be > 0"),
            );
            assert(views(errs@) =~= e0 + web_errors(*ai, *c));
        },
    }
}

fn check_emotes(ai: &AiSettings, errs: &mut Vec<FieldError>)
    ensures
        views(final(errs)@) == views(old(errs)@) + emotes_errors(*ai),
{
    let ghost e0 = views(errs@);
    match &ai.emotes {
        None => {
            assert(views(errs@) + emotes_errors(*ai) =~= views(errs@));
        },
        Some(e) => {
            push_when(
                errs,
                e.refresh_interval_secs == 0,
                "ai.emotes.refresh_interval_secs",
                String::from_str("must be > 0"),
            );
            range(errs, "ai.emotes.max_prompt_emotes", e.max_prompt_emotes, 1, 200);
            push_when(
                errs,
                e.min_baseline_emotes > e.max_prompt_emotes,
                "ai.emotes.min_baseline_emotes",
                String::from_str("must be <= max_prompt_emotes"),
            );
            push_when(
                errs,
                opt_blank(&e.base_url),
                "ai.emotes.base_url",
                String::from_str("must be non-empty when set"),
            );
            assert(views(errs@) =~= e0 + emotes_errors(*ai));
        },
    }
}

/// Appends every violated bound of the AI block to `errs`.
#[verifier::rlimit(40)]
pub fn validate_ai(ai: &AiSettings, c: &ValidationChecks, errs: &mut Vec<FieldError>)
    ensures
        views(final(errs)@) == views(old(errs)@) + ai_errors(*ai, *c),
{
    let ghost e0 = views(errs@);
    check_behavior(ai, errs);
    check_history_memory(ai, errs);
    check_dreamer(ai, c, errs);
    check_connection(ai, c, errs);
    check_prefill(ai, c, errs);
    check_web(ai, c, errs);
    check_emotes(ai, errs);
    assert(views(errs@) =~= e0 + ai_errors(*ai, *c));
}

impl Settings {
    /// Checks every bound, given the outside parsers' answers. `Ok` exactly
    /// when no bound is violated; otherwise all violations, in order.
    pub fn validate_with(&self, checks: &ValidationChecks) -> (r: Result<(), Vec<FieldError>>)
        ensures
            r is Ok <==> settings_errors(*self, *checks).len() == 0,
            r matches Err(errs) ==> views(errs@) == settings_errors(*self, *checks),
    {
        let mut errs: Vec<FieldError> = Vec::new();
        assert(views(errs@) =~= Seq::<(Seq<char>, Seq<char>)>::empty());
        check_cooldowns(self, &mut errs);
        validate_ai(&self.ai, checks, &mut errs);
        assert(views(errs@) =~= settings_errors(*self, *checks));
        if errs.len() == 0 {
            Ok(())
        } else {
            Err(errs)
        }
    }

    /// Asks the outside parsers about the dreamer time and the base URLs.
    /// `threshold_text` is how the prefill threshold prints.
    pub fn validation_checks(&self, threshold_text: &str) -> (r: ValidationChecks)
        ensures
            r.run_at_ok == hh_mm_parses(self.ai.dreamer.run_at@),
            self.ai.connection.base_url matches Some(u) ==> r.connection_url_ok == url_parses(u@),
            self.ai.prefill matches Some(p) ==> r.prefill_url_ok == url_parses(p.base_url@),
            self.ai.web matches Some(w) ==> r.web_url_ok == url_parses(w.base_url@),
            r.threshold_text@ == threshold_text@,
    {
        ValidationChecks {
            run_at_ok: parses_as_hh_mm(self.ai.dreamer.run_at.as_str()),
            connection_url_ok: match &self.ai.connection.base_url {
                Some(u) => parses_as_url(u.as_str()),
                None => true,
            },
            prefill_url_ok: match &self.ai.prefill {
                Some(p) => parses_as_url(p.base_url.as_str()),
                None => true,
            },
            web_url_ok: match &self.ai.web {
                Some(w) => parses_as_url(w.base_url.as_str()),
                None => true,
            },
            threshold_text: String::from_str(threshold_text),
        }
    }

    /// Checks every bound: the time and URL fields through chrono and the
    /// URL parser. `threshold_text` is how the prefill threshold prints.
    pub fn validate(&self, threshold_text: &str) -> (r: Result<(), Vec<FieldError>>)
        ensures
            exists|c: ValidationChecks|
                #![trigger settings_errors(*self, c)]
                c.run_at_ok == hh_mm_parses(self.ai.dreamer.run_at@) && (
                self.ai.connection.base_url matches Some(u) ==> c.connection_url_ok == url_parses(
                    u@,
                )) && (self.ai.prefill matches Some(p) ==> c.prefill_url_ok == url_parses(
                    p.base_url@,
                )) && (self.ai.web matches Some(w) ==> c.web_url_ok == url_parses(w.base_url@))
                    && c.threshold_text@ == threshold_text@ && (r is Ok <==> settings_errors(
                    *self,
                    c,
                ).len() == 0) && (r matches Err(errs) ==> views(errs@) == settings_errors(
                    *self,
                    c,
                )),
    {
        let checks = self.validation_checks(threshold_text);
        let r = self.validate_with(&checks);
        assert(settings_errors(*self, checks) == settings_errors(*self, checks));
        r
    }
}

/// Some entry of `errs` names `field`.
pub open spec fn reports(errs: ErrSeq, field: Seq<char>) -> bool {
    exists|i: int| 0 <= i < errs.len() && (#[trigger] errs[i]).0 == field
}

broadcast proof fn lemma_reports_add(a: ErrSeq, b: ErrSeq, field: Seq<char>)
    ensures
        #[trigger] reports(a + b, field) <==> reports(a, field) || reports(b, field),
{
    if reports(a + b, field) {
        let i = choose|i: int| 0 <= i < (a + b).len() && (#[trigger] (a + b)[i]).0 == field;
        if i < a.len() {
            assert(a[i] == (a + b)[i]);
        } else {
            assert(b[i - a.len()] == (a + b)[i]);
        }
    }
    if reports(a, field) {
        let i = choose|i: int| 0 <= i < a.len() && (#[trigger] a[i]).0 == field;
        assert((a + b)[i] == a[i]);
    }
    if reports(b, field) {
        let i = choose|i: int| 0 <= i < b.len() && (#[trigger] b[i]).0 == field;
        assert((a + b)[i + a.len()] == b[i]);
    }
}

broadcast proof fn lemma_reports_when(cond: bool, f: Seq<char>, msg: Seq<char>, field: Seq<char>)
    ensures
        #[trigger] reports(when(cond, f, msg), field) <==> cond && f == field,
{
    if cond && f == field {
        assert(when(cond, f, msg)[0].0 == field);
    }
}

proof fn lemma_reports_empty(field: Seq<char>)
    ensures
        !reports(Seq::<(Seq<char>, Seq<char>)>::empty(), field),
{
}

/// The injection budget is reported exactly when it is below the soul and
/// lore sizes together.
pub proof fn lemma_budget_error_iff(ai: AiSettings, c: ValidationChecks)
    ensures
        reports(ai_errors(ai, c), "ai.memory.inject_byte_budget"@) <==> (ai.memory.inject_byte_budget < ai.memory.soul_bytes + ai.memory.lore_bytes),
{
    broadcast use lemma_reports_add, lemma_reports_when;

    reveal_strlit("ai.memory.inject_byte_budget");
    assert("ai.memory.inject_byte_budget"@.len() == 28);
    reveal_strlit("ai.behavior.max_turn_rounds");
    assert("ai.behavior.max_turn_rounds"@.len() == 27);
    reveal_strlit("ai.behavior.max_writes_per_turn");
    assert("ai.behavior.max_writes_per_turn"@.len() == 31);
    reveal_strlit("ai.behavior.persona_name");
    assert("ai.behavior.persona_name"@.len() == 24);
    reveal_strlit("ai.history.length");
    assert("ai.history.length"@.len() == 17);
    reveal_strlit("ai.history.ai_channel_length");
    assert("ai.history.ai_channel_length"@[3] != "ai.memory.inject_byte_budget"@[3]);
    reveal_strlit("ai.dreamer.max_rounds");
    assert("ai.dreamer.max_rounds"@.len() == 21);
    reveal_strlit("ai.dreamer.timeout_secs");
    assert("ai.dreamer.timeout_secs"@.len() == 23);
    reveal_strlit("ai.dreamer.run_at");
    assert("ai.dreamer.run_at"@.len() == 17);
    reveal_strlit("ai.connection.reasoning_effort");
    assert("ai.connection.reasoning_effort"@.len() == 30);
    reveal_strlit("ai.dreamer.reasoning_effort");
    assert("ai.dreamer.reasoning_effort"@.len() == 27);
    reveal_strlit("ai.connection.base_url");
    assert("ai.connection.base_url"@.len() == 22);
    reveal_strlit("ai.connection.timeout");
    assert("ai.connection.timeout"@.len() == 21);
    reveal_strlit("ai.prefill.base_url");
    assert("ai.prefill.base_url"@.len() == 19);
    reveal_strlit("ai.prefill.threshold");
    assert("ai.prefill.threshold"@.len() == 20);
    reveal_strlit("ai.prefill");
    assert("ai.prefill"@.len() == 10);
    reveal_strlit("ai.web.base_url");
    assert("ai.web.base_url"@.len() == 15);
    reveal_strlit("ai.web.max_results");
    assert("ai.web.max_results"@.len() == 18);
    reveal_strlit("ai.web.max_rounds");
    assert("ai.web.max_rounds"@.len() == 17);
    reveal_strlit("ai.web.cache_capacity");
    assert("ai.web.cache_capacity"@.len() == 21);
    reveal_strlit("ai.emotes.refresh_interval_secs");
    assert("ai.emotes.refresh_interval_secs"@.len() == 31);
    reveal_strlit("ai.emotes.max_prompt_emotes");
    assert("ai.emotes.max_prompt_emotes"@.len() == 27);
    reveal_strlit("ai.emotes.min_baseline_emotes");
    assert("ai.emotes.min_baseline_emotes"@.len() == 29);
    reveal_strlit("ai.emotes.base_url");
    assert("ai.emotes.base_url"@.len() == 18);
    assert(!reports(behavior_errors(ai), "ai.memory.inject_byte_budget"@));
    assert(reports(history_memory_errors(ai), "ai.memory.inject_byte_budget"@) <==> (ai.memory.inject_byte_budget < ai.memory.soul_bytes + ai.memory.lore_bytes));
    assert(!reports(dreamer_errors(ai, c), "ai.memory.inject_byte_budget"@));
    assert(!reports(connection_errors(ai, c), "ai.memory.inject_byte_budget"@));
    assert(!reports(prefill_errors(ai, c), "ai.memory.inject_byte_budget"@));
    assert(!reports(web_errors(ai, c), "ai.memory.inject_byte_budget"@));
    assert(!reports(emotes_errors(ai), "ai.memory.inject_byte_budget"@));
}

/// The turn round limit is reported exactly when it is outside `1..=20`.
pub proof fn lemma_turn_rounds_error_iff(ai: AiSettings, c: ValidationChecks)
    ensures
        reports(ai_errors(ai, c), "ai.behavior.max_turn_rounds"@) <==> (ai.behavior.max_turn_rounds < 1 || ai.behavior.max_turn_rounds > 20),
{
    broadcast use lemma_reports_add, lemma_reports_when;

    reveal_strlit("ai.behavior.max_turn_rounds");
    assert("ai.behavior.max_turn_rounds"@.len() == 27);
    reveal_strlit("ai.behavior.max_writes_per_turn");
    assert("ai.behavior.max_writes_per_turn"@.len() == 31);
    reveal_strlit("ai.behavior.persona_name");
    assert("ai.behavior.persona_name"@.len() == 24);
    reveal_strlit("ai.history.length");
    assert("ai.history.length"@.len() == 17);
    reveal_strlit("ai.history.ai_channel_length");
    assert("ai.history.ai_channel_length"@.len() == 28);
    reveal_strlit("ai.memory.inject_byte_budget");
    assert("ai.memory.inject_byte_budget"@.len() == 28);
    reveal_strlit("ai.dreamer.max_rounds");
    assert("ai.dreamer.max_rounds"@.len() == 21);
    reveal_strlit("ai.dreamer.timeout_secs");
    assert("ai.dreamer.timeout_secs"@.len() == 23);
    reveal_strlit("ai.dreamer.run_at");
    assert("ai.dreamer.run_at"@.len() == 17);
    reveal_strlit("ai.connection.reasoning_effort");
    assert("ai.connection.reasoning_effort"@.len() == 30);
    reveal_strlit("ai.dreamer.reasoning_effort");
    assert("ai.dreamer.reasoning_effort"@[3] != "ai.behavior.max_turn_rounds"@[3]);
    reveal_strlit("ai.connection.base_url");
    assert("ai.connection.base_url"@.len() == 22);
    reveal_strlit("ai.connection.timeout");
    assert("ai.connection.timeout"@.len() == 21);
    reveal_strlit("ai.prefill.base_url");
    assert("ai.prefill.base_url"@.len() == 19);
    reveal_strlit("ai.prefill.threshold");
    assert("ai.prefill.threshold"@.len() == 20);
    reveal_strlit("ai.prefill");
    assert("ai.prefill"@.len() == 10);
    reveal_strlit("ai.web.base_url");
    assert("ai.web.base_url"@.len() == 15);
    reveal_strlit("ai.web.max_results");
    assert("ai.web.max_results"@.len() == 18);
    reveal_strlit("ai.web.max_rounds");
    assert("ai.web.max_rounds"@.len() == 17);
    reveal_strlit("ai.web.cache_capacity");
    assert("ai.web.cache_capacity"@.len() == 21);
    reveal_strlit("ai.emotes.refresh_interval_secs");
    assert("ai.emotes.refresh_interval_secs"@.len() == 31);
    reveal_strlit("ai.emotes.max_prompt_emotes");
    assert("ai.emotes.max_prompt_emotes"@[3] != "ai.behavior.max_turn_rounds"@[3]);
    reveal_strlit("ai.emotes.min_baseline_emotes");
    assert("ai.emotes.min_baseline_emotes"@.len() == 29);
    reveal_strlit("ai.emotes.base_url");
    assert("ai.emotes.base_url"@.len() == 18);
    assert(reports(behavior_errors(ai), "ai.behavior.max_turn_rounds"@) <==> (ai.behavior.max_turn_rounds < 1 || ai.behavior.max_turn_rounds > 20));
    assert(!reports(history_memory_errors(ai), "ai.behavior.max_turn_rounds"@));
    assert(!reports(dreamer_errors(ai, c), "ai.behavior.max_turn_rounds"@));
    assert(!reports(connection_errors(ai, c), "ai.behavior.max_turn_rounds"@));
    assert(!reports(prefill_errors(ai, c), "ai.behavior.max_turn_rounds"@));
    assert(!reports(web_errors(ai, c), "ai.behavior.max_turn_rounds"@));
    assert(!reports(emotes_errors(ai), "ai.behavior.max_turn_rounds"@));
}

/// The web result count is reported exactly when web tools are on and the
/// count is outside `1..=10`.
pub proof fn lemma_web_results_error_iff(ai: AiSettings, c: ValidationChecks)
    ensures
        reports(ai_errors(ai, c), "ai.web.max_results"@) <==> (ai.web matches Some(w) && (w.max_results < 1 || w.max_results > 10)),
{
    broadcast use lemma_reports_add, lemma_reports_when;

    reveal_strlit("ai.web.max_results");
    assert("ai.web.max_results"@.len() == 18);
    reveal_strlit("ai.behavior.max_turn_rounds");
    assert("ai.behavior.max_turn_rounds"@.len() == 27);
    reveal_strlit("ai.behavior.max_writes_per_turn");
    assert("ai.behavior.max_writes_per_turn"@.len() == 31);
    reveal_strlit("ai.behavior.persona_name");
    assert("ai.behavior.persona_name"@.len() == 24);
    reveal_strlit("ai.history.length");
    assert("ai.history.length"@.len() == 17);
    reveal_strlit("ai.history.ai_channel_length");
    assert("ai.history.ai_channel_length"@.len() == 28);
    reveal_strlit("ai.memory.inject_byte_budget");
    assert("ai.memory.inject_byte_budget"@.len() == 28);
    reveal_strlit("ai.dreamer.max_rounds");
    assert("ai.dreamer.max_rounds"@.len() == 21);
    reveal_strlit("ai.dreamer.timeout_secs");
    assert("ai.dreamer.timeout_secs"@.len() == 23);
    reveal_strlit("ai.dreamer.run_at");
    assert("ai.dreamer.run_at"@.len() == 17);
    reveal_strlit("ai.connection.reasoning_effort");
    assert("ai.connection.reasoning_effort"@.len() == 30);
    reveal_strlit("ai.dreamer.reasoning_effort");
    assert("ai.dreamer.reasoning_effort"@.len() == 27);
    reveal_strlit("ai.connection.base_url");
    assert("ai.connection.base_url"@.len() == 22);
    reveal_strlit("ai.connection.timeout");
    assert("ai.connection.timeout"@.len() == 21);
    reveal_strlit("ai.prefill.base_url");
    assert("ai.prefill.base_url"@.len() == 19);
    reveal_strlit("ai.prefill.threshold");
    assert("ai.prefill.threshold"@.len() == 20);
    reveal_strlit("ai.prefill");
    assert("ai.prefill"@.len() == 10);
    reveal_strlit("ai.web.base_url");
    assert("ai.web.base_url"@.len() == 15);
    reveal_strlit("ai.web.max_rounds");
    assert("ai.web.max_rounds"@.len() == 17);
    reveal_strlit("ai.web.cache_capacity");
    assert("ai.web.cache_capacity"@.len() == 21);
    reveal_strlit("ai.emotes.refresh_interval_secs");
    assert("ai.emotes.refresh_interval_secs"@.len() == 31);
    reveal_strlit("ai.emotes.max_prompt_emotes");
    assert("ai.emotes.max_prompt_emotes"@.len() == 27);
    reveal_strlit("ai.emotes.min_baseline_emotes");
    assert("ai.emotes.min_baseline_emotes"@.len() == 29);
    reveal_strlit("ai.emotes.base_url");
    assert("ai.emotes.base_url"@[3] != "ai.web.max_results"@[3]);
    assert(!reports(behavior_errors(ai), "ai.web.max_results"@));
    assert(!reports(history_memory_errors(ai), "ai.web.max_results"@));
    assert(!reports(dreamer_errors(ai, c), "ai.web.max_results"@));
    assert(!reports(connection_errors(ai, c), "ai.web.max_results"@));
    assert(!reports(prefill_errors(ai, c), "ai.web.max_results"@));
    assert(reports(web_errors(ai, c), "ai.web.max_results"@) <==> (ai.web matches Some(w) && (w.max_results < 1 || w.max_results > 10)));
    assert(!reports(emotes_errors(ai), "ai.web.max_results"@));
}

/// Some entry of `errs` names a field under `prefix`.
pub open spec fn reports_under(errs: ErrSeq, prefix: Seq<char>) -> bool {
    exists|i: int| 0 <= i < errs.len() && crate::text::starts_with((#[trigger] errs[i]).0, prefix)
}

broadcast proof fn lemma_reports_under_add(a: ErrSeq, b: ErrSeq, prefix: Seq<char>)
    ensures
        #[trigger] reports_under(a + b, prefix) <==> reports_under(a, prefix) || reports_under(
            b,
            prefix,
        ),
{
    if reports_under(a + b, prefix) {
        let i = choose|i: int|
            0 <= i < (a + b).len() && crate::text::starts_with((#[trigger] (a + b)[i]).0, prefix);
        if i < a.len() {
            assert(a[i] == (a + b)[i]);
        } else {
            assert(b[i - a.len()] == (a + b)[i]);
        }
    }
    if reports_under(a, prefix) {
        let i = choose|i: int| 0 <= i < a.len() && crate::text::starts_with((#[trigger] a[i]).0, prefix);
        assert((a + b)[i] == a[i]);
    }
    if reports_under(b, prefix) {
        let i = choose|i: int| 0 <= i < b.len() && crate::text::starts_with((#[trigger] b[i]).0, prefix);
        assert((a + b)[i + a.len()] == b[i]);
    }
}

broadcast proof fn lemma_reports_under_when(cond: bool, f: Seq<char>, msg: Seq<char>, prefix: Seq<char>)
    ensures
        #[trigger] reports_under(when(cond, f, msg), prefix) <==> cond && crate::text::starts_with(
            f,
            prefix,
        ),
{
    if cond && crate::text::starts_with(f, prefix) {
        assert(when(cond, f, msg)[0].0 == f);
    }
}

proof fn lemma_not_under(f: Seq<char>, prefix: Seq<char>)
    requires
        f.len() > 3,
        prefix.len() > 3,
        f[3] != prefix[3],
    ensures
        !crate::text::starts_with(f, prefix),
{
    if prefix.len() <= f.len() {
        assert(f.take(prefix.len() as int)[3] == f[3]);
    }
}

/// Without web tools no `ai.web.` field is reported.
pub proof fn lemma_no_web_errors_without_web(ai: AiSettings, c: ValidationChecks)
    requires
        ai.web is None,
    ensures
        !reports_under(ai_errors(ai, c), "ai.web."@),
{
    broadcast use lemma_reports_under_add, lemma_reports_under_when;

    reveal_strlit("ai.web.");
    assert("ai.web."@[3] == 'w');
    reveal_strlit("ai.behavior.max_turn_rounds");
    lemma_not_under("ai.behavior.max_turn_rounds"@, "ai.web."@);
    reveal_strlit("ai.behavior.max_writes_per_turn");
    lemma_not_under("ai.behavior.max_writes_per_turn"@, "ai.web."@);
    reveal_strlit("ai.behavior.persona_name");
    lemma_not_under("ai.behavior.persona_name"@, "ai.web."@);
    reveal_strlit("ai.history.length");
    lemma_not_under("ai.history.length"@, "ai.web."@);
    reveal_strlit("ai.history.ai_channel_length");
    lemma_not_under("ai.history.ai_channel_length"@, "ai.web."@);
    reveal_strlit("ai.memory.inject_byte_budget");
    lemma_not_under("ai.memory.inject_byte_budget"@, "ai.web."@);
    reveal_strlit("ai.dreamer.max_rounds");
    lemma_not_under("ai.dreamer.max_rounds"@, "ai.web."@);
    reveal_strlit("ai.dreamer.timeout_secs");
    lemma_not_under("ai.dreamer.timeout_secs"@, "ai.web."@);
    reveal_strlit("ai.dreamer.run_at");
    lemma_not_under("ai.dreamer.run_at"@, "ai.web."@);
    reveal_strlit("ai.connection.reasoning_effort");
    lemma_not_under("ai.connection.reasoning_effort"@, "ai.web."@);
    reveal_strlit("ai.dreamer.reasoning_effort");
    lemma_not_under("ai.dreamer.reasoning_effort"@, "ai.web."@);
    reveal_strlit("ai.connection.base_url");
    lemma_not_under("ai.connection.base_url"@, "ai.web."@);
    reveal_strlit("ai.connection.timeout");
    lemma_not_under("ai.connection.timeout"@, "ai.web."@);
    reveal_strlit("ai.prefill.base_url");
    lemma_not_under("ai.prefill.base_url"@, "ai.web."@);
    reveal_strlit("ai.prefill.threshold");
    lemma_not_under("ai.prefill.threshold"@, "ai.web."@);
    reveal_strlit("ai.prefill");
    lemma_not_under("ai.prefill"@, "ai.web."@);
    reveal_strlit("ai.emotes.refresh_interval_secs");
    lemma_not_under("ai.emotes.refresh_interval_secs"@, "ai.web."@);
    reveal_strlit("ai.emotes.max_prompt_emotes");
    lemma_not_under("ai.emotes.max_prompt_emotes"@, "ai.web."@);
    reveal_strlit("ai.emotes.min_baseline_emotes");
    lemma_not_under("ai.emotes.min_baseline_emotes"@, "ai.web."@);
    reveal_strlit("ai.emotes.base_url");
    lemma_not_under("ai.emotes.base_url"@, "ai.web."@);
    assert(!reports_under(behavior_errors(ai), "ai.web."@));
    assert(!reports_under(history_memory_errors(ai), "ai.web."@));
    assert(!reports_under(dreamer_errors(ai, c), "ai.web."@));
    assert(!reports_under(connection_errors(ai, c), "ai.web."@));
    assert(!reports_under(prefill_errors(ai, c), "ai.web."@));
    assert(!reports_under(web_errors(ai, c), "ai.web."@));
    assert(!reports_under(emotes_errors(ai), "ai.web."@));
}

/// Without prefill no `ai.prefill` field is reported.
pub proof fn lemma_no_prefill_errors_without_prefill(ai: AiSettings, c: ValidationChecks)
    requires
        ai.prefill is None,
    ensures
        !reports_under(ai_errors(ai, c), "ai.prefill"@),
{
    broadcast use lemma_reports_under_add, lemma_reports_under_when;

    reveal_strlit("ai.prefill");
    assert("ai.prefill"@[3] == 'p');
    reveal_strlit("ai.behavior.max_turn_rounds");
    lemma_not_under("ai.behavior.max_turn_rounds"@, "ai.prefill"@);
    reveal_strlit("ai.behavior.max_writes_per_turn");
    lemma_not_under("ai.behavior.max_writes_per_turn"@, "ai.prefill"@);
    reveal_strlit("ai.behavior.persona_name");
    lemma_not_under("ai.behavior.persona_name"@, "ai.prefill"@);
    reveal_strlit("ai.history.length");
    lemma_not_under("ai.history.length"@, "ai.prefill"@);
    reveal_strlit("ai.history.ai_channel_length");
    lemma_not_under("ai.history.ai_channel_length"@, "ai.prefill"@);
    reveal_strlit("ai.memory.inject_byte_budget");
    lemma_not_under("ai.memory.inject_byte_budget"@, "ai.prefill"@);
    reveal_strlit("ai.dreamer.max_rounds");
    lemma_not_under("ai.dreamer.max_rounds"@, "ai.prefill"@);
    reveal_strlit("ai.dreamer.timeout_secs");
    lemma_not_under("ai.dreamer.timeout_secs"@, "ai.prefill"@);
    reveal_strlit("ai.dreamer.run_at");
    lemma_not_under("ai.dreamer.run_at"@, "ai.prefill"@);
    reveal_strlit("ai.connection.reasoning_effort");
    lemma_not_under("ai.connection.reasoning_effort"@, "ai.prefill"@);
    reveal_strlit("ai.dreamer.reasoning_effort");
    lemma_not_under("ai.dreamer.reasoning_effort"@, "ai.prefill"@);
    reveal_strlit("ai.connection.base_url");
    lemma_not_under("ai.connection.base_url"@, "ai.prefill"@);
    reveal_strlit("ai.connection.timeout");
    lemma_not_under("ai.connection.timeout"@, "ai.prefill"@);
    reveal_strlit("ai.web.base_url");
    lemma_not_under("ai.web.base_url"@, "ai.prefill"@);
    reveal_strlit("ai.web.max_results");
    lemma_not_under("ai.web.max_results"@, "ai.prefill"@);
    reveal_strlit("ai.web.max_rounds");
    lemma_not_under("ai.web.max_rounds"@, "ai.prefill"@);
    reveal_strlit("ai.web.cache_capacity");
    lemma_not_under("ai.web.cache_capacity"@, "ai.prefill"@);
    reveal_strlit("ai.emotes.refresh_interval_secs");
    lemma_not_under("ai.emotes.refresh_interval_secs"@, "ai.prefill"@);
    reveal_strlit("ai.emotes.max_prompt_emotes");
    lemma_not_under("ai.emotes.max_prompt_emotes"@, "ai.prefill"@);
    reveal_strlit("ai.emotes.min_baseline_emotes");
    lemma_not_under("ai.emotes.min_baseline_emotes"@, "ai.prefill"@);
    reveal_strlit("ai.emotes.base_url");
    lemma_not_under("ai.emotes.base_url"@, "ai.prefill"@);
    assert(!reports_under(behavior_errors(ai), "ai.prefill"@));
    assert(!reports_under(history_memory_errors(ai), "ai.prefill"@));
    assert(!reports_under(dreamer_errors(ai, c), "ai.prefill"@));
    assert(!reports_under(connection_errors(ai, c), "ai.prefill"@));
    assert(!reports_under(prefill_errors(ai, c), "ai.prefill"@));
    assert(!reports_under(web_errors(ai, c), "ai.prefill"@));
    assert(!reports_under(emotes_errors(ai), "ai.prefill"@));
}

/// Without the emote block no `ai.emotes.` field is reported.
pub proof fn lemma_no_emotes_errors_without_emotes(ai: AiSettings, c: ValidationChecks)
    requires
        ai.emotes is None,
    ensures
        !reports_under(ai_errors(ai, c), "ai.emotes."@),
{
    broadcast use lemma_reports_under_add, lemma_reports_under_when;

    reveal_strlit("ai.emotes.");
    assert("ai.emotes."@[3] == 'e');
    reveal_strlit("ai.behavior.max_turn_rounds");
    lemma_not_under("ai.behavior.max_turn_rounds"@, "ai.emotes."@);
    reveal_strlit("ai.behavior.max_writes_per_turn");
    lemma_not_under("ai.behavior.max_writes_per_turn"@, "ai.emotes."@);
    reveal_strlit("ai.behavior.persona_name");
    lemma_not_under("ai.behavior.persona_name"@, "ai.emotes."@);
    reveal_strlit("ai.history.length");
    lemma_not_under("ai.history.length"@, "ai.emotes."@);
    reveal_strlit("ai.history.ai_channel_length");
    lemma_not_under("ai.history.ai_channel_length"@, "ai.emotes."@);
    reveal_strlit("ai.memory.inject_byte_budget");
    lemma_not_under("ai.memory.inject_byte_budget"@, "ai.emotes."@);
    reveal_strlit("ai.dreamer.max_rounds");
    lemma_not_under("ai.dreamer.max_rounds"@, "ai.emotes."@);
    reveal_strlit("ai.dreamer.timeout_secs");
    lemma_not_under("ai.dreamer.timeout_secs"@, "ai.emotes."@);
    reveal_strlit("ai.dreamer.run_at");
    lemma_not_under("ai.dreamer.run_at"@, "ai.emotes."@);
    reveal_strlit("ai.connection.reasoning_effort");
    lemma_not_under("ai.connection.reasoning_effort"@, "ai.emotes."@);
    reveal_strlit("ai.dreamer.reasoning_effort");
    lemma_not_under("ai.dreamer.reasoning_effort"@, "ai.emotes."@);
    reveal_strlit("ai.connection.base_url");
    lemma_not_under("ai.connection.base_url"@, "ai.emotes."@);
    reveal_strlit("ai.connection.timeout");
    lemma_not_under("ai.connection.timeout"@, "ai.emotes."@);
    reveal_strlit("ai.prefill.base_url");
    lemma_not_under("ai.prefill.base_url"@, "ai.emotes."@);
    reveal_strlit("ai.prefill.threshold");
    lemma_not_under("ai.prefill.threshold"@, "ai.emotes."@);
    reveal_strlit("ai.prefill");
    lemma_not_under("ai.prefill"@, "ai.emotes."@);
    reveal_strlit("ai.web.base_url");
    lemma_not_under("ai.web.base_url"@, "ai.emotes."@);
    reveal_strlit("ai.web.max_results");
    lemma_not_under("ai.web.max_results"@, "ai.emotes."@);
    reveal_strlit("ai.web.max_rounds");
    lemma_not_under("ai.web.max_rounds"@, "ai.emotes."@);
    reveal_strlit("ai.web.cache_capacity");
    lemma_not_under("ai.web.cache_capacity"@, "ai.emotes."@);
    assert(!reports_under(behavior_errors(ai), "ai.emotes."@));
    assert(!reports_under(history_memory_errors(ai), "ai.emotes."@));
    assert(!reports_under(dreamer_errors(ai, c), "ai.emotes."@));
    assert(!reports_under(connection_errors(ai, c), "ai.emotes."@));
    assert(!reports_under(prefill_errors(ai, c), "ai.emotes."@));
    assert(!reports_under(web_errors(ai, c), "ai.emotes."@));
    assert(!reports_under(emotes_errors(ai), "ai.emotes."@));
}

/// Every entry of `errs` names a field under `prefix`.
pub open spec fn all_under(errs: ErrSeq, prefix: Seq<char>) -> bool {
    forall|i: int| 0 <= i < errs.len() ==> crate::text::starts_with((#[trigger] errs[i]).0, prefix)
}

broadcast proof fn lemma_all_under_add(a: ErrSeq, b: ErrSeq, prefix: Seq<char>)
    requires
        all_under(a, prefix),
        all_under(b, prefix),
    ensures
        #[trigger] all_under(a + b, prefix),
{
    assert forall|i: int| 0 <= i < (a + b).len() implies crate::text::starts_with(
        (#[trigger] (a + b)[i]).0,
        prefix,
    ) by {
        if i < a.len() {
            assert((a + b)[i] == a[i]);
        } else {
            assert((a + b)[i] == b[i - a.len()]);
        }
    }
}

broadcast proof fn lemma_all_under_when(cond: bool, f: Seq<char>, msg: Seq<char>, prefix: Seq<char>)
    requires
        crate::text::starts_with(f, prefix),
    ensures
        #[trigger] all_under(when(cond, f, msg), prefix),
{
}

proof fn lemma_under_ai(f: Seq<char>)
    requires
        f.len() >= 3,
        f[0] == 'a',
        f[1] == 'i',
        f[2] == '.',
    ensures
        crate::text::starts_with(f, "ai."@),
{
    reveal_strlit("ai.");
    assert(f.take(3) =~= "ai."@);
}

proof fn lemma_not_under_ai(f: Seq<char>)
    requires
        f.len() >= 3,
        f[0] != 'a',
    ensures
        !crate::text::starts_with(f, "ai."@),
{
    reveal_strlit("ai.");
    assert(f.take(3)[0] == f[0]);
}

/// Every field the AI checks report lies under `ai.`.
pub proof fn lemma_ai_errors_under_ai(ai: AiSettings, c: ValidationChecks)
    ensures
        all_under(ai_errors(ai, c), "ai."@),
{
    broadcast use lemma_all_under_add, lemma_all_under_when;

    reveal_strlit("ai.behavior.max_turn_rounds");
    lemma_under_ai("ai.behavior.max_turn_rounds"@);
    reveal_strlit("ai.behavior.max_writes_per_turn");
    lemma_under_ai("ai.behavior.max_writes_per_turn"@);
    reveal_strlit("ai.behavior.persona_name");
    lemma_under_ai("ai.behavior.persona_name"@);
    reveal_strlit("ai.history.length");
    lemma_under_ai("ai.history.length"@);
    reveal_strlit("ai.history.ai_channel_length");
    lemma_under_ai("ai.history.ai_channel_length"@);
    reveal_strlit("ai.memory.inject_byte_budget");
    lemma_under_ai("ai.memory.inject_byte_budget"@);
    reveal_strlit("ai.dreamer.max_rounds");
    lemma_under_ai("ai.dreamer.max_rounds"@);
    reveal_strlit("ai.dreamer.timeout_secs");
    lemma_under_ai("ai.dreamer.timeout_secs"@);
    reveal_strlit("ai.dreamer.run_at");
    lemma_under_ai("ai.dreamer.run_at"@);
    reveal_strlit("ai.connection.reasoning_effort");
    lemma_under_ai("ai.connection.reasoning_effort"@);
    reveal_strlit("ai.dreamer.reasoning_effort");
    lemma_under_ai("ai.dreamer.reasoning_effort"@);
    reveal_strlit("ai.connection.base_url");
    lemma_under_ai("ai.connection.base_url"@);
    reveal_strlit("ai.connection.timeout");
    lemma_under_ai("ai.connection.timeout"@);
    reveal_strlit("ai.prefill.base_url");
    lemma_under_ai("ai.prefill.base_url"@);
    reveal_strlit("ai.prefill.threshold");
    lemma_under_ai("ai.prefill.threshold"@);
    reveal_strlit("ai.prefill");
    lemma_under_ai("ai.prefill"@);
    reveal_strlit("ai.web.base_url");
    lemma_under_ai("ai.web.base_url"@);
    reveal_strlit("ai.web.max_results");
    lemma_under_ai("ai.web.max_results"@);
    reveal_strlit("ai.web.max_rounds");
    lemma_under_ai("ai.web.max_rounds"@);
    reveal_strlit("ai.web.cache_capacity");
    lemma_under_ai("ai.web.cache_capacity"@);
    reveal_strlit("ai.emotes.refresh_interval_secs");
    lemma_under_ai("ai.emotes.refresh_interval_secs"@);
    reveal_strlit("ai.emotes.max_prompt_emotes");
    lemma_under_ai("ai.emotes.max_prompt_emotes"@);
    reveal_strlit("ai.emotes.min_baseline_emotes");
    lemma_under_ai("ai.emotes.min_baseline_emotes"@);
    reveal_strlit("ai.emotes.base_url");
    lemma_under_ai("ai.emotes.base_url"@);
    assert(all_under(behavior_errors(ai), "ai."@));
    assert(all_under(history_memory_errors(ai), "ai."@));
    assert(all_under(dreamer_errors(ai, c), "ai."@));
    assert(all_under(connection_errors(ai, c), "ai."@));
    assert(all_under(prefill_errors(ai, c), "ai."@));
    assert(all_under(web_errors(ai, c), "ai."@));
    assert(all_under(emotes_errors(ai), "ai."@));
}

proof fn lemma_cooldown_error_cooldowns_ai(s: Settings, c: ValidationChecks)
    ensures
        reports(settings_errors(s, c), "cooldowns.ai"@) <==> (s.cooldowns.ai < 1 || s.cooldowns.ai > 3600),
{
    broadcast use lemma_reports_add, lemma_reports_when;

    reveal_strlit("cooldowns.ai");
    assert("cooldowns.ai"@.len() == 12);
    reveal_strlit("cooldowns.news");
    assert("cooldowns.news"@.len() == 14);
    reveal_strlit("cooldowns.up");
    assert("cooldowns.up"@[10] != "cooldowns.ai"@[10]);
    reveal_strlit("cooldowns.feedback");
    assert("cooldowns.feedback"@.len() == 18);
    reveal_strlit("cooldowns.doener");
    assert("cooldowns.doener"@.len() == 16);
    reveal_strlit("pings.cooldown");
    assert("pings.cooldown"@.len() == 14);
    lemma_not_under_ai("cooldowns.ai"@);
    lemma_ai_errors_under_ai(s.ai, c);
    if reports(ai_errors(s.ai, c), "cooldowns.ai"@) {
        let i = choose|i: int| 0 <= i < ai_errors(s.ai, c).len() && (#[trigger] ai_errors(s.ai, c)[i]).0 == "cooldowns.ai"@;
        assert(crate::text::starts_with(ai_errors(s.ai, c)[i].0, "ai."@));
    }
    assert(reports(cooldown_errors(s), "cooldowns.ai"@) <==> (s.cooldowns.ai < 1 || s.cooldowns.ai > 3600));
}

proof fn lemma_cooldown_error_cooldowns_news(s: Settings, c: ValidationChecks)
    ensures
        reports(settings_errors(s, c), "cooldowns.news"@) <==> (s.cooldowns.news < 1 || s.cooldowns.news > 3600),
{
    broadcast use lemma_reports_add, lemma_reports_when;

    reveal_strlit("cooldowns.news");
    assert("cooldowns.news"@.len() == 14);
    reveal_strlit("cooldowns.ai");
    assert("cooldowns.ai"@.len() == 12);
    reveal_strlit("cooldowns.up");
    assert("cooldowns.up"@.len() == 12);
    reveal_strlit("cooldowns.feedback");
    assert("cooldowns.feedback"@.len() == 18);
    reveal_strlit("cooldowns.doener");
    assert("cooldowns.doener"@.len() == 16);
    reveal_strlit("pings.cooldown");
    assert("pings.cooldown"@[0] != "cooldowns.news"@[0]);
    lemma_not_under_ai("cooldowns.news"@);
    lemma_ai_errors_under_ai(s.ai, c);
    if reports(ai_errors(s.ai, c), "cooldowns.news"@) {
        let i = choose|i: int| 0 <= i < ai_errors(s.ai, c).len() && (#[trigger] ai_errors(s.ai, c)[i]).0 == "cooldowns.news"@;
        assert(crate::text::starts_with(ai_errors(s.ai, c)[i].0, "ai."@));
    }
    assert(reports(cooldown_errors(s), "cooldowns.news"@) <==> (s.cooldowns.news < 1 || s.cooldowns.news > 3600));
}

proof fn lemma_cooldown_error_cooldowns_up(s: Settings, c: ValidationChecks)
    ensures
        reports(settings_errors(s, c), "cooldowns.up"@) <==> (s.cooldowns.up < 1 || s.cooldowns.up > 3600),
{
    broadcast use lemma_reports_add, lemma_reports_when;

    reveal_strlit("cooldowns.up");
    assert("cooldowns.up"@.len() == 12);
    reveal_strlit("cooldowns.ai");
    assert("cooldowns.ai"@[10] != "cooldowns.up"@[10]);
    reveal_strlit("cooldowns.news");
    assert("cooldowns.news"@.len() == 14);
    reveal_strlit("cooldowns.feedback");
    assert("cooldowns.feedback"@.len() == 18);
    reveal_strlit("cooldowns.doener");
    assert("cooldowns.doener"@.len() == 16);
    reveal_strlit("pings.cooldown");
    assert("pings.cooldown"@.len() == 14);
    lemma_not_under_ai("cooldowns.up"@);
    lemma_ai_errors_under_ai(s.ai, c);
    if reports(ai_errors(s.ai, c), "cooldowns.up"@) {
        let i = choose|i: int| 0 <= i < ai_errors(s.ai, c).len() && (#[trigger] ai_errors(s.ai, c)[i]).0 == "cooldowns.up"@;
        assert(crate::text::starts_with(ai_errors(s.ai, c)[i].0, "ai."@));
    }
    assert(reports(cooldown_errors(s), "cooldowns.up"@) <==> (s.cooldowns.up < 1 || s.cooldowns.up > 3600));
}

proof fn lemma_cooldown_error_cooldowns_feedback(s: Settings, c: ValidationChecks)
    ensures
        reports(settings_errors(s, c), "cooldowns.feedback"@) <==> (s.cooldowns.feedback < 1 || s.cooldowns.feedback > 3600),
{
    broadcast use lemma_reports_add, lemma_reports_when;

    reveal_strlit("cooldowns.feedback");
    assert("cooldowns.feedback"@.len() == 18);
    reveal_strlit("cooldowns.ai");
    assert("cooldowns.ai"@.len() == 12);
    reveal_strlit("cooldowns.news");
    assert("cooldowns.news"@.len() == 14);
    reveal_strlit("cooldowns.up");
    assert("cooldowns.up"@.len() == 12);
    reveal_strlit("cooldowns.doener");
    assert("cooldowns.doener"@.len() == 16);
    reveal_strlit("pings.cooldown");
    assert("pings.cooldown"@.len() == 14);
    lemma_not_under_ai("cooldowns.feedback"@);
    lemma_ai_errors_under_ai(s.ai, c);
    if reports(ai_errors(s.ai, c), "cooldowns.feedback"@) {
        let i = choose|i: int| 0 <= i < ai_errors(s.ai, c).len() && (#[trigger] ai_errors(s.ai, c)[i]).0 == "cooldowns.feedback"@;
        assert(crate::text::starts_with(ai_errors(s.ai, c)[i].0, "ai."@));
    }
    assert(reports(cooldown_errors(s), "cooldowns.feedback"@) <==> (s.cooldowns.feedback < 1 || s.cooldowns.feedback > 3600));
}

proof fn lemma_cooldown_error_cooldowns_doener(s: Settings, c: ValidationChecks)
    ensures
        reports(settings_errors(s, c), "cooldowns.doener"@) <==> (s.cooldowns.doener < 1 || s.cooldowns.doener > 3600),
{
    broadcast use lemma_reports_add, lemma_reports_when;

    reveal_strlit("cooldowns.doener");
    assert("cooldowns.doener"@.len() == 16);
    reveal_strlit("cooldowns.ai");
    assert("cooldowns.ai"@.len() == 12);
    reveal_strlit("cooldowns.news");
    assert("cooldowns.news"@.len() == 14);
    reveal_strlit("cooldowns.up");
    assert("cooldowns.up"@.len() == 12);
    reveal_strlit("cooldowns.feedback");
    assert("cooldowns.feedback"@.len() == 18);
    reveal_strlit("pings.cooldown");
    assert("pings.cooldown"@.len() == 14);
    lemma_not_under_ai("cooldowns.doener"@);
    lemma_ai_errors_under_ai(s.ai, c);
    if reports(ai_errors(s.ai, c), "cooldowns.doener"@) {
        let i = choose|i: int| 0 <= i < ai_errors(s.ai, c).len() && (#[trigger] ai_errors(s.ai, c)[i]).0 == "cooldowns.doener"@;
        assert(crate::text::starts_with(ai_errors(s.ai, c)[i].0, "ai."@));
    }
    assert(reports(cooldown_errors(s), "cooldowns.doener"@) <==> (s.cooldowns.doener < 1 || s.cooldowns.doener > 3600));
}

proof fn lemma_cooldown_error_pings_cooldown(s: Settings, c: ValidationChecks)
    ensures
        reports(settings_errors(s, c), "pings.cooldown"@) <==> (s.pings.cooldown < 1 || s.pings.cooldown > 86400),
{
    broadcast use lemma_reports_add, lemma_reports_when;

    reveal_strlit("pings.cooldown");
    assert("pings.cooldown"@.len() == 14);
    reveal_strlit("cooldowns.ai");
    assert("cooldowns.ai"@.len() == 12);
    reveal_strlit("cooldowns.news");
    assert("cooldowns.news"@[0] != "pings.cooldown"@[0]);
    reveal_strlit("cooldowns.up");
    assert("cooldowns.up"@.len() == 12);
    reveal_strlit("cooldowns.feedback");
    assert("cooldowns.feedback"@.len() == 18);
    reveal_strlit("cooldowns.doener");
    assert("cooldowns.doener"@.len() == 16);
    lemma_not_under_ai("pings.cooldown"@);
    lemma_ai_errors_under_ai(s.ai, c);
    if reports(ai_errors(s.ai, c), "pings.cooldown"@) {
        let i = choose|i: int| 0 <= i < ai_errors(s.ai, c).len() && (#[trigger] ai_errors(s.ai, c)[i]).0 == "pings.cooldown"@;
        assert(crate::text::starts_with(ai_errors(s.ai, c)[i].0, "ai."@));
    }
    assert(reports(cooldown_errors(s), "pings.cooldown"@) <==> (s.pings.cooldown < 1 || s.pings.cooldown > 86400));
}

/// Each cooldown is reported exactly when it is outside its bounds
/// (`1..=3600` seconds, `1..=86400` for pings).
pub proof fn lemma_cooldown_errors_iff(s: Settings, c: ValidationChecks)
    ensures
        reports(settings_errors(s, c), "cooldowns.ai"@) <==> (s.cooldowns.ai < 1 || s.cooldowns.ai > 3600),
        reports(settings_errors(s, c), "cooldowns.news"@) <==> (s.cooldowns.news < 1 || s.cooldowns.news > 3600),
        reports(settings_errors(s, c), "cooldowns.up"@) <==> (s.cooldowns.up < 1 || s.cooldowns.up > 3600),
        reports(settings_errors(s, c), "cooldowns.feedback"@) <==> (s.cooldowns.feedback < 1 || s.cooldowns.feedback > 3600),
        reports(settings_errors(s, c), "cooldowns.doener"@) <==> (s.cooldowns.doener < 1 || s.cooldowns.doener > 3600),
        reports(settings_errors(s, c), "pings.cooldown"@) <==> (s.pings.cooldown < 1 || s.pings.cooldown > 86400),
{
    lemma_cooldown_error_cooldowns_ai(s, c);
    lemma_cooldown_error_cooldowns_news(s, c);
    lemma_cooldown_error_cooldowns_up(s, c);
    lemma_cooldown_error_cooldowns_feedback(s, c);
    lemma_cooldown_error_cooldowns_doener(s, c);
    lemma_cooldown_error_pings_cooldown(s, c);
}

} // verus!
