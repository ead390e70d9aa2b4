//! Properties of resolving, merging, resetting and validating settings.
use vstd::prelude::*;

use crate::settings::overrides::{
    is_empty_overrides, merge_spec, reset_spec,
    SettingsOverrides,
};
use crate::settings::validate::{settings_errors, ValidationChecks};
use crate::settings::{
    card_enabled, compiled_defaults_spec, or_else, resolve_spec, resolves_to, AiEmotes, AiPrefill, AiWeb, Settings,
    SettingsSection, SCHEMA_VERSION,
};
use crate::text::blank;

verus! {

/// Resolving empty overrides gives back the defaults.
pub proof fn lemma_empty_overrides_resolve_to_defaults(
    d: Settings,
    o: SettingsOverrides,
    fp: AiPrefill,
    fw: AiWeb,
    fe: AiEmotes,
)
    requires
        d.schema_version == SCHEMA_VERSION,
        is_empty_overrides(o),
    ensures
        resolve_spec(d, o, fp, fw, fe) == d,
{
    let r = resolve_spec(d, o, fp, fw, fe);
    assert(r.ai.prefill == d.ai.prefill);
    assert(r.ai.web == d.ai.web);
    assert(r.ai.emotes == d.ai.emotes);
    assert(r.ai.connection == d.ai.connection);
    assert(r.ai.behavior == d.ai.behavior);
    assert(r.ai.dreamer == d.ai.dreamer);
    assert(r.ai.media == d.ai.media);
}

/// Whatever resolving empty overrides gives is the defaults.
pub proof fn lemma_resolved_empty_overrides_are_defaults(d: Settings, o: SettingsOverrides, r: Settings)
    requires
        d.schema_version == SCHEMA_VERSION,
        is_empty_overrides(o),
        resolves_to(d, o, r),
    ensures
        r == d,
{
    let (fp, fw, fe) = choose|fp: AiPrefill, fw: AiWeb, fe: AiEmotes|
        crate::settings::is_default_prefill(fp) && crate::settings::is_default_web(fw)
            && crate::settings::is_default_emotes(fe) && r == resolve_spec(d, o, fp, fw, fe);
    lemma_empty_overrides_resolve_to_defaults(d, o, fp, fw, fe);
}

/// The compiled defaults pass validation whenever the dreamer time parses.
pub proof fn lemma_compiled_defaults_validate(s: Settings, c: ValidationChecks)
    requires
        compiled_defaults_spec(s),
        c.run_at_ok,
    ensures
        settings_errors(s, c).len() == 0,
{
    reveal_strlit("Aurora");
    assert(!blank(s.ai.behavior.persona_name@)) by {
        assert(!crate::text::is_ws(s.ai.behavior.persona_name@[0]));
    }
}

/// Merging an empty patch changes nothing.
pub proof fn lemma_merge_empty_patch(c: SettingsOverrides, p: SettingsOverrides)
    requires
        is_empty_overrides(p),
    ensures
        merge_spec(c, p) == c,
{
    let m = merge_spec(c, p);
    assert(m.ai.connection == c.ai.connection);
    assert(m.ai.behavior == c.ai.behavior);
    assert(m.ai.history == c.ai.history);
    assert(m.ai.memory == c.ai.memory);
    assert(m.ai.dreamer == c.ai.dreamer);
    assert(m.ai.prefill == c.ai.prefill);
    assert(m.ai.web == c.ai.web);
    assert(m.ai.emotes == c.ai.emotes);
    assert(m.ai.media == c.ai.media);
}

/// Applying the same patch twice is the same as applying it once.
pub proof fn lemma_merge_idempotent(c: SettingsOverrides, p: SettingsOverrides)
    ensures
        merge_spec(merge_spec(c, p), p) == merge_spec(c, p),
{
    let m = merge_spec(c, p);
    let mm = merge_spec(m, p);
    assert(mm.ai.connection == m.ai.connection);
    assert(mm.ai.behavior == m.ai.behavior);
    assert(mm.ai.history == m.ai.history);
    assert(mm.ai.memory == m.ai.memory);
    assert(mm.ai.dreamer == m.ai.dreamer);
    assert(mm.ai.prefill == m.ai.prefill);
    assert(mm.ai.web == m.ai.web);
    assert(mm.ai.emotes == m.ai.emotes);
    assert(mm.ai.media == m.ai.media);
}

/// Outside the toggle cards, resolving the stored overrides with a patch
/// merged in is the same as laying the patch over what the stored overrides
/// resolve to: every field the patch sets wins, every other field keeps its
/// current value. The persona name is the exception: a merge keeps the
/// stored one, so the law holds for it only when the patch leaves it unset.
pub proof fn lemma_patch_wins(
    d: Settings,
    c: SettingsOverrides,
    p: SettingsOverrides,
    fp: AiPrefill,
    fw: AiWeb,
    fe: AiEmotes,
)
    ensures
        ({
            let merged = resolve_spec(d, merge_spec(c, p), fp, fw, fe);
            let layered = resolve_spec(resolve_spec(d, c, fp, fw, fe), p, fp, fw, fe);
            &&& merged.cooldowns == layered.cooldowns
            &&& merged.pings == layered.pings
            &&& merged.ai.connection == layered.ai.connection
            &&& merged.ai.behavior.max_turn_rounds == layered.ai.behavior.max_turn_rounds
            &&& merged.ai.behavior.max_writes_per_turn == layered.ai.behavior.max_writes_per_turn
            &&& (p.ai.behavior.persona_name is None ==> merged.ai.behavior
                == layered.ai.behavior)
            &&& merged.ai.history == layered.ai.history
            &&& merged.ai.memory == layered.ai.memory
            &&& merged.ai.dreamer == layered.ai.dreamer
            &&& merged.ai.media == layered.ai.media
        }),
{
}

/// Resetting a section makes that section resolve to its defaults and
/// leaves every other section as it resolved before.
pub proof fn lemma_reset_restores_section(
    d: Settings,
    c: SettingsOverrides,
    section: SettingsSection,
    fp: AiPrefill,
    fw: AiWeb,
    fe: AiEmotes,
)
    ensures
        ({
            let before = resolve_spec(d, c, fp, fw, fe);
            let after = resolve_spec(d, reset_spec(c, section), fp, fw, fe);
            &&& after.cooldowns == (if section == SettingsSection::Cooldowns {
                d.cooldowns
            } else {
                before.cooldowns
            })
            &&& after.pings == (if section == SettingsSection::Pings {
                d.pings
            } else {
                before.pings
            })
            &&& after.ai.connection == (if section == SettingsSection::AiConnection {
                d.ai.connection
            } else {
                before.ai.connection
            })
            &&& after.ai.behavior == (if section == SettingsSection::AiBehavior {
                d.ai.behavior
            } else {
                before.ai.behavior
            })
            &&& after.ai.history == (if section == SettingsSection::AiHistory {
                d.ai.history
            } else {
                before.ai.history
            })
            &&& after.ai.memory == (if section == SettingsSection::AiMemory {
                d.ai.memory
            } else {
                before.ai.memory
            })
            &&& after.ai.dreamer == (if section == SettingsSection::AiDreamer {
                d.ai.dreamer
            } else {
                before.ai.dreamer
            })
            &&& after.ai.prefill == (if section == SettingsSection::AiPrefill {
                d.ai.prefill
            } else {
                before.ai.prefill
            })
            &&& after.ai.web == (if section == SettingsSection::AiWeb {
                d.ai.web
            } else {
                before.ai.web
            })
            &&& after.ai.emotes == (if section == SettingsSection::AiEmotes {
                d.ai.emotes
            } else {
                before.ai.emotes
            })
            &&& after.ai.media == (if section == SettingsSection::AiMedia {
                d.ai.media
            } else {
                before.ai.media
            })
        }),
{
    let before = resolve_spec(d, c, fp, fw, fe);
    let after = resolve_spec(d, reset_spec(c, section), fp, fw, fe);
    match section {
        SettingsSection::AiPrefill => {
            assert(after.ai.prefill == d.ai.prefill);
        },
        SettingsSection::AiWeb => {
            assert(after.ai.web == d.ai.web);
        },
        SettingsSection::AiEmotes => {
            assert(after.ai.emotes == d.ai.emotes);
        },
        _ => {},
    }
}


/// Missing fields fall through: resolving gives the current schema version,
/// and every leaf is the override when it is set and the default otherwise.
/// A toggle card is present exactly when it is enabled, and an enabled card
/// over a default block takes each field from the override, else from that
/// block.
pub proof fn lemma_resolve_per_leaf(d: Settings, o: SettingsOverrides, r: Settings)
    requires
        resolves_to(d, o, r),
    ensures
        r.schema_version == SCHEMA_VERSION,
        r.cooldowns.ai == or_else(o.cooldowns.ai, d.cooldowns.ai),
        r.cooldowns.news == or_else(o.cooldowns.news, d.cooldowns.news),
        r.cooldowns.up == or_else(o.cooldowns.up, d.cooldowns.up),
        r.cooldowns.feedback == or_else(o.cooldowns.feedback, d.cooldowns.feedback),
        r.cooldowns.doener == or_else(o.cooldowns.doener, d.cooldowns.doener),
        r.pings.cooldown == or_else(o.pings.cooldown, d.pings.cooldown),
        r.pings.public == or_else(o.pings.public, d.pings.public),
        r.ai.connection.backend == or_else(o.ai.connection.backend, d.ai.connection.backend),
        r.ai.connection.base_url == or_else(o.ai.connection.base_url, d.ai.connection.base_url),
        r.ai.connection.model == or_else(o.ai.connection.model, d.ai.connection.model),
        r.ai.connection.timeout == or_else(o.ai.connection.timeout, d.ai.connection.timeout),
        r.ai.connection.reasoning_effort == or_else(o.ai.connection.reasoning_effort, d.ai.connection.reasoning_effort),
        r.ai.behavior.max_turn_rounds == or_else(o.ai.behavior.max_turn_rounds, d.ai.behavior.max_turn_rounds),
        r.ai.behavior.max_writes_per_turn == or_else(o.ai.behavior.max_writes_per_turn, d.ai.behavior.max_writes_per_turn),
        r.ai.behavior.persona_name == or_else(o.ai.behavior.persona_name, d.ai.behavior.persona_name),
        r.ai.history.length == or_else(o.ai.history.length, d.ai.history.length),
        r.ai.history.ai_channel_length == or_else(o.ai.history.ai_channel_length, d.ai.history.ai_channel_length),
        r.ai.memory.soul_bytes == or_else(o.ai.memory.soul_bytes, d.ai.memory.soul_bytes),
        r.ai.memory.lore_bytes == or_else(o.ai.memory.lore_bytes, d.ai.memory.lore_bytes),
        r.ai.memory.user_bytes == or_else(o.ai.memory.user_bytes, d.ai.memory.user_bytes),
        r.ai.memory.state_bytes == or_else(o.ai.memory.state_bytes, d.ai.memory.state_bytes),
        r.ai.memory.inject_byte_budget == or_else(o.ai.memory.inject_byte_budget, d.ai.memory.inject_byte_budget),
        r.ai.memory.max_state_files == or_else(o.ai.memory.max_state_files, d.ai.memory.max_state_files),
        r.ai.dreamer.enabled == or_else(o.ai.dreamer.enabled, d.ai.dreamer.enabled),
        r.ai.dreamer.model == or_else(o.ai.dreamer.model, d.ai.dreamer.model),
        r.ai.dreamer.reasoning_effort == or_else(o.ai.dreamer.reasoning_effort, d.ai.dreamer.reasoning_effort),
        r.ai.dreamer.run_at == or_else(o.ai.dreamer.run_at, d.ai.dreamer.run_at),
        r.ai.dreamer.timeout_secs == or_else(o.ai.dreamer.timeout_secs, d.ai.dreamer.timeout_secs),
        r.ai.dreamer.max_rounds == or_else(o.ai.dreamer.max_rounds, d.ai.dreamer.max_rounds),
        r.ai.media.model == or_else(o.ai.media.model, d.ai.media.model),
        r.ai.media.timeout == or_else(o.ai.media.timeout, d.ai.media.timeout),
        r.ai.media.max_image_size == or_else(o.ai.media.max_image_size, d.ai.media.max_image_size),
        r.ai.media.max_pdf_size == or_else(o.ai.media.max_pdf_size, d.ai.media.max_pdf_size),
        r.ai.media.max_audio_size == or_else(o.ai.media.max_audio_size, d.ai.media.max_audio_size),
        r.ai.media.max_video_size == or_else(o.ai.media.max_video_size, d.ai.media.max_video_size),
        r.ai.media.max_text_size == or_else(o.ai.media.max_text_size, d.ai.media.max_text_size),
        r.ai.prefill is Some == card_enabled(d.ai.prefill, o.ai.prefill.enabled),
        r.ai.web is Some == card_enabled(d.ai.web, o.ai.web.enabled),
        r.ai.emotes is Some == card_enabled(d.ai.emotes, o.ai.emotes.enabled),
        (r.ai.prefill is Some && d.ai.prefill is Some) ==> r.ai.prefill->0.base_url == or_else(o.ai.prefill.base_url, d.ai.prefill->0.base_url),
        (r.ai.prefill is Some && d.ai.prefill is Some) ==> r.ai.prefill->0.threshold_bits == or_else(o.ai.prefill.threshold_bits, d.ai.prefill->0.threshold_bits),
        (r.ai.web is Some && d.ai.web is Some) ==> r.ai.web->0.base_url == or_else(o.ai.web.base_url, d.ai.web->0.base_url),
        (r.ai.web is Some && d.ai.web is Some) ==> r.ai.web->0.timeout == or_else(o.ai.web.timeout, d.ai.web->0.timeout),
        (r.ai.web is Some && d.ai.web is Some) ==> r.ai.web->0.max_results == or_else(o.ai.web.max_results, d.ai.web->0.max_results),
        (r.ai.web is Some && d.ai.web is Some) ==> r.ai.web->0.max_rounds == or_else(o.ai.web.max_rounds, d.ai.web->0.max_rounds),
        (r.ai.web is Some && d.ai.web is Some) ==> r.ai.web->0.cache_ttl_secs == or_else(o.ai.web.cache_ttl_secs, d.ai.web->0.cache_ttl_secs),
        (r.ai.web is Some && d.ai.web is Some) ==> r.ai.web->0.cache_capacity == or_else(o.ai.web.cache_capacity, d.ai.web->0.cache_capacity),
        (r.ai.emotes is Some && d.ai.emotes is Some) ==> r.ai.emotes->0.include_global == or_else(o.ai.emotes.include_global, d.ai.emotes->0.include_global),
        (r.ai.emotes is Some && d.ai.emotes is Some) ==> r.ai.emotes->0.refresh_interval_secs == or_else(o.ai.emotes.refresh_interval_secs, d.ai.emotes->0.refresh_interval_secs),
        (r.ai.emotes is Some && d.ai.emotes is Some) ==> r.ai.emotes->0.max_prompt_emotes == or_else(o.ai.emotes.max_prompt_emotes, d.ai.emotes->0.max_prompt_emotes),
        (r.ai.emotes is Some && d.ai.emotes is Some) ==> r.ai.emotes->0.min_baseline_emotes == or_else(o.ai.emotes.min_baseline_emotes, d.ai.emotes->0.min_baseline_emotes),
        (r.ai.emotes is Some && d.ai.emotes is Some) ==> r.ai.emotes->0.base_url == or_else(o.ai.emotes.base_url, d.ai.emotes->0.base_url),
{
    let (fp, fw, fe) = choose|fp: AiPrefill, fw: AiWeb, fe: AiEmotes|
        crate::settings::is_default_prefill(fp) && crate::settings::is_default_web(fw)
            && crate::settings::is_default_emotes(fe) && r == resolve_spec(d, o, fp, fw, fe);
}


/// Merging a dashboard patch into the stored overrides: every field the
/// patch sets takes the patch's value, toggle cards included; every field it
/// leaves unset keeps the stored value. The persona name is the one field a
/// save never changes: the stored one stays.
pub proof fn lemma_merge_per_field(c: SettingsOverrides, p: SettingsOverrides, m: SettingsOverrides)
    requires
        m == merge_spec(c, p),
    ensures
        m.schema_version == c.schema_version,
        m.cooldowns.ai == (if p.cooldowns.ai is Some { p.cooldowns.ai } else { c.cooldowns.ai }),
        m.cooldowns.news == (if p.cooldowns.news is Some { p.cooldowns.news } else { c.cooldowns.news }),
        m.cooldowns.up == (if p.cooldowns.up is Some { p.cooldowns.up } else { c.cooldowns.up }),
        m.cooldowns.feedback == (if p.cooldowns.feedback is Some { p.cooldowns.feedback } else { c.cooldowns.feedback }),
        m.cooldowns.doener == (if p.cooldowns.doener is Some { p.cooldowns.doener } else { c.cooldowns.doener }),
        m.pings.cooldown == (if p.pings.cooldown is Some { p.pings.cooldown } else { c.pings.cooldown }),
        m.pings.public == (if p.pings.public is Some { p.pings.public } else { c.pings.public }),
        m.ai.connection.backend == (if p.ai.connection.backend is Some { p.ai.connection.backend } else { c.ai.connection.backend }),
        m.ai.connection.base_url == (if p.ai.connection.base_url is Some { p.ai.connection.base_url } else { c.ai.connection.base_url }),
        m.ai.connection.model == (if p.ai.connection.model is Some { p.ai.connection.model } else { c.ai.connection.model }),
        m.ai.connection.timeout == (if p.ai.connection.timeout is Some { p.ai.connection.timeout } else { c.ai.connection.timeout }),
        m.ai.connection.reasoning_effort == (if p.ai.connection.reasoning_effort is Some { p.ai.connection.reasoning_effort } else { c.ai.connection.reasoning_effort }),
        m.ai.behavior.max_turn_rounds == (if p.ai.behavior.max_turn_rounds is Some { p.ai.behavior.max_turn_rounds } else { c.ai.behavior.max_turn_rounds }),
        m.ai.behavior.max_writes_per_turn == (if p.ai.behavior.max_writes_per_turn is Some { p.ai.behavior.max_writes_per_turn } else { c.ai.behavior.max_writes_per_turn }),
        m.ai.behavior.persona_name == c.ai.behavior.persona_name,
        m.ai.history.length == (if p.ai.history.length is Some { p.ai.history.length } else { c.ai.history.length }),
        m.ai.history.ai_channel_length == (if p.ai.history.ai_channel_length is Some { p.ai.history.ai_channel_length } else { c.ai.history.ai_channel_length }),
        m.ai.memory.soul_bytes == (if p.ai.memory.soul_bytes is Some { p.ai.memory.soul_bytes } else { c.ai.memory.soul_bytes }),
        m.ai.memory.lore_bytes == (if p.ai.memory.lore_bytes is Some { p.ai.memory.lore_bytes } else { c.ai.memory.lore_bytes }),
        m.ai.memory.user_bytes == (if p.ai.memory.user_bytes is Some { p.ai.memory.user_bytes } else { c.ai.memory.user_bytes }),
        m.ai.memory.state_bytes == (if p.ai.memory.state_bytes is Some { p.ai.memory.state_bytes } else { c.ai.memory.state_bytes }),
        m.ai.memory.inject_byte_budget == (if p.ai.memory.inject_byte_budget is Some { p.ai.memory.inject_byte_budget } else { c.ai.memory.inject_byte_budget }),
        m.ai.memory.max_state_files == (if p.ai.memory.max_state_files is Some { p.ai.memory.max_state_files } else { c.ai.memory.max_state_files }),
        m.ai.dreamer.enabled == (if p.ai.dreamer.enabled is Some { p.ai.dreamer.enabled } else { c.ai.dreamer.enabled }),
        m.ai.dreamer.model == (if p.ai.dreamer.model is Some { p.ai.dreamer.model } else { c.ai.dreamer.model }),
        m.ai.dreamer.reasoning_effort == (if p.ai.dreamer.reasoning_effort is Some { p.ai.dreamer.reasoning_effort } else { c.ai.dreamer.reasoning_effort }),
        m.ai.dreamer.run_at == (if p.ai.dreamer.run_at is Some { p.ai.dreamer.run_at } else { c.ai.dreamer.run_at }),
        m.ai.dreamer.timeout_secs == (if p.ai.dreamer.timeout_secs is Some { p.ai.dreamer.timeout_secs } else { c.ai.dreamer.timeout_secs }),
        m.ai.dreamer.max_rounds == (if p.ai.dreamer.max_rounds is Some { p.ai.dreamer.max_rounds } else { c.ai.dreamer.max_rounds }),
        m.ai.prefill.enabled == (if p.ai.prefill.enabled is Some { p.ai.prefill.enabled } else { c.ai.prefill.enabled }),
        m.ai.prefill.base_url == (if p.ai.prefill.base_url is Some { p.ai.prefill.base_url } else { c.ai.prefill.base_url }),
        m.ai.prefill.threshold_bits == (if p.ai.prefill.threshold_bits is Some { p.ai.prefill.threshold_bits } else { c.ai.prefill.threshold_bits }),
        m.ai.web.enabled == (if p.ai.web.enabled is Some { p.ai.web.enabled } else { c.ai.web.enabled }),
        m.ai.web.base_url == (if p.ai.web.base_url is Some { p.ai.web.base_url } else { c.ai.web.base_url }),
        m.ai.web.timeout == (if p.ai.web.timeout is Some { p.ai.web.timeout } else { c.ai.web.timeout }),
        m.ai.web.max_results == (if p.ai.web.max_results is Some { p.ai.web.max_results } else { c.ai.web.max_results }),
        m.ai.web.max_rounds == (if p.ai.web.max_rounds is Some { p.ai.web.max_rounds } else { c.ai.web.max_rounds }),
        m.ai.web.cache_ttl_secs == (if p.ai.web.cache_ttl_secs is Some { p.ai.web.cache_ttl_secs } else { c.ai.web.cache_ttl_secs }),
        m.ai.web.cache_capacity == (if p.ai.web.cache_capacity is Some { p.ai.web.cache_capacity } else { c.ai.web.cache_capacity }),
        m.ai.emotes.enabled == (if p.ai.emotes.enabled is Some { p.ai.emotes.enabled } else { c.ai.emotes.enabled }),
        m.ai.emotes.include_global == (if p.ai.emotes.include_global is Some { p.ai.emotes.include_global } else { c.ai.emotes.include_global }),
        m.ai.emotes.refresh_interval_secs == (if p.ai.emotes.refresh_interval_secs is Some { p.ai.emotes.refresh_interval_secs } else { c.ai.emotes.refresh_interval_secs }),
        m.ai.emotes.max_prompt_emotes == (if p.ai.emotes.max_prompt_emotes is Some { p.ai.emotes.max_prompt_emotes } else { c.ai.emotes.max_prompt_emotes }),
        m.ai.emotes.min_baseline_emotes == (if p.ai.emotes.min_baseline_emotes is Some { p.ai.emotes.min_baseline_emotes } else { c.ai.emotes.min_baseline_emotes }),
        m.ai.emotes.base_url == (if p.ai.emotes.base_url is Some { p.ai.emotes.base_url } else { c.ai.emotes.base_url }),
        m.ai.media.model == (if p.ai.media.model is Some { p.ai.media.model } else { c.ai.media.model }),
        m.ai.media.timeout == (if p.ai.media.timeout is Some { p.ai.media.timeout } else { c.ai.media.timeout }),
        m.ai.media.max_image_size == (if p.ai.media.max_image_size is Some { p.ai.media.max_image_size } else { c.ai.media.max_image_size }),
        m.ai.media.max_pdf_size == (if p.ai.media.max_pdf_size is Some { p.ai.media.max_pdf_size } else { c.ai.media.max_pdf_size }),
        m.ai.media.max_audio_size == (if p.ai.media.max_audio_size is Some { p.ai.media.max_audio_size } else { c.ai.media.max_audio_size }),
        m.ai.media.max_video_size == (if p.ai.media.max_video_size is Some { p.ai.media.max_video_size } else { c.ai.media.max_video_size }),
        m.ai.media.max_text_size == (if p.ai.media.max_text_size is Some { p.ai.media.max_text_size } else { c.ai.media.max_text_size }),
{
}

} // verus!
