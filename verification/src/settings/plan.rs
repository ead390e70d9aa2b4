//! The decisions of the settings store: what opening serves, what an apply
//! or a reset writes and records. Reading and writing `settings.ron`, and
//! printing the prefill threshold (a float), are the caller's part.
use vstd::prelude::*;

use crate::settings::audit::{change_views, diff_changes, diff_spec, AuditChange};
use crate::settings::overrides::{
    is_empty_overrides, merge_into, merge_spec, reset_section, reset_spec, SettingsOverrides,
};
use crate::settings::validate::{
    hh_mm_parses, settings_errors, url_parses, views, ValidationChecks,
};
use crate::settings::{resolves_to, FieldError, Settings, SettingsSection, SCHEMA_VERSION};

verus! {

/// What was found at the settings path.
pub enum StoredOverrides {
    /// No file.
    Missing,
    /// A file that parsed.
    Parsed(SettingsOverrides),
    /// A file that did not parse.
    Corrupt,
}

/// The overrides to start from, and whether the file must be moved aside:
/// a missing file gives empty overrides, a corrupt one empty overrides and
/// a quarantine.
pub fn load_or_quarantine(stored: StoredOverrides) -> (r: (SettingsOverrides, bool))
    ensures
        match stored {
            StoredOverrides::Parsed(o) => r.0 == o && !r.1,
            StoredOverrides::Missing => is_empty_overrides(r.0) && r.0.schema_version
                == SCHEMA_VERSION && !r.1,
            StoredOverrides::Corrupt => is_empty_overrides(r.0) && r.0.schema_version
                == SCHEMA_VERSION && r.1,
        },
{
    match stored {
        StoredOverrides::Parsed(o) => (o, false),
        StoredOverrides::Missing => (SettingsOverrides::default(), false),
        StoredOverrides::Corrupt => (SettingsOverrides::default(), true),
    }
}

/// The validation checks of `s` when the threshold prints as `text`.
pub open spec fn checks_of(s: Settings, text: Seq<char>, c: ValidationChecks) -> bool {
    &&& c.run_at_ok == hh_mm_parses(s.ai.dreamer.run_at@)
    &&& (s.ai.connection.base_url matches Some(u) ==> c.connection_url_ok == url_parses(u@))
    &&& (s.ai.prefill matches Some(p) ==> c.prefill_url_ok == url_parses(p.base_url@))
    &&& (s.ai.web matches Some(w) ==> c.web_url_ok == url_parses(w.base_url@))
    &&& c.threshold_text@ == text
}

/// What opening the store serves.
pub struct OpenPlan {
    pub settings: Settings,
    /// The file on disk failed validation and must be moved aside.
    pub quarantine: bool,
}

/// Serves `resolved` when it validates, else `defaults` and a quarantine.
/// `threshold_text` is how `resolved`'s prefill threshold prints.
pub fn settle_open(defaults: Settings, resolved: Settings, threshold_text: &str) -> (r: OpenPlan)
    ensures
        exists|c: ValidationChecks|
            #![trigger settings_errors(resolved, c)]
            checks_of(resolved, threshold_text@, c) && (if settings_errors(resolved, c).len()
                == 0 {
                r.settings == resolved && !r.quarantine
            } else {
                r.settings == defaults && r.quarantine
            }),
{
    let checks = resolved.validation_checks(threshold_text);
    let verdict = resolved.validate_with(&checks);
    assert(checks_of(resolved, threshold_text@, checks));
    match verdict {
        Ok(()) => OpenPlan { settings: resolved, quarantine: false },
        Err(_) => OpenPlan { settings: defaults, quarantine: true },
    }
}

/// A patch merged into the stored overrides, not yet validated.
pub struct PendingApply {
    pub overrides: SettingsOverrides,
    /// The resolved settings before the patch.
    pub prior: Settings,
    /// The resolved settings after the patch.
    pub resolved: Settings,
}

/// Merges `patch` into the stored overrides and resolves both states.
pub fn prepare_apply(defaults: &Settings, current: SettingsOverrides, patch: &SettingsOverrides) -> (r:
    PendingApply)
    ensures
        r.overrides == merge_spec(current, *patch),
        resolves_to(*defaults, current, r.prior),
        resolves_to(*defaults, r.overrides, r.resolved),
{
    let mut merged = current;
    let prior = Settings::resolve(defaults, &merged);
    merge_into(&mut merged, patch);
    let resolved = Settings::resolve(defaults, &merged);
    PendingApply { overrides: merged, prior, resolved }
}

/// What an apply or a reset writes and records.
pub struct Applied {
    /// The overrides to persist.
    pub overrides: SettingsOverrides,
    /// The new resolved settings.
    pub settings: Settings,
    /// The audit changes; nothing is recorded when empty.
    pub changes: Vec<AuditChange>,
}

/// Validates a pending apply. `threshold_text` is how the resolved prefill
/// threshold prints. On success the overrides are written and every changed
/// field is recorded; on failure nothing changes and every violation is
/// returned.
pub fn finish_apply(pending: PendingApply, threshold_text: &str) -> (r: Result<
    Applied,
    Vec<FieldError>,
>)
    ensures
        exists|c: ValidationChecks|
            #![trigger settings_errors(pending.resolved, c)]
            checks_of(pending.resolved, threshold_text@, c) && match r {
                Ok(a) => settings_errors(pending.resolved, c).len() == 0 && a.overrides
                    == pending.overrides && a.settings == pending.resolved && change_views(
                    a.changes@,
                ) == diff_spec(pending.prior, pending.resolved),
                Err(errs) => settings_errors(pending.resolved, c).len() > 0 && views(errs@)
                    == settings_errors(pending.resolved, c),
            },
{
    let checks = pending.resolved.validation_checks(threshold_text);
    let verdict = pending.resolved.validate_with(&checks);
    assert(checks_of(pending.resolved, threshold_text@, checks));
    match verdict {
        Ok(()) => {
            let changes = diff_changes(&pending.prior, &pending.resolved);
            Ok(Applied { overrides: pending.overrides, settings: pending.resolved, changes })
        },
        Err(errs) => Err(errs),
    }
}

/// Resets one section of the stored overrides; a reset is not validated.
pub fn plan_reset(defaults: &Settings, current: SettingsOverrides, section: SettingsSection) -> (r:
    Applied)
    ensures
        r.overrides == reset_spec(current, section),
        exists|prior: Settings|
            resolves_to(*defaults, current, prior) && change_views(r.changes@) == diff_spec(
                prior,
                r.settings,
            ),
        resolves_to(*defaults, r.overrides, r.settings),
{
    let mut next = current;
    let prior = Settings::resolve(defaults, &next);
    reset_section(&mut next, section);
    let settings = Settings::resolve(defaults, &next);
    let changes = diff_changes(&prior, &settings);
    Applied { overrides: next, settings, changes }
}

} // verus!
