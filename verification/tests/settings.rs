use twitch_1337::settings::audit::AuditValue;
use twitch_1337::settings::overrides::{
    AiConnectionOverrides, AiOverrides, CooldownsOverrides, PingsOverrides, SettingsOverrides,
};
use twitch_1337::settings::plan::{
    finish_apply, load_or_quarantine, plan_reset, prepare_apply, settle_open, StoredOverrides,
};
use twitch_1337::settings::{
    AiPrefill, AiSettings, FieldError, Settings, SettingsSection, SCHEMA_VERSION,
};

fn threshold_text(s: &Settings) -> String {
    match &s.ai.prefill {
        Some(p) => format!("{}", f64::from_bits(p.threshold_bits)),
        None => String::new(),
    }
}

fn validate(s: &Settings) -> Result<(), Vec<FieldError>> {
    s.validate(&threshold_text(s))
}

#[test]
fn empty_overrides_equal_defaults() {
    let defaults = Settings::compiled_defaults();
    let overrides = SettingsOverrides::default();
    assert_eq!(Settings::resolve(&defaults, &overrides), defaults);
}

#[test]
fn cooldown_override_wins_per_field() {
    let defaults = Settings::compiled_defaults();
    let overrides = SettingsOverrides {
        schema_version: SCHEMA_VERSION,
        cooldowns: CooldownsOverrides { ai: Some(15), ..Default::default() },
        pings: PingsOverrides::default(),
        ai: Default::default(),
    };
    let resolved = Settings::resolve(&defaults, &overrides);
    assert_eq!(resolved.cooldowns.ai, 15);
    assert_eq!(resolved.cooldowns.news, defaults.cooldowns.news);
    assert_eq!(resolved.pings, defaults.pings);
}

#[test]
fn pings_public_override_flips_bool() {
    let defaults = Settings::compiled_defaults();
    let overrides = SettingsOverrides {
        pings: PingsOverrides { public: Some(true), ..Default::default() },
        ..SettingsOverrides::default()
    };
    let resolved = Settings::resolve(&defaults, &overrides);
    assert!(resolved.pings.public);
    assert_eq!(resolved.pings.cooldown, defaults.pings.cooldown);
}

#[test]
fn pings_cooldown_override_leaves_public_at_default() {
    let defaults = Settings::compiled_defaults();
    let overrides = SettingsOverrides {
        pings: PingsOverrides { cooldown: Some(600), ..Default::default() },
        ..SettingsOverrides::default()
    };
    let resolved = Settings::resolve(&defaults, &overrides);
    assert_eq!(resolved.pings.cooldown, 600);
    assert_eq!(resolved.pings.public, defaults.pings.public);
}

#[test]
fn validate_collects_multiple_errors() {
    let mut s = Settings::compiled_defaults();
    s.cooldowns.ai = 0;
    s.pings.cooldown = 0;
    let errs = validate(&s).expect_err("both bounds violated");
    let fields: Vec<&str> = errs.iter().map(|e| e.field.as_str()).collect();
    assert!(fields.contains(&"cooldowns.ai"));
    assert!(fields.contains(&"pings.cooldown"));
}

#[test]
fn validate_accepts_compiled_defaults() {
    validate(&Settings::compiled_defaults()).expect("compiled defaults pass validate()");
}

#[test]
fn compiled_defaults_include_ai_block_v2() {
    let s = Settings::compiled_defaults();
    assert_eq!(s.schema_version, 2);
    assert_eq!(s.ai, AiSettings::default());
}

#[test]
fn ai_connection_model_override_wins() {
    let defaults = Settings::compiled_defaults();
    let overrides = SettingsOverrides {
        ai: AiOverrides {
            connection: AiConnectionOverrides { model: Some("gpt-5".into()), ..Default::default() },
            ..Default::default()
        },
        ..SettingsOverrides::default()
    };
    let resolved = Settings::resolve(&defaults, &overrides);
    assert_eq!(resolved.ai.connection.model, "gpt-5");
    assert_eq!(resolved.ai.connection.timeout, defaults.ai.connection.timeout);
}

#[test]
fn validate_rejects_empty_persona_name() {
    let mut s = Settings::compiled_defaults();
    s.ai.behavior.persona_name = "   ".into();
    let errs = validate(&s).expect_err("must fail");
    assert!(errs.iter().any(|e| e.field == "ai.behavior.persona_name"));
}

#[test]
fn validate_rejects_max_turn_rounds_out_of_range() {
    let mut s = Settings::compiled_defaults();
    s.ai.behavior.max_turn_rounds = 0;
    let errs = validate(&s).expect_err("must fail");
    assert!(errs.iter().any(|e| e.field == "ai.behavior.max_turn_rounds"));
}

#[test]
fn validate_rejects_inject_budget_below_soul_plus_lore() {
    let mut s = Settings::compiled_defaults();
    s.ai.memory.soul_bytes = 4096;
    s.ai.memory.lore_bytes = 12288;
    s.ai.memory.inject_byte_budget = 1024;
    let errs = validate(&s).expect_err("must fail");
    assert!(errs.iter().any(|e| e.field == "ai.memory.inject_byte_budget"));
}

#[test]
fn validate_rejects_malformed_dreamer_run_at() {
    let mut s = Settings::compiled_defaults();
    s.ai.dreamer.run_at = "not-a-time".into();
    let errs = validate(&s).expect_err("must fail");
    assert!(errs.iter().any(|e| e.field == "ai.dreamer.run_at"));
}

#[test]
fn validate_rejects_invalid_connection_base_url() {
    let mut s = Settings::compiled_defaults();
    s.ai.connection.base_url = Some("not a url".into());
    let errs = validate(&s).expect_err("must fail");
    assert!(errs.iter().any(|e| e.field == "ai.connection.base_url"));
}

fn with_threshold(t: f64) -> Settings {
    let mut s = Settings::compiled_defaults();
    s.ai.prefill = Some(AiPrefill { base_url: "http://localhost:8080".into(), threshold_bits: t.to_bits() });
    s
}

fn threshold_rejected(t: f64) -> bool {
    match validate(&with_threshold(t)) {
        Ok(()) => false,
        Err(errs) => errs.iter().any(|e| e.field == "ai.prefill.threshold"),
    }
}

#[test]
fn test_prefill_threshold_validation() {
    assert!(!threshold_rejected(0.0));
    assert!(!threshold_rejected(0.5));
    assert!(!threshold_rejected(1.0));
    assert!(threshold_rejected(-0.1));
    assert!(threshold_rejected(1.1));
}

#[test]
fn prefill_threshold_error_quotes_the_value() {
    let errs = validate(&with_threshold(1.5)).expect_err("out of range");
    let e = errs.iter().find(|e| e.field == "ai.prefill.threshold").expect("threshold error");
    assert_eq!(e.message, "must be 0.0..=1.0 (got 1.5)");
}

#[test]
fn empty_dir_yields_compile_defaults() {
    let (overrides, quarantine) = load_or_quarantine(StoredOverrides::Missing);
    assert!(!quarantine);
    let defaults = Settings::compiled_defaults();
    let resolved = Settings::resolve(&defaults, &overrides);
    let plan = settle_open(defaults.clone(), resolved, "");
    assert_eq!(plan.settings, defaults);
    assert!(!plan.quarantine);
}

#[test]
fn corrupt_file_falls_back_to_defaults_and_quarantines() {
    let (overrides, quarantine) = load_or_quarantine(StoredOverrides::Corrupt);
    assert!(quarantine);
    assert_eq!(overrides, SettingsOverrides::default());
}

#[test]
fn apply_records_one_change_per_changed_field() {
    let defaults = Settings::compiled_defaults();
    let patch = SettingsOverrides {
        cooldowns: CooldownsOverrides { ai: Some(15), ..Default::default() },
        ..SettingsOverrides::default()
    };
    let pending = prepare_apply(&defaults, SettingsOverrides::default(), &patch);
    let text = threshold_text(&pending.resolved);
    let applied = finish_apply(pending, &text).expect("valid");
    assert_eq!(applied.settings.cooldowns.ai, 15);
    assert_eq!(applied.changes.len(), 1);
    assert_eq!(applied.changes[0].key, "cooldowns.ai");
    assert_eq!(applied.changes[0].old, AuditValue::Number(30));
    assert_eq!(applied.changes[0].new, AuditValue::Number(15));
    assert_eq!(applied.overrides.cooldowns.ai, Some(15));
}

#[test]
fn apply_rejects_out_of_bound_with_validation_error() {
    let defaults = Settings::compiled_defaults();
    let patch = SettingsOverrides {
        cooldowns: CooldownsOverrides { ai: Some(0), ..Default::default() },
        ..SettingsOverrides::default()
    };
    let pending = prepare_apply(&defaults, SettingsOverrides::default(), &patch);
    let text = threshold_text(&pending.resolved);
    match finish_apply(pending, &text) {
        Err(errs) => assert_eq!(errs[0].field, "cooldowns.ai"),
        Ok(_) => panic!("expected validation error"),
    }
}

#[test]
fn reset_clears_section_back_to_defaults() {
    let defaults = Settings::compiled_defaults();
    let patch = SettingsOverrides {
        cooldowns: CooldownsOverrides { ai: Some(15), news: Some(45), ..Default::default() },
        ..SettingsOverrides::default()
    };
    let pending = prepare_apply(&defaults, SettingsOverrides::default(), &patch);
    let text = threshold_text(&pending.resolved);
    let applied = finish_apply(pending, &text).expect("valid");
    assert_eq!(applied.settings.cooldowns.ai, 15);
    let reset = plan_reset(&defaults, applied.overrides, SettingsSection::Cooldowns);
    assert_eq!(reset.settings.cooldowns.ai, defaults.cooldowns.ai);
    assert_eq!(reset.settings.cooldowns.news, defaults.cooldowns.news);
    assert_eq!(reset.changes.len(), 2);
}

#[test]
fn merging_the_same_patch_twice_changes_nothing_more() {
    let defaults = Settings::compiled_defaults();
    let patch = SettingsOverrides {
        cooldowns: CooldownsOverrides { up: Some(90), ..Default::default() },
        pings: PingsOverrides { public: Some(true), ..Default::default() },
        ..SettingsOverrides::default()
    };
    let once = prepare_apply(&defaults, SettingsOverrides::default(), &patch);
    let twice = prepare_apply(&defaults, once.overrides.clone(), &patch);
    assert_eq!(once.overrides, twice.overrides);
    assert_eq!(once.resolved, twice.resolved);
}

#[test]
fn merging_an_empty_patch_keeps_overrides() {
    let defaults = Settings::compiled_defaults();
    let current = SettingsOverrides {
        cooldowns: CooldownsOverrides { feedback: Some(120), ..Default::default() },
        ..SettingsOverrides::default()
    };
    let pending = prepare_apply(&defaults, current.clone(), &SettingsOverrides::default());
    assert_eq!(pending.overrides, current);
}

#[test]
fn identical_snapshots_have_no_changes() {
    let s = Settings::compiled_defaults();
    assert!(twitch_1337::settings::audit::diff_changes(&s, &s).is_empty());
}

#[test]
fn v2_round_trip_keeps_ai_overrides() {
    let defaults = Settings::compiled_defaults();
    let patch = SettingsOverrides {
        ai: AiOverrides {
            connection: AiConnectionOverrides { model: Some("o5-pro".into()), ..Default::default() },
            ..Default::default()
        },
        ..SettingsOverrides::default()
    };
    let pending = prepare_apply(&defaults, SettingsOverrides::default(), &patch);
    let text = threshold_text(&pending.resolved);
    let applied = finish_apply(pending, &text).expect("valid");
    assert_eq!(applied.settings.ai.connection.model, "o5-pro");
    let reopened = Settings::resolve(&defaults, &applied.overrides);
    assert_eq!(reopened.ai.connection.model, "o5-pro");
}

#[test]
fn defaults_match_legacy_ai_config_defaults() {
    let s = AiSettings::default();
    assert_eq!(s.connection.timeout, 30);
    assert!(s.connection.base_url.is_none());
    assert_eq!(s.behavior.max_turn_rounds, 4);
    assert_eq!(s.behavior.max_writes_per_turn, 8);
    assert_eq!(s.history.length, twitch_1337::settings::DEFAULT_HISTORY_LENGTH);
    assert_eq!(s.history.ai_channel_length, 50);
    assert_eq!(s.memory.soul_bytes, 4096);
    assert_eq!(s.memory.lore_bytes, 12_288);
    assert_eq!(s.memory.user_bytes, 4096);
    assert_eq!(s.memory.state_bytes, 2048);
    assert_eq!(s.memory.inject_byte_budget, 24_576);
    assert_eq!(s.memory.max_state_files, 16);
    assert!(s.dreamer.enabled);
    assert_eq!(s.dreamer.run_at, "04:00");
    assert_eq!(s.dreamer.timeout_secs, 120);
    assert_eq!(s.dreamer.max_rounds, 20);
    assert!(s.prefill.is_none());
    assert!(s.web.is_none());
    assert!(s.emotes.is_none());
    assert_eq!(s.media.model, "~google/gemini-flash-latest");
    assert_eq!(s.media.timeout, 60);
    assert_eq!(s.media.max_image_size, 10 * 1024 * 1024);
}

#[test]
fn validation_messages_quote_the_value() {
    let mut s = Settings::compiled_defaults();
    s.ai.dreamer.run_at = "25:99".into();
    s.ai.connection.base_url = Some("not a url".into());
    let errs = validate(&s).expect_err("two errors");
    let run_at = errs.iter().find(|e| e.field == "ai.dreamer.run_at").expect("run_at");
    assert_eq!(run_at.message, "must be HH:MM (got \"25:99\")");
    let url = errs.iter().find(|e| e.field == "ai.connection.base_url").expect("url");
    assert_eq!(url.message, "must be a valid URL (got \"not a url\")");
}

#[test]
fn swapped_snapshots_swap_old_and_new() {
    let a = Settings::compiled_defaults();
    let mut b = a.clone();
    b.cooldowns.ai = a.cooldowns.ai + 5;
    let ab = twitch_1337::settings::audit::diff_changes(&a, &b);
    let ba = twitch_1337::settings::audit::diff_changes(&b, &a);
    assert_eq!(ab.len(), 1);
    assert_eq!(ba.len(), 1);
    assert_eq!(ab[0].key, "cooldowns.ai");
    assert_eq!(ab[0].key, ba[0].key);
    assert_eq!(ab[0].old, ba[0].new);
    assert_eq!(ab[0].new, ba[0].old);
}
