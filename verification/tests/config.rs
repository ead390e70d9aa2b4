use twitch_1337::config::{parse_interval_ok, validate_config, Configuration, ScheduleConfig};

#[test]
fn ai_channel_must_differ_from_main_channel() {
    let mut config = Configuration::test_default();
    config.twitch.ai_channel = Some(config.twitch.channel.clone());
    let err = validate_config(&config).unwrap_err();
    assert!(err.contains("ai_channel must be different from twitch.channel"), "unexpected error: {err}");
}

#[test]
fn ai_channel_must_differ_from_admin_channel() {
    let mut config = Configuration::test_default();
    config.twitch.admin_channel = Some("admins".into());
    config.twitch.ai_channel = Some("admins".into());
    let err = validate_config(&config).unwrap_err();
    assert!(
        err.contains("ai_channel must be different from twitch.admin_channel"),
        "unexpected error: {err}"
    );
}

#[test]
fn ai_channel_cannot_be_blank_when_set() {
    let mut config = Configuration::test_default();
    config.twitch.ai_channel = Some("   ".into());
    let err = validate_config(&config).unwrap_err();
    assert!(err.contains("ai_channel cannot be empty when specified"), "unexpected error: {err}");
}

#[test]
fn ai_channel_some_distinct_value_validates() {
    let mut config = Configuration::test_default();
    config.twitch.ai_channel = Some("ai_chan".into());
    validate_config(&config).expect("distinct ai_channel must validate");
}

#[test]
fn web_disabled_skips_validation() {
    let cfg = Configuration::test_default();
    assert!(!cfg.web.enabled);
    validate_config(&cfg).expect("disabled web validates trivially");
}

#[test]
fn web_enabled_requires_https_public_url() {
    let mut cfg = Configuration::test_default();
    cfg.web.enabled = true;
    cfg.web.session_secret = "00".repeat(32);
    cfg.web.public_url = "http://insecure".into();
    let err = validate_config(&cfg).unwrap_err();
    assert!(err.contains("public_url"), "{err}");
}

#[test]
fn web_enabled_requires_32_byte_secret() {
    let mut cfg = Configuration::test_default();
    cfg.web.enabled = true;
    cfg.web.session_secret = "ab".into();
    cfg.web.public_url = "https://bot.test".into();
    let err = validate_config(&cfg).unwrap_err();
    assert!(err.contains("session_secret"), "{err}");
}

#[test]
fn web_enabled_validates_ttl_range() {
    let mut cfg = Configuration::test_default();
    cfg.web.enabled = true;
    cfg.web.session_secret = "00".repeat(32);
    cfg.web.public_url = "https://bot.test".into();
    cfg.web.session_ttl_secs = 10;
    let err = validate_config(&cfg).unwrap_err();
    assert!(err.contains("session_ttl"), "{err}");
}

#[test]
fn web_enabled_with_valid_fields_passes_and_refresh_is_checked() {
    let mut cfg = Configuration::test_default();
    cfg.web.enabled = true;
    cfg.web.session_secret = "0f".repeat(32);
    cfg.web.public_url = "https://bot.test".into();
    validate_config(&cfg).expect("valid web block");
    cfg.web.mod_check_refresh_secs = 5;
    let err = validate_config(&cfg).unwrap_err();
    assert_eq!(err, "web.mod_check_refresh must be between 30s and 1h (got 5s)");
    cfg.web.mod_check_refresh_secs = 300;
    cfg.web.session_secret = "zz".repeat(32);
    assert!(validate_config(&cfg).unwrap_err().contains("session_secret"));
}

#[test]
fn schedule_intervals_are_hours_and_minutes() {
    assert!(parse_interval_ok("01:30"));
    assert!(parse_interval_ok("0:05"));
    assert!(!parse_interval_ok("1:60"));
    assert!(!parse_interval_ok("90"));
    assert!(!parse_interval_ok("a:10"));
    let mut cfg = Configuration::test_default();
    cfg.schedules.push(ScheduleConfig {
        name: "news".into(),
        message: "hi".into(),
        interval: "bad".into(),
        start_date: None,
        end_date: None,
        active_time_start: None,
        active_time_end: None,
        enabled: true,
    });
    assert_eq!(validate_config(&cfg).unwrap_err(), "Schedule 'news' has invalid interval format");
}

#[test]
fn prefill_defaults() {
    assert_eq!(twitch_1337::config::default_base_url(), "https://logs.zonian.dev");
    assert_eq!(f64::from_bits(twitch_1337::config::default_threshold()), 0.5);
}
