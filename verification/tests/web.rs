use twitch_1337::settings::{AiPrefill, AiBackendKind, AiSettings, SettingsSection};
use twitch_1337::web::{
    check_is_mod_locally, form_into_ai_overrides, is_valid_user_id, moderator_page_step,
    outcome_from_moderator_list, reset_section_named, restart_required, save_flash, save_patch,
    submitted_settings, user_id_error, ModCheckOutcome, ModeratorPage, PageStep, ResponseBody,
    SaveForm, WebError,
};

fn form() -> SaveForm {
    SaveForm {
        csrf: "c".into(),
        cooldown_ai: 30,
        cooldown_news: 60,
        cooldown_up: 30,
        cooldown_feedback: 300,
        cooldown_doener: 30,
        ping_cooldown: 300,
        ping_public: None,
        ai_connection_backend: None,
        ai_connection_base_url: None,
        ai_connection_model: None,
        ai_connection_timeout: None,
        ai_connection_reasoning_effort: None,
        ai_behavior_max_turn_rounds: None,
        ai_behavior_max_writes_per_turn: None,
        ai_behavior_persona_name: None,
        ai_history_length: None,
        ai_history_ai_channel_length: None,
        ai_memory_soul_bytes: None,
        ai_memory_lore_bytes: None,
        ai_memory_user_bytes: None,
        ai_memory_state_bytes: None,
        ai_memory_inject_byte_budget: None,
        ai_memory_max_state_files: None,
        ai_dreamer_enabled: None,
        ai_dreamer_model: None,
        ai_dreamer_reasoning_effort: None,
        ai_dreamer_run_at: None,
        ai_dreamer_timeout_secs: None,
        ai_dreamer_max_rounds: None,
        ai_prefill_card_visible: None,
        ai_prefill_enabled: None,
        ai_prefill_base_url: None,
        ai_prefill_threshold_bits: None,
        ai_web_card_visible: None,
        ai_web_enabled: None,
        ai_web_base_url: None,
        ai_web_timeout: None,
        ai_web_max_results: None,
        ai_web_max_rounds: None,
        ai_web_cache_ttl_secs: None,
        ai_web_cache_capacity: None,
        ai_emotes_card_visible: None,
        ai_emotes_enabled: None,
        ai_emotes_include_global: None,
        ai_emotes_refresh_interval_secs: None,
        ai_emotes_max_prompt_emotes: None,
        ai_emotes_min_baseline_emotes: None,
        ai_emotes_base_url: None,
        ai_media_model: None,
        ai_media_timeout: None,
        ai_media_max_image_size: None,
        ai_media_max_pdf_size: None,
        ai_media_max_audio_size: None,
        ai_media_max_video_size: None,
        ai_media_max_text_size: None,
    }
}

#[test]
fn errors_answer_with_status_and_text() {
    let r = WebError::Unauthenticated { next: "/memory?x=1 2".into() }.response();
    assert_eq!(r.status, 303);
    assert_eq!(r.body, ResponseBody::Redirect("/login?next=%2Fmemory%3Fx%3D1%202".into()));
    let r = WebError::Forbidden.response();
    assert_eq!((r.status, r.body), (403, ResponseBody::DeniedPage));
    let r = WebError::CsrfMismatch.response();
    assert_eq!(r.body, ResponseBody::Text("Session expired, reload and try again".into()));
    let r = WebError::Validation { field: "section".into(), msg: "bad".into() }.response();
    assert_eq!((r.status, r.body), (400, ResponseBody::Text("validation: section: bad".into())));
    let r = WebError::DuplicateName { name: "dbd".into() }.response();
    assert_eq!(r.body, ResponseBody::Text("ping `dbd` already exists".into()));
    let r = WebError::OAuthExchange("nope".into()).response();
    assert_eq!((r.status, r.body), (502, ResponseBody::Text("oauth exchange failed: nope".into())));
    let r = WebError::Internal("secret detail".into()).response();
    assert_eq!((r.status, r.body), (500, ResponseBody::Text("internal error".into())));
    let r = WebError::Conflict {
        kind: "user".into(),
        id: "1".into(),
        current_body: "b".into(),
        current_mtime: 7,
        draft: "d".into(),
    }
    .response();
    assert_eq!(r.status, 409);
    assert!(matches!(r.body, ResponseBody::ConflictPage { current_mtime: 7, .. }));
}

#[test]
fn mod_gate_order() {
    let hidden = vec!["7".to_string()];
    assert_eq!(check_is_mod_locally("7", "100", &hidden), Some(ModCheckOutcome::Allow));
    assert_eq!(check_is_mod_locally("100", "100", &hidden), Some(ModCheckOutcome::Allow));
    assert_eq!(check_is_mod_locally("12345", "100", &hidden), None);
    assert_eq!(outcome_from_moderator_list(true), ModCheckOutcome::Allow);
    assert_eq!(outcome_from_moderator_list(false), ModCheckOutcome::Deny);
}

#[test]
fn is_moderator_follows_cursor() {
    let page1 = ModeratorPage { user_ids: vec!["999".into()], cursor: Some("page2".into()) };
    assert_eq!(moderator_page_step(&page1, "12345"), PageStep::Next("page2".into()));
    let page2 = ModeratorPage { user_ids: vec!["12345".into()], cursor: None };
    assert_eq!(moderator_page_step(&page2, "12345"), PageStep::Found);
    let empty = ModeratorPage { user_ids: vec![], cursor: Some(String::new()) };
    assert_eq!(moderator_page_step(&empty, "12345"), PageStep::NotFound);
}

#[test]
fn memory_user_ids_are_short_digit_strings() {
    assert!(is_valid_user_id("12345"));
    assert!(!is_valid_user_id(""));
    assert!(!is_valid_user_id("../etc"));
    assert!(!is_valid_user_id("%2e%2e"));
    assert!(is_valid_user_id(&"1".repeat(32)));
    assert!(!is_valid_user_id(&"1".repeat(33)));
    match user_id_error() {
        WebError::Validation { field, msg } => {
            assert_eq!(field, "user_id");
            assert_eq!(msg, "must be numeric, 1-32 digits");
        }
        _ => panic!("expected validation"),
    }
}

#[test]
fn form_fields_map_to_a_sparse_patch() {
    let mut f = form();
    f.ai_connection_backend = Some("ollama".into());
    f.ai_connection_base_url = Some("  ".into());
    f.ai_connection_reasoning_effort = Some("none".into());
    f.ai_behavior_persona_name = Some("  Aurora  ".into());
    f.ai_dreamer_model = Some(String::new());
    f.ai_web_card_visible = Some("1".into());
    f.ai_emotes_card_visible = Some("1".into());
    f.ai_emotes_include_global = Some("1".into());
    f.ai_media_max_image_size = Some("1048576".into());
    f.ai_media_max_pdf_size = Some("2 MiB".into());
    f.ai_media_max_text_size = Some("lots".into());
    let a = form_into_ai_overrides(&f);
    assert_eq!(a.connection.backend, Some(AiBackendKind::Ollama));
    assert_eq!(a.connection.base_url, Some(None));
    assert_eq!(a.connection.reasoning_effort, Some(None));
    assert_eq!(a.behavior.persona_name.as_deref(), Some("Aurora"));
    assert_eq!(a.dreamer.enabled, Some(false));
    assert_eq!(a.dreamer.model, Some(None));
    assert_eq!(a.prefill.enabled, None);
    assert_eq!(a.web.enabled, Some(false));
    assert_eq!(a.emotes.enabled, Some(false));
    assert_eq!(a.emotes.include_global, Some(true));
    assert_eq!(a.media.max_image_size, Some(1048576));
    assert_eq!(a.media.max_pdf_size, Some(2 * 1024 * 1024));
    assert_eq!(a.media.max_text_size, None);
    f.ai_connection_backend = Some("gemini".into());
    assert_eq!(form_into_ai_overrides(&f).connection.backend, None);
}

#[test]
fn save_patch_sets_every_cooldown() {
    let mut f = form();
    f.ping_public = Some("1".into());
    f.cooldown_ai = 0;
    let p = save_patch(&f);
    assert_eq!(p.cooldowns.ai, Some(0));
    assert_eq!(p.pings.public, Some(true));
    let s = submitted_settings(&f);
    assert_eq!(s.cooldowns.ai, 0);
    assert!(s.pings.public);
    assert_eq!(s.ai, AiSettings::default());
}

#[test]
fn restart_is_required_for_connection_and_enabling_cards() {
    let before = AiSettings::default();
    let mut after = AiSettings::default();
    assert!(restart_required(&before, &after).is_empty());
    after.connection.backend = AiBackendKind::Ollama;
    after.prefill = Some(AiPrefill { base_url: "http://p".into(), threshold_bits: 0 });
    assert_eq!(
        restart_required(&before, &after),
        vec!["ai.connection.backend".to_string(), "ai.prefill (enabling requires restart)".to_string()]
    );
    let mut later = after.clone();
    later.prefill = Some(AiPrefill { base_url: "http://q".into(), threshold_bits: 0 });
    assert_eq!(restart_required(&after, &later), vec!["ai.prefill.base_url".to_string()]);
    assert_eq!(save_flash(&vec![]), "Settings saved.");
    assert_eq!(
        save_flash(&vec!["a".into(), "b".into()]),
        "Settings saved. Restart bot to apply: a, b"
    );
}

#[test]
fn reset_accepts_only_cooldowns_and_pings() {
    assert_eq!(reset_section_named("cooldowns"), Ok(SettingsSection::Cooldowns));
    assert_eq!(reset_section_named("pings"), Ok(SettingsSection::Pings));
    assert_eq!(
        reset_section_named("ai"),
        Err(WebError::Validation { field: "section".into(), msg: "unknown section `ai`".into() })
    );
}

#[test]
fn login_redirect_encodes_utf8_bytes() {
    let r = WebError::Unauthenticated { next: "/ä~€".into() }.response();
    assert_eq!(r.body, ResponseBody::Redirect("/login?next=%2F%C3%A4~%E2%82%AC".into()));
}

#[test]
fn moderator_query_names_channel_user_page_size_and_cursor() {
    let q = twitch_1337::web::moderator_query("b1", "12345", &None);
    let pairs: Vec<(&str, &str)> = q.iter().map(|(k, v)| (k.as_str(), v.as_str())).collect();
    assert_eq!(pairs, vec![("broadcaster_id", "b1"), ("user_id", "12345"), ("first", "100")]);
    let q = twitch_1337::web::moderator_query("b1", "12345", &Some("page2".to_string()));
    assert_eq!(q.last().map(|(k, v)| (k.as_str(), v.as_str())), Some(("after", "page2")));
}
