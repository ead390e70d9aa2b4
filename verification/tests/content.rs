use twitch_1337::ai_command::clean_user_facing_ai_response;
use twitch_1337::ai_command::{start_ai_command, AiPath, AiStart};
use twitch_1337::content::{
    finish_fetch, Payload,
    ai_tools, args_error_payload, current_max_results, doener_tool, error_payload,
    extract_readable_text, history_args_error_text, is_blocked_ip, is_html_content_type,
    is_web_tool, map_fetch_err, map_media_err, media_type_of, normalize_query, normalize_url,
    over_max_cap, pick_content_type, plan_web_search, precheck_fetch, resolves_to_blocked,
    text_payload, truncate_chars, unknown_tool_payload, url_host_is_blocked, BucketCaps,
    FetchError, IpLiteral, ToolArgsError, DOENER_TOOL_NAME,
};
use twitch_1337::settings::{AiMedia, AiWeb, Bucket, Settings};

#[test]
fn doener_index_is_not_a_web_tool() {
    assert!(!is_web_tool(DOENER_TOOL_NAME));
    assert!(is_web_tool("web_search"));
    assert!(is_web_tool("fetch_url"));
}

#[test]
fn tool_def_has_expected_name() {
    let t = doener_tool();
    assert_eq!(t.name, "doener_index");
}

#[test]
fn ai_tools_surface_contains_only_web_tools() {
    let names: Vec<String> = ai_tools(&"{}".to_string()).into_iter().map(|t| t.name).collect();
    assert_eq!(names, vec!["web_search", "fetch_url"]);
    assert!(!names.iter().any(|n| n.ends_with("_memory")));
    assert!(!names.iter().any(|n| n == "save_memory"));
    assert!(!names.iter().any(|n| n == "merge_memories"));
}

#[test]
fn detects_html_like_content_types() {
    assert!(is_html_content_type("text/html"));
    assert!(is_html_content_type("text/html; charset=utf-8"));
    assert!(is_html_content_type("application/xhtml+xml"));
    assert!(is_html_content_type("application/xml"));
    assert!(!is_html_content_type("application/json"));
}

#[test]
fn blocks_localhost_and_private_ips() {
    assert_eq!(url_host_is_blocked("http://localhost/test"), Some(true));
    assert_eq!(url_host_is_blocked("http://127.0.0.1/test"), Some(true));
    assert_eq!(url_host_is_blocked("http://10.0.0.2/test"), Some(true));
    assert_eq!(url_host_is_blocked("https://example.com/test"), Some(false));
}

#[test]
fn extracts_readable_text_from_html() {
    let html = r#"
        <html><body>
            <nav>menu</nav>
            <article>
                <h1>Title</h1>
                <p>First paragraph.</p>
                <p>Second paragraph.</p>
            </article>
            <script>ignore me</script>
        </body></html>
    "#;
    let out = extract_readable_text(html);
    assert!(out.contains("Title"), "got: {out}");
    assert!(out.contains("First paragraph."), "got: {out}");
    assert!(!out.contains("ignore me"), "got: {out}");
}

fn web(max_results: usize) -> AiWeb {
    AiWeb {
        base_url: "http://127.0.0.1:65535/search".to_string(),
        timeout: 1,
        max_results,
        max_rounds: 3,
        cache_ttl_secs: 300,
        cache_capacity: 32,
    }
}

#[test]
fn max_results_reflects_live_settings() {
    let mut base = Settings::compiled_defaults();
    base.ai.web = Some(web(10));
    assert_eq!(current_max_results(&base), 10);
    let mut updated = Settings::compiled_defaults();
    updated.ai.web = Some(web(3));
    assert_eq!(current_max_results(&updated), 3);
    assert_eq!(current_max_results(&Settings::compiled_defaults()), 5);
}

#[test]
fn live_media_reflects_settings_update() {
    let base = Settings::compiled_defaults();
    let default_cap = BucketCaps::from_media(&base.ai.media).image;
    assert_eq!(default_cap, 10 * 1024 * 1024);
    let mut updated = Settings::compiled_defaults();
    updated.ai.media = AiMedia { max_image_size: 1, ..AiMedia::default() };
    let caps = BucketCaps::from_media(&updated.ai.media);
    assert_eq!(caps.cap_for(Bucket::Image), 1);
    assert_eq!(caps.max(), 50 * 1024 * 1024);
}

#[test]
fn fetch_precheck_refuses_bad_targets() {
    assert!(matches!(precheck_fetch("not a url", true), Err(FetchError::InvalidUrl)));
    match precheck_fetch("ftp://example.com/x", true) {
        Err(FetchError::UnsupportedScheme(s)) => assert_eq!(s, "ftp"),
        _ => panic!("expected unsupported scheme"),
    }
    assert!(matches!(precheck_fetch("http://192.168.1.1/", true), Err(FetchError::BlockedHost)));
    let t = precheck_fetch("http://192.168.1.1/", false).expect("guards off");
    assert!(!t.resolve_check);
    let t = precheck_fetch("https://example.com/a", true).expect("public host");
    assert_eq!(t.host.as_deref(), Some("example.com"));
    assert!(t.resolve_check);
    let t = precheck_fetch("https://8.8.8.8/", true).expect("public literal");
    assert!(!t.resolve_check);
}

#[test]
fn blocked_ip_ranges() {
    assert!(is_blocked_ip(IpLiteral::V4(127, 0, 0, 1)));
    assert!(is_blocked_ip(IpLiteral::V4(172, 16, 0, 1)));
    assert!(!is_blocked_ip(IpLiteral::V4(172, 32, 0, 1)));
    assert!(is_blocked_ip(IpLiteral::V4(169, 254, 1, 1)));
    assert!(is_blocked_ip(IpLiteral::V4(203, 0, 113, 9)));
    assert!(!is_blocked_ip(IpLiteral::V4(8, 8, 8, 8)));
    assert!(is_blocked_ip(IpLiteral::V6(0, 0, 0, 0, 0, 0, 0, 1)));
    assert!(is_blocked_ip(IpLiteral::V6(0xfd00, 0, 0, 0, 0, 0, 0, 1)));
    assert!(is_blocked_ip(IpLiteral::V6(0xfe80, 0, 0, 0, 0, 0, 0, 1)));
    assert!(!is_blocked_ip(IpLiteral::V6(0x2001, 0xdb8, 0, 0, 0, 0, 0, 1)));
    assert!(resolves_to_blocked(&vec![]));
    assert!(resolves_to_blocked(&vec![IpLiteral::V4(8, 8, 8, 8), IpLiteral::V4(10, 0, 0, 1)]));
    assert!(!resolves_to_blocked(&vec![IpLiteral::V4(8, 8, 8, 8)]));
}

#[test]
fn search_plan_clamps_and_keys() {
    let p = plan_web_search("  rust   news ", Some(50), 5).expect("query");
    assert_eq!(p.query, "rust   news");
    assert_eq!(p.max_results, 5);
    assert_eq!(p.cache_key, "rust news::5");
    let p = plan_web_search("q", Some(0), 5).expect("query");
    assert_eq!(p.max_results, 1);
    let p = plan_web_search("q", None, 4).expect("query");
    assert_eq!(p.max_results, 4);
    let e = plan_web_search("   ", None, 5).err().expect("empty");
    assert_eq!(e, "{\"details\":\"query cannot be empty\",\"error\":\"invalid_arguments\"}");
}

#[test]
fn payloads_are_json_with_sorted_keys() {
    assert_eq!(error_payload("fetch_failed", "x \"y\""), "{\"details\":\"x \\\"y\\\"\",\"error\":\"fetch_failed\"}");
    assert_eq!(unknown_tool_payload("save_memory"), "{\"error\":\"unknown_tool\",\"tool\":\"save_memory\"}");
    let e = ToolArgsError::Provider { error: "bad".into(), raw: "{".into() };
    assert_eq!(
        args_error_payload("fetch_url", &e),
        "{\"details\":\"bad\",\"error\":\"invalid_arguments_json\",\"raw\":\"{\",\"tool\":\"fetch_url\"}"
    );
    let e = ToolArgsError::Deserialize { error: "missing field `url`".into() };
    assert_eq!(
        args_error_payload("fetch_url", &e),
        "{\"details\":\"missing field `url`\",\"error\":\"invalid_arguments\",\"tool\":\"fetch_url\"}"
    );
    assert_eq!(
        history_args_error_text("recent_chat", &e),
        "Error: tool 'recent_chat' arguments were the wrong shape (missing field `url`)"
    );
}

#[test]
fn error_codes_follow_messages() {
    assert_eq!(map_fetch_err("Blocked target host"), "fetch_blocked");
    assert_eq!(map_fetch_err("Response too large"), "payload_too_large");
    assert_eq!(map_fetch_err("Unsupported content type"), "unsupported_content_type");
    assert_eq!(map_media_err("request Timed Out"), "analysis_timeout");
    assert_eq!(map_media_err("boom"), "analysis_failed");
}

#[test]
fn text_shaping() {
    assert_eq!(truncate_chars("abcdef", 3), "abc...");
    assert_eq!(truncate_chars("abc", 3), "abc");
    assert_eq!(normalize_query(" a \n b "), "a b");
    assert_eq!(normalize_url("  HTTPS://Example.COM/A "), "https://example.com/a");
    assert_eq!(media_type_of("Text/HTML; charset=utf-8"), "text/html");
}

#[test]
fn content_type_falls_back_to_sniffing() {
    assert_eq!(pick_content_type("text/plain".into(), &vec![]), "text/plain");
    let png = vec![0x89, 0x50, 0x4E, 0x47, 0x0D, 0x0A, 0x1A, 0x0A, 0, 0, 0, 0x0D];
    assert_eq!(pick_content_type(String::new(), &png), "image/png");
    assert_eq!(pick_content_type(String::new(), &vec![1, 2, 3]), "application/octet-stream");
}

#[test]
fn text_payload_reads_text_and_html() {
    assert_eq!(text_payload("text/plain", &b"hello".to_vec()).unwrap(), "hello");
    assert!(matches!(text_payload("text/plain", &b"   ".to_vec()), Err(FetchError::NoReadableContent)));
    let html = b"<html><body><p>Para</p></body></html>".to_vec();
    assert!(text_payload("text/html", &html).unwrap().contains("Para"));
}

#[test]
fn oversize_lengths_are_refused() {
    let caps = BucketCaps { image: 10, pdf: 20, audio: 5, video: 7, text: 1 };
    assert!(!over_max_cap(20, &caps));
    assert!(over_max_cap(21, &caps));
}

#[test]
fn recent_chat_tool_schema_is_valid_json() {
    let t = twitch_1337::ai_command::recent_chat_tool_definition();
    assert_eq!(t.name, "get_recent_chat");
    let v: serde_json::Value = serde_json::from_str(&t.parameters).expect("json");
    assert_eq!(v["properties"]["limit"]["maximum"], 200);
    let v: serde_json::Value = serde_json::from_str(&twitch_1337::content::doener_tool().parameters).expect("json");
    assert_eq!(v["type"], "object");
    let v: serde_json::Value =
        serde_json::from_str(twitch_1337::content::WEB_SEARCH_PARAMETERS).expect("json");
    assert_eq!(v["required"][0], "query");
}

#[test]
fn error_payload_escapes_control_characters() {
    assert_eq!(
        error_payload("e", "a\nb\u{1}c\\"),
        "{\"details\":\"a\\nb\\u0001c\\\\\",\"error\":\"e\"}"
    );
}

#[test]
fn ai_start_checks_cooldown_before_usage() {
    let none: Vec<String> = Vec::new();
    match start_ai_command(Some("3s"), &none, false, false, false, false) {
        AiStart::Reply(t) => assert_eq!(t, "Bitte warte noch 3s Waiting"),
        _ => panic!("expected the cooldown text"),
    }
    match start_ai_command(None, &none, true, false, false, true) {
        AiStart::Reply(t) => assert_eq!(t, "Benutzung: @grok <anweisung>"),
        _ => panic!("expected the usage line"),
    }
    let words = vec!["wie".to_string(), "gehts".to_string()];
    match start_ai_command(None, &words, true, false, false, true) {
        AiStart::Run { instruction, path } => {
            assert_eq!(instruction, "wie gehts");
            assert!(matches!(path, AiPath::Web { forced_search: true }));
        }
        _ => panic!("expected a run"),
    }
    match start_ai_command(None, &words, false, false, true, true) {
        AiStart::Run { path, .. } => assert!(matches!(path, AiPath::Memory)),
        _ => panic!("expected a run"),
    }
    match start_ai_command(None, &words, false, false, false, false) {
        AiStart::Run { path, .. } => assert!(matches!(path, AiPath::Plain)),
        _ => panic!("expected a run"),
    }
}

#[test]
fn leaked_preamble_is_dropped_up_to_the_first_bar() {
    assert_eq!(clean_user_facing_ai_response("  Thought  plan | Hallo | du"), "Hallo | du");
    assert_eq!(clean_user_facing_ai_response("FINAL\tx|  ok"), "ok");
    assert_eq!(clean_user_facing_ai_response("thoughtful | x"), "thoughtful | x");
    assert_eq!(clean_user_facing_ai_response("analysis ohne Strich"), "analysis ohne Strich");
    assert_eq!(clean_user_facing_ai_response("  einfach so"), "  einfach so");
}

fn caps() -> BucketCaps {
    BucketCaps { image: 1000, pdf: 1000, audio: 1000, video: 1000, text: 1000 }
}

#[test]
fn text_fetch_returns_readable_text_or_fails_when_none() {
    let html = b"<html><body><p>Hallo  Welt</p><p>zwei</p></body></html>".to_vec();
    let f = finish_fetch("https://x.test/", "text/html; charset=utf-8".to_string(), html, Some(Bucket::Text), &caps())
        .expect("readable text");
    assert_eq!(f.content_type, "text/html; charset=utf-8");
    match f.payload {
        Payload::Text(t) => assert_eq!(t, "Hallo Welt\nzwei"),
        _ => panic!("expected text"),
    }
    let blank = b"   \n ".to_vec();
    assert!(matches!(
        finish_fetch("https://x.test/", "text/plain".to_string(), blank, Some(Bucket::Text), &caps()),
        Err(FetchError::NoReadableContent)
    ));
}

#[test]
fn empty_header_takes_the_sniffed_type() {
    let png = vec![0x89, b'P', b'N', b'G', 0x0D, 0x0A, 0x1A, 0x0A, 0, 0, 0, 0x0D, b'I', b'H', b'D', b'R'];
    let f = finish_fetch("https://x.test/a", String::new(), png, Some(Bucket::Image), &caps()).expect("image");
    assert_eq!(f.content_type, "image/png");
}

#[test]
fn readable_text_falls_back_to_all_text() {
    assert_eq!(extract_readable_text("<html><body><div> eins  <b>zwei</b></div></body></html>"), "eins zwei");
}
