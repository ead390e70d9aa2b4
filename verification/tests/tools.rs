use twitch_1337::llm::ToolCall;
use twitch_1337::memory::tools::{
    check_body_size, chat_turn_tools, classify_role_v2, dreamer_tools, handle_say, memory_tool,
    say_line, state_creator, write_limit, write_result_text, ChatTurnRules, DeleteStateArgs,
    MemoryTool, Role, SayArgs, SlugError, ToolSchemas, WriteError, WriteFileArgs, WritePath,
    WriteQuota, WriteStateArgs,
};
use twitch_1337::settings::AiMemory;

fn schemas() -> ToolSchemas {
    ToolSchemas {
        write_file: "{\"type\":\"object\"}".to_string(),
        write_state: "{}".to_string(),
        delete_state: "{}".to_string(),
        say: "{}".to_string(),
    }
}

fn call(name: &str, args: &str) -> ToolCall {
    ToolCall {
        id: name.to_string(),
        name: name.to_string(),
        arguments: args.to_string(),
        arguments_parse_error: None,
    }
}

fn rules(role: Role, max_state: usize, max_writes: usize) -> ChatTurnRules {
    ChatTurnRules::new("12345".to_string(), role, max_state, max_writes)
}

fn user(id: &str) -> Option<WritePath> {
    Some(WritePath::User { user_id: id.to_string() })
}

#[test]
fn chat_turn_tools_has_four_named_tools() {
    let names: Vec<_> = chat_turn_tools(&schemas()).into_iter().map(|t| t.name).collect();
    assert_eq!(names, vec!["write_file", "write_state", "delete_state", "say"]);
}

#[test]
fn dreamer_tools_has_three_no_say() {
    let names: Vec<_> = dreamer_tools(&schemas()).into_iter().map(|t| t.name).collect();
    assert_eq!(names, vec!["write_file", "write_state", "delete_state"]);
}

#[test]
fn write_file_args_round_trip() {
    let c = call("write_file", "{\"path\": \"users/12.md\", \"body\": \"hi\"}");
    let parsed = WriteFileArgs::from_call(&c).unwrap();
    assert_eq!(parsed.path, "users/12.md");
    assert_eq!(parsed.body, "hi");
}

#[test]
fn tool_args_need_every_string_member() {
    assert_eq!(WriteFileArgs::from_call(&call("write_file", "{\"path\":\"SOUL.md\"}")), None);
    assert_eq!(WriteStateArgs::from_call(&call("write_state", "{\"slug\":\"a\",\"body\":3}")), None);
    assert_eq!(
        WriteStateArgs::from_call(&call("write_state", "{\"slug\":\"a\",\"body\":\"b\"}")),
        Some(WriteStateArgs { slug: "a".into(), body: "b".into() })
    );
    assert_eq!(
        DeleteStateArgs::from_call(&call("delete_state", "{\"slug\":\"qz\"}")),
        Some(DeleteStateArgs { slug: "qz".into() })
    );
    assert_eq!(SayArgs::from_call(&call("say", "not json")), None);
}

#[test]
fn regular_writes_own_user_file() {
    let mut r = rules(Role::Regular, 16, 8);
    assert_eq!(r.check_write_file(&user("12345"), true), Ok(()));
}

#[test]
fn regular_cannot_write_other_user_file() {
    let mut r = rules(Role::Regular, 16, 8);
    assert_eq!(r.check_write_file(&user("99"), true), Err("permission_denied"));
}

#[test]
fn regular_cannot_write_lore_or_soul() {
    let mut r = rules(Role::Regular, 16, 8);
    for path in [WritePath::Lore, WritePath::Soul] {
        assert_eq!(r.check_write_file(&Some(path), true), Err("permission_denied"));
    }
}

#[test]
fn moderator_can_write_lore_but_not_soul() {
    let mut r = rules(Role::Moderator, 16, 8);
    assert_eq!(r.check_write_file(&Some(WritePath::Lore), true), Ok(()));
    assert_eq!(r.check_write_file(&Some(WritePath::Soul), true), Err("permission_denied"));
}

#[test]
fn invalid_path_and_invalid_slug_are_reported() {
    let mut r = rules(Role::Regular, 16, 8);
    assert_eq!(r.check_write_file(&None, true), Err("invalid_path"));
    assert_eq!(r.check_write_state(Err(SlugError::Invalid), true, true, 0), Err("invalid_slug"));
    assert_eq!(r.check_write_state(Err(SlugError::Reserved), true, true, 0), Err("reserved_slug"));
    assert_eq!(r.quota.used, 0);
}

#[test]
fn state_full_only_for_new_files() {
    let mut r = rules(Role::Regular, 1, 8);
    assert_eq!(r.check_write_state(Ok("first".into()), true, true, 0), Ok("first".to_string()));
    assert_eq!(r.check_write_state(Ok("second".into()), true, true, 1), Err("state_full"));
    assert_eq!(r.check_write_state(Ok("first".into()), true, false, 1), Ok("first".to_string()));
}

#[test]
fn write_quota_exhausts_after_n_writes_but_say_still_works() {
    let mut r = rules(Role::Regular, 16, 1);
    assert_eq!(r.check_write_file(&user("12345"), true), Ok(()));
    assert_eq!(r.check_write_file(&user("12345"), true), Err("write_quota_exhausted"));
    assert_eq!(r.quota.used, 1);
    let (content, line) = handle_say(&call("say", "{\"text\": \"still on\"}"));
    assert_eq!(content, "ok");
    assert_eq!(line.as_deref(), Some("still on"));
}

#[test]
fn delete_state_blocked_for_non_creator_regular() {
    let mut r = rules(Role::Regular, 16, 8);
    assert_eq!(r.check_delete_state(Ok("qz".into()), &Some("99".into())), Err("permission_denied"));
    assert_eq!(r.check_delete_state(Ok("qz".into()), &None), Err("permission_denied"));
    assert_eq!(r.check_delete_state(Ok("qz".into()), &Some("12345".into())), Ok("qz".to_string()));
    let mut m = rules(Role::Moderator, 16, 8);
    assert_eq!(m.check_delete_state(Ok("qz".into()), &Some("99".into())), Ok("qz".to_string()));
}

#[test]
fn say_truncates_over_500_chars() {
    let long = "x".repeat(600);
    let (content, line) = handle_say(&call("say", &format!("{{\"text\": \"{long}\"}}")));
    assert_eq!(content, "ok");
    let line = line.unwrap();
    assert!(line.ends_with('\u{2026}'));
    assert_eq!(line.chars().count(), 500);
    assert_eq!(say_line("a\nb\rc"), "a b c");
    assert_eq!(handle_say(&call("say", "{}")), ("invalid_arguments", None));
}

#[test]
fn dreamer_can_write_soul_lore_any_user() {
    let mut r = ChatTurnRules::dreamer(16, 32);
    for path in [Some(WritePath::Soul), Some(WritePath::Lore), user("77")] {
        assert_eq!(r.check_write_file(&path, true), Ok(()));
    }
}

#[test]
fn dreamer_say_is_unknown() {
    assert_eq!(memory_tool("say", true), MemoryTool::Unknown);
    assert_eq!(memory_tool("say", false), MemoryTool::Say);
    assert_eq!(memory_tool("write_file", true), MemoryTool::WriteFile);
}

#[test]
fn role_follows_badges() {
    assert_eq!(classify_role_v2(&vec!["subscriber".into(), "moderator".into()]), Role::Moderator);
    assert_eq!(classify_role_v2(&vec!["moderator".into(), "broadcaster".into()]), Role::Broadcaster);
    assert_eq!(classify_role_v2(&vec![]), Role::Regular);
    assert_eq!(Role::Dreamer.as_str(), "dreamer");
}

#[test]
fn quota_counts_up_to_its_max() {
    let mut q = WriteQuota::new(2);
    assert!(q.try_consume());
    assert!(q.try_consume());
    assert!(!q.try_consume());
    assert_eq!(q.used, 2);
}

#[test]
fn write_results_read_as_tool_text() {
    assert_eq!(write_result_text(&Ok(())), "ok");
    assert_eq!(write_result_text(&Err(WriteError::Full)), "file_full");
    assert_eq!(write_result_text(&Err(WriteError::Io("disk".into()))), "io_error: disk");
}

#[test]
fn body_over_cap_is_full() {
    let caps = AiMemory {
        soul_bytes: 4,
        lore_bytes: 8,
        user_bytes: 2,
        state_bytes: 1,
        inject_byte_budget: 100,
        max_state_files: 3,
    };
    assert_eq!(write_limit(&WritePath::Soul, &caps), 4);
    assert_eq!(write_limit(&WritePath::User { user_id: "1".into() }, &caps), 2);
    assert_eq!(check_body_size("ab", 2), Ok(()));
    assert_eq!(check_body_size("ä", 1), Err(WriteError::Full));
    assert_eq!(check_body_size("abc", 2), Err(WriteError::Full));
}

#[test]
fn state_creator_is_kept_from_first_write() {
    assert_eq!(state_creator(Some("99".into()), Some("12")), Some("99".to_string()));
    assert_eq!(state_creator(None, Some("12")), Some("12".to_string()));
    assert_eq!(state_creator(None, None), None);
}

#[test]
fn only_the_first_writes_of_a_turn_are_granted() {
    let mut q = WriteQuota::new(3);
    let answers: Vec<bool> = (0..5).map(|_| q.try_consume()).collect();
    assert_eq!(answers, vec![true, true, true, false, false]);
}
