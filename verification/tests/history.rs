use twitch_1337::ai_command::{finish_ai_reply, AiResult};
use twitch_1337::reactions::post_reaction;
use twitch_1337::history::{
    ChatHistoryBuffer, ChatHistoryQuery, ChatHistorySource, HistoryCapacity,
    MAX_TOOL_RESULT_MESSAGES,
};
use twitch_1337::settings::Settings;

fn settings_with(cap: u64) -> Settings {
    let mut s = Settings::compiled_defaults();
    s.ai.history.length = cap;
    s
}

fn sample_buffer() -> (ChatHistoryBuffer, Settings) {
    let s = settings_with(10);
    let mut buffer = ChatHistoryBuffer::new(HistoryCapacity::Primary);
    buffer.push_user_at(&s, "alice".into(), "hello chat".into(), 1);
    buffer.push_user_at(&s, "bob".into(), "weather is bad".into(), 2);
    buffer.push_user_at(&s, "alice".into(), "weather got better".into(), 3);
    buffer.push_bot_at(&s, "bot".into(), "I can check that".into(), 4);
    buffer.push_user_at(&s, "carol".into(), "different topic".into(), 5);
    (buffer, s)
}

#[test]
fn query_returns_recent_messages_chronologically() {
    let (buffer, _) = sample_buffer();
    let page = buffer.query(&ChatHistoryQuery { limit: Some(3), ..ChatHistoryQuery::default() });
    assert_eq!(
        page.messages.iter().map(|entry| entry.username.as_str()).collect::<Vec<_>>(),
        vec!["alice", "bot", "carol"]
    );
    assert!(page.has_more);
    assert_eq!(page.next_before_seq, Some(3));
}

#[test]
fn query_filters_by_user_and_contains() {
    let (buffer, _) = sample_buffer();
    let page = buffer.query(&ChatHistoryQuery {
        limit: Some(10),
        user: Some("ALICE".into()),
        contains: Some("WEATHER".into()),
        before_seq: None,
    });
    assert_eq!(page.messages.len(), 1);
    assert_eq!(page.messages[0].seq, 3);
    assert_eq!(page.messages[0].text, "weather got better");
    assert!(!page.has_more);
}

#[test]
fn query_pages_with_before_seq() {
    let (buffer, _) = sample_buffer();
    let page = buffer.query(&ChatHistoryQuery {
        limit: Some(2),
        before_seq: Some(4),
        ..ChatHistoryQuery::default()
    });
    assert_eq!(page.messages.iter().map(|entry| entry.seq).collect::<Vec<_>>(), vec![2, 3]);
    assert!(page.has_more);
    assert_eq!(page.next_before_seq, Some(2));
}

#[test]
fn query_clamps_limit_to_tool_maximum() {
    let s = settings_with(250);
    let mut buffer = ChatHistoryBuffer::new(HistoryCapacity::Primary);
    for i in 0..250 {
        buffer.push_user_at(&s, "alice".into(), format!("message {i}"), i);
    }
    let page = buffer.query(&ChatHistoryQuery { limit: Some(500), ..ChatHistoryQuery::default() });
    assert_eq!(page.messages.len(), MAX_TOOL_RESULT_MESSAGES);
    assert!(page.has_more);
    assert_eq!(page.messages[0].seq, 51);
}

#[test]
fn from_prefill_assigns_sequence_numbers_and_marks_user_source() {
    let s = settings_with(2);
    let buffer = ChatHistoryBuffer::from_prefill(
        HistoryCapacity::Primary,
        &s,
        vec![
            ("alice".to_string(), "one".to_string(), 1),
            ("bob".to_string(), "two".to_string(), 2),
            ("carol".to_string(), "three".to_string(), 3),
        ],
    );
    let page = buffer.query(&ChatHistoryQuery { limit: Some(10), ..ChatHistoryQuery::default() });
    assert_eq!(page.messages.len(), 2);
    assert_eq!(page.messages[0].seq, 1);
    assert_eq!(page.messages[0].username, "bob");
    assert_eq!(page.messages[1].seq, 2);
    assert_eq!(page.messages[1].source, ChatHistorySource::User);
}

#[test]
fn live_capacity_rebind_trims_on_next_push() {
    let s = settings_with(6);
    let mut buffer = ChatHistoryBuffer::new(HistoryCapacity::Primary);
    for i in 1..=6 {
        buffer.push_user_at(&s, "alice".into(), format!("msg {i}"), i);
    }
    assert_eq!(buffer.len(), 6);
    let mut new_settings = Settings::compiled_defaults();
    new_settings.ai.history.length = 3;
    buffer.push_user(&new_settings, "alice".into(), "trigger trim".into());
    assert_eq!(buffer.len(), 3);
    let snap = buffer.snapshot();
    assert_eq!(snap.last().unwrap().text, "trigger trim");
}

#[test]
fn push_never_exceeds_capacity() {
    let s = settings_with(4);
    let mut buffer = ChatHistoryBuffer::new(HistoryCapacity::Primary);
    for i in 0..20 {
        buffer.push_bot(&s, "bot".into(), format!("line {i}"));
        assert!(buffer.len() <= 4);
    }
    let snap = buffer.snapshot();
    assert_eq!(snap[0].text, "line 16");
    assert_eq!(snap[0].seq, 17);
    assert_eq!(snap[3].source, ChatHistorySource::Bot);
}

#[test]
fn zero_capacity_keeps_nothing() {
    let s = settings_with(0);
    let mut buffer = ChatHistoryBuffer::new(HistoryCapacity::Primary);
    buffer.push_user_at(&s, "alice".into(), "hi".into(), 1);
    assert!(buffer.is_empty());
}

#[test]
fn ai_channel_buffer_uses_its_own_length() {
    let mut s = Settings::compiled_defaults();
    s.ai.history.length = 10;
    s.ai.history.ai_channel_length = 1;
    let mut buffer = ChatHistoryBuffer::new(HistoryCapacity::AiChannel);
    assert_eq!(buffer.capacity_for(&s), 1);
    buffer.push_user_at(&s, "a".into(), "1".into(), 1);
    buffer.push_user_at(&s, "b".into(), "2".into(), 2);
    assert_eq!(buffer.len(), 1);
    assert_eq!(buffer.snapshot()[0].username, "b");
}

#[test]
fn query_default_limit_is_fifty_and_minimum_one() {
    let s = settings_with(100);
    let mut buffer = ChatHistoryBuffer::new(HistoryCapacity::Primary);
    for i in 0..60 {
        buffer.push_user_at(&s, "u".into(), format!("{i}"), i);
    }
    let page = buffer.query(&ChatHistoryQuery::default());
    assert_eq!(page.messages.len(), 50);
    let page = buffer.query(&ChatHistoryQuery { limit: Some(0), ..ChatHistoryQuery::default() });
    assert_eq!(page.messages.len(), 1);
    assert_eq!(page.messages[0].seq, 60);
}

#[test]
fn following_cursors_visits_every_match_once() {
    let (buffer, _) = sample_buffer();
    let mut seen = Vec::new();
    let mut before = None;
    loop {
        let page = buffer.query(&ChatHistoryQuery { limit: Some(2), before_seq: before, ..ChatHistoryQuery::default() });
        let mut seqs: Vec<u64> = page.messages.iter().map(|e| e.seq).collect();
        seqs.extend(seen);
        seen = seqs;
        if !page.has_more {
            break;
        }
        before = page.next_before_seq;
    }
    assert_eq!(seen, vec![1, 2, 3, 4, 5]);
}

#[test]
fn answers_and_reactions_are_recorded_as_bot_lines() {
    let s = settings_with(10);
    let mut history = Some(ChatHistoryBuffer::new(HistoryCapacity::Primary));
    let reply = finish_ai_reply(&AiResult::Answer("thought x | Hallo".into()), &mut history, &s, "bot");
    assert_eq!(reply, "Hallo");
    let _ = finish_ai_reply(&AiResult::Timeout, &mut history, &s, "bot");
    assert_eq!(post_reaction("   ".into(), &mut history, &s, "bot"), None);
    assert_eq!(post_reaction("nice".into(), &mut history, &s, "bot"), Some("nice".to_string()));
    let lines = history.as_ref().unwrap().snapshot();
    assert_eq!(lines.len(), 2);
    assert_eq!((lines[0].username.as_str(), lines[0].text.as_str()), ("bot", "Hallo"));
    assert_eq!(lines[0].source, ChatHistorySource::Bot);
    assert_eq!(lines[1].text, "nice");
    assert_eq!(lines[1].seq, 2);
}
