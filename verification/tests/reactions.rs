use twitch_1337::reactions::{
    reaction_chance, reaction_reply, AiReactionManager, AiReactionStore, UserAiReactionSetting,
};

#[test]
fn set_read_and_remove_a_user() {
    let mut m = AiReactionManager::new();
    assert!(m.global_enabled());
    assert_eq!(m.user_probability("1"), None);
    m.set_user("1".into(), "alice".into(), 5.0f64.to_bits());
    assert_eq!(m.user_probability("1"), Some(5.0f64.to_bits()));
    m.set_user("1".into(), "alice".into(), 1.0f64.to_bits());
    assert_eq!(m.user_probability("1"), Some(1.0f64.to_bits()));
    assert_eq!(m.store.users.len(), 1);
    m.set_user("2".into(), "bob".into(), 15.0f64.to_bits());
    assert!(m.remove_user("1"));
    assert!(!m.remove_user("1"));
    assert_eq!(m.user_probability("1"), None);
    assert_eq!(m.user_probability("2"), Some(15.0f64.to_bits()));
}

#[test]
fn global_switch_hides_every_chance() {
    let mut m = AiReactionManager::new();
    m.set_user("1".into(), "alice".into(), 5.0f64.to_bits());
    m.set_global_enabled(false);
    assert_eq!(m.probability_for("1"), None);
    assert_eq!(m.user_probability("1"), Some(5.0f64.to_bits()));
    m.set_global_enabled(true);
    assert_eq!(m.probability_for("1"), Some(5.0f64.to_bits()));
}

#[test]
fn stored_duplicates_keep_the_last_setting() {
    let store = AiReactionStore {
        global_enabled: false,
        users: vec![
            ("1".into(), UserAiReactionSetting { username: "a".into(), probability_bits: 1 }),
            ("1".into(), UserAiReactionSetting { username: "a".into(), probability_bits: 2 }),
        ],
    };
    let m = AiReactionManager::from_store(store);
    assert!(!m.global_enabled());
    assert_eq!(m.user_probability("1"), Some(2));
    assert_eq!(m.store.users.len(), 1);
    assert!(AiReactionStore::default().global_enabled);
}

#[test]
fn reactions_skip_the_bot_and_blank_replies() {
    let mut m = AiReactionManager::new();
    m.set_user("1".into(), "alice".into(), 5.0f64.to_bits());
    assert_eq!(reaction_chance(&m, true, "alice", "1", "bot"), Some(5.0f64.to_bits()));
    assert_eq!(reaction_chance(&m, false, "alice", "1", "bot"), None);
    assert_eq!(reaction_chance(&m, true, "BOT", "1", "bot"), None);
    assert_eq!(reaction_chance(&m, true, "carol", "3", "bot"), None);
    assert_eq!(reaction_reply("  \n".into()), None);
    assert_eq!(reaction_reply("hi".into()), Some("hi".to_string()));
}
