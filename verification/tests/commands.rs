use twitch_1337::commands::{plan_command_setup, AiSetupConfig, CommandKind, HistorySetup};
use twitch_1337::commands::mention_pattern_for;
use twitch_1337::commands::{
    ai_react_reply, ai_react_set_reply, ai_react_status_reply, classify_probability_input, is_admin,
    list_pings, ping_admin_reply, ping_commands, ping_name_of, ping_trigger_name, plan_ai_react,
    plan_ping_admin, reaction_candidate, route_privmsg, toggle_ping, AiReactAction,
    AiReactionLevel, ListPingsCommand, ParseAiReactionProbabilityError, PingAdminAction,
    PingOpResult, ProbabilityInput, SeCommand, TogglePing, TogglePingCommand,
    HIGH_PROBABILITY_BITS, LOW_PROBABILITY_BITS, MEDIUM_PROBABILITY_BITS,
};

/// The number step the caller adds after `classify_probability_input`.
fn parse_probability(input: &str) -> Result<f64, ParseAiReactionProbabilityError> {
    match classify_probability_input(input)? {
        ProbabilityInput::Level(l) => Ok(f64::from_bits(l.probability_percent_bits())),
        ProbabilityInput::Number(t) => {
            let p: f64 = t.parse().map_err(|_| ParseAiReactionProbabilityError::Invalid)?;
            if !p.is_finite() || !(0.01..=100.0).contains(&p) {
                return Err(ParseAiReactionProbabilityError::OutOfRange);
            }
            Ok(p)
        }
    }
}

fn level(input: &str) -> Option<AiReactionLevel> {
    match classify_probability_input(input) {
        Ok(ProbabilityInput::Level(l)) => Some(l),
        _ => None,
    }
}

#[test]
fn parse_probability_accepts_levels() {
    assert_eq!(level("low"), Some(AiReactionLevel::Low));
    assert_eq!(level("mittel"), Some(AiReactionLevel::Medium));
    assert_eq!(level("hoch"), Some(AiReactionLevel::High));
    assert_eq!(level("  HOCH "), Some(AiReactionLevel::High));
}

#[test]
fn parse_probability_accepts_custom_percent() {
    assert_eq!(parse_probability("2.5").unwrap(), 2.5);
    assert_eq!(parse_probability("2,5%").unwrap(), 2.5);
    match classify_probability_input("2,5%%") {
        Ok(ProbabilityInput::Number(t)) => assert_eq!(t, "2.5"),
        _ => panic!("expected a number text"),
    }
}

#[test]
fn parse_probability_rejects_zero_and_above_hundred() {
    assert_eq!(parse_probability("0").unwrap_err(), ParseAiReactionProbabilityError::OutOfRange);
    assert_eq!(parse_probability("101").unwrap_err(), ParseAiReactionProbabilityError::OutOfRange);
    assert_eq!(parse_probability("  ").unwrap_err(), ParseAiReactionProbabilityError::Empty);
    assert_eq!(parse_probability("sometimes").unwrap_err(), ParseAiReactionProbabilityError::Invalid);
}

#[test]
fn level_percentages() {
    assert_eq!(f64::from_bits(LOW_PROBABILITY_BITS), 1.0);
    assert_eq!(f64::from_bits(MEDIUM_PROBABILITY_BITS), 5.0);
    assert_eq!(f64::from_bits(HIGH_PROBABILITY_BITS), 15.0);
    assert_eq!(AiReactionLevel::Medium.probability_percent_bits(), MEDIUM_PROBABILITY_BITS);
}

#[test]
fn probability_errors_read_in_german() {
    assert_eq!(ParseAiReactionProbabilityError::Empty.message(), "Wert fehlt");
    assert_eq!(ParseAiReactionProbabilityError::Invalid.message(), "Unbekannte Stufe oder ungültige Zahl");
    assert_eq!(
        ParseAiReactionProbabilityError::OutOfRange.message(),
        "Chance muss zwischen 0.01 und 100 liegen"
    );
}

fn se(command: &str, reply: &str) -> SeCommand {
    SeCommand { command: command.to_string(), reply: reply.to_string() }
}

#[test]
fn toggle_ping_adds_and_removes_mention() {
    let cmds = vec![se("dbd", "Ping @alice @bob zeit für dbd")];
    match toggle_ping(Some("dbd"), &cmds, "carol", "Carol") {
        TogglePing::Update(t, m) => {
            assert_eq!(t, "Ping @alice @Carol @bob zeit für dbd");
            assert_eq!(m, "Hab ich an gemacht Okayge");
        }
        _ => panic!("expected an update"),
    }
    match toggle_ping(Some("dbd"), &cmds, "alice", "Alice") {
        TogglePing::Update(t, m) => {
            assert_eq!(t, "Ping @bob zeit für dbd");
            assert_eq!(m, "Hab ich aus gemacht Okayge");
        }
        _ => panic!("expected an update"),
    }
    assert!(matches!(toggle_ping(None, &cmds, "a", "A"), TogglePing::Reply("Das kann ich nicht FDM")));
    assert!(matches!(toggle_ping(Some("nope"), &cmds, "a", "A"), TogglePing::Reply("Das finde ich nicht FDM")));
    assert!(matches!(toggle_ping(Some("eft"), &cmds, "a", "A"), TogglePing::Reply("Das gibt es nicht FDM")));
}

#[test]
fn ping_commands_are_listed_in_order() {
    let names = ping_commands();
    assert_eq!(names.len(), 16);
    assert_eq!(names[0], "ackern");
    assert_eq!(names[15], "vicky");
    assert_eq!(ListPingsCommand::new("1".into()).name(), "!lp");
    assert_eq!(TogglePingCommand::new("1".into()).name(), "!tp");
}

#[test]
fn list_pings_filters_by_mention() {
    let cmds = vec![se("dbd", "@alice dbd"), se("eft", "@bob eft"), se("other", "@alice x")];
    let all = list_pings(&cmds, None, "Alice");
    assert!(all.contains("dbd"), "{all}");
    assert!(!all.contains("other"), "{all}");
}

#[test]
fn admin_badges_and_hidden_admins() {
    assert!(is_admin(&vec!["moderator".into()], "1", &vec![]));
    assert!(is_admin(&vec!["broadcaster".into()], "1", &vec![]));
    assert!(is_admin(&vec![], "42", &vec!["42".into()]));
    assert!(!is_admin(&vec!["vip".into()], "1", &vec!["42".into()]));
}

fn args(v: &[&str]) -> Vec<String> {
    v.iter().map(|s| s.to_string()).collect()
}

#[test]
fn ping_admin_subcommands() {
    match plan_ping_admin(&args(&["add", "DBD", "@@Bob"]), true) {
        PingAdminAction::Add { name, user } => {
            assert_eq!(name, "dbd");
            assert_eq!(user, "bob");
        }
        _ => panic!("expected add"),
    }
    assert!(matches!(plan_ping_admin(&args(&["add", "dbd", "bob"]), false), PingAdminAction::Reply(_)));
    assert!(matches!(plan_ping_admin(&args(&["join"]), false), PingAdminAction::Reply("Nutze: !ping join <name>")));
    assert!(matches!(plan_ping_admin(&args(&["list"]), false), PingAdminAction::List));
    let action = PingAdminAction::Create { name: "dbd".into(), template: "t".into() };
    assert_eq!(ping_admin_reply(&action, &PingOpResult::Done), "Ping \"dbd\" erstellt Okayge");
    let action = PingAdminAction::Join { name: "dbd".into() };
    assert_eq!(ping_admin_reply(&action, &PingOpResult::NoSuchPing), "Ping \"dbd\" gibt es nicht FDM");
    assert_eq!(ping_admin_reply(&action, &PingOpResult::Failed("x".into())), "Bist du schon FDM");
}

#[test]
fn ping_trigger_names() {
    assert_eq!(ping_name_of("!DBD"), "DBD");
    assert_eq!(ping_name_of("dbd"), "dbd");
    assert_eq!(ping_trigger_name("!Dbd jetzt"), "Dbd");
}

#[test]
fn aireact_routes_subcommands() {
    assert!(matches!(plan_ai_react(false, &args(&["low"]), false), AiReactAction::Reply("AI ist nicht konfiguriert FDM")));
    assert!(matches!(plan_ai_react(true, &args(&[]), false), AiReactAction::Status));
    assert!(matches!(plan_ai_react(true, &args(&["off"]), false), AiReactAction::UserOff));
    assert!(matches!(plan_ai_react(true, &args(&["global", "on"]), true), AiReactAction::GlobalOn));
    match plan_ai_react(true, &args(&["2,5"]), false) {
        AiReactAction::UserSet(t) => assert_eq!(t, "2,5"),
        _ => panic!("expected a set"),
    }
    assert_eq!(ai_react_reply(&AiReactAction::GlobalOff, true), "AI-Reaktionen global deaktiviert Okayge");
    assert_eq!(
        ai_react_status_reply(true, &Some("5%".into())),
        "AI-Reaktionen für dich: 5% Chance"
    );
    assert_eq!(ai_react_status_reply(false, &None), "AI-Reaktionen für dich: aus, global aus");
    assert_eq!(ai_react_set_reply(&Ok("5%".into())), "AI-Reaktionen aktiviert: 5% Chance Okayge");
}

#[test]
fn privmsg_routing() {
    let admin = Some("admins".to_string());
    let r = route_privmsg(&admin, "main", &vec![], "!ai hallo welt").expect("routed");
    assert!(r.record_in_history);
    assert!(r.command_like);
    assert_eq!(r.words, vec!["!ai", "hallo", "welt"]);
    assert!(route_privmsg(&admin, "admins", &vec!["moderator".into()], "!x").is_none());
    let r = route_privmsg(&admin, "admins", &vec!["broadcaster".into()], "hi").expect("routed");
    assert!(r.is_admin_channel && !r.record_in_history && !r.command_like);
    assert!(reaction_candidate(false, false, "alice", "Bot"));
    assert!(!reaction_candidate(false, false, "BOT", "bot"));
    assert!(!reaction_candidate(true, false, "alice", "bot"));
}

#[test]
fn mention_pattern_escapes_meta_characters() {
    assert_eq!(mention_pattern_for("alice"), "(?i)@?\\s*alice");
    assert_eq!(mention_pattern_for("a.b+c"), "(?i)@?\\s*a\\.b\\+c");
}

#[test]
fn toggle_ping_removes_mention_case_insensitively() {
    let cmds = vec![se("dbd", "@Alice @Bob los gehts")];
    match toggle_ping(Some("dbd"), &cmds, "alice", "Alice") {
        TogglePing::Update(t, m) => {
            assert_eq!(t, "@Bob los gehts");
            assert_eq!(m, "Hab ich aus gemacht Okayge");
        }
        _ => panic!("expected an update"),
    }
}

#[test]
fn command_setup_needs_client_and_ai_settings() {
    let cfg = Some(AiSetupConfig { history_length: 50, prefill_configured: true, emotes_enabled: true });
    let on = plan_command_setup(true, &cfg, false);
    assert!(on.ai_enabled);
    assert_eq!(on.history, HistorySetup::Prefilled(50));
    assert!(on.try_emote_grounding);
    assert_eq!(on.commands.len(), 11);
    assert_eq!(on.commands[8], CommandKind::Ai);
    assert_eq!(on.commands[9], CommandKind::News);
    assert_eq!(on.commands[10], CommandKind::PingTrigger);

    let no_client = plan_command_setup(false, &cfg, true);
    assert!(!no_client.ai_enabled);
    assert_eq!(no_client.history, HistorySetup::Prefilled(50));
    assert!(!no_client.try_emote_grounding);
    assert_eq!(no_client.commands.len(), 13);
    assert_eq!(no_client.commands[8], CommandKind::Track);
    assert_eq!(no_client.commands[12], CommandKind::PingTrigger);

    let none = plan_command_setup(true, &None, false);
    assert!(!none.ai_enabled);
    assert_eq!(none.history, HistorySetup::Off);
    let zero = Some(AiSetupConfig { history_length: 0, prefill_configured: false, emotes_enabled: false });
    assert_eq!(plan_command_setup(true, &zero, false).history, HistorySetup::Off);
}
