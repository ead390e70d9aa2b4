use twitch_1337::llm::{
    replay_agent_run,
    truncate_for_echo, AgentOpts, AgentOutcome, AgentRun, AgentStep, ModelReply, Role, ToolCall,
    ToolChatCompletionRequest, ToolChatCompletionResponse, ToolResultMessage,
};

#[test]
fn role_display_matches_wire_strings() {
    assert_eq!(Role::System.as_str(), "system");
    assert_eq!(Role::User.as_str(), "user");
    assert_eq!(Role::Assistant.as_str(), "assistant");
    assert_eq!(Role::Tool.as_str(), "tool");
}

#[test]
fn truncate_for_echo_short_input_passes_through() {
    assert_eq!(truncate_for_echo("hi", 10), "hi");
}

#[test]
fn truncate_for_echo_long_input_trims_at_char_boundary() {
    let out = truncate_for_echo("abcdefghij", 4);
    assert_eq!(out, "abcd… (6 more chars)");
}

#[test]
fn truncate_for_echo_respects_multibyte_chars() {
    let out = truncate_for_echo("🙂🙂🙂🙂🙂🙂", 3);
    assert_eq!(out, "🙂🙂🙂… (3 more chars)");
}

#[test]
fn truncate_for_echo_at_exact_length_keeps_text() {
    assert_eq!(truncate_for_echo("abcd", 4), "abcd");
    assert_eq!(truncate_for_echo("", 0), "");
    assert_eq!(truncate_for_echo("ab", 0), "… (2 more chars)");
}

fn request() -> ToolChatCompletionRequest {
    ToolChatCompletionRequest {
        model: "m".to_string(),
        messages: Vec::new(),
        tools: Vec::new(),
        reasoning_effort: None,
        prior_rounds: Vec::new(),
    }
}

fn call(id: &str) -> ToolCall {
    ToolCall {
        id: id.to_string(),
        name: "web_search".to_string(),
        arguments: "{}".to_string(),
        arguments_parse_error: None,
    }
}

#[test]
fn agent_run_stops_after_max_rounds_of_tool_calls() {
    let (mut run, step) = AgentRun::start(request(), &AgentOpts { max_rounds: 2, per_round_timeout_ms: None });
    assert!(matches!(step, AgentStep::CallModel));
    for round in 0..2 {
        let step = run.on_reply(ModelReply::Completed(ToolChatCompletionResponse::ToolCalls {
            calls: vec![call("c")],
            reasoning_content: Some("why".to_string()),
        }));
        let calls = match step {
            AgentStep::ExecuteTools(c) => c,
            _ => panic!("expected tool calls"),
        };
        let results = vec![ToolResultMessage::for_call(&calls[0], "ok".to_string())];
        let next = run.on_results(calls, results);
        assert_eq!(run.request.prior_rounds.len(), round + 1);
        if round == 0 {
            assert!(matches!(next, AgentStep::CallModel));
        } else {
            assert!(matches!(next, AgentStep::Finished(AgentOutcome::MaxRoundsExceeded)));
        }
    }
    assert_eq!(run.request.prior_rounds[1].reasoning_content.as_deref(), Some("why"));
}

#[test]
fn agent_run_finishes_on_text_and_on_timeout() {
    let (mut run, _) = AgentRun::start(request(), &AgentOpts { max_rounds: 3, per_round_timeout_ms: Some(10) });
    match run.on_reply(ModelReply::Completed(ToolChatCompletionResponse::Message("hi".to_string()))) {
        AgentStep::Finished(AgentOutcome::Text(t)) => assert_eq!(t, "hi"),
        _ => panic!("expected text"),
    }
    let (mut run, _) = AgentRun::start(request(), &AgentOpts { max_rounds: 3, per_round_timeout_ms: Some(10) });
    match run.on_reply(ModelReply::TimedOut) {
        AgentStep::Finished(AgentOutcome::Timeout { round }) => assert_eq!(round, 0),
        _ => panic!("expected timeout"),
    }
    let (_, step) = AgentRun::start(request(), &AgentOpts { max_rounds: 0, per_round_timeout_ms: None });
    assert!(matches!(step, AgentStep::Finished(AgentOutcome::MaxRoundsExceeded)));
}

#[test]
fn tool_call_reads_string_arguments() {
    let c = ToolCall {
        id: "1".to_string(),
        name: "say".to_string(),
        arguments: "{\"text\":\"hello\",\"n\":3}".to_string(),
        arguments_parse_error: None,
    };
    assert_eq!(c.str_arg("text").as_deref(), Some("hello"));
    assert_eq!(c.str_arg("n"), None);
    assert_eq!(c.str_arg("missing"), None);
}

#[test]
fn model_error_ends_the_run_with_it() {
    let req = ToolChatCompletionRequest {
        model: "m".to_string(),
        messages: Vec::new(),
        tools: Vec::new(),
        reasoning_effort: None,
        prior_rounds: Vec::new(),
    };
    let (mut run, _) = AgentRun::start(req, &AgentOpts { max_rounds: 3, per_round_timeout_ms: None });
    match run.on_reply(ModelReply::Failed("boom".to_string())) {
        AgentStep::Failed(e) => assert_eq!(e, "boom"),
        _ => panic!("expected the error"),
    }
}

fn tools_reply() -> ModelReply {
    ModelReply::Completed(ToolChatCompletionResponse::ToolCalls {
        calls: vec![call("c")],
        reasoning_content: None,
    })
}

fn round_results() -> Vec<ToolResultMessage> {
    vec![ToolResultMessage::for_call(&call("c"), "ok".to_string())]
}

#[test]
fn a_run_ends_at_the_first_reply_that_is_not_a_tool_request() {
    let opts = AgentOpts { max_rounds: 3, per_round_timeout_ms: None };
    let replies = vec![
        tools_reply(),
        ModelReply::Completed(ToolChatCompletionResponse::Message("fertig".to_string())),
        tools_reply(),
    ];
    let results = vec![round_results(), round_results(), round_results()];
    match replay_agent_run(request(), &opts, replies, results) {
        (AgentStep::Finished(AgentOutcome::Text(t)), calls) => {
            assert_eq!(t, "fertig");
            assert_eq!(calls, 2);
        }
        _ => panic!("expected the text"),
    }
    let replies = vec![tools_reply(), tools_reply(), ModelReply::TimedOut];
    let results = vec![round_results(), round_results(), round_results()];
    match replay_agent_run(request(), &opts, replies, results) {
        (AgentStep::Finished(AgentOutcome::Timeout { round }), calls) => {
            assert_eq!(round, 2);
            assert_eq!(calls, 3);
        }
        _ => panic!("expected a timeout"),
    }
    let replies = vec![tools_reply(), tools_reply(), tools_reply()];
    let results = vec![round_results(), round_results(), round_results()];
    let (step, calls) = replay_agent_run(request(), &opts, replies, results);
    assert!(matches!(step, AgentStep::Finished(AgentOutcome::MaxRoundsExceeded)));
    assert_eq!(calls, 3);
}
