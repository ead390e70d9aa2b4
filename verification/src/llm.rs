//! Provider-independent chat-completion types and the tool-calling agent
//! loop, as a state machine the caller drives with the model's replies.
use vstd::prelude::*;

use crate::text::{decimal, opt_view};

verus! {

/// The conversation role of a message; the wire form is the lowercase name.
#[derive(Debug, Clone, Copy, PartialEq, Eq)]
pub enum Role {
    System,
    User,
    Assistant,
    Tool,
}

pub open spec fn role_name(r: Role) -> Seq<char> {
    match r {
        Role::System => "system"@,
        Role::User => "user"@,
        Role::Assistant => "assistant"@,
        Role::Tool => "tool"@,
    }
}

impl Role {
    /// The wire name, which is also how a role prints.
    pub fn as_str(self) -> (r: &'static str)
        ensures
            r@ == role_name(self),
    {
        match self {
            Role::System => "system",
            Role::User => "user",
            Role::Assistant => "assistant",
            Role::Tool => "tool",
        }
    }
}

/// A message in a chat completion conversation.
#[derive(Debug, Clone)]
pub struct Message {
    pub role: String,
    pub content: String,
}

impl Message {
    pub fn system(content: String) -> (r: Message)
        ensures
            r.role@ == "system"@,
            r.content == content,
    {
        Message { role: String::from_str("system"), content }
    }

    pub fn user(content: String) -> (r: Message)
        ensures
            r.role@ == "user"@,
            r.content == content,
    {
        Message { role: String::from_str("user"), content }
    }
}

/// Details of a malformed `arguments` payload.
#[derive(Debug, Clone)]
pub struct ToolCallArgsError {
    pub error: String,
    /// The raw text the provider sent, already bounded in length.
    pub raw: String,
}

/// One tool call returned by the model. `arguments` is the JSON text of the
/// arguments object; when `arguments_parse_error` is set the provider sent
/// something unparseable and `arguments` is `null`.
#[derive(Debug, Clone)]
pub struct ToolCall {
    pub id: String,
    pub name: String,
    pub arguments: String,
    pub arguments_parse_error: Option<ToolCallArgsError>,
}

/// The result of one executed tool call.
#[derive(Debug, Clone)]
pub struct ToolResultMessage {
    pub tool_call_id: String,
    /// The invoked tool's name (Ollama needs it; OpenAI ignores it).
    pub tool_name: String,
    pub content: String,
}

impl ToolResultMessage {
    /// The result `content` of `call`.
    pub fn for_call(call: &ToolCall, content: String) -> (r: ToolResultMessage)
        ensures
            r.tool_call_id@ == call.id@,
            r.tool_name@ == call.name@,
            r.content == content,
    {
        ToolResultMessage { tool_call_id: call.id.clone(), tool_name: call.name.clone(), content }
    }
}

/// One round of tool calling: the calls and their results, threaded back
/// into the next request in order.
#[derive(Debug, Clone)]
pub struct ToolCallRound {
    pub calls: Vec<ToolCall>,
    pub results: Vec<ToolResultMessage>,
    /// Reasoning text some models return beside tool calls and require back.
    pub reasoning_content: Option<String>,
}

#[derive(Debug, Clone)]
pub struct ChatCompletionRequest {
    pub model: String,
    pub messages: Vec<Message>,
    pub reasoning_effort: Option<String>,
}

/// A tool the model may call; `parameters` is its JSON schema as text.
#[derive(Debug, Clone)]
pub struct ToolDefinition {
    pub name: String,
    pub description: String,
    pub parameters: String,
}

#[derive(Debug, Clone)]
pub struct ToolChatCompletionRequest {
    pub model: String,
    pub messages: Vec<Message>,
    pub tools: Vec<ToolDefinition>,
    pub reasoning_effort: Option<String>,
    pub prior_rounds: Vec<ToolCallRound>,
}

/// What a tool-enabled completion returned.
#[derive(Debug, Clone)]
pub enum ToolChatCompletionResponse {
    Message(String),
    ToolCalls { calls: Vec<ToolCall>, reasoning_content: Option<String> },
}

/// Knobs of the agent loop; the timeout is in milliseconds.
#[derive(Debug, Clone)]
pub struct AgentOpts {
    pub max_rounds: usize,
    pub per_round_timeout_ms: Option<u64>,
}

/// How an agent run ended.
#[derive(Debug, Clone)]
pub enum AgentOutcome {
    /// The model answered with text.
    Text(String),
    /// `max_rounds` rounds of tool calls without a text answer.
    MaxRoundsExceeded,
    /// The per-round timeout fired in round `round` (counted from 0).
    Timeout { round: usize },
}

// ---------------------------------------------------------------------------
// Echo truncation
// ---------------------------------------------------------------------------

pub open spec fn truncated_for_echo(s: Seq<char>, max_chars: usize) -> Seq<char> {
    if s.len() <= max_chars {
        s
    } else {
        s.take(max_chars as int) + "… ("@ + decimal((s.len() - max_chars) as nat) + " more chars)"@
    }
}

/// `s` cut to at most `max_chars` characters, with a note of how many were
/// dropped.
pub fn truncate_for_echo(s: &str, max_chars: usize) -> (r: String)
    ensures
        r@ == truncated_for_echo(s@, max_chars),
{
    let cs = crate::text::chars_of(s);
    if cs.len() <= max_chars {
        return String::from_str(s);
    }
    let mut head: Vec<char> = Vec::new();
    crate::text::push_range(&mut head, &cs, 0, max_chars);
    let mut out = crate::text::string_from(&head);
    crate::text::append(&mut out, "… (");
    let more = crate::text::decimal_string((cs.len() - max_chars) as u64);
    crate::text::append(&mut out, more.as_str());
    crate::text::append(&mut out, " more chars)");
    assert(head@ =~= s@.take(max_chars as int));
    out
}

// ---------------------------------------------------------------------------
// The agent loop
// ---------------------------------------------------------------------------

/// What the caller does next for an agent run.
pub enum AgentStep {
    /// Send the run's current request to the model.
    CallModel,
    /// Execute these tool calls, in order, and report their results.
    ExecuteTools(Vec<ToolCall>),
    /// The run is over.
    Finished(AgentOutcome),
    /// The model call failed with this error; the run ends with it.
    Failed(String),
}

/// What the model call produced.
pub enum ModelReply {
    Completed(ToolChatCompletionResponse),
    /// The per-round timeout fired.
    TimedOut,
    /// The model call returned this error.
    Failed(String),
}

/// A tool-calling conversation in progress.
pub struct AgentRun {
    pub request: ToolChatCompletionRequest,
    /// Model calls made so far.
    pub round: usize,
    pub max_rounds: usize,
    /// Reasoning text of the tool calls being executed.
    pub pending_reasoning: Option<Option<String>>,
}

/// After a completed tool round in round `round` of at most `max`: the
/// next round number, and whether the model is called again.
pub open spec fn after_tool_round(round: usize, max: usize) -> (usize, bool) {
    ((round + 1) as usize, round + 1 < max)
}

/// Where a run that started with a limit of `max` stands after `k` tool
/// rounds in a row (the model asked for tools each time): its round number
/// and whether the model is called again.
pub open spec fn after_tool_rounds(max: usize, k: nat) -> (usize, bool)
    decreases k,
{
    if k == 0 {
        (0, max > 0)
    } else {
        after_tool_round(after_tool_rounds(max, (k - 1) as nat).0, max)
    }
}

/// The round law of the agent: while the model keeps asking for tools,
/// each completed round counts one, the model is called again after the
/// first `max - 1` of them, and the run stops after the `max`-th; so the
/// model is called `max` times at most.
pub proof fn lemma_agent_rounds(max: usize, k: nat)
    requires
        k <= max,
    ensures
        after_tool_rounds(max, k) == (k as usize, k < max),
    decreases k,
{
    if k > 0 {
        lemma_agent_rounds(max, (k - 1) as nat);
    }
}

impl AgentRun {
    /// Rounds are counted up to the limit; the prior rounds grew by one per
    /// completed tool round.
    pub open spec fn well_formed(&self, initial_rounds: nat) -> bool {
        &&& self.round <= self.max_rounds
        &&& self.request.prior_rounds@.len() == initial_rounds + self.round
    }

    /// Starts a run: the model is called unless no rounds are allowed.
    pub fn start(request: ToolChatCompletionRequest, opts: &AgentOpts) -> (r: (AgentRun, AgentStep))
        ensures
            r.0.round == 0,
            r.0.max_rounds == opts.max_rounds,
            r.0.request.prior_rounds@ == request.prior_rounds@,
            r.0.pending_reasoning is None,
            opts.max_rounds == 0 ==> r.1 matches AgentStep::Finished(AgentOutcome::MaxRoundsExceeded),
            opts.max_rounds > 0 ==> r.1 is CallModel,
    {
        let run = AgentRun { request, round: 0, max_rounds: opts.max_rounds, pending_reasoning: None };
        if opts.max_rounds == 0 {
            (run, AgentStep::Finished(AgentOutcome::MaxRoundsExceeded))
        } else {
            (run, AgentStep::CallModel)
        }
    }

    /// The model answered, timed out or failed in the current round.
    pub fn on_reply(&mut self, reply: ModelReply) -> (r: AgentStep)
        requires
            old(self).round < old(self).max_rounds,
            old(self).pending_reasoning is None,
        ensures
            final(self).round == old(self).round,
            final(self).max_rounds == old(self).max_rounds,
            final(self).request.prior_rounds@ == old(self).request.prior_rounds@,
            match reply {
                ModelReply::TimedOut => r matches AgentStep::Finished(AgentOutcome::Timeout { round })
                    && round == old(self).round && final(self).pending_reasoning is None,
                ModelReply::Failed(e) => r matches AgentStep::Failed(f) && f == e
                    && final(self).pending_reasoning is None,
                ModelReply::Completed(ToolChatCompletionResponse::Message(t)) => r matches AgentStep::Finished(
                    AgentOutcome::Text(u),
                ) && u == t && final(self).pending_reasoning is None,
                ModelReply::Completed(ToolChatCompletionResponse::ToolCalls { calls, reasoning_content }) => r matches AgentStep::ExecuteTools(
                    c,
                ) && c@ == calls@ && final(self).pending_reasoning == Some(reasoning_content),
            },
    {
        match reply {
            ModelReply::TimedOut => AgentStep::Finished(AgentOutcome::Timeout { round: self.round }),
            ModelReply::Failed(e) => AgentStep::Failed(e),
            ModelReply::Completed(ToolChatCompletionResponse::Message(t)) => AgentStep::Finished(
                AgentOutcome::Text(t),
            ),
            ModelReply::Completed(ToolChatCompletionResponse::ToolCalls { calls, reasoning_content }) => {
                self.pending_reasoning = Some(reasoning_content);
                AgentStep::ExecuteTools(calls)
            },
        }
    }

    /// The tool calls of this round ran: the round is threaded into the
    /// request and the model is called again, unless the round limit is hit.
    pub fn on_results(&mut self, calls: Vec<ToolCall>, results: Vec<ToolResultMessage>) -> (r:
        AgentStep)
        requires
            old(self).round < old(self).max_rounds,
            old(self).pending_reasoning is Some,
        ensures
            final(self).round == old(self).round + 1,
            final(self).max_rounds == old(self).max_rounds,
            final(self).pending_reasoning is None,
            final(self).request.prior_rounds@.len() == old(self).request.prior_rounds@.len() + 1,
            final(self).request.prior_rounds@.drop_last() == old(self).request.prior_rounds@,
            final(self).request.prior_rounds@.last().calls@ == calls@,
            final(self).request.prior_rounds@.last().results@ == results@,
            final(self).request.prior_rounds@.last().reasoning_content == old(
                self,
            ).pending_reasoning->0,
            (final(self).round, r is CallModel) == after_tool_round(old(self).round, old(self).max_rounds),
            final(self).round < final(self).max_rounds ==> r is CallModel,
            final(self).round == final(self).max_rounds ==> r matches AgentStep::Finished(
                AgentOutcome::MaxRoundsExceeded,
            ),
    {
        let reasoning_content = match self.pending_reasoning.take() {
            Some(r) => r,
            None => None,
        };
        let ghost before = self.request.prior_rounds@;
        self.request.prior_rounds.push(ToolCallRound { calls, results, reasoning_content });
        assert(self.request.prior_rounds@.drop_last() =~= before);
        self.round = self.round + 1;
        if self.round < self.max_rounds {
            AgentStep::CallModel
        } else {
            AgentStep::Finished(AgentOutcome::MaxRoundsExceeded)
        }
    }
}

/// The model asked for tools.
pub open spec fn is_tool_reply(r: ModelReply) -> bool {
    r matches ModelReply::Completed(ToolChatCompletionResponse::ToolCalls { .. })
}

/// The step a run ends with on a final reply in round `round`.
pub open spec fn final_step_for(reply: ModelReply, round: usize, step: AgentStep) -> bool {
    match reply {
        ModelReply::TimedOut => step matches AgentStep::Finished(AgentOutcome::Timeout { round: k })
            && k == round,
        ModelReply::Failed(e) => step matches AgentStep::Failed(f) && f == e,
        ModelReply::Completed(ToolChatCompletionResponse::Message(t)) => step matches AgentStep::Finished(
            AgentOutcome::Text(u),
        ) && u == t,
        ModelReply::Completed(ToolChatCompletionResponse::ToolCalls { .. }) => false,
    }
}

/// Drives a run through the step functions over the replies the model
/// gives, round by round, and the results of each round's tool calls.
/// Returns the step the run ends with and how many times the model was
/// called. The law of the loop: the model is called until its first reply
/// that is not a tool request (which decides the end: its text, the timeout
/// of that round, or its error), and at most `max_rounds` times; when every
/// one of them asks for tools the run ends with `MaxRoundsExceeded`.
pub fn replay_agent_run(
    request: ToolChatCompletionRequest,
    opts: &AgentOpts,
    replies: Vec<ModelReply>,
    results: Vec<Vec<ToolResultMessage>>,
) -> (r: (AgentStep, usize))
    requires
        replies@.len() >= opts.max_rounds,
        results@.len() >= opts.max_rounds,
    ensures
        r.1 <= opts.max_rounds,
        (r.0 matches AgentStep::Finished(AgentOutcome::MaxRoundsExceeded)) ==> r.1 == opts.max_rounds
            && forall|j: int| 0 <= j < opts.max_rounds ==> is_tool_reply(#[trigger] replies@[j]),
        !(r.0 matches AgentStep::Finished(AgentOutcome::MaxRoundsExceeded)) ==> r.1 >= 1 && (forall|
            j: int,
        | 0 <= j < r.1 - 1 ==> is_tool_reply(#[trigger] replies@[j])) && !is_tool_reply(
            replies@[r.1 - 1],
        ) && final_step_for(replies@[r.1 - 1], (r.1 - 1) as usize, r.0),
{
    let ghost rs = replies@;
    let ghost ress = results@;
    let (mut run, step) = AgentRun::start(request, opts);
    if opts.max_rounds == 0 {
        return (step, 0);
    }
    let mut pending = replies;
    let mut outputs = results;
    let mut calls: usize = 0;
    loop
        invariant
            run.round == calls,
            run.max_rounds == opts.max_rounds,
            run.pending_reasoning is None,
            calls < opts.max_rounds,
            pending@ == rs.skip(calls as int),
            outputs@ == ress.skip(calls as int),
            rs == replies@,
            rs.len() >= opts.max_rounds,
            ress.len() >= opts.max_rounds,
            forall|j: int| 0 <= j < calls ==> is_tool_reply(#[trigger] rs[j]),
        decreases opts.max_rounds - calls,
    {
        let reply = pending.remove(0);
        assert(reply == rs[calls as int]);
        assert(pending@ =~= rs.skip(calls + 1));
        let ghost this_reply = reply;
        let ghost round = calls;
        let s = run.on_reply(reply);
        match s {
            AgentStep::ExecuteTools(c) => {
                assert(is_tool_reply(this_reply));
                assert(is_tool_reply(rs[round as int]));
                let res = outputs.remove(0);
                assert(outputs@ =~= ress.skip(calls + 1));
                let next = run.on_results(c, res);
                calls = calls + 1;
                match next {
                    AgentStep::CallModel => {},
                    other => {
                        assert(calls == opts.max_rounds);
                        assert(forall|j: int| 0 <= j < calls ==> is_tool_reply(#[trigger] rs[j]));
                        return (other, calls);
                    },
                }
            },
            other => {
                assert(!is_tool_reply(this_reply));
                assert(final_step_for(this_reply, round, other));
                assert(!(other matches AgentStep::Finished(AgentOutcome::MaxRoundsExceeded)));
                return (other, calls + 1);
            },
        }
    }
}

// ---------------------------------------------------------------------------
// Reading tool arguments
// ---------------------------------------------------------------------------

/// The string member `key` of the JSON object in `json`: `None` when the
/// text is not JSON, not an object, lacks `key`, or holds a non-string there.
pub uninterp spec fn json_string_member(json: Seq<char>, key: Seq<char>) -> Option<Seq<char>>;

/// `serde_json::from_str::<Value>(json)`, then `.get(key)` and `.as_str()`.
/// The result is named, not described.
#[verifier::external_body]
fn string_member(json: &str, key: &str) -> (r: Option<String>)
    ensures
        opt_view(r) == json_string_member(json@, key@),
{
    match serde_json::from_str::<serde_json::Value>(json) {
        Ok(v) => match v.get(key) {
            Some(m) => match m.as_str() {
                Some(s) => Some(s.to_string()),
                None => None,
            },
            None => None,
        },
        Err(_) => None,
    }
}

impl ToolCall {
    /// The string argument `key`, if the arguments hold one.
    pub fn str_arg(&self, key: &str) -> (r: Option<String>)
        ensures
            opt_view(r) == json_string_member(self.arguments@, key@),
    {
        string_member(self.arguments.as_str(), key)
    }
}

} // verus!
