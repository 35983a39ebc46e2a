//! The control loop: drive a conversation against a completion backend,
//! dispatch the tool calls it issues, record the exchange in the session,
//! and stop at a terminal stop reason or at the iteration bound.
//!
//! The backend call and each tool's own execution are outside work (network,
//! an await); a driver performs them and hands the results in, one turn at a
//! time. Every decision — which transition a stop reason takes, what is
//! appended to the session, when the loop ends, what the caller is told — is
//! made and verified here. `run` consumes a whole transcript of turns at
//! once, which also makes the loop's behaviour provable for every transcript.

use vstd::prelude::*;
use vstd::string::StringExecFns;
use crate::errors::{AgentError, AgentErrorModel};
use crate::executor::{
    calls_model, exec_all_spec, outcomes_model, results_model, ToolExecutor, ToolOutcome,
    ToolResult, ToolResultModel,
};
use crate::provider::{
    CompletionResponse, CompletionResponseModel, Message, MessageModel, Role, StopReason, ToolCall,
    ToolCallModel, ToolModel,
};
use crate::session::Session;
use crate::text::{dec_digits, joined_lines, usize_to_decimal};
use crate::tool::{reg_wf, ToolRegistry};

verus! {

/// A user-role message with the given content.
pub open spec fn user_msg(content: Seq<char>) -> MessageModel {
    MessageModel { role: Role::User, content }
}

/// An assistant-role message with the given content.
pub open spec fn assistant_msg(content: Seq<char>) -> MessageModel {
    MessageModel { role: Role::Assistant, content }
}

/// The fallback returned when the backend ends the turn with no text.
pub open spec fn no_response_text() -> Seq<char> {
    "(No response from agent)"@
}

/// Returned when the backend claims tool use but names no call.
pub open spec fn no_tools_text() -> Seq<char> {
    "Agent wanted to use tools but didn't specify any"@
}

/// Returned when the backend ran out of tokens.
pub open spec fn max_tokens_text() -> Seq<char> {
    "Agent hit max tokens limit"@
}

/// Returned for a content-filter or unrecognized stop.
pub open spec fn stopped_text(stop_reason: StopReason) -> Seq<char> {
    if stop_reason == StopReason::ContentFilter {
        "Agent stopped with reason: ContentFilter"@
    } else {
        "Agent stopped with reason: Error"@
    }
}

/// Returned when the iteration bound is reached without a terminal turn.
pub open spec fn max_iterations_text(max: nat) -> Seq<char> {
    "Agent reached max iterations ("@ + dec_digits(max) + ")"@
}

/// The provider failure reported when a transcript holds no further turn.
pub open spec fn no_more_responses_text() -> Seq<char> {
    "provider returned no response"@
}

/// The trace line for one tool call.
pub open spec fn tool_use_line(c: ToolCallModel) -> Seq<char> {
    "Using tool '"@ + c.name + "' with input: "@ + c.input
}

/// The summary line for one tool result.
pub open spec fn tool_result_line(r: ToolResultModel) -> Seq<char> {
    "Tool '"@ + r.tool_name + "' returned: "@ + r.result
}

/// The assistant-role trace of one turn's tool invocations.
pub open spec fn format_tool_use_spec(calls: Seq<ToolCallModel>) -> Seq<char> {
    joined_lines(calls.map_values(|c: ToolCallModel| tool_use_line(c)))
}

/// The user-role summary of one turn's tool results.
pub open spec fn format_tool_results_spec(results: Seq<ToolResultModel>) -> Seq<char> {
    joined_lines(results.map_values(|r: ToolResultModel| tool_result_line(r)))
}

/// Renders the human-readable trace of the tool calls of one turn.
pub fn format_tool_use(tool_calls: &Vec<ToolCall>) -> (r: String)
    ensures
        r@ == format_tool_use_spec(calls_model(tool_calls@)),
{
    let ghost lines = calls_model(tool_calls@).map_values(|c: ToolCallModel| tool_use_line(c));
    let mut s = String::new();
    let mut i: usize = 0;
    while i < tool_calls.len()
        invariant
            i <= tool_calls@.len(),
            lines == calls_model(tool_calls@).map_values(|c: ToolCallModel| tool_use_line(c)),
            lines.len() == tool_calls@.len(),
            s@ == joined_lines(lines.take(i as int)),
        decreases tool_calls@.len() - i,
    {
        if i > 0 {
            s.append("\n");
            proof {
                reveal_strlit("\n");
                assert("\n"@ =~= seq!['\n']);
            }
        }
        s.append("Using tool '");
        s.append(tool_calls[i].name.as_str());
        s.append("' with input: ");
        s.append(tool_calls[i].input.as_str());
        proof {
            assert(lines[i as int] == tool_use_line(tool_calls@[i as int]@));
            assert(lines.take(i as int + 1).drop_last() =~= lines.take(i as int));
            assert(lines.take(i as int + 1).last() == lines[i as int]);
            assert(s@ =~= joined_lines(lines.take(i as int + 1)));
        }
        i = i + 1;
    }
    proof {
        assert(lines.take(lines.len() as int) =~= lines);
    }
    s
}

/// Renders the summary of the tool results of one turn, fed back to the
/// backend as conversation context.
pub fn format_tool_results(results: &Vec<ToolResult>) -> (r: String)
    ensures
        r@ == format_tool_results_spec(results_model(results@)),
{
    let ghost lines = results_model(results@).map_values(|r: ToolResultModel| tool_result_line(r));
    let mut s = String::new();
    let mut i: usize = 0;
    while i < results.len()
        invariant
            i <= results@.len(),
            lines == results_model(results@).map_values(|r: ToolResultModel| tool_result_line(r)),
            lines.len() == results@.len(),
            s@ == joined_lines(lines.take(i as int)),
        decreases results@.len() - i,
    {
        if i > 0 {
            s.append("\n");
            proof {
                reveal_strlit("\n");
                assert("\n"@ =~= seq!['\n']);
            }
        }
        s.append("Tool '");
        s.append(results[i].tool_name.as_str());
        s.append("' returned: ");
        s.append(results[i].result.as_str());
        proof {
            assert(lines[i as int] == tool_result_line(results@[i as int]@));
            assert(lines.take(i as int + 1).drop_last() =~= lines.take(i as int));
            assert(lines.take(i as int + 1).last() == lines[i as int]);
            assert(s@ =~= joined_lines(lines.take(i as int + 1)));
        }
        i = i + 1;
    }
    proof {
        assert(lines.take(lines.len() as int) =~= lines);
    }
    s
}

/// One turn of a transcript: the backend's completion and, for each of its
/// tool calls, the outcome the corresponding tool produced.
#[derive(Clone, Debug, PartialEq)]
pub struct Turn {
    pub response: CompletionResponse,
    pub outcomes: Vec<ToolOutcome>,
}

/// Model of a turn.
pub struct TurnModel {
    pub response: CompletionResponseModel,
    pub outcomes: Seq<Result<Seq<char>, Seq<char>>>,
}

impl View for Turn {
    type V = TurnModel;

    open spec fn view(&self) -> TurnModel {
        TurnModel { response: self.response@, outcomes: outcomes_model(self.outcomes@) }
    }
}

/// A well-formed turn scripts one outcome per tool call.
pub open spec fn turn_wf(t: TurnModel) -> bool {
    t.outcomes.len() == t.response.tool_calls.len()
}

/// The models of a sequence of turns.
pub open spec fn turns_model(ts: Seq<Turn>) -> Seq<TurnModel> {
    ts.map_values(|t: Turn| t@)
}

/// What one turn decided.
#[derive(Clone, Debug, PartialEq)]
pub enum StepOutcome {
    /// The run is over with this text; `persist` says whether the session
    /// must be saved now.
    Finished { text: String, persist: bool },
    /// Tools ran and their results were recorded; the loop continues.
    Continue,
}

/// Model of a step outcome.
pub enum StepOutcomeModel {
    Finished { text: Seq<char>, persist: bool },
    Continue,
}

impl View for StepOutcome {
    type V = StepOutcomeModel;

    open spec fn view(&self) -> StepOutcomeModel {
        match self {
            StepOutcome::Finished { text, persist } => StepOutcomeModel::Finished {
                text: text@,
                persist: *persist,
            },
            StepOutcome::Continue => StepOutcomeModel::Continue,
        }
    }
}

/// The transition one turn takes: the step's outcome or failure, and the
/// message history after it.
pub open spec fn turn_spec(
    reg: Seq<ToolModel>,
    t: TurnModel,
    msgs: Seq<MessageModel>,
) -> (Result<StepOutcomeModel, AgentErrorModel>, Seq<MessageModel>) {
    match t.response.stop_reason {
        StopReason::EndTurn => match t.response.text {
            Some(text) => (
                Ok(StepOutcomeModel::Finished { text, persist: true }),
                msgs.push(assistant_msg(text)),
            ),
            None => (
                Ok(StepOutcomeModel::Finished { text: no_response_text(), persist: false }),
                msgs,
            ),
        },
        StopReason::ToolUse => {
            if t.response.tool_calls.len() == 0 {
                (Ok(StepOutcomeModel::Finished { text: no_tools_text(), persist: false }), msgs)
            } else {
                match exec_all_spec(reg, t.response.tool_calls, t.outcomes) {
                    Err(e) => (Err(e), msgs),
                    Ok(results) => (
                        Ok(StepOutcomeModel::Continue),
                        msgs.push(assistant_msg(format_tool_use_spec(t.response.tool_calls))).push(
                            user_msg(format_tool_results_spec(results)),
                        ),
                    ),
                }
            }
        },
        StopReason::MaxTokens => (
            Ok(StepOutcomeModel::Finished { text: max_tokens_text(), persist: false }),
            msgs,
        ),
        _ => (
            Ok(
                StepOutcomeModel::Finished {
                    text: stopped_text(t.response.stop_reason),
                    persist: false,
                },
            ),
            msgs,
        ),
    }
}

/// Appends one tool turn to the session: the assistant's invocation trace,
/// then the user-role result summary.
pub fn record_tool_turn(session: &mut Session, tool_calls: &Vec<ToolCall>, results: &Vec<
    ToolResult,
>)
    ensures
        final(session)@.session_id == old(session)@.session_id,
        final(session)@.time_stamp == old(session)@.time_stamp,
        final(session)@.messages == old(session)@.messages.push(
            assistant_msg(format_tool_use_spec(calls_model(tool_calls@))),
        ).push(user_msg(format_tool_results_spec(results_model(results@)))),
{
    let trace = format_tool_use(tool_calls);
    session.add_message(Message { role: Role::Assistant, content: trace });
    let summary = format_tool_results(results);
    session.add_message(Message { role: Role::User, content: summary });
}

/// What a completion asks for next, before any tool has run.
pub enum Disposition {
    /// The run is over with this text; `persist` says whether to save now.
    Respond { text: String, persist: bool },
    /// The completion carries tool calls; run them, then record the turn.
    RunTools,
}

/// The whole run, from the turn at index `i` on: the result handed to the
/// caller, the message history at the end, and how many turns were consumed.
pub open spec fn run_from(
    reg: Seq<ToolModel>,
    max: nat,
    script: Seq<TurnModel>,
    msgs: Seq<MessageModel>,
    i: nat,
) -> (Result<Seq<char>, AgentErrorModel>, Seq<MessageModel>, nat)
    decreases max - i,
{
    if i >= max {
        (Ok(max_iterations_text(max)), msgs, i)
    } else if i >= script.len() {
        (Err(AgentErrorModel::ProviderError(no_more_responses_text())), msgs, i)
    } else {
        let stepped = turn_spec(reg, script[i as int], msgs);
        match stepped.0 {
            Err(e) => (Err(e), stepped.1, i + 1),
            Ok(StepOutcomeModel::Finished { text, .. }) => (Ok(text), stepped.1, i + 1),
            Ok(StepOutcomeModel::Continue) => run_from(reg, max, script, stepped.1, i + 1),
        }
    }
}

/// A whole run: the user prompt is appended, then the transcript's turns are
/// taken in order, at most `max` of them.
pub open spec fn run_spec(
    reg: Seq<ToolModel>,
    max: nat,
    script: Seq<TurnModel>,
    msgs: Seq<MessageModel>,
    prompt: Seq<char>,
) -> (Result<Seq<char>, AgentErrorModel>, Seq<MessageModel>, nat) {
    run_from(reg, max, script, msgs.push(user_msg(prompt)), 0)
}

/// The control loop coordinating completions, tool execution and session
/// state for one conversation.
pub struct Agent {
    registry: ToolRegistry,
    max_iterations: usize,
    system_prompt: Option<String>,
}

impl Agent {
    /// The registered tool declarations.
    pub closed spec fn reg(&self) -> Seq<ToolModel> {
        self.registry@
    }

    /// The iteration bound.
    pub closed spec fn spec_max_iterations(&self) -> nat {
        self.max_iterations as nat
    }

    /// The system prompt handed to the backend.
    pub closed spec fn spec_system_prompt(&self) -> Option<Seq<char>> {
        match self.system_prompt {
            Some(s) => Some(s@),
            None => None,
        }
    }

    /// The registry's names are unique.
    pub open spec fn wf(&self) -> bool {
        reg_wf(self.reg())
    }

    /// An agent over the given registry, with the default iteration bound of
    /// ten to keep a diverging tool loop from running forever.
    pub fn new(registry: ToolRegistry, system_prompt: Option<String>) -> (r: Agent)
        ensures
            r.reg() == registry@,
            r.spec_max_iterations() == 10,
            r.spec_system_prompt() == (match system_prompt {
                Some(s) => Some(s@),
                None => None::<Seq<char>>,
            }),
            registry.wf() ==> r.wf(),
    {
        Agent { registry, max_iterations: 10, system_prompt }
    }

    /// The same agent with another iteration bound.
    pub fn with_max_iterations(self, max_iterations: usize) -> (r: Agent)
        ensures
            r.reg() == self.reg(),
            r.spec_max_iterations() == max_iterations,
            r.spec_system_prompt() == self.spec_system_prompt(),
            self.wf() ==> r.wf(),
    {
        Agent { max_iterations, ..self }
    }

    /// The registry, for building backend requests and resolving calls.
    pub fn get_registry(&self) -> (r: &ToolRegistry)
        ensures
            r@ == self.reg(),
    {
        &self.registry
    }

    /// The iteration bound.
    pub fn get_max_iterations(&self) -> (r: usize)
        ensures
            r as nat == self.spec_max_iterations(),
    {
        self.max_iterations
    }

    /// The system prompt.
    pub fn get_system_prompt(&self) -> (r: &Option<String>)
        ensures
            (match r {
                Some(s) => self.spec_system_prompt() == Some(s@),
                None => self.spec_system_prompt() is None,
            }),
    {
        &self.system_prompt
    }

    /// Decides the transition for one completion before any tool runs: a
    /// terminal text (appending the assistant message on a textual end of
    /// turn), or the instruction to run the completion's tool calls.
    pub fn on_completion(&self, session: &mut Session, response: &CompletionResponse) -> (r:
        Disposition)
        ensures
            final(session)@.session_id == old(session)@.session_id,
            final(session)@.time_stamp == old(session)@.time_stamp,
            (match response@.stop_reason {
                StopReason::EndTurn => match response@.text {
                    Some(t) => (match r {
                        Disposition::Respond { text, persist } => text@ == t && persist,
                        Disposition::RunTools => false,
                    }) && final(session)@.messages == old(session)@.messages.push(
                        assistant_msg(t),
                    ),
                    None => (match r {
                        Disposition::Respond { text, persist } => text@ == no_response_text()
                            && !persist,
                        Disposition::RunTools => false,
                    }) && final(session)@.messages == old(session)@.messages,
                },
                StopReason::ToolUse => (if response@.tool_calls.len() == 0 {
                    (match r {
                        Disposition::Respond { text, persist } => text@ == no_tools_text()
                            && !persist,
                        Disposition::RunTools => false,
                    })
                } else {
                    r is RunTools
                }) && final(session)@.messages == old(session)@.messages,
                StopReason::MaxTokens => (match r {
                    Disposition::Respond { text, persist } => text@ == max_tokens_text()
                        && !persist,
                    Disposition::RunTools => false,
                }) && final(session)@.messages == old(session)@.messages,
                _ => (match r {
                    Disposition::Respond { text, persist } => text@ == stopped_text(
                        response@.stop_reason,
                    ) && !persist,
                    Disposition::RunTools => false,
                }) && final(session)@.messages == old(session)@.messages,
            }),
    {
        match response.stop_reason {
            StopReason::EndTurn => match &response.text {
                Some(t) => {
                    let text = t.clone();
                    session.add_message(
                        Message { role: Role::Assistant, content: text.clone() },
                    );
                    Disposition::Respond { text, persist: true }
                },
                None => Disposition::Respond {
                    text: String::from_str("(No response from agent)"),
                    persist: false,
                },
            },
            StopReason::ToolUse => {
                if response.tool_calls.len() == 0 {
                    Disposition::Respond {
                        text: String::from_str(
                            "Agent wanted to use tools but didn't specify any",
                        ),
                        persist: false,
                    }
                } else {
                    Disposition::RunTools
                }
            },
            StopReason::MaxTokens => Disposition::Respond {
                text: String::from_str("Agent hit max tokens limit"),
                persist: false,
            },
            StopReason::ContentFilter => Disposition::Respond {
                text: String::from_str("Agent stopped with reason: ContentFilter"),
                persist: false,
            },
            StopReason::Error => Disposition::Respond {
                text: String::from_str("Agent stopped with reason: Error"),
                persist: false,
            },
        }
    }

    /// Takes one whole turn: decides the completion's transition, runs no
    /// tool itself but folds the scripted outcomes in fail-fast order, and
    /// records the exchange.
    pub fn step(&self, session: &mut Session, turn: &Turn) -> (r: Result<StepOutcome, AgentError>)
        requires
            turn_wf(turn@),
        ensures
            final(session)@.session_id == old(session)@.session_id,
            final(session)@.time_stamp == old(session)@.time_stamp,
            final(session)@.messages == turn_spec(self.reg(), turn@, old(session)@.messages).1,
            (match r {
                Ok(s) => turn_spec(self.reg(), turn@, old(session)@.messages).0 == Ok::<
                    StepOutcomeModel,
                    AgentErrorModel,
                >(s@),
                Err(e) => turn_spec(self.reg(), turn@, old(session)@.messages).0 == Err::<
                    StepOutcomeModel,
                    AgentErrorModel,
                >(e@),
            }),
    {
        match self.on_completion(session, &turn.response) {
            Disposition::Respond { text, persist } => Ok(StepOutcome::Finished { text, persist }),
            Disposition::RunTools => {
                let executor = ToolExecutor::new(&self.registry);
                match executor.execute_all(&turn.response.tool_calls, &turn.outcomes) {
                    Err(e) => Err(e),
                    Ok(results) => {
                        record_tool_turn(session, &turn.response.tool_calls, &results);
                        Ok(StepOutcome::Continue)
                    },
                }
            },
        }
    }

    /// Runs the agent over a user prompt and a transcript of turns: appends
    /// the prompt as a user message, then takes turns until a terminal stop
    /// reason, a failure, or the iteration bound. The result and the final
    /// history are exactly `run_spec` of the transcript.
    pub fn run(&self, session: &mut Session, user_prompt: &str, script: &Vec<Turn>) -> (r: Result<
        String,
        AgentError,
    >)
        requires
            forall|i: int| 0 <= i < script@.len() ==> turn_wf(#[trigger] script@[i]@),
        ensures
            final(session)@.session_id == old(session)@.session_id,
            final(session)@.time_stamp == old(session)@.time_stamp,
            final(session)@.messages == run_spec(
                self.reg(),
                self.spec_max_iterations(),
                turns_model(script@),
                old(session)@.messages,
                user_prompt@,
            ).1,
            (match r {
                Ok(s) => run_spec(
                    self.reg(),
                    self.spec_max_iterations(),
                    turns_model(script@),
                    old(session)@.messages,
                    user_prompt@,
                ).0 == Ok::<Seq<char>, AgentErrorModel>(s@),
                Err(e) => run_spec(
                    self.reg(),
                    self.spec_max_iterations(),
                    turns_model(script@),
                    old(session)@.messages,
                    user_prompt@,
                ).0 == Err::<Seq<char>, AgentErrorModel>(e@),
            }),
    {
        session.add_message(Message { role: Role::User, content: String::from_str(user_prompt) });
        let ghost reg = self.reg();
        let ghost max = self.spec_max_iterations();
        let ghost script_m = turns_model(script@);
        let ghost msgs0 = old(session)@.messages.push(user_msg(user_prompt@));
        let mut i: usize = 0;
        #[verifier::loop_isolation(false)]
        while i < self.max_iterations
            invariant
                i <= self.max_iterations,
                reg == self.reg(),
                max == self.spec_max_iterations(),
                script_m == turns_model(script@),
                forall|j: int| 0 <= j < script@.len() ==> turn_wf(#[trigger] script@[j]@),
                session@.session_id == old(session)@.session_id,
                session@.time_stamp == old(session)@.time_stamp,
                run_from(reg, max, script_m, session@.messages, i as nat) == run_from(
                    reg,
                    max,
                    script_m,
                    msgs0,
                    0,
                ),
            decreases self.max_iterations - i,
        {
            if i >= script.len() {
                return Err(
                    AgentError::ProviderError(String::from_str("provider returned no response")),
                );
            }
            let turn = &script[i];
            match self.step(session, turn) {
                Err(e) => {
                    return Err(e);
                },
                Ok(StepOutcome::Finished { text, .. }) => {
                    return Ok(text);
                },
                Ok(StepOutcome::Continue) => {
                    i = i + 1;
                },
            }
        }
        let mut text = String::from_str("Agent reached max iterations (");
        let digits = usize_to_decimal(self.max_iterations);
        text.append(digits.as_str());
        text.append(")");
        proof {
            assert(text@ =~= max_iterations_text(max));
        }
        Ok(text)
    }
}

/// A turn on which the loop continues: the backend asked for tools, named at
/// least one call, and the whole batch resolved and succeeded.
pub open spec fn turn_continues(reg: Seq<ToolModel>, t: TurnModel) -> bool {
    t.response.stop_reason == StopReason::ToolUse && t.response.tool_calls.len() > 0
        && exec_all_spec(reg, t.response.tool_calls, t.outcomes) is Ok
}

/// The two messages a continuing turn appends: the invocation trace and the
/// result summary.
pub open spec fn turn_trace(reg: Seq<ToolModel>, t: TurnModel) -> Seq<MessageModel> {
    seq![
        assistant_msg(format_tool_use_spec(t.response.tool_calls)),
        user_msg(
            format_tool_results_spec(exec_all_spec(reg, t.response.tool_calls, t.outcomes)->Ok_0),
        ),
    ]
}

/// The messages a run of continuing turns appends, in turn order.
pub open spec fn trace_of(reg: Seq<ToolModel>, ts: Seq<TurnModel>) -> Seq<MessageModel>
    decreases ts.len(),
{
    if ts.len() == 0 {
        Seq::<MessageModel>::empty()
    } else {
        turn_trace(reg, ts.first()) + trace_of(reg, ts.drop_first())
    }
}

/// A continuing turn takes the loop one step: the step is `Continue` and the
/// history grows by the turn's trace.
pub proof fn lemma_continuing_turn_spec(reg: Seq<ToolModel>, t: TurnModel, msgs: Seq<MessageModel>)
    requires
        turn_continues(reg, t),
    ensures
        turn_spec(reg, t, msgs).0 == Ok::<StepOutcomeModel, AgentErrorModel>(
            StepOutcomeModel::Continue,
        ),
        turn_spec(reg, t, msgs).1 == msgs + turn_trace(reg, t),
{
    assert(turn_spec(reg, t, msgs).1 =~= msgs + turn_trace(reg, t));
}

proof fn lemma_run_from_tool_turns_then_end(
    reg: Seq<ToolModel>,
    max: nat,
    script: Seq<TurnModel>,
    msgs: Seq<MessageModel>,
    i: nat,
)
    requires
        i < script.len(),
        script.len() <= max,
        forall|j: int| i <= j < script.len() - 1 ==> turn_continues(reg, #[trigger] script[j]),
        script.last().response.stop_reason == StopReason::EndTurn,
        script.last().response.text is Some,
    ensures
        ({
            let r = run_from(reg, max, script, msgs, i);
            let text = script.last().response.text->0;
            r.0 == Ok::<Seq<char>, AgentErrorModel>(text) && r.2 == script.len() && r.1 == msgs
                + trace_of(reg, script.subrange(i as int, script.len() - 1)) + seq![
                assistant_msg(text),
            ]
        }),
    decreases script.len() - i,
{
    let r = run_from(reg, max, script, msgs, i);
    let text = script.last().response.text->0;
    if i == script.len() - 1 {
        assert(script[i as int] == script.last());
        assert(trace_of(reg, script.subrange(i as int, script.len() - 1))
            == Seq::<MessageModel>::empty());
        assert(r.1 =~= msgs + trace_of(reg, script.subrange(i as int, script.len() - 1)) + seq![
            assistant_msg(text),
        ]);
    } else {
        assert(turn_continues(reg, script[i as int]));
        lemma_continuing_turn_spec(reg, script[i as int], msgs);
        let msgs2 = msgs + turn_trace(reg, script[i as int]);
        lemma_run_from_tool_turns_then_end(reg, max, script, msgs2, i + 1);
        let tail = script.subrange(i as int + 1, script.len() - 1);
        let whole = script.subrange(i as int, script.len() - 1);
        assert(whole.first() == script[i as int]);
        assert(whole.drop_first() =~= tail);
        assert(r.1 =~= msgs + trace_of(reg, whole) + seq![assistant_msg(text)]);
    }
}

/// For any transcript whose earlier turns all continue and whose last turn
/// ends the turn with text, within the iteration bound, the run returns
/// exactly that text and the history ends with an assistant message equal to
/// it.
pub proof fn lemma_run_returns_end_turn_text(
    reg: Seq<ToolModel>,
    max: nat,
    script: Seq<TurnModel>,
    msgs: Seq<MessageModel>,
    prompt: Seq<char>,
)
    requires
        1 <= script.len() <= max,
        forall|j: int| 0 <= j < script.len() - 1 ==> turn_continues(reg, #[trigger] script[j]),
        script.last().response.stop_reason == StopReason::EndTurn,
        script.last().response.text is Some,
    ensures
        ({
            let r = run_spec(reg, max, script, msgs, prompt);
            let text = script.last().response.text->0;
            r.0 == Ok::<Seq<char>, AgentErrorModel>(text) && r.1.len() > 0 && r.1.last()
                == assistant_msg(text)
        }),
{
    lemma_run_from_tool_turns_then_end(reg, max, script, msgs.push(user_msg(prompt)), 0);
}

/// For a transcript of N turns whose first N-1 continue with resolvable
/// calls and whose Nth ends the turn with text, the run terminates at turn N
/// with that text, and the history is the prompt followed by each earlier
/// turn's trace in order, each result summary matching that turn's calls in
/// call order, then the final assistant message.
pub proof fn lemma_run_history_of_tool_turns(
    reg: Seq<ToolModel>,
    max: nat,
    script: Seq<TurnModel>,
    msgs: Seq<MessageModel>,
    prompt: Seq<char>,
)
    requires
        1 <= script.len() <= max,
        forall|j: int| 0 <= j < script.len() - 1 ==> turn_continues(reg, #[trigger] script[j]),
        script.last().response.stop_reason == StopReason::EndTurn,
        script.last().response.text is Some,
    ensures
        ({
            let r = run_spec(reg, max, script, msgs, prompt);
            let text = script.last().response.text->0;
            r.2 == script.len() && r.1 == msgs + seq![user_msg(prompt)] + trace_of(
                reg,
                script.subrange(0, script.len() - 1),
            ) + seq![assistant_msg(text)]
        }),
        forall|j: int|
            0 <= j < script.len() - 1 ==> {
                let calls = #[trigger] script[j].response.tool_calls;
                let results = exec_all_spec(reg, calls, script[j].outcomes)->Ok_0;
                results.len() == calls.len() && forall|k: int|
                    0 <= k < calls.len() ==> (#[trigger] results[k]).tool_name == calls[k].name
                        && results[k].tool_call_id == calls[k].id
            },
{
    lemma_run_from_tool_turns_then_end(reg, max, script, msgs.push(user_msg(prompt)), 0);
    assert(msgs.push(user_msg(prompt)) =~= msgs + seq![user_msg(prompt)]);
    assert(run_spec(reg, max, script, msgs, prompt).1 =~= msgs + seq![user_msg(prompt)]
        + trace_of(reg, script.subrange(0, script.len() - 1)) + seq![
        assistant_msg(script.last().response.text->0),
    ]);
    assert forall|j: int| 0 <= j < script.len() - 1 implies {
        let calls = #[trigger] script[j].response.tool_calls;
        let results = exec_all_spec(reg, calls, script[j].outcomes)->Ok_0;
        results.len() == calls.len() && forall|k: int|
            0 <= k < calls.len() ==> (#[trigger] results[k]).tool_name == calls[k].name
                && results[k].tool_call_id == calls[k].id
    } by {
        assert(turn_continues(reg, script[j]));
        crate::executor::lemma_exec_all_results_in_call_order(
            reg,
            script[j].response.tool_calls,
            script[j].outcomes,
            0,
        );
    }
}

proof fn lemma_run_from_all_continue(
    reg: Seq<ToolModel>,
    max: nat,
    script: Seq<TurnModel>,
    msgs: Seq<MessageModel>,
    i: nat,
)
    requires
        i <= max,
        max <= script.len(),
        forall|j: int| i <= j < max ==> turn_continues(reg, #[trigger] script[j]),
    ensures
        ({
            let r = run_from(reg, max, script, msgs, i);
            r.0 == Ok::<Seq<char>, AgentErrorModel>(max_iterations_text(max)) && r.2 == max && r.1
                == msgs + trace_of(reg, script.subrange(i as int, max as int))
        }),
    decreases max - i,
{
    let r = run_from(reg, max, script, msgs, i);
    if i == max {
        assert(r.1 =~= msgs + trace_of(reg, script.subrange(i as int, max as int)));
    } else {
        assert(turn_continues(reg, script[i as int]));
        lemma_continuing_turn_spec(reg, script[i as int], msgs);
        let msgs2 = msgs + turn_trace(reg, script[i as int]);
        lemma_run_from_all_continue(reg, max, script, msgs2, i + 1);
        let tail = script.subrange(i as int + 1, max as int);
        let whole = script.subrange(i as int, max as int);
        assert(whole.first() == script[i as int]);
        assert(whole.drop_first() =~= tail);
        assert(r.1 =~= msgs + trace_of(reg, whole));
    }
}

/// If the backend asks for tools on every turn, the run terminates after
/// exactly the configured number of iterations with the iteration-bound
/// message, never exceeding the bound: exactly `max` turns are consumed and
/// exactly two messages per turn were appended after the prompt.
pub proof fn lemma_run_stops_at_iteration_bound(
    reg: Seq<ToolModel>,
    max: nat,
    script: Seq<TurnModel>,
    msgs: Seq<MessageModel>,
    prompt: Seq<char>,
)
    requires
        script.len() >= max,
        forall|j: int| 0 <= j < max ==> turn_continues(reg, #[trigger] script[j]),
    ensures
        ({
            let r = run_spec(reg, max, script, msgs, prompt);
            r.0 == Ok::<Seq<char>, AgentErrorModel>(max_iterations_text(max)) && r.2 == max
                && r.1.len() == msgs.len() + 1 + 2 * max
        }),
{
    lemma_run_from_all_continue(reg, max, script, msgs.push(user_msg(prompt)), 0);
    lemma_trace_of_len(reg, script.subrange(0, max as int));
}

proof fn lemma_trace_of_len(reg: Seq<ToolModel>, ts: Seq<TurnModel>)
    ensures
        trace_of(reg, ts).len() == 2 * ts.len(),
    decreases ts.len(),
{
    if ts.len() > 0 {
        lemma_trace_of_len(reg, ts.drop_first());
    }
}

/// A failing tool batch aborts the run at that turn: if the first `k` turns
/// continue and turn `k` asks for tools whose batch fails, the run fails
/// with exactly that error, having consumed exactly `k + 1` turns.
pub proof fn lemma_tool_failure_aborts_run(
    reg: Seq<ToolModel>,
    max: nat,
    script: Seq<TurnModel>,
    msgs: Seq<MessageModel>,
    prompt: Seq<char>,
    k: nat,
    e: AgentErrorModel,
)
    requires
        k < max,
        k < script.len(),
        forall|j: int| 0 <= j < k ==> turn_continues(reg, #[trigger] script[j]),
        script[k as int].response.stop_reason == StopReason::ToolUse,
        script[k as int].response.tool_calls.len() > 0,
        exec_all_spec(reg, script[k as int].response.tool_calls, script[k as int].outcomes)
            == Err::<Seq<ToolResultModel>, AgentErrorModel>(e),
    ensures
        run_spec(reg, max, script, msgs, prompt).0 == Err::<Seq<char>, AgentErrorModel>(e),
        run_spec(reg, max, script, msgs, prompt).2 == k + 1,
{
    lemma_run_from_fails_at(reg, max, script, msgs.push(user_msg(prompt)), 0, k, e);
}

proof fn lemma_run_from_fails_at(
    reg: Seq<ToolModel>,
    max: nat,
    script: Seq<TurnModel>,
    msgs: Seq<MessageModel>,
    i: nat,
    k: nat,
    e: AgentErrorModel,
)
    requires
        i <= k,
        k < max,
        k < script.len(),
        forall|j: int| i <= j < k ==> turn_continues(reg, #[trigger] script[j]),
        script[k as int].response.stop_reason == StopReason::ToolUse,
        script[k as int].response.tool_calls.len() > 0,
        exec_all_spec(reg, script[k as int].response.tool_calls, script[k as int].outcomes)
            == Err::<Seq<ToolResultModel>, AgentErrorModel>(e),
    ensures
        run_from(reg, max, script, msgs, i).0 == Err::<Seq<char>, AgentErrorModel>(e),
        run_from(reg, max, script, msgs, i).2 == k + 1,
    decreases k - i,
{
    if i < k {
        assert(turn_continues(reg, script[i as int]));
        lemma_continuing_turn_spec(reg, script[i as int], msgs);
        lemma_run_from_fails_at(
            reg,
            max,
            script,
            msgs + turn_trace(reg, script[i as int]),
            i + 1,
            k,
            e,
        );
    }
}

/// A run that ends in a turn's failure reads nothing past that turn: two
/// transcripts that agree on the turns up to and including the failing one
/// give the very same result, history and turn count, so no further backend
/// response is consumed.
pub proof fn lemma_failed_run_ignores_later_turns(
    reg: Seq<ToolModel>,
    max: nat,
    script1: Seq<TurnModel>,
    script2: Seq<TurnModel>,
    msgs: Seq<MessageModel>,
    prompt: Seq<char>,
    k: nat,
)
    requires
        k < max,
        k < script1.len(),
        k < script2.len(),
        script1.subrange(0, k as int + 1) == script2.subrange(0, k as int + 1),
        forall|j: int| 0 <= j < k ==> turn_continues(reg, #[trigger] script1[j]),
        script1[k as int].response.stop_reason == StopReason::ToolUse,
        script1[k as int].response.tool_calls.len() > 0,
        exec_all_spec(reg, script1[k as int].response.tool_calls, script1[k as int].outcomes)
            is Err,
    ensures
        run_spec(reg, max, script1, msgs, prompt) == run_spec(reg, max, script2, msgs, prompt),
{
    lemma_run_from_same_prefix(reg, max, script1, script2, msgs.push(user_msg(prompt)), 0, k);
}

proof fn lemma_run_from_same_prefix(
    reg: Seq<ToolModel>,
    max: nat,
    script1: Seq<TurnModel>,
    script2: Seq<TurnModel>,
    msgs: Seq<MessageModel>,
    i: nat,
    k: nat,
)
    requires
        i <= k,
        k < max,
        k < script1.len(),
        k < script2.len(),
        script1.subrange(0, k as int + 1) == script2.subrange(0, k as int + 1),
        forall|j: int| i <= j < k ==> turn_continues(reg, #[trigger] script1[j]),
        script1[k as int].response.stop_reason == StopReason::ToolUse,
        script1[k as int].response.tool_calls.len() > 0,
        exec_all_spec(reg, script1[k as int].response.tool_calls, script1[k as int].outcomes)
            is Err,
    ensures
        run_from(reg, max, script1, msgs, i) == run_from(reg, max, script2, msgs, i),
    decreases k - i,
{
    assert forall|j: int| 0 <= j <= k implies script1[j] == #[trigger] script2[j] by {
        let pre1 = script1.subrange(0, k as int + 1);
        let pre2 = script2.subrange(0, k as int + 1);
        assert(pre1[j] == script1[j]);
        assert(pre2[j] == script2[j]);
    }
    if i < k {
        lemma_run_from_same_prefix(
            reg,
            max,
            script1,
            script2,
            turn_spec(reg, script1[i as int], msgs).1,
            i + 1,
            k,
        );
    }
}

} // verus!

