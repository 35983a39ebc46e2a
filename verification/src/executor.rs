//! Tool dispatch: resolves tool calls against the registry and turns each
//! call's execution outcome into a result, sequentially and fail-fast.
//!
//! Running a tool itself is outside work (a network call, an await); the
//! caller performs it and hands the outcome in. Everything decided here —
//! lookup, correlation, ordering, fail-fast abort — is verified.

use vstd::prelude::*;
use crate::errors::{AgentError, AgentErrorModel};
use crate::provider::{ToolCall, ToolCallModel};
use crate::tool::{reg_contains, ToolRegistry};

verus! {

/// The outcome of one tool's execution: its text result, or the cause of its
/// failure.
pub type ToolOutcome = Result<String, String>;

/// Result from executing a tool, correlated with the call that asked for it.
#[derive(Clone, Debug, PartialEq)]
pub struct ToolResult {
    pub tool_call_id: String,
    pub tool_name: String,
    pub result: String,
}

/// Model of a tool result.
pub struct ToolResultModel {
    pub tool_call_id: Seq<char>,
    pub tool_name: Seq<char>,
    pub result: Seq<char>,
}

impl View for ToolResult {
    type V = ToolResultModel;

    open spec fn view(&self) -> ToolResultModel {
        ToolResultModel {
            tool_call_id: self.tool_call_id@,
            tool_name: self.tool_name@,
            result: self.result@,
        }
    }
}

/// The models of a sequence of tool calls.
pub open spec fn calls_model(cs: Seq<ToolCall>) -> Seq<ToolCallModel> {
    cs.map_values(|c: ToolCall| c@)
}

/// The models of a sequence of tool results.
pub open spec fn results_model(rs: Seq<ToolResult>) -> Seq<ToolResultModel> {
    rs.map_values(|r: ToolResult| r@)
}

/// Model of one execution outcome.
pub open spec fn outcome_model(o: ToolOutcome) -> Result<Seq<char>, Seq<char>> {
    match o {
        Ok(s) => Ok(s@),
        Err(s) => Err(s@),
    }
}

/// The models of a sequence of outcomes.
pub open spec fn outcomes_model(os: Seq<ToolOutcome>) -> Seq<Result<Seq<char>, Seq<char>>> {
    os.map_values(|o: ToolOutcome| outcome_model(o))
}

/// What executing one call yields: `ToolNotFound` when its name is not
/// registered; the tool's own failure as `ToolExecutionError`; otherwise the
/// result correlated with the call's id and name.
pub open spec fn exec_one_spec(
    reg: Seq<crate::provider::ToolModel>,
    call: ToolCallModel,
    outcome: Result<Seq<char>, Seq<char>>,
) -> Result<ToolResultModel, AgentErrorModel> {
    if !reg_contains(reg, call.name) {
        Err(AgentErrorModel::ToolNotFound(call.name))
    } else {
        match outcome {
            Err(cause) => Err(AgentErrorModel::ToolExecutionError { tool_name: call.name, cause }),
            Ok(text) => Ok(
                ToolResultModel { tool_call_id: call.id, tool_name: call.name, result: text },
            ),
        }
    }
}

/// Executing the calls from index `i` on, in order, aborting the batch at the
/// first failure.
pub open spec fn exec_all_from(
    reg: Seq<crate::provider::ToolModel>,
    calls: Seq<ToolCallModel>,
    outcomes: Seq<Result<Seq<char>, Seq<char>>>,
    i: int,
) -> Result<Seq<ToolResultModel>, AgentErrorModel>
    decreases calls.len() - i,
{
    if i < 0 || i >= calls.len() {
        Ok(Seq::<ToolResultModel>::empty())
    } else {
        match exec_one_spec(reg, calls[i], outcomes[i]) {
            Err(e) => Err(e),
            Ok(tr) => match exec_all_from(reg, calls, outcomes, i + 1) {
                Err(e) => Err(e),
                Ok(rest) => Ok(seq![tr] + rest),
            },
        }
    }
}

/// Executing a whole batch of calls, sequentially and fail-fast.
pub open spec fn exec_all_spec(
    reg: Seq<crate::provider::ToolModel>,
    calls: Seq<ToolCallModel>,
    outcomes: Seq<Result<Seq<char>, Seq<char>>>,
) -> Result<Seq<ToolResultModel>, AgentErrorModel> {
    exec_all_from(reg, calls, outcomes, 0)
}

/// On success the batch yields one result per call, correlated in order.
pub proof fn lemma_exec_all_results_in_call_order(
    reg: Seq<crate::provider::ToolModel>,
    calls: Seq<ToolCallModel>,
    outcomes: Seq<Result<Seq<char>, Seq<char>>>,
    i: int,
)
    requires
        0 <= i <= calls.len(),
        exec_all_from(reg, calls, outcomes, i) is Ok,
    ensures
        exec_all_from(reg, calls, outcomes, i)->Ok_0.len() == calls.len() - i,
        forall|j: int| #![trigger calls[j]]
            i <= j < calls.len() ==> {
                let rs = exec_all_from(reg, calls, outcomes, i)->Ok_0;
                rs[j - i].tool_name == calls[j].name && rs[j - i].tool_call_id == calls[j].id
                    && Ok::<Seq<char>, Seq<char>>(rs[j - i].result) == outcomes[j]
            },
    decreases calls.len() - i,
{
    if i < calls.len() {
        lemma_exec_all_results_in_call_order(reg, calls, outcomes, i + 1);
    }
}

/// Executes tool calls and returns results.
pub struct ToolExecutor<'a> {
    registry: &'a ToolRegistry,
}

impl<'a> ToolExecutor<'a> {
    /// The declarations the executor resolves against.
    pub closed spec fn reg(&self) -> Seq<crate::provider::ToolModel> {
        self.registry@
    }

    pub fn new(registry: &'a ToolRegistry) -> (r: ToolExecutor<'a>)
        ensures
            r.reg() == registry@,
    {
        ToolExecutor { registry }
    }

    /// Resolves one call and turns its execution outcome into a result.
    pub fn execute(&self, tool_call: &ToolCall, outcome: ToolOutcome) -> (r: Result<
        ToolResult,
        AgentError,
    >)
        ensures
            (match r {
                Ok(tr) => exec_one_spec(self.reg(), tool_call@, outcome_model(outcome)) == Ok::<
                    ToolResultModel,
                    AgentErrorModel,
                >(tr@),
                Err(e) => exec_one_spec(self.reg(), tool_call@, outcome_model(outcome)) == Err::<
                    ToolResultModel,
                    AgentErrorModel,
                >(e@),
            }),
    {
        match self.registry.get(tool_call.name.as_str()) {
            None => Err(AgentError::ToolNotFound(tool_call.name.clone())),
            Some(_) => match outcome {
                Err(cause) => Err(
                    AgentError::ToolExecutionError { tool_name: tool_call.name.clone(), cause },
                ),
                Ok(text) => Ok(
                    ToolResult {
                        tool_call_id: tool_call.id.clone(),
                        tool_name: tool_call.name.clone(),
                        result: text,
                    },
                ),
            },
        }
    }

    fn execute_all_from(&self, tool_calls: &Vec<ToolCall>, outcomes: &Vec<ToolOutcome>, i: usize) -> (r:
        Result<Vec<ToolResult>, AgentError>)
        requires
            outcomes@.len() == tool_calls@.len(),
            i <= tool_calls@.len(),
        ensures
            (match r {
                Ok(v) => exec_all_from(
                    self.reg(),
                    calls_model(tool_calls@),
                    outcomes_model(outcomes@),
                    i as int,
                ) == Ok::<Seq<ToolResultModel>, AgentErrorModel>(results_model(v@)),
                Err(e) => exec_all_from(
                    self.reg(),
                    calls_model(tool_calls@),
                    outcomes_model(outcomes@),
                    i as int,
                ) == Err::<Seq<ToolResultModel>, AgentErrorModel>(e@),
            }),
        decreases tool_calls@.len() - i,
    {
        if i == tool_calls.len() {
            let empty: Vec<ToolResult> = Vec::new();
            proof {
                assert(results_model(empty@) =~= Seq::<ToolResultModel>::empty());
            }
            Ok(empty)
        } else {
            let outcome: ToolOutcome = match &outcomes[i] {
                Ok(s) => Ok(s.clone()),
                Err(s) => Err(s.clone()),
            };
            match self.execute(&tool_calls[i], outcome) {
                Err(e) => Err(e),
                Ok(tr) => {
                    match self.execute_all_from(tool_calls, outcomes, i + 1) {
                        Err(e) => Err(e),
                        Ok(mut rest) => {
                            let ghost rest0 = rest@;
                            rest.insert(0, tr);
                            proof {
                                assert(results_model(rest@) =~= seq![tr@] + results_model(rest0));
                            }
                            Ok(rest)
                        },
                    }
                },
            }
        }
    }

    /// Executes a batch of calls sequentially, in the order given, aborting
    /// the whole batch on the first failure; on success the results match the
    /// calls in order.
    pub fn execute_all(&self, tool_calls: &Vec<ToolCall>, outcomes: &Vec<ToolOutcome>) -> (r:
        Result<Vec<ToolResult>, AgentError>)
        requires
            outcomes@.len() == tool_calls@.len(),
        ensures
            (match r {
                Ok(v) => exec_all_spec(
                    self.reg(),
                    calls_model(tool_calls@),
                    outcomes_model(outcomes@),
                ) == Ok::<Seq<ToolResultModel>, AgentErrorModel>(results_model(v@)),
                Err(e) => exec_all_spec(
                    self.reg(),
                    calls_model(tool_calls@),
                    outcomes_model(outcomes@),
                ) == Err::<Seq<ToolResultModel>, AgentErrorModel>(e@),
            }),
    {
        self.execute_all_from(tool_calls, outcomes, 0)
    }
}

} // verus!
