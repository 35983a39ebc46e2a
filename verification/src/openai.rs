//! Normalization for OpenAI-style chat completions, used both for the
//! OpenAI backend itself and for OpenAI-compatible backends. The transport —
//! building the request body, the HTTP call, deserializing the vendor JSON —
//! happens outside; the plain choice data is normalized here, including the
//! deliberate leniency of substituting an empty object for tool-call
//! arguments that are not valid JSON.

use vstd::prelude::*;
use vstd::string::StringExecFns;
use crate::errors::{AgentError, AgentErrorModel};
use crate::provider::{
    stop_reason_from_signal, stop_reason_of, CompletionResponse, CompletionResponseModel, ToolCall,
    ToolCallModel,
};

verus! {

/// A tool call as an OpenAI-style backend returns it: the arguments are one
/// serialized JSON string.
#[derive(Clone, Debug, PartialEq)]
pub struct RawToolCall {
    pub id: String,
    pub name: String,
    pub arguments: String,
}

/// Model of a raw tool call.
pub struct RawToolCallModel {
    pub id: Seq<char>,
    pub name: Seq<char>,
    pub arguments: Seq<char>,
}

impl View for RawToolCall {
    type V = RawToolCallModel;

    open spec fn view(&self) -> RawToolCallModel {
        RawToolCallModel { id: self.id@, name: self.name@, arguments: self.arguments@ }
    }
}

/// The message of one choice: optional text and optional raw tool calls.
#[derive(Clone, Debug, PartialEq)]
pub struct ResponseMessage {
    pub content: Option<String>,
    pub tool_calls: Option<Vec<RawToolCall>>,
}

/// Model of a response message.
pub struct ResponseMessageModel {
    pub content: Option<Seq<char>>,
    pub tool_calls: Option<Seq<RawToolCallModel>>,
}

impl View for ResponseMessage {
    type V = ResponseMessageModel;

    open spec fn view(&self) -> ResponseMessageModel {
        ResponseMessageModel {
            content: match self.content {
                Some(c) => Some(c@),
                None => None,
            },
            tool_calls: match self.tool_calls {
                Some(calls) => Some(calls@.map_values(|c: RawToolCall| c@)),
                None => None,
            },
        }
    }
}

/// One choice of an OpenAI-style completion.
#[derive(Clone, Debug, PartialEq)]
pub struct Choice {
    pub message: ResponseMessage,
    pub finish_reason: String,
}

/// Model of a choice.
pub struct ChoiceModel {
    pub message: ResponseMessageModel,
    pub finish_reason: Seq<char>,
}

impl View for Choice {
    type V = ChoiceModel;

    open spec fn view(&self) -> ChoiceModel {
        ChoiceModel { message: self.message@, finish_reason: self.finish_reason@ }
    }
}

/// Whether a string is valid JSON text.
pub uninterp spec fn parses_as_json(s: Seq<char>) -> bool;

/// Relies on `serde_json::from_str::<Value>`: whether a string parses as a
/// JSON value depends on the string alone.
#[verifier::external_body]
fn json_arguments_valid(s: &str) -> (r: bool)
    ensures
        r == parses_as_json(s@),
{
    serde_json::from_str::<serde_json::Value>(s).is_ok()
}

/// The lenient argument policy: arguments that are valid JSON are kept as
/// they came; anything malformed is deliberately downgraded to the empty
/// object rather than failing the whole completion.
pub open spec fn lenient_input(arguments: Seq<char>) -> Seq<char> {
    if parses_as_json(arguments) {
        arguments
    } else {
        "{}"@
    }
}

/// One raw call normalized: id and name kept, arguments under the lenient
/// policy.
pub open spec fn normalized_call(rc: RawToolCallModel) -> ToolCallModel {
    ToolCallModel { id: rc.id, name: rc.name, input: lenient_input(rc.arguments) }
}

/// The calls of one choice, normalized in order; absent calls mean none.
pub open spec fn normalized_calls(calls: Option<Seq<RawToolCallModel>>) -> Seq<ToolCallModel> {
    match calls {
        Some(cs) => cs.map_values(|rc: RawToolCallModel| normalized_call(rc)),
        None => Seq::<ToolCallModel>::empty(),
    }
}

/// A whole choice carried into the unified completion model.
pub open spec fn choice_response_spec(c: ChoiceModel) -> CompletionResponseModel {
    CompletionResponseModel {
        text: c.message.content,
        tool_calls: normalized_calls(c.message.tool_calls),
        stop_reason: stop_reason_of(c.finish_reason),
    }
}

fn normalize_raw_call(rc: &RawToolCall) -> (r: ToolCall)
    ensures
        r@ == normalized_call(rc@),
{
    let input = if json_arguments_valid(rc.arguments.as_str()) {
        rc.arguments.clone()
    } else {
        String::from_str("{}")
    };
    ToolCall { id: rc.id.clone(), name: rc.name.clone(), input }
}

/// Normalizes one OpenAI-style choice into the unified completion model.
pub fn normalize_choice(choice: &Choice) -> (r: CompletionResponse)
    ensures
        r@ == choice_response_spec(choice@),
{
    let text = match &choice.message.content {
        Some(c) => Some(c.clone()),
        None => None,
    };
    let mut tool_calls: Vec<ToolCall> = Vec::new();
    match &choice.message.tool_calls {
        None => {},
        Some(calls) => {
            let mut i: usize = 0;
            while i < calls.len()
                invariant
                    i <= calls@.len(),
                    tool_calls@.len() == i,
                    forall|j: int| 0 <= j < i ==> tool_calls@[j]@ == normalized_call(calls@[j]@),
                decreases calls@.len() - i,
            {
                tool_calls.push(normalize_raw_call(&calls[i]));
                i = i + 1;
            }
        },
    }
    let stop_reason = stop_reason_from_signal(choice.finish_reason.as_str());
    let r = CompletionResponse { text, tool_calls, stop_reason };
    proof {
        assert(r@.tool_calls =~= normalized_calls(choice@.message.tool_calls));
    }
    r
}

/// Normalizes a whole OpenAI completion: the first choice carries the
/// result; an empty choice list is a malformed backend response.
pub fn normalize_response(choices: &Vec<Choice>) -> (r: Result<CompletionResponse, AgentError>)
    ensures
        match r {
            Ok(cr) => choices@.len() > 0 && cr@ == choice_response_spec(choices@[0]@),
            Err(e) => choices@.len() == 0 && e@ == AgentErrorModel::ProviderError(
                "No choices in OpenAI response"@,
            ),
        },
{
    if choices.len() == 0 {
        Err(AgentError::ProviderError(String::from_str("No choices in OpenAI response")))
    } else {
        Ok(normalize_choice(&choices[0]))
    }
}

/// Configuration of the OpenAI backend: the credential and the model name.
/// The transport client lives with the caller that performs the requests.
pub struct OpenAIProvider {
    api_key: String,
    model: String,
}

impl OpenAIProvider {
    /// The configured credential.
    pub closed spec fn spec_api_key(&self) -> Seq<char> {
        self.api_key@
    }

    /// The configured model name.
    pub closed spec fn spec_model(&self) -> Seq<char> {
        self.model@
    }

    /// A configuration with the default model.
    pub fn new(api_key: String) -> (r: OpenAIProvider)
        ensures
            r.spec_api_key() == api_key@,
            r.spec_model() == "gpt-5-mini"@,
    {
        OpenAIProvider { api_key, model: String::from_str("gpt-5-mini") }
    }

    /// The same configuration with another model.
    pub fn with_model(self, model: String) -> (r: OpenAIProvider)
        ensures
            r.spec_api_key() == self.spec_api_key(),
            r.spec_model() == model@,
    {
        OpenAIProvider { model, ..self }
    }

    /// The credential, for the caller that performs the requests.
    pub fn api_key(&self) -> (r: &String)
        ensures
            r@ == self.spec_api_key(),
    {
        &self.api_key
    }

    /// The model name.
    pub fn model(&self) -> (r: &String)
        ensures
            r@ == self.spec_model(),
    {
        &self.model
    }
}

} // verus!
