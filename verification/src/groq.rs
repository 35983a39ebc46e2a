//! The Groq backend speaks the OpenAI-compatible chat shape; its responses
//! normalize through the same choice logic, under its own error detail.

use vstd::prelude::*;
use vstd::string::StringExecFns;
use crate::errors::{AgentError, AgentErrorModel};
use crate::openai::{choice_response_spec, normalize_choice, Choice};
use crate::provider::CompletionResponse;

verus! {

/// Normalizes a whole Groq completion: the first choice carries the result;
/// an empty choice list is a malformed backend response.
pub fn normalize_response(choices: &Vec<Choice>) -> (r: Result<CompletionResponse, AgentError>)
    ensures
        match r {
            Ok(cr) => choices@.len() > 0 && cr@ == choice_response_spec(choices@[0]@),
            Err(e) => choices@.len() == 0 && e@ == AgentErrorModel::ProviderError(
                "No choices in Groq response"@,
            ),
        },
{
    if choices.len() == 0 {
        Err(AgentError::ProviderError(String::from_str("No choices in Groq response")))
    } else {
        Ok(normalize_choice(&choices[0]))
    }
}

/// Configuration of the Groq backend: the credential and the model name.
/// The transport client lives with the caller that performs the requests.
pub struct GroqProvider {
    api_key: String,
    model: String,
}

impl GroqProvider {
    /// The configured credential.
    pub closed spec fn spec_api_key(&self) -> Seq<char> {
        self.api_key@
    }

    /// The configured model name.
    pub closed spec fn spec_model(&self) -> Seq<char> {
        self.model@
    }

    /// A configuration with the default model.
    pub fn new(api_key: String) -> (r: GroqProvider)
        ensures
            r.spec_api_key() == api_key@,
            r.spec_model() == "openai/gpt-oss-20b"@,
    {
        GroqProvider { api_key, model: String::from_str("openai/gpt-oss-20b") }
    }

    /// The same configuration with another model.
    pub fn with_model(self, model: String) -> (r: GroqProvider)
        ensures
            r.spec_api_key() == self.spec_api_key(),
            r.spec_model() == model@,
    {
        GroqProvider { model, ..self }
    }

    /// The credential, for the caller that performs the requests.
    pub fn api_key(&self) -> (r: &String)
        ensures
            r@ == self.spec_api_key(),
    {
        &self.api_key
    }

    /// The model name.
    pub fn model(&self) -> (r: &String)
        ensures
            r@ == self.spec_model(),
    {
        &self.model
    }
}

} // verus!
