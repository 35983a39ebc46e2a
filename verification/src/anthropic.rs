//! Normalization for the Anthropic message shape: a completion arrives as a
//! list of content blocks — text blocks and tool-use blocks — plus a stop
//! signal. The transport happens outside; the plain block data is collected
//! into the unified completion model here.

use vstd::prelude::*;
use vstd::string::StringExecFns;
use crate::provider::{
    stop_reason_from_signal, stop_reason_of, CompletionResponse, CompletionResponseModel, ToolCall,
    ToolCallModel,
};
use crate::text::{joined_lines, join_lines, str_eq};

verus! {

/// One content block as the backend returns it: a type tag and the fields a
/// block of that type carries.
#[derive(Clone, Debug, PartialEq)]
pub struct ContentBlock {
    pub content_type: String,
    pub text: Option<String>,
    pub id: Option<String>,
    pub name: Option<String>,
    pub input: Option<String>,
}

/// Model of a content block.
pub struct ContentBlockModel {
    pub content_type: Seq<char>,
    pub text: Option<Seq<char>>,
    pub id: Option<Seq<char>>,
    pub name: Option<Seq<char>>,
    pub input: Option<Seq<char>>,
}

impl View for ContentBlock {
    type V = ContentBlockModel;

    open spec fn view(&self) -> ContentBlockModel {
        ContentBlockModel {
            content_type: self.content_type@,
            text: match self.text {
                Some(t) => Some(t@),
                None => None,
            },
            id: match self.id {
                Some(t) => Some(t@),
                None => None,
            },
            name: match self.name {
                Some(t) => Some(t@),
                None => None,
            },
            input: match self.input {
                Some(t) => Some(t@),
                None => None,
            },
        }
    }
}

/// The text parts of the blocks, in order: each text block that carries
/// text.
pub open spec fn collected_texts(blocks: Seq<ContentBlockModel>) -> Seq<Seq<char>>
    decreases blocks.len(),
{
    if blocks.len() == 0 {
        Seq::<Seq<char>>::empty()
    } else {
        let rest = collected_texts(blocks.drop_last());
        let b = blocks.last();
        if b.content_type == "text"@ && b.text is Some {
            rest.push(b.text->0)
        } else {
            rest
        }
    }
}

/// The tool calls of the blocks, in order: each tool-use block that carries
/// all three of id, name and input.
pub open spec fn collected_calls(blocks: Seq<ContentBlockModel>) -> Seq<ToolCallModel>
    decreases blocks.len(),
{
    if blocks.len() == 0 {
        Seq::<ToolCallModel>::empty()
    } else {
        let rest = collected_calls(blocks.drop_last());
        let b = blocks.last();
        if b.content_type == "tool_use"@ && b.id is Some && b.name is Some && b.input is Some {
            rest.push(ToolCallModel { id: b.id->0, name: b.name->0, input: b.input->0 })
        } else {
            rest
        }
    }
}

/// A whole Anthropic completion carried into the unified model: the text
/// parts joined by newlines (absent when there are none), the tool calls in
/// block order, and the unified stop reason.
pub open spec fn anthropic_response_spec(
    blocks: Seq<ContentBlockModel>,
    stop_signal: Seq<char>,
) -> CompletionResponseModel {
    CompletionResponseModel {
        text: if collected_texts(blocks).len() == 0 {
            None
        } else {
            Some(joined_lines(collected_texts(blocks)))
        },
        tool_calls: collected_calls(blocks),
        stop_reason: stop_reason_of(stop_signal),
    }
}

/// Normalizes an Anthropic completion into the unified model.
pub fn normalize_response(blocks: &Vec<ContentBlock>, stop_signal: &str) -> (r: CompletionResponse)
    ensures
        r@ == anthropic_response_spec(blocks@.map_values(|b: ContentBlock| b@), stop_signal@),
{
    let ghost models = blocks@.map_values(|b: ContentBlock| b@);
    let mut text_parts: Vec<String> = Vec::new();
    let mut tool_calls: Vec<ToolCall> = Vec::new();
    let mut i: usize = 0;
    while i < blocks.len()
        invariant
            i <= blocks@.len(),
            models == blocks@.map_values(|b: ContentBlock| b@),
            models.len() == blocks@.len(),
            text_parts@.map_values(|p: String| p@) == collected_texts(models.take(i as int)),
            tool_calls@.map_values(|c: ToolCall| c@) == collected_calls(models.take(i as int)),
        decreases blocks@.len() - i,
    {
        let b = &blocks[i];
        let ghost texts_before = text_parts@.map_values(|p: String| p@);
        let ghost calls_before = tool_calls@.map_values(|c: ToolCall| c@);
        proof {
            reveal_strlit("text");
            reveal_strlit("tool_use");
            assert("text"@.len() != "tool_use"@.len());
        }
        if str_eq(b.content_type.as_str(), "text") {
            match &b.text {
                Some(t) => {
                    text_parts.push(t.clone());
                    proof {
                        assert(text_parts@.map_values(|p: String| p@) =~= texts_before.push(
                            models[i as int].text->0,
                        ));
                    }
                },
                None => {},
            }
        } else if str_eq(b.content_type.as_str(), "tool_use") {
            match (&b.id, &b.name, &b.input) {
                (Some(id), Some(name), Some(input)) => {
                    tool_calls.push(
                        ToolCall { id: id.clone(), name: name.clone(), input: input.clone() },
                    );
                    proof {
                        assert(tool_calls@.map_values(|c: ToolCall| c@) =~= calls_before.push(
                            ToolCallModel {
                                id: models[i as int].id->0,
                                name: models[i as int].name->0,
                                input: models[i as int].input->0,
                            },
                        ));
                    }
                },
                _ => {},
            }
        }
        proof {
            assert(models.take(i as int + 1).drop_last() =~= models.take(i as int));
            assert(models.take(i as int + 1).last() == models[i as int]);
            assert(text_parts@.map_values(|p: String| p@) =~= collected_texts(
                models.take(i as int + 1),
            ));
            assert(tool_calls@.map_values(|c: ToolCall| c@) =~= collected_calls(
                models.take(i as int + 1),
            ));
        }
        i = i + 1;
    }
    proof {
        assert(models.take(models.len() as int) =~= models);
    }
    let text = if text_parts.len() == 0 {
        None
    } else {
        Some(join_lines(&text_parts))
    };
    let stop_reason = stop_reason_from_signal(stop_signal);
    CompletionResponse { text, tool_calls, stop_reason }
}

/// Configuration of the Anthropic backend: the credential and the model
/// name. The transport client lives with the caller that performs the
/// requests.
pub struct AnthropicProvider {
    api_key: String,
    model: String,
}

impl AnthropicProvider {
    /// The configured credential.
    pub closed spec fn spec_api_key(&self) -> Seq<char> {
        self.api_key@
    }

    /// The configured model name.
    pub closed spec fn spec_model(&self) -> Seq<char> {
        self.model@
    }

    /// A configuration with the default model.
    pub fn new(api_key: String) -> (r: AnthropicProvider)
        ensures
            r.spec_api_key() == api_key@,
            r.spec_model() == "anthropic-default-model"@,
    {
        AnthropicProvider { api_key, model: String::from_str("anthropic-default-model") }
    }

    /// The same configuration with another model.
    pub fn with_model(self, model: String) -> (r: AnthropicProvider)
        ensures
            r.spec_api_key() == self.spec_api_key(),
            r.spec_model() == model@,
    {
        AnthropicProvider { model, ..self }
    }

    /// The credential, for the caller that performs the requests.
    pub fn api_key(&self) -> (r: &String)
        ensures
            r@ == self.spec_api_key(),
    {
        &self.api_key
    }

    /// The model name.
    pub fn model(&self) -> (r: &String)
        ensures
            r@ == self.spec_model(),
    {
        &self.model
    }
}

} // verus!
