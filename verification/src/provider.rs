//! The unified completion model every backend is normalized into: messages,
//! tool declarations, tool calls, completion responses, and the stop-reason
//! mapping that all backend variants share.

use vstd::prelude::*;
use crate::text::str_eq;

verus! {

/// Who authored a message in the conversation.
#[derive(Clone, Copy, Debug, PartialEq, Eq, Structural)]
pub enum Role {
    User,
    Assistant,
}

/// A message in the conversation history.
#[derive(Clone, Debug, PartialEq)]
pub struct Message {
    pub role: Role,
    pub content: String,
}

/// Model of a message: its role and its content characters.
pub struct MessageModel {
    pub role: Role,
    pub content: Seq<char>,
}

impl View for Message {
    type V = MessageModel;

    open spec fn view(&self) -> MessageModel {
        MessageModel { role: self.role, content: self.content@ }
    }
}

/// The models of a sequence of messages.
pub open spec fn msgs_model(ms: Seq<Message>) -> Seq<MessageModel> {
    ms.map_values(|m: Message| m@)
}

/// A tool declaration in backend-neutral form: a unique name, a description,
/// and the JSON text of its input schema.
#[derive(Clone, Debug, PartialEq)]
pub struct Tool {
    pub name: String,
    pub description: String,
    pub input_schema: String,
}

/// Model of a tool declaration.
pub struct ToolModel {
    pub name: Seq<char>,
    pub description: Seq<char>,
    pub input_schema: Seq<char>,
}

impl View for Tool {
    type V = ToolModel;

    open spec fn view(&self) -> ToolModel {
        ToolModel {
            name: self.name@,
            description: self.description@,
            input_schema: self.input_schema@,
        }
    }
}

/// A model-issued request to run a tool. `input` holds the JSON text of the
/// call's arguments.
#[derive(Clone, Debug, PartialEq)]
pub struct ToolCall {
    pub id: String,
    pub name: String,
    pub input: String,
}

/// Model of a tool call.
pub struct ToolCallModel {
    pub id: Seq<char>,
    pub name: Seq<char>,
    pub input: Seq<char>,
}

impl View for ToolCall {
    type V = ToolCallModel;

    open spec fn view(&self) -> ToolCallModel {
        ToolCallModel { id: self.id@, name: self.name@, input: self.input@ }
    }
}

/// Why a completion stopped.
#[derive(Clone, Copy, Debug, PartialEq, Eq, Structural)]
pub enum StopReason {
    EndTurn,
    ToolUse,
    MaxTokens,
    ContentFilter,
    Error,
}

/// A completion normalized from any backend: the text, the tool calls in the
/// order the backend returned them, and the unified stop reason.
#[derive(Clone, Debug, PartialEq)]
pub struct CompletionResponse {
    pub text: Option<String>,
    pub tool_calls: Vec<ToolCall>,
    pub stop_reason: StopReason,
}

/// Model of a completion response.
pub struct CompletionResponseModel {
    pub text: Option<Seq<char>>,
    pub tool_calls: Seq<ToolCallModel>,
    pub stop_reason: StopReason,
}

impl View for CompletionResponse {
    type V = CompletionResponseModel;

    open spec fn view(&self) -> CompletionResponseModel {
        CompletionResponseModel {
            text: match self.text {
                Some(t) => Some(t@),
                None => None,
            },
            tool_calls: self.tool_calls@.map_values(|c: ToolCall| c@),
            stop_reason: self.stop_reason,
        }
    }
}

/// The stop-reason mapping every backend variant must implement: each vendor
/// finish signal is carried to the one unified `StopReason`; anything
/// unrecognized means `Error`.
pub open spec fn stop_reason_of(signal: Seq<char>) -> StopReason {
    if signal == "tool_use"@ || signal == "tool_calls"@ {
        StopReason::ToolUse
    } else if signal == "end_turn"@ || signal == "stop"@ {
        StopReason::EndTurn
    } else if signal == "max_tokens"@ || signal == "length"@ {
        StopReason::MaxTokens
    } else if signal == "content_filter"@ {
        StopReason::ContentFilter
    } else {
        StopReason::Error
    }
}

/// Maps a vendor finish signal to the unified stop reason.
pub fn stop_reason_from_signal(signal: &str) -> (r: StopReason)
    ensures
        r == stop_reason_of(signal@),
{
    if str_eq(signal, "tool_use") || str_eq(signal, "tool_calls") {
        StopReason::ToolUse
    } else if str_eq(signal, "end_turn") || str_eq(signal, "stop") {
        StopReason::EndTurn
    } else if str_eq(signal, "max_tokens") || str_eq(signal, "length") {
        StopReason::MaxTokens
    } else if str_eq(signal, "content_filter") {
        StopReason::ContentFilter
    } else {
        StopReason::Error
    }
}

} // verus!
