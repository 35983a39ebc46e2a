//! An agent runtime for tool-calling language models: a unified completion
//! model over several chat backends, a registry of named tools, a bounded
//! control loop that dispatches tool calls and records the conversation, and
//! a snapshot codec for persisting sessions.

pub mod text;
pub mod provider;
pub mod anthropic;
pub mod openai;
pub mod groq;
pub mod errors;
pub mod session;
pub mod snapshot;
pub mod tool;
pub mod tools;
pub mod executor;
pub mod agent;

pub use anthropic::AnthropicProvider;
pub use errors::AgentError;
pub use groq::GroqProvider;
pub use openai::OpenAIProvider;
pub use provider::{CompletionResponse, Message, Role, StopReason, Tool, ToolCall};
pub use session::Session;
pub use tool::ToolRegistry;
pub use tools::{Calculator, WebScrape, WebSearch};
pub use executor::{ToolExecutor, ToolResult};
pub use agent::{Agent, Turn};
