//! A small runtime for tool-using conversational agents: a conversation
//! ledger, tools described by JSON parameter schemas, typed argument
//! extraction, and the orchestration loop that drives a model and its tools.
pub mod agent;
pub mod derived;
pub mod error;
pub mod json;
pub mod prelude;
pub mod tool;
pub mod types;
pub mod wire;

pub use agent::{Agent, AgentBuilder, Model, ModelReply, StepOutcome, ToolCall, ToolDescriptor};
pub use derived::{ArgValue, DerivedTool, ParamKind, ParamSpec};
pub use error::{AgentError, AgentResult};
pub use json::JsonValue;
pub use tool::{FunctionTool, Tool, ToolResult};
pub use types::{Context, Message, RunContext};
