//! The items most programs that build agents need.
pub use crate::agent::{Agent, AgentBuilder, Model, ModelReply, ToolCall, ToolDescriptor};
pub use crate::derived::{ArgValue, DerivedTool, ParamKind, ParamSpec};
pub use crate::error::{AgentError, AgentResult};
pub use crate::json::JsonValue;
pub use crate::tool::{FunctionTool, Tool, ToolResult};
pub use crate::types::{Context, Message, RunContext};
