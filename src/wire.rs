use vstd::prelude::*;

use crate::agent::{ModelReply, ToolCall};
use crate::error::AgentError;
use crate::json::str_eq;
use crate::types::Message;

verus! {

/// How a model service is told who wrote a conversation entry.
#[derive(Clone, Copy, Debug, PartialEq, Eq)]
pub enum WireRole {
    System,
    User,
    Assistant,
    /// The output of a named function (a tool).
    Function,
}

/// The wire role of an entry with role `role`: `system`, `assistant` and
/// `tool` map to their own roles, anything else is sent as the user's.
pub open spec fn wire_role_of(role: Seq<char>) -> WireRole {
    if role == "system"@ {
        WireRole::System
    } else if role == "assistant"@ {
        WireRole::Assistant
    } else if role == "tool"@ {
        WireRole::Function
    } else {
        WireRole::User
    }
}

impl Message {
    /// The role under which this entry is sent to a model service.
    pub fn wire_role(&self) -> (r: WireRole)
        ensures
            r == wire_role_of(self.role@),
    {
        let role = self.role.as_str();
        if str_eq(role, "system") {
            WireRole::System
        } else if str_eq(role, "assistant") {
            WireRole::Assistant
        } else if str_eq(role, "tool") {
            WireRole::Function
        } else {
            WireRole::User
        }
    }
}

/// One choice of a model service's response: its text, if any, and the tool
/// calls it asks for, in order.
#[derive(Debug, Clone)]
pub struct ResponseChoice {
    pub content: Option<String>,
    pub tool_calls: Vec<ToolCall>,
}

/// The detail of the error for a response without any choice.
pub open spec fn no_response_message() -> Seq<char> {
    "No response from model"@
}

/// The reply a response stands for: its first choice's first tool call where
/// it asks for one, else that choice's text (empty where it has none). A
/// response without choices is a `ModelError`.
pub fn reply_from_choices(choices: Vec<ResponseChoice>) -> (r: Result<ModelReply, AgentError>)
    ensures
        choices@.len() == 0 ==> (r matches Err(AgentError::ModelError(m)) && m@
            == no_response_message()),
        choices@.len() > 0 ==> {
            let first = choices@[0];
            if first.tool_calls@.len() > 0 {
                r == Ok::<ModelReply, AgentError>(ModelReply::ToolCall(first.tool_calls@[0]))
            } else {
                &&& r matches Ok(ModelReply::Answer(t))
                &&& r->Ok_0->Answer_0@ == match first.content {
                    Some(c) => c@,
                    None => Seq::<char>::empty(),
                }
            }
        },
{
    let mut choices = choices;
    if choices.len() == 0 {
        return Err(AgentError::ModelError(String::from_str("No response from model")));
    }
    let first = choices.remove(0);
    let mut calls = first.tool_calls;
    if calls.len() > 0 {
        let call = calls.remove(0);
        Ok(ModelReply::ToolCall(call))
    } else {
        match first.content {
            Some(c) => Ok(ModelReply::Answer(c)),
            None => Ok(ModelReply::Answer(String::new())),
        }
    }
}

} // verus!
