use vstd::prelude::*;

verus! {

#[verifier::external_type_specification]
#[verifier::external_body]
pub struct ExJsonError(serde_json::Error);

/// The failures a run, a tool or a parameter can end in.
#[derive(Debug, Clone)]
pub enum AgentError {
    /// The model capability failed or answered in a malformed way.
    ModelError(String),
    /// A tool was unknown or its own logic failed.
    ToolError(String),
    /// Arguments could not be parsed or coerced.
    InvalidInput(String),
    /// The caller-supplied context had the wrong shape.
    ContextError(String),
    /// An agent was assembled incompletely.
    ConfigurationError(String),
    /// JSON text could not be read or written.
    SerializationError(String),
    /// An invariant that should always hold did not.
    InternalError(String),
}

/// Result type of the library's fallible operations.
pub type AgentResult<T> = Result<T, AgentError>;

impl AgentError {
    /// The label that introduces each kind of error in its message.
    pub open spec fn spec_label(&self) -> Seq<char> {
        match self {
            AgentError::ModelError(_) => "Model error: "@,
            AgentError::ToolError(_) => "Tool execution error: "@,
            AgentError::InvalidInput(_) => "Invalid input: "@,
            AgentError::ContextError(_) => "Context error: "@,
            AgentError::ConfigurationError(_) => "Configuration error: "@,
            AgentError::SerializationError(_) => "Serialization error: "@,
            AgentError::InternalError(_) => "Internal error: "@,
        }
    }

    /// The detail text carried by the error.
    pub open spec fn spec_detail(&self) -> Seq<char> {
        match self {
            AgentError::ModelError(m) => m@,
            AgentError::ToolError(m) => m@,
            AgentError::InvalidInput(m) => m@,
            AgentError::ContextError(m) => m@,
            AgentError::ConfigurationError(m) => m@,
            AgentError::SerializationError(m) => m@,
            AgentError::InternalError(m) => m@,
        }
    }

    /// The detail text carried by the error.
    pub fn detail(&self) -> (r: &str)
        ensures
            r@ == self.spec_detail(),
    {
        match self {
            AgentError::ModelError(m) => m.as_str(),
            AgentError::ToolError(m) => m.as_str(),
            AgentError::InvalidInput(m) => m.as_str(),
            AgentError::ContextError(m) => m.as_str(),
            AgentError::ConfigurationError(m) => m.as_str(),
            AgentError::SerializationError(m) => m.as_str(),
            AgentError::InternalError(m) => m.as_str(),
        }
    }

    /// The human-readable message: the kind's label followed by the detail.
    pub fn to_string(&self) -> (r: String)
        ensures
            r@ == self.spec_label() + self.spec_detail(),
    {
        let mut r = match self {
            AgentError::ModelError(_) => String::from_str("Model error: "),
            AgentError::ToolError(_) => String::from_str("Tool execution error: "),
            AgentError::InvalidInput(_) => String::from_str("Invalid input: "),
            AgentError::ContextError(_) => String::from_str("Context error: "),
            AgentError::ConfigurationError(_) => String::from_str("Configuration error: "),
            AgentError::SerializationError(_) => String::from_str("Serialization error: "),
            AgentError::InternalError(_) => String::from_str("Internal error: "),
        };
        r.append(self.detail());
        r
    }
}

impl From<serde_json::Error> for AgentError {
    fn from(e: serde_json::Error) -> (r: AgentError) {
        AgentError::SerializationError(e.to_string())
    }
}

impl vstd::std_specs::convert::FromSpecImpl<serde_json::Error> for AgentError {
    open spec fn obeys_from_spec() -> bool {
        false
    }

    open spec fn from_spec(e: serde_json::Error) -> AgentError {
        arbitrary()
    }
}

} // verus!
