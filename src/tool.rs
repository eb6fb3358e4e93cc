use vstd::prelude::*;

use crate::error::AgentError;
use crate::json::{JsonValue, JsonView};
use crate::types::RunContext;

verus! {

/// What one tool invocation produced; it is appended to the conversation as
/// a `tool` entry.
#[derive(Debug, Clone)]
pub struct ToolResult {
    pub tool_name: String,
    pub output: String,
}

/// An action that a model can ask for by name.
///
/// The spec functions describe an implementation's behaviour; an
/// implementation that does not define them says nothing of it.
pub trait Tool {
    /// The name a model uses to ask for this tool.
    open spec fn spec_name(&self) -> Seq<char> {
        arbitrary()
    }

    /// What the tool does, in words for the model.
    open spec fn spec_description(&self) -> Seq<char> {
        arbitrary()
    }

    /// The JSON Schema object describing the tool's arguments.
    open spec fn spec_schema(&self) -> JsonView {
        arbitrary()
    }

    /// Whether running the tool on argument text `params` in state `before`
    /// may leave state `after` and return `r`.
    open spec fn executes(
        &self,
        before: RunContext,
        params: Seq<char>,
        after: RunContext,
        r: Result<ToolResult, AgentError>,
    ) -> bool {
        true
    }

    /// The name a model uses to ask for this tool.
    fn name(&self) -> (r: &str)
        ensures
            r@ == self.spec_name(),
    ;

    /// What the tool does, in words for the model.
    fn description(&self) -> (r: &str)
        ensures
            r@ == self.spec_description(),
    ;

    /// A JSON Schema object describing the arguments the tool expects.
    fn parameters_schema(&self) -> (r: JsonValue)
        ensures
            r@ == self.spec_schema(),
    ;

    /// Runs the tool on raw argument text; the tool may read and change the
    /// run's state.
    fn execute(&self, context: &mut RunContext, params: &str) -> (r: Result<ToolResult, AgentError>)
        ensures
            self.executes(*old(context), params@, *final(context), r),
    ;
}

/// A tool built from a name, a description, a schema and a function of the
/// run's state and the raw argument text. The function reads the state and
/// does not change it.
pub struct FunctionTool<F: Fn(&RunContext, &str) -> Result<ToolResult, AgentError>> {
    name: String,
    description: String,
    parameters_schema: JsonValue,
    function: F,
}

impl<F: Fn(&RunContext, &str) -> Result<ToolResult, AgentError>> FunctionTool<F> {
    #[verifier::type_invariant]
    spec fn callable(&self) -> bool {
        forall|args: (&RunContext, &str)| #[trigger] self.function.requires(args)
    }

    /// The tool's name.
    pub closed spec fn spec_tool_name(&self) -> Seq<char> {
        self.name@
    }

    /// The tool's description.
    pub closed spec fn spec_tool_description(&self) -> Seq<char> {
        self.description@
    }

    /// The tool's parameter schema.
    pub closed spec fn spec_tool_schema(&self) -> JsonView {
        self.parameters_schema@
    }

    /// The function the tool runs.
    pub closed spec fn spec_function(&self) -> F {
        self.function
    }

    /// A tool that runs `function` on each invocation.
    pub fn new(name: &str, description: &str, parameters_schema: JsonValue, function: F) -> (r: Self)
        requires
            forall|args: (&RunContext, &str)| #[trigger] function.requires(args),
        ensures
            r.spec_tool_name() == name@,
            r.spec_tool_description() == description@,
            r.spec_tool_schema() == parameters_schema@,
            r.spec_function() == function,
    {
        FunctionTool {
            name: String::from_str(name),
            description: String::from_str(description),
            parameters_schema,
            function,
        }
    }
}

impl<F: Fn(&RunContext, &str) -> Result<ToolResult, AgentError>> Tool for FunctionTool<F> {
    open spec fn spec_name(&self) -> Seq<char> {
        self.spec_tool_name()
    }

    open spec fn spec_description(&self) -> Seq<char> {
        self.spec_tool_description()
    }

    open spec fn spec_schema(&self) -> JsonView {
        self.spec_tool_schema()
    }

    /// The function ran on the caller's state and the argument text as given,
    /// its result is returned, and the state is unchanged.
    open spec fn executes(
        &self,
        before: RunContext,
        params: Seq<char>,
        after: RunContext,
        r: Result<ToolResult, AgentError>,
    ) -> bool {
        &&& after == before
        &&& exists|args: (&RunContext, &str)|
            *args.0 == before && args.1@ == params && #[trigger] self.spec_function().ensures(
                args,
                r,
            )
    }

    fn name(&self) -> (r: &str) {
        self.name.as_str()
    }

    fn description(&self) -> (r: &str) {
        self.description.as_str()
    }

    fn parameters_schema(&self) -> (r: JsonValue) {
        self.parameters_schema.clone()
    }

    fn execute(&self, context: &mut RunContext, params: &str) -> (r: Result<ToolResult, AgentError>) {
        proof {
            use_type_invariant(self);
        }
        let r = (self.function)(&*context, params);
        proof {
            assert(self.spec_function().ensures((&*context, params), r));
        }
        r
    }
}

} // verus!
