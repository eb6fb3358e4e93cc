use vstd::prelude::*;

use crate::error::AgentError;
use crate::json::{lemma_first_index, str_eq, JsonValue};
use crate::tool::{Tool, ToolResult};
use crate::types::{is_plain_message, is_tool_message, Context, Message, RunContext};

verus! {

/// A request from the model to run one named tool on raw JSON argument text.
#[derive(Debug)]
pub struct ToolCall {
    pub name: String,
    pub arguments: String,
}

impl Clone for ToolCall {
    fn clone(&self) -> (r: ToolCall)
        ensures
            r == *self,
    {
        ToolCall { name: self.name.clone(), arguments: self.arguments.clone() }
    }
}

/// What the model capability answers in one turn.
#[derive(Debug)]
pub enum ModelReply {
    /// A final text answer.
    Answer(String),
    /// A request to run one tool.
    ToolCall(ToolCall),
}

impl Clone for ModelReply {
    fn clone(&self) -> (r: ModelReply)
        ensures
            r == *self,
    {
        match self {
            ModelReply::Answer(t) => ModelReply::Answer(t.clone()),
            ModelReply::ToolCall(c) => ModelReply::ToolCall(c.clone()),
        }
    }
}

/// What the model capability is told about one tool.
#[derive(Debug, Clone)]
pub struct ToolDescriptor {
    pub name: String,
    pub description: String,
    pub parameters_schema: JsonValue,
}

/// The language-model capability: given the conversation so far and the
/// available tools, it answers or asks for one tool.
///
/// `answers` describes an implementation's behaviour; an implementation that
/// does not define it says nothing of it.
pub trait Model {
    /// Whether, shown the run state `context` and the tools `tools`, the
    /// model may reply `r`.
    open spec fn answers(
        &self,
        context: RunContext,
        tools: Seq<ToolDescriptor>,
        r: Result<ModelReply, AgentError>,
    ) -> bool {
        true
    }

    fn generate_response(&self, context: &RunContext, tools: &Vec<ToolDescriptor>) -> (r: Result<
        ModelReply,
        AgentError,
    >)
        ensures
            self.answers(*context, tools@, r),
    ;
}

/// How many tool calls a run allows unless configured otherwise.
pub const DEFAULT_MAX_TOOL_CALLS: usize = 16;

/// What one step of a run did.
#[derive(Debug, Clone)]
pub enum StepOutcome {
    /// The model answered; the run is over with this text.
    Answered(String),
    /// A tool ran and its result was recorded; the model is asked again.
    ToolRan(ToolResult),
}

/// The conversation a run starts with: the instructions as a `system` entry
/// where there are any, then the input as a `user` entry.
pub open spec fn is_seeded(
    messages: Seq<Message>,
    instructions: Option<Seq<char>>,
    input: Seq<char>,
) -> bool {
    match instructions {
        Some(text) => {
            &&& messages.len() == 2
            &&& is_plain_message(messages[0], "system"@, text)
            &&& is_plain_message(messages[1], "user"@, input)
        },
        None => {
            &&& messages.len() == 1
            &&& is_plain_message(messages[0], "user"@, input)
        },
    }
}

/// The position of the first tool named `name`.
pub open spec fn tool_index<T: Tool>(tools: Seq<T>, name: Seq<char>) -> Option<int> {
    tools.map_values(|t: T| t.spec_name()).index_of_first(name)
}

/// `d` tells the model the name, description and schema of `t`.
pub open spec fn describes<T: Tool>(d: ToolDescriptor, t: T) -> bool {
    &&& d.name@ == t.spec_name()
    &&& d.description@ == t.spec_description()
    &&& d.parameters_schema@ == t.spec_schema()
}

/// `descs` describes `tools`, one descriptor per tool, in order.
pub open spec fn describes_all<T: Tool>(descs: Seq<ToolDescriptor>, tools: Seq<T>) -> bool {
    &&& descs.len() == tools.len()
    &&& forall|i: int| 0 <= i < descs.len() ==> describes(#[trigger] descs[i], tools[i])
}

/// `after` is `before` with a `tool` entry for `res` appended.
pub open spec fn records_result(before: RunContext, res: ToolResult, after: RunContext) -> bool {
    &&& after.context == before.context
    &&& after.messages@.len() == before.messages@.len() + 1
    &&& after.messages@.drop_last() == before.messages@
    &&& is_tool_message(after.messages@.last(), res.tool_name@, res.output@)
}

/// The detail of the error for a tool name that no tool has.
pub open spec fn not_found_message(name: Seq<char>) -> Seq<char> {
    "Tool not found: "@ + name
}

/// The detail of the error for a run that asks for more tool calls than allowed.
pub open spec fn limit_message() -> Seq<char> {
    "Tool call limit reached"@
}

/// An agent: a name, optional instructions, one model capability and an
/// ordered set of tools, fixed once built.
pub struct Agent<M, T> {
    name: String,
    instructions: Option<String>,
    model: M,
    tools: Vec<T>,
    max_tool_calls: usize,
}

impl<M, T> Agent<M, T> {
    /// The agent's name.
    pub closed spec fn spec_name(&self) -> Seq<char> {
        self.name@
    }

    /// The agent's instructions, if any.
    pub closed spec fn spec_instructions(&self) -> Option<Seq<char>> {
        match self.instructions {
            Some(s) => Some(s@),
            None => None,
        }
    }

    /// The agent's tools, in order.
    pub closed spec fn spec_tools(&self) -> Seq<T> {
        self.tools@
    }

    /// The agent's model capability.
    pub closed spec fn spec_model(&self) -> M {
        self.model
    }

    /// How many tool calls one run allows.
    pub closed spec fn spec_max_tool_calls(&self) -> usize {
        self.max_tool_calls
    }

    /// An agent that allows the default number of tool calls per run.
    pub fn new(name: &str, instructions: Option<String>, model: M, tools: Vec<T>) -> (r: Self)
        ensures
            r.spec_name() == name@,
            r.spec_instructions() == match instructions {
                Some(s) => Some(s@),
                None => None::<Seq<char>>,
            },
            r.spec_model() == model,
            r.spec_tools() == tools@,
            r.spec_max_tool_calls() == DEFAULT_MAX_TOOL_CALLS,
    {
        Agent { name: String::from_str(name), instructions, model, tools, max_tool_calls: DEFAULT_MAX_TOOL_CALLS }
    }

    /// The agent's name.
    pub fn name(&self) -> (r: &str)
        ensures
            r@ == self.spec_name(),
    {
        self.name.as_str()
    }

    /// The agent's instructions, if any.
    pub fn instructions(&self) -> (r: Option<&str>)
        ensures
            match r {
                Some(s) => self.spec_instructions() == Some(s@),
                None => self.spec_instructions() is None,
            },
    {
        match &self.instructions {
            Some(s) => Some(s.as_str()),
            None => None,
        }
    }

    /// The agent's tools, in order.
    pub fn tools(&self) -> (r: &Vec<T>)
        ensures
            r@ == self.spec_tools(),
    {
        &self.tools
    }

    /// The agent's model capability.
    pub fn model(&self) -> (r: &M)
        ensures
            *r == self.spec_model(),
    {
        &self.model
    }

    /// How many tool calls one run allows.
    pub fn max_tool_calls(&self) -> (r: usize)
        ensures
            r == self.spec_max_tool_calls(),
    {
        self.max_tool_calls
    }

    /// The state a run starts in: the caller's context and the seeded
    /// conversation.
    pub fn start(&self, input: &str, context: Context) -> (r: RunContext)
        ensures
            r.context == context,
            is_seeded(r.messages@, self.spec_instructions(), input@),
    {
        let mut run = RunContext::new(context);
        match &self.instructions {
            Some(text) => run.add_message("system", text.as_str()),
            None => {},
        }
        run.add_message("user", input);
        run
    }
}

impl<M, T: Tool> Agent<M, T> {
    /// What the model is told about each tool, in order.
    pub fn descriptors(&self) -> (r: Vec<ToolDescriptor>)
        ensures
            describes_all(r@, self.spec_tools()),
    {
        let mut out: Vec<ToolDescriptor> = Vec::new();
        let mut i: usize = 0;
        while i < self.tools.len()
            invariant
                i <= self.tools@.len(),
                out@.len() == i,
                forall|j: int| 0 <= j < i ==> describes(#[trigger] out@[j], self.tools@[j]),
            decreases self.tools.len() - i,
        {
            let t = &self.tools[i];
            out.push(
                ToolDescriptor {
                    name: String::from_str(t.name()),
                    description: String::from_str(t.description()),
                    parameters_schema: t.parameters_schema(),
                },
            );
            i = i + 1;
        }
        out
    }

    /// The position of the first tool named `name`.
    pub fn find_tool(&self, name: &str) -> (r: Option<usize>)
        ensures
            match r {
                Some(i) => i < self.spec_tools().len() && tool_index(self.spec_tools(), name@) == Some(
                    i as int,
                ),
                None => tool_index(self.spec_tools(), name@) is None,
            },
    {
        let ghost names = self.tools@.map_values(|t: T| t.spec_name());
        let mut i: usize = 0;
        while i < self.tools.len()
            invariant
                names == self.tools@.map_values(|t: T| t.spec_name()),
                i <= self.tools@.len(),
                forall|j: int| 0 <= j < i ==> names[j] != name@,
            decreases self.tools.len() - i,
        {
            if str_eq(self.tools[i].name(), name) {
                proof {
                    lemma_first_index(names, name@, i as int);
                }
                return Some(i);
            }
            i = i + 1;
        }
        proof {
            names.index_of_first_ensures(name@);
            if names.contains(name@) {
                let k = choose|k: int| 0 <= k < names.len() && names[k] == name@;
                assert(names[k] != name@);
            }
        }
        None
    }

    /// The `i`-th tool ran on argument text `args` in state `before`; its
    /// failure is handed on unchanged, and its result is appended to the state
    /// it left as a `tool` entry.
    pub open spec fn runs_tool(
        &self,
        i: int,
        before: RunContext,
        args: Seq<char>,
        after: RunContext,
        r: Result<StepOutcome, AgentError>,
    ) -> bool {
        exists|mid: RunContext, res: Result<ToolResult, AgentError>|
            {
                &&& #[trigger] self.spec_tools()[i].executes(before, args, mid, res)
                &&& match res {
                    Ok(tr) => {
                        &&& r == Ok::<StepOutcome, AgentError>(StepOutcome::ToolRan(tr))
                        &&& records_result(mid, tr, after)
                    },
                    Err(e) => r == Err::<StepOutcome, AgentError>(e) && after == mid,
                }
            }
    }

    /// What one step does to the state `before` of a run that has made
    /// `calls` tool calls, given the model's reply: an answer ends the run
    /// with its text; a tool call once the limit is reached fails with
    /// `ModelError`, and a call of a name that no tool has fails with
    /// `ToolError`, all three keeping the state. Otherwise the first tool with
    /// that name runs once on the call's argument text as given; its failure
    /// is handed on unchanged, and its result is appended as a `tool` entry.
    pub open spec fn steps(
        &self,
        before: RunContext,
        calls: int,
        reply: ModelReply,
        after: RunContext,
        r: Result<StepOutcome, AgentError>,
    ) -> bool {
        match reply {
            ModelReply::Answer(text) => {
                &&& r == Ok::<StepOutcome, AgentError>(StepOutcome::Answered(text))
                &&& after == before
            },
            ModelReply::ToolCall(call) => if calls >= self.spec_max_tool_calls() {
                &&& r matches Err(AgentError::ModelError(m))
                &&& r->Err_0->ModelError_0@ == limit_message()
                &&& after == before
            } else {
                match tool_index(self.spec_tools(), call.name@) {
                    None => {
                        &&& r matches Err(AgentError::ToolError(m))
                        &&& r->Err_0->ToolError_0@ == not_found_message(call.name@)
                        &&& after == before
                    },
                    Some(i) => self.runs_tool(i, before, call.arguments@, after, r),
                }
            },
        }
    }

    /// Acts on one reply of the model in a run that has made `calls_made`
    /// tool calls, as `steps` says.
    pub fn step(&self, run: &mut RunContext, calls_made: usize, reply: ModelReply) -> (r: Result<
        StepOutcome,
        AgentError,
    >)
        ensures
            self.steps(*old(run), calls_made as int, reply, *final(run), r),
    {
        match reply {
            ModelReply::Answer(text) => Ok(StepOutcome::Answered(text)),
            ModelReply::ToolCall(call) => {
                if calls_made >= self.max_tool_calls {
                    return Err(AgentError::ModelError(String::from_str("Tool call limit reached")));
                }
                match self.find_tool(call.name.as_str()) {
                    None => {
                        let mut msg = String::from_str("Tool not found: ");
                        msg.append(call.name.as_str());
                        Err(AgentError::ToolError(msg))
                    },
                    Some(i) => {
                        let ghost before = *run;
                        let res = self.tools[i].execute(run, call.arguments.as_str());
                        let ghost mid = *run;
                        proof {
                            assert(self.spec_tools()[i as int].executes(
                                before,
                                call.arguments@,
                                mid,
                                res,
                            ));
                        }
                        match res {
                            Ok(tr) => {
                                run.add_tool_message(tr.tool_name.as_str(), tr.output.as_str());
                                let r = Ok(StepOutcome::ToolRan(tr));
                                proof {
                                    assert(records_result(mid, tr, *run));
                                    assert(self.runs_tool(i as int, before, call.arguments@, *run, r));
                                    assert(self.steps(before, calls_made as int, ModelReply::ToolCall(call), *run, r));
                                }
                                r
                            },
                            Err(e) => {
                                let r = Err(e);
                                proof {
                                    assert(self.runs_tool(i as int, before, call.arguments@, *run, r));
                                    assert(self.steps(before, calls_made as int, ModelReply::ToolCall(call), *run, r));
                                }
                                r
                            },
                        }
                    },
                }
            },
        }
    }
}

impl<M: Model, T: Tool> Agent<M, T> {
    /// `replies`, `states` and `outcomes` trace a run on `input` and
    /// `context` that ended in `r` with state `last`: the run starts in the
    /// seeded state; before each reply the model is shown the state reached
    /// and the descriptors `descs` of the tools and answers that reply; each
    /// reply is acted on as `steps` says, every step but the last running a
    /// tool. The run ends with the answer or failure of its last step, or,
    /// where every reply ran a tool, with a failure of the model.
    pub open spec fn traces(
        &self,
        input: Seq<char>,
        context: Context,
        descs: Seq<ToolDescriptor>,
        replies: Seq<ModelReply>,
        states: Seq<RunContext>,
        outcomes: Seq<Result<StepOutcome, AgentError>>,
        r: Result<String, AgentError>,
        last: RunContext,
    ) -> bool {
        let n = replies.len() as int;
        &&& describes_all(descs, self.spec_tools())
        &&& states.len() == n + 1
        &&& outcomes.len() == n
        &&& states[0].context == context
        &&& is_seeded(states[0].messages@, self.spec_instructions(), input)
        &&& forall|k: int|
            0 <= k < n ==> self.spec_model().answers(
                states[k],
                descs,
                Ok::<ModelReply, AgentError>(#[trigger] replies[k]),
            )
        &&& forall|k: int|
            0 <= k < n ==> self.steps(states[k], k, replies[k], states[k + 1], #[trigger] outcomes[k])
        &&& forall|k: int| 0 <= k < n - 1 ==> (#[trigger] outcomes[k] matches Ok(StepOutcome::ToolRan(_)))
        &&& last == states[n]
        &&& if n > 0 && !(outcomes[n - 1] matches Ok(StepOutcome::ToolRan(_))) {
            match outcomes[n - 1] {
                Ok(StepOutcome::Answered(t)) => r == Ok::<String, AgentError>(t),
                Ok(StepOutcome::ToolRan(_)) => false,
                Err(e) => r == Err::<String, AgentError>(e),
            }
        } else {
            &&& r is Err
            &&& self.spec_model().answers(states[n], descs, Err::<ModelReply, AgentError>(r->Err_0))
        }
    }

    /// A run whose model first answers with a plain text returns that text
    /// unchanged, and its conversation is exactly the seeded one, with the
    /// caller's context.
    pub proof fn lemma_immediate_answer(
        &self,
        input: Seq<char>,
        context: Context,
        descs: Seq<ToolDescriptor>,
        replies: Seq<ModelReply>,
        states: Seq<RunContext>,
        outcomes: Seq<Result<StepOutcome, AgentError>>,
        r: Result<String, AgentError>,
        last: RunContext,
    )
        requires
            self.traces(input, context, descs, replies, states, outcomes, r, last),
            replies.len() > 0,
            replies[0] is Answer,
        ensures
            replies.len() == 1,
            r == Ok::<String, AgentError>(replies[0]->Answer_0),
            last.context == context,
            is_seeded(last.messages@, self.spec_instructions(), input),
    {
        assert(self.steps(states[0], 0, replies[0], states[1], outcomes[0]));
        if replies.len() > 1 {
            assert(outcomes[0] matches Ok(StepOutcome::ToolRan(_)));
        }
    }

    /// A run whose model first calls a name that no tool has fails with
    /// `ToolError` naming it, runs no tool, and keeps the seeded conversation.
    pub proof fn lemma_unknown_tool(
        &self,
        input: Seq<char>,
        context: Context,
        descs: Seq<ToolDescriptor>,
        replies: Seq<ModelReply>,
        states: Seq<RunContext>,
        outcomes: Seq<Result<StepOutcome, AgentError>>,
        r: Result<String, AgentError>,
        last: RunContext,
    )
        requires
            self.traces(input, context, descs, replies, states, outcomes, r, last),
            self.spec_max_tool_calls() > 0,
            replies.len() > 0,
            replies[0] matches ModelReply::ToolCall(call) && tool_index(
                self.spec_tools(),
                call.name@,
            ) is None,
        ensures
            replies.len() == 1,
            r matches Err(AgentError::ToolError(m)) && m@ == not_found_message(
                replies[0]->ToolCall_0.name@,
            ),
            last.context == context,
            is_seeded(last.messages@, self.spec_instructions(), input),
    {
        assert(self.steps(states[0], 0, replies[0], states[1], outcomes[0]));
        if replies.len() > 1 {
            assert(outcomes[0] matches Ok(StepOutcome::ToolRan(_)));
        }
    }

    /// Where every tool leaves the state as it found it, a run whose model
    /// calls a tool once, with success, and then answers returns the answer,
    /// and its conversation is the seeded one followed by one `tool` entry
    /// recording the tool's result.
    pub proof fn lemma_one_tool_call(
        &self,
        input: Seq<char>,
        context: Context,
        descs: Seq<ToolDescriptor>,
        replies: Seq<ModelReply>,
        states: Seq<RunContext>,
        outcomes: Seq<Result<StepOutcome, AgentError>>,
        r: Result<String, AgentError>,
        last: RunContext,
    )
        requires
            self.traces(input, context, descs, replies, states, outcomes, r, last),
            forall|i: int, b: RunContext, a: Seq<char>, m: RunContext, x: Result<ToolResult, AgentError>|
                0 <= i < self.spec_tools().len() && #[trigger] self.spec_tools()[i].executes(b, a, m, x)
                    ==> m == b,
            replies.len() == 2,
            replies[1] is Answer,
            outcomes[0] matches Ok(StepOutcome::ToolRan(_)),
        ensures
            r == Ok::<String, AgentError>(replies[1]->Answer_0),
            last.context == context,
            last.messages@.drop_last() == states[0].messages@,
            is_seeded(last.messages@.drop_last(), self.spec_instructions(), input),
            is_tool_message(
                last.messages@.last(),
                outcomes[0]->Ok_0->ToolRan_0.tool_name@,
                outcomes[0]->Ok_0->ToolRan_0.output@,
            ),
    {
        assert(self.steps(states[0], 0, replies[0], states[1], outcomes[0]));
        assert(self.steps(states[1], 1, replies[1], states[2], outcomes[1]));
        let call = replies[0]->ToolCall_0;
        let i = tool_index(self.spec_tools(), call.name@)->Some_0;
        assert(self.runs_tool(i, states[0], call.arguments@, states[1], outcomes[0]));
        let (mid, res) = choose|mid: RunContext, res: Result<ToolResult, AgentError>|
            {
                &&& #[trigger] self.spec_tools()[i].executes(states[0], call.arguments@, mid, res)
                &&& match res {
                    Ok(tr) => {
                        &&& outcomes[0] == Ok::<StepOutcome, AgentError>(StepOutcome::ToolRan(tr))
                        &&& records_result(mid, tr, states[1])
                    },
                    Err(e) => outcomes[0] == Err::<StepOutcome, AgentError>(e) && states[1] == mid,
                }
            };
        self.spec_tools().map_values(|t: T| t.spec_name()).index_of_first_ensures(call.name@);
    }

    /// Runs the agent on `input` and returns the final answer, the run's
    /// final state, and the replies the model gave, in order. The
    /// conversation is seeded, then the model is asked in turn and each reply
    /// is acted on by `step`, until an answer ends the run or a failure aborts
    /// it; failures are handed on unchanged and nothing is retried.
    pub fn run_recorded(&self, input: &str, context: Context) -> (r: (
        Result<String, AgentError>,
        RunContext,
        Vec<ModelReply>,
    ))
        ensures
            exists|
                descs: Seq<ToolDescriptor>,
                states: Seq<RunContext>,
                outcomes: Seq<Result<StepOutcome, AgentError>>,
            | #[trigger] self.traces(input@, context, descs, r.2@, states, outcomes, r.0, r.1),
    {
        let mut run = self.start(input, context);
        let descriptors = self.descriptors();
        let mut replies: Vec<ModelReply> = Vec::new();
        let ghost mut states: Seq<RunContext> = seq![run];
        let ghost mut outcomes: Seq<Result<StepOutcome, AgentError>> = Seq::empty();
        let mut calls: usize = 0;
        loop
            invariant
                calls <= self.spec_max_tool_calls(),
                replies@.len() == calls,
                states.len() == calls + 1,
                outcomes.len() == calls,
                states[calls as int] == run,
                describes_all(descriptors@, self.spec_tools()),
                states[0].context == context,
                is_seeded(states[0].messages@, self.spec_instructions(), input@),
                forall|k: int|
                    0 <= k < calls ==> self.spec_model().answers(
                        states[k],
                        descriptors@,
                        Ok::<ModelReply, AgentError>(#[trigger] replies@[k]),
                    ),
                forall|k: int|
                    0 <= k < calls ==> self.steps(
                        states[k],
                        k,
                        replies@[k],
                        states[k + 1],
                        #[trigger] outcomes[k],
                    ),
                forall|k: int| 0 <= k < calls ==> (#[trigger] outcomes[k] matches Ok(StepOutcome::ToolRan(_))),
            decreases self.spec_max_tool_calls() - calls,
        {
            let reply = match self.model.generate_response(&run, &descriptors) {
                Ok(reply) => reply,
                Err(e) => {
                    let result = (Err(e), run, replies);
                    proof {
                        assert(self.traces(input@, context, descriptors@, result.2@, states, outcomes, result.0, result.1));
                    }
                    return result;
                },
            };
            let ghost before = run;
            replies.push(reply.clone());
            let o = self.step(&mut run, calls, reply);
            proof {
                states = states.push(run);
                outcomes = outcomes.push(o);
            }
            match o {
                Ok(StepOutcome::ToolRan(_)) => {
                    if calls >= self.max_tool_calls {
                        proof {
                            assert(false);
                        }
                    }
                    calls = calls + 1;
                },
                Ok(StepOutcome::Answered(text)) => {
                    let result = (Ok(text), run, replies);
                    proof {
                        assert(self.traces(input@, context, descriptors@, result.2@, states, outcomes, result.0, result.1));
                    }
                    return result;
                },
                Err(e) => {
                    let result = (Err(e), run, replies);
                    proof {
                        assert(self.traces(input@, context, descriptors@, result.2@, states, outcomes, result.0, result.1));
                    }
                    return result;
                },
            }
        }
    }

    /// Runs the agent on `input` and returns the final answer, as
    /// `run_recorded` does.
    pub fn run(&self, input: &str, context: Context) -> (r: Result<String, AgentError>)
        ensures
            exists|
                descs: Seq<ToolDescriptor>,
                replies: Seq<ModelReply>,
                states: Seq<RunContext>,
                outcomes: Seq<Result<StepOutcome, AgentError>>,
                last: RunContext,
            | #[trigger] self.traces(input@, context, descs, replies, states, outcomes, r, last),
    {
        let (answer, _, _) = self.run_recorded(input, context);
        answer
    }
}

/// Assembles an agent step by step; building fails closed when no model
/// capability was supplied.
pub struct AgentBuilder<M, T> {
    name: String,
    instructions: Option<String>,
    model: Option<M>,
    tools: Vec<T>,
    max_tool_calls: usize,
}

/// The detail of the error for a builder without a model capability.
pub open spec fn model_not_set_message() -> Seq<char> {
    "Model not set"@
}

impl<M, T> AgentBuilder<M, T> {
    /// The name the agent will have.
    pub closed spec fn spec_name(&self) -> Seq<char> {
        self.name@
    }

    /// The instructions the agent will have, if any.
    pub closed spec fn spec_instructions(&self) -> Option<Seq<char>> {
        match self.instructions {
            Some(s) => Some(s@),
            None => None,
        }
    }

    /// The model capability supplied so far, if any.
    pub closed spec fn spec_model(&self) -> Option<M> {
        self.model
    }

    /// The tools added so far, in order.
    pub closed spec fn spec_tools(&self) -> Seq<T> {
        self.tools@
    }

    /// How many tool calls one run of the agent will allow.
    pub closed spec fn spec_max_tool_calls(&self) -> usize {
        self.max_tool_calls
    }

    /// A builder for an agent named `name`, with no instructions, no model,
    /// no tools and the default tool-call limit.
    pub fn new(name: &str) -> (r: Self)
        ensures
            r.spec_name() == name@,
            r.spec_instructions() is None,
            r.spec_model() is None,
            r.spec_tools().len() == 0,
            r.spec_max_tool_calls() == DEFAULT_MAX_TOOL_CALLS,
    {
        AgentBuilder {
            name: String::from_str(name),
            instructions: None,
            model: None,
            tools: Vec::new(),
            max_tool_calls: DEFAULT_MAX_TOOL_CALLS,
        }
    }

    /// Sets the instructions.
    pub fn instructions(self, instructions: &str) -> (r: Self)
        ensures
            r.spec_instructions() == Some(instructions@),
            r.spec_name() == self.spec_name(),
            r.spec_model() == self.spec_model(),
            r.spec_tools() == self.spec_tools(),
            r.spec_max_tool_calls() == self.spec_max_tool_calls(),
    {
        AgentBuilder { instructions: Some(String::from_str(instructions)), ..self }
    }

    /// Sets the model capability.
    pub fn model(self, model: M) -> (r: Self)
        ensures
            r.spec_model() == Some(model),
            r.spec_name() == self.spec_name(),
            r.spec_instructions() == self.spec_instructions(),
            r.spec_tools() == self.spec_tools(),
            r.spec_max_tool_calls() == self.spec_max_tool_calls(),
    {
        AgentBuilder { model: Some(model), ..self }
    }

    /// Appends a tool.
    pub fn add_tool(self, tool: T) -> (r: Self)
        ensures
            r.spec_tools() == self.spec_tools().push(tool),
            r.spec_name() == self.spec_name(),
            r.spec_instructions() == self.spec_instructions(),
            r.spec_model() == self.spec_model(),
            r.spec_max_tool_calls() == self.spec_max_tool_calls(),
    {
        let mut tools = self.tools;
        tools.push(tool);
        AgentBuilder { tools, ..self }
    }

    /// Sets how many tool calls one run allows.
    pub fn max_tool_calls(self, max_tool_calls: usize) -> (r: Self)
        ensures
            r.spec_max_tool_calls() == max_tool_calls,
            r.spec_name() == self.spec_name(),
            r.spec_instructions() == self.spec_instructions(),
            r.spec_model() == self.spec_model(),
            r.spec_tools() == self.spec_tools(),
    {
        AgentBuilder { max_tool_calls, ..self }
    }

    /// The agent assembled so far; fails with `ConfigurationError` when no
    /// model capability was supplied.
    pub fn build(self) -> (r: Result<Agent<M, T>, AgentError>)
        ensures
            match self.spec_model() {
                None => r matches Err(AgentError::ConfigurationError(m)) && m@
                    == model_not_set_message(),
                Some(model) => r matches Ok(agent) && {
                    &&& agent.spec_name() == self.spec_name()
                    &&& agent.spec_instructions() == self.spec_instructions()
                    &&& agent.spec_model() == model
                    &&& agent.spec_tools() == self.spec_tools()
                    &&& agent.spec_max_tool_calls() == self.spec_max_tool_calls()
                },
            },
    {
        match self.model {
            None => Err(AgentError::ConfigurationError(String::from_str("Model not set"))),
            Some(model) => Ok(
                Agent {
                    name: self.name,
                    instructions: self.instructions,
                    model,
                    tools: self.tools,
                    max_tool_calls: self.max_tool_calls,
                },
            ),
        }
    }
}

} // verus!
