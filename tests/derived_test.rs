use adk::agent::{Agent, AgentBuilder, Model, ModelReply, StepOutcome, ToolCall, ToolDescriptor};
use adk::derived::{
    contains_text, kind_for_type_name, param_table, parameters_schema, read_arguments, ArgValue,
    DerivedTool, ParamKind, ParamSpec,
};
use adk::json::JsonValue;
use adk::tool::{Tool, ToolResult};
use adk::types::{Context, RunContext};
use adk::AgentError;

fn s(t: &str) -> JsonValue {
    JsonValue::Str(t.to_string())
}

fn typed(kind: &str) -> JsonValue {
    JsonValue::Object(vec![("type".to_string(), s(kind))])
}

fn calculator_params() -> Vec<ParamSpec> {
    vec![
        ParamSpec::new("a", ParamKind::Integer),
        ParamSpec::new("b", ParamKind::Integer),
        ParamSpec::new("operation", ParamKind::Text),
    ]
}

fn calculator(_context: &RunContext, args: &Vec<ArgValue>) -> String {
    let (a, b, operation) = match (&args[0], &args[1], &args[2]) {
        (ArgValue::Integer(a), ArgValue::Integer(b), ArgValue::Text(op)) => (*a as i32, *b as i32, op.clone()),
        _ => return "Error: unexpected arguments".to_string(),
    };
    match operation.as_str() {
        "add" => format!("{} + {} = {}", a, b, a + b),
        "subtract" => format!("{} - {} = {}", a, b, a - b),
        "multiply" => format!("{} * {} = {}", a, b, a * b),
        "divide" => {
            if b == 0 {
                "Error: Division by zero".to_string()
            } else {
                format!("{} / {} = {}", a, b, a / b)
            }
        }
        _ => format!("Unknown operation: {}", operation),
    }
}

fn calculator_tool() -> DerivedTool<fn(&RunContext, &Vec<ArgValue>) -> String> {
    DerivedTool::new(
        "calculator",
        "A simple calculator",
        calculator_params(),
        calculator as fn(&RunContext, &Vec<ArgValue>) -> String,
    )
}

#[test]
fn schema_lists_every_parameter_as_required_property() {
    let schema = parameters_schema(&calculator_params());
    let expected = JsonValue::Object(vec![
        ("type".to_string(), s("object")),
        (
            "properties".to_string(),
            JsonValue::Object(vec![
                ("a".to_string(), typed("number")),
                ("b".to_string(), typed("number")),
                ("operation".to_string(), typed("string")),
            ]),
        ),
        (
            "required".to_string(),
            JsonValue::Array(vec![s("a"), s("b"), s("operation")]),
        ),
    ]);
    assert_eq!(schema, expected);
    assert_eq!(calculator_tool().parameters_schema(), expected);
}

#[test]
fn schema_type_names_follow_kinds() {
    assert_eq!(ParamKind::Integer.json_type(), "number");
    assert_eq!(ParamKind::Unsigned.json_type(), "number");
    assert_eq!(ParamKind::Text.json_type(), "string");
    assert_eq!(ParamKind::Boolean.json_type(), "boolean");
    assert_eq!(ParamKind::Structured.json_type(), "object");
    let schema = parameters_schema(&vec![]);
    assert_eq!(schema.get("required"), Some(&JsonValue::Array(vec![])));
    assert_eq!(schema.get("properties"), Some(&JsonValue::Object(vec![])));
}

#[test]
fn arguments_round_trip_through_json_text() {
    let params = vec![
        ParamSpec::new("count", ParamKind::Integer),
        ParamSpec::new("limit", ParamKind::Unsigned),
        ParamSpec::new("label", ParamKind::Text),
        ParamSpec::new("verbose", ParamKind::Boolean),
    ];
    let mut object = serde_json::Map::new();
    object.insert("count".to_string(), serde_json::Value::from(-7i64));
    object.insert("limit".to_string(), serde_json::Value::from(18446744073709551615u64));
    object.insert("label".to_string(), serde_json::Value::from("a \"quoted\" \\ label"));
    object.insert("verbose".to_string(), serde_json::Value::from(true));
    let text = serde_json::to_string(&serde_json::Value::Object(object)).unwrap();
    let vals = read_arguments(&params, &text).unwrap();
    assert_eq!(vals.len(), 4);
    assert!(matches!(vals[0], ArgValue::Integer(-7)));
    assert!(matches!(vals[1], ArgValue::Unsigned(18446744073709551615)));
    match &vals[2] {
        ArgValue::Text(t) => assert_eq!(t, "a \"quoted\" \\ label"),
        other => panic!("unexpected {:?}", other),
    }
    assert!(matches!(vals[3], ArgValue::Boolean(true)));
}

#[test]
fn small_unsigned_and_structured_values_are_extracted() {
    let params = vec![
        ParamSpec::new("n", ParamKind::Unsigned),
        ParamSpec::new("opts", ParamKind::Structured),
    ];
    let vals = read_arguments(&params, r#"{"opts": {"deep": [1, 2]}, "n": 12}"#).unwrap();
    assert!(matches!(vals[0], ArgValue::Unsigned(12)));
    match &vals[1] {
        ArgValue::Json(JsonValue::Encoded(t)) => assert_eq!(t, r#"{"deep": [1, 2]}"#),
        other => panic!("unexpected {:?}", other),
    }
}

#[test]
fn missing_parameter_is_named_in_invalid_input() {
    let err = read_arguments(&calculator_params(), r#"{"a": 1, "operation": "add"}"#).unwrap_err();
    match err {
        AgentError::InvalidInput(msg) => assert_eq!(msg, "Missing or invalid parameter: b"),
        other => panic!("unexpected {:?}", other),
    }
}

#[test]
fn mismatched_parameter_is_named_in_invalid_input() {
    let err = read_arguments(&calculator_params(), r#"{"a": "one", "b": 2, "operation": "add"}"#).unwrap_err();
    match err {
        AgentError::InvalidInput(msg) => assert_eq!(msg, "Missing or invalid parameter: a"),
        other => panic!("unexpected {:?}", other),
    }
    let err = read_arguments(&calculator_params(), r#"{"a": 1.5, "b": 2, "operation": "add"}"#).unwrap_err();
    assert!(matches!(err, AgentError::InvalidInput(msg) if msg == "Missing or invalid parameter: a"));
    let params = vec![ParamSpec::new("n", ParamKind::Unsigned)];
    let err = read_arguments(&params, r#"{"n": -1}"#).unwrap_err();
    assert!(matches!(err, AgentError::InvalidInput(msg) if msg == "Missing or invalid parameter: n"));
    let params = vec![ParamSpec::new("flag", ParamKind::Boolean)];
    let err = read_arguments(&params, r#"{"flag": "true"}"#).unwrap_err();
    assert!(matches!(err, AgentError::InvalidInput(msg) if msg == "Missing or invalid parameter: flag"));
}

#[test]
fn text_that_is_not_an_object_is_invalid_input() {
    assert!(matches!(read_arguments(&calculator_params(), "invalid json"), Err(AgentError::InvalidInput(_))));
    assert!(matches!(read_arguments(&calculator_params(), "[1, 2]"), Err(AgentError::InvalidInput(_))));
    assert!(read_arguments(&vec![], "{}").unwrap().is_empty());
}

#[test]
fn parse_object_reads_each_member_shape() {
    let v = JsonValue::parse_object(r#"{"t": true, "i": -3, "u": 18446744073709551615, "s": "x\ny", "n": null, "f": 2.5}"#).unwrap();
    assert_eq!(v.get("t"), Some(&JsonValue::Bool(true)));
    assert_eq!(v.get("i"), Some(&JsonValue::Int(-3)));
    assert_eq!(v.get("u"), Some(&JsonValue::UInt(18446744073709551615)));
    assert_eq!(v.get("s"), Some(&s("x\ny")));
    assert_eq!(v.get("n"), Some(&JsonValue::Encoded("null".to_string())));
    assert_eq!(v.get("f"), Some(&JsonValue::Fraction("2.5".to_string())));
    assert_eq!(v.get("missing"), None);
    assert!(JsonValue::parse_object("42").is_err());
}

#[test]
fn derived_tool_runs_function_on_extracted_values() {
    let tool = calculator_tool();
    let mut context = RunContext::new(Context::new());
    let result = tool
        .execute(&mut context, r#"{"a": 10, "b": 5, "operation": "add"}"#)
        .unwrap();
    assert_eq!(result.tool_name, "calculator");
    assert_eq!(result.output, "10 + 5 = 15");
    assert_eq!(tool.name(), "calculator");
    assert_eq!(tool.description(), "A simple calculator");
}

#[test]
fn derived_calculator_reports_division_by_zero() {
    let tool = calculator_tool();
    let mut context = RunContext::new(Context::new());
    let result = tool
        .execute(&mut context, r#"{"a": 10, "b": 0, "operation": "divide"}"#)
        .unwrap();
    assert_eq!(result.output, "Error: Division by zero");
    let again = tool
        .execute(&mut context, r#"{"a": 10, "b": 0, "operation": "divide"}"#)
        .unwrap();
    assert_eq!(again.output, result.output);
}

#[test]
fn derived_tool_rejects_bad_arguments_without_calling() {
    let tool = calculator_tool();
    let mut context = RunContext::new(Context::new());
    let err = tool.execute(&mut context, r#"{"a": 10, "operation": "add"}"#).unwrap_err();
    assert!(matches!(err, AgentError::InvalidInput(msg) if msg == "Missing or invalid parameter: b"));
    assert!(context.messages.is_empty());
}

/// Asks for the calculator once, then answers from the tool's output.
struct ScriptedModel {
    tool: String,
}

impl Model for ScriptedModel {
    fn generate_response(
        &self,
        context: &RunContext,
        _tools: &Vec<ToolDescriptor>,
    ) -> Result<ModelReply, AgentError> {
        match context.messages.last() {
            Some(m) if m.role == "tool" => Ok(ModelReply::Answer(format!("The answer is {}", m.content))),
            _ => Ok(ModelReply::ToolCall(ToolCall {
                name: self.tool.clone(),
                arguments: "{}".to_string(),
            })),
        }
    }
}

/// Returns a fixed output under the name "calculator".
struct FixedCalculator;

impl Tool for FixedCalculator {
    fn name(&self) -> &str {
        "calculator"
    }

    fn description(&self) -> &str {
        "Adds"
    }

    fn parameters_schema(&self) -> JsonValue {
        parameters_schema(&vec![])
    }

    fn execute(&self, _context: &mut RunContext, _params: &str) -> Result<ToolResult, AgentError> {
        Ok(ToolResult { tool_name: "calculator".to_string(), output: "4".to_string() })
    }
}

struct AnswerModel;

impl Model for AnswerModel {
    fn generate_response(&self, _c: &RunContext, _t: &Vec<ToolDescriptor>) -> Result<ModelReply, AgentError> {
        Ok(ModelReply::Answer("plain answer".to_string()))
    }
}

#[test]
fn plain_answer_is_returned_with_only_seeded_messages() {
    let agent: Agent<AnswerModel, FixedCalculator> =
        Agent::new("a", Some("helper".to_string()), AnswerModel, vec![FixedCalculator]);
    let (answer, run, replies) = agent.run_recorded("2+2?", Context::new());
    assert_eq!(answer.unwrap(), "plain answer");
    assert_eq!(replies.len(), 1);
    assert_eq!(run.messages.len(), 2);
    assert_eq!(run.messages[0].role, "system");
    assert_eq!(run.messages[0].content, "helper");
    assert_eq!(run.messages[1].role, "user");
    assert_eq!(run.messages[1].content, "2+2?");

    let agent: Agent<AnswerModel, FixedCalculator> = Agent::new("a", None, AnswerModel, vec![]);
    let (_, run, _) = agent.run_recorded("hi", Context::new());
    assert_eq!(run.messages.len(), 1);
    assert_eq!(run.messages[0].role, "user");
}

#[test]
fn unknown_tool_fails_with_tool_error_and_no_tool_message() {
    let model = ScriptedModel { tool: "missing".to_string() };
    let agent = Agent::new("a", Some("helper".to_string()), model, vec![FixedCalculator]);
    let (answer, run, replies) = agent.run_recorded("2+2?", Context::new());
    match answer {
        Err(AgentError::ToolError(msg)) => assert_eq!(msg, "Tool not found: missing"),
        other => panic!("unexpected {:?}", other),
    }
    assert_eq!(replies.len(), 1);
    assert_eq!(run.messages.len(), 2);
    assert!(run.messages.iter().all(|m| m.role != "tool"));
}

#[test]
fn one_tool_call_then_answer_records_system_user_tool() {
    let model = ScriptedModel { tool: "calculator".to_string() };
    let agent = AgentBuilder::new("a")
        .instructions("helper")
        .model(model)
        .add_tool(FixedCalculator)
        .build()
        .unwrap();
    let (answer, run, replies) = agent.run_recorded("2+2?", Context::new());
    assert_eq!(answer.unwrap(), "The answer is 4");
    assert_eq!(replies.len(), 2);
    assert!(matches!(&replies[0], ModelReply::ToolCall(c) if c.name == "calculator"));
    let roles: Vec<&str> = run.messages.iter().map(|m| m.role.as_str()).collect();
    assert_eq!(roles, vec!["system", "user", "tool"]);
    assert_eq!(run.messages[2].content, "4");
    assert_eq!(run.messages[2].tool_name, Some("calculator".to_string()));
    assert_eq!(agent.run("2+2?", Context::new()).unwrap(), "The answer is 4");
}

/// Always asks for the calculator.
struct LoopingModel;

impl Model for LoopingModel {
    fn generate_response(&self, _c: &RunContext, _t: &Vec<ToolDescriptor>) -> Result<ModelReply, AgentError> {
        Ok(ModelReply::ToolCall(ToolCall { name: "calculator".to_string(), arguments: "{}".to_string() }))
    }
}

#[test]
fn tool_call_limit_ends_a_run_that_never_answers() {
    let agent = AgentBuilder::new("a")
        .model(LoopingModel)
        .add_tool(FixedCalculator)
        .max_tool_calls(3)
        .build()
        .unwrap();
    assert_eq!(agent.max_tool_calls(), 3);
    let (answer, run, replies) = agent.run_recorded("go", Context::new());
    match answer {
        Err(AgentError::ModelError(msg)) => assert_eq!(msg, "Tool call limit reached"),
        other => panic!("unexpected {:?}", other),
    }
    assert_eq!(replies.len(), 3 + 1);
    assert_eq!(run.messages.len(), 1 + 3);
}

#[test]
fn step_acts_on_each_reply() {
    let agent = Agent::new("a", None, AnswerModel, vec![FixedCalculator]);
    let descriptors = agent.descriptors();
    let mut run = agent.start("hi", Context::new());
    match agent.step(&mut run, 0, ModelReply::Answer("done".to_string())) {
        Ok(StepOutcome::Answered(t)) => assert_eq!(t, "done"),
        other => panic!("unexpected {:?}", other),
    }
    assert_eq!(run.messages.len(), 1);
    let call = ToolCall { name: "calculator".to_string(), arguments: "{}".to_string() };
    match agent.step(&mut run, 0, ModelReply::ToolCall(call)) {
        Ok(StepOutcome::ToolRan(res)) => assert_eq!(res.output, "4"),
        other => panic!("unexpected {:?}", other),
    }
    assert_eq!(run.messages.len(), 2);
    assert_eq!(run.messages[1].role, "tool");
    assert_eq!(agent.find_tool("calculator"), Some(0));
    assert_eq!(agent.find_tool("other"), None);
    let missing = ToolCall { name: "other".to_string(), arguments: "{}".to_string() };
    match agent.step(&mut run, 0, ModelReply::ToolCall(missing)) {
        Err(AgentError::ToolError(m)) => assert_eq!(m, "Tool not found: other"),
        other => panic!("unexpected {:?}", other),
    }
    assert_eq!(run.messages.len(), 2);
    let over = ToolCall { name: "calculator".to_string(), arguments: "{}".to_string() };
    match agent.step(&mut run, agent.max_tool_calls(), ModelReply::ToolCall(over)) {
        Err(AgentError::ModelError(m)) => assert_eq!(m, "Tool call limit reached"),
        other => panic!("unexpected {:?}", other),
    }
    assert_eq!(run.messages.len(), 2);
    assert_eq!(descriptors.len(), 1);
    assert_eq!(descriptors[0].name, "calculator");
    assert_eq!(descriptors[0].description, "Adds");
}

struct Failing;

impl Model for Failing {
    fn generate_response(&self, _c: &RunContext, _t: &Vec<ToolDescriptor>) -> Result<ModelReply, AgentError> {
        Err(AgentError::ModelError("No response from model".to_string()))
    }
}

#[test]
fn model_failure_is_surfaced() {
    let agent: Agent<Failing, FixedCalculator> = Agent::new("a", None, Failing, vec![]);
    assert!(matches!(agent.run("x", Context::new()), Err(AgentError::ModelError(m)) if m == "No response from model"));
}

#[test]
fn type_names_map_to_kinds() {
    assert!(matches!(kind_for_type_name("i32"), ParamKind::Integer));
    assert!(matches!(kind_for_type_name("i64"), ParamKind::Integer));
    assert!(matches!(kind_for_type_name("u32"), ParamKind::Unsigned));
    assert!(matches!(kind_for_type_name("u64"), ParamKind::Unsigned));
    assert!(matches!(kind_for_type_name("f32"), ParamKind::Float));
    assert!(matches!(kind_for_type_name("f64"), ParamKind::Float));
    assert!(matches!(kind_for_type_name("String"), ParamKind::Text));
    assert!(matches!(kind_for_type_name("str"), ParamKind::Text));
    assert!(matches!(kind_for_type_name("bool"), ParamKind::Boolean));
    assert!(matches!(kind_for_type_name("Point"), ParamKind::Structured));
    assert_eq!(ParamKind::Float.json_type(), "number");
}

#[test]
fn signature_drops_the_run_state_parameter() {
    let signature: Vec<(String, String)> = vec![
        ("_context".to_string(), "&mut RunContext".to_string()),
        ("a".to_string(), "f64".to_string()),
        ("context".to_string(), "Other".to_string()),
        ("b".to_string(), "f64".to_string()),
        ("operation".to_string(), "String".to_string()),
    ];
    let table = param_table(&signature);
    assert_eq!(table.len(), 3);
    assert_eq!(table[0].name, "a");
    assert!(matches!(table[0].kind, ParamKind::Float));
    assert_eq!(table[1].name, "b");
    assert_eq!(table[2].name, "operation");
    assert!(matches!(table[2].kind, ParamKind::Text));
    assert!(contains_text("&mut RunContext", "RunContext"));
    assert!(!contains_text("Run", "RunContext"));
    assert!(contains_text("abc", ""));
}

#[test]
fn float_parameters_accept_any_number() {
    let params = vec![ParamSpec::new("a", ParamKind::Float), ParamSpec::new("b", ParamKind::Float)];
    let vals = read_arguments(&params, r#"{"a": 15.7, "b": 9}"#).unwrap();
    assert!(matches!(&vals[0], ArgValue::Number(JsonValue::Fraction(t)) if t == "15.7"));
    assert!(matches!(&vals[1], ArgValue::Number(JsonValue::Int(9))));
    let err = read_arguments(&params, r#"{"a": "15.7", "b": 9}"#).unwrap_err();
    assert!(matches!(err, AgentError::InvalidInput(msg) if msg == "Missing or invalid parameter: a"));
    let schema = parameters_schema(&params);
    assert!(matches!(schema.get("properties"), Some(JsonValue::Object(p)) if p[0].1 == typed("number")));
}

#[test]
fn tool_for_function_takes_defaults_from_its_name() {
    let f = calculator as fn(&RunContext, &Vec<ArgValue>) -> String;
    let tool = DerivedTool::for_function("calculator", None, None, calculator_params(), f);
    assert_eq!(tool.name(), "calculator");
    assert_eq!(tool.description(), "Tool function calculator");
    let named = DerivedTool::for_function("calculator", Some("calc"), Some("Adds and more"), calculator_params(), f);
    assert_eq!(named.name(), "calc");
    assert_eq!(named.description(), "Adds and more");
    let mut context = RunContext::new(Context::new());
    let result = named.execute(&mut context, r#"{"a": 2, "b": 3, "operation": "multiply"}"#).unwrap();
    assert_eq!(result.tool_name, "calc");
    assert_eq!(result.output, "2 * 3 = 6");
}

#[test]
fn derived_tool_sees_the_callers_state_and_keeps_it() {
    let f = |context: &RunContext, _args: &Vec<ArgValue>| format!("{} entries", context.messages.len());
    let tool = DerivedTool::new("count", "Counts entries", vec![], f);
    let mut context = RunContext::new(Context::new().with_data("k", JsonValue::Int(1)));
    context.add_message("user", "hi");
    let result = tool.execute(&mut context, "{}").unwrap();
    assert_eq!(result.output, "1 entries");
    assert_eq!(context.messages.len(), 1);
    assert_eq!(context.context.get("k"), Some(&JsonValue::Int(1)));
}
