use vstd::prelude::*;

use crate::error::AgentError;
use crate::json::{
    field_of, lemma_first_index, lemma_object_view, member_keys, members_view, object_members_of,
    object_of_members, str_eq, JsonValue, JsonView,
};
use crate::tool::{Tool, ToolResult};
use crate::types::RunContext;

verus! {

/// The declared type of a tool parameter.
#[derive(Clone, Copy, Debug)]
pub enum ParamKind {
    /// A signed integer, read as `i64`.
    Integer,
    /// An unsigned integer, read as `u64`.
    Unsigned,
    /// Any number, handed over as its JSON value.
    Float,
    /// A string.
    Text,
    /// A boolean.
    Boolean,
    /// Any other value, handed over as JSON: extraction accepts any value, and
    /// decoding it into a structured type is the function's own work.
    Structured,
}

/// The JSON Schema type name for a parameter kind.
pub open spec fn json_type_name(k: ParamKind) -> Seq<char> {
    match k {
        ParamKind::Integer => "number"@,
        ParamKind::Unsigned => "number"@,
        ParamKind::Float => "number"@,
        ParamKind::Text => "string"@,
        ParamKind::Boolean => "boolean"@,
        ParamKind::Structured => "object"@,
    }
}

impl ParamKind {
    /// The JSON Schema type name for this kind.
    pub fn json_type(&self) -> (r: String)
        ensures
            r@ == json_type_name(*self),
    {
        match self {
            ParamKind::Integer => String::from_str("number"),
            ParamKind::Unsigned => String::from_str("number"),
            ParamKind::Float => String::from_str("number"),
            ParamKind::Text => String::from_str("string"),
            ParamKind::Boolean => String::from_str("boolean"),
            ParamKind::Structured => String::from_str("object"),
        }
    }
}

/// One declared parameter: its name and its kind.
#[derive(Clone, Debug)]
pub struct ParamSpec {
    pub name: String,
    pub kind: ParamKind,
}

impl ParamSpec {
    /// A parameter named `name` of kind `kind`.
    pub fn new(name: &str, kind: ParamKind) -> (r: ParamSpec)
        ensures
            r.name@ == name@,
            r.kind == kind,
    {
        ParamSpec { name: String::from_str(name), kind }
    }
}

/// The kind of a parameter declared with type name `t`: signed integers,
/// unsigned integers, floating-point numbers, strings and booleans map to
/// their kinds, any other type to `Structured`.
pub open spec fn kind_of_type_name(t: Seq<char>) -> ParamKind {
    if t == "i32"@ || t == "i64"@ {
        ParamKind::Integer
    } else if t == "u32"@ || t == "u64"@ {
        ParamKind::Unsigned
    } else if t == "f32"@ || t == "f64"@ {
        ParamKind::Float
    } else if t == "String"@ || t == "str"@ || t == "&str"@ {
        ParamKind::Text
    } else if t == "bool"@ {
        ParamKind::Boolean
    } else {
        ParamKind::Structured
    }
}

/// The kind of a parameter declared with type name `t`.
pub fn kind_for_type_name(t: &str) -> (r: ParamKind)
    ensures
        r == kind_of_type_name(t@),
{
    if str_eq(t, "i32") || str_eq(t, "i64") {
        ParamKind::Integer
    } else if str_eq(t, "u32") || str_eq(t, "u64") {
        ParamKind::Unsigned
    } else if str_eq(t, "f32") || str_eq(t, "f64") {
        ParamKind::Float
    } else if str_eq(t, "String") || str_eq(t, "str") || str_eq(t, "&str") {
        ParamKind::Text
    } else if str_eq(t, "bool") {
        ParamKind::Boolean
    } else {
        ParamKind::Structured
    }
}

/// Whether `needle` occurs in `hay`.
pub open spec fn mentions(hay: Seq<char>, needle: Seq<char>) -> bool {
    exists|i: int|
        0 <= i && i + needle.len() <= hay.len() && #[trigger] hay.subrange(i, i + needle.len())
            == needle
}

/// Whether `needle` occurs in `hay`.
pub fn contains_text(hay: &str, needle: &str) -> (r: bool)
    ensures
        r == mentions(hay@, needle@),
{
    let n = hay.unicode_len();
    let m = needle.unicode_len();
    if m > n {
        return false;
    }
    let mut i: usize = 0;
    loop
        invariant
            n == hay@.len(),
            m == needle@.len(),
            m <= n,
            i <= n - m,
            forall|j: int| 0 <= j < i ==> #[trigger] hay@.subrange(j, j + m) != needle@,
        ensures
            forall|j: int| 0 <= j <= n - m ==> #[trigger] hay@.subrange(j, j + m) != needle@,
        decreases n - m - i,
    {
        if str_eq(hay.substring_char(i, i + m), needle) {
            return true;
        }
        if i == n - m {
            break ;
        }
        i = i + 1;
    }
    proof {
        assert forall|j: int| 0 <= j && j + needle@.len() <= hay@.len() implies #[trigger] hay@.subrange(
            j,
            j + needle@.len(),
        ) != needle@ by {
            assert(j <= n - m);
        }
    }
    false
}

/// Whether a declared parameter is the run's state rather than an argument:
/// it is named `context` or its type mentions `RunContext`.
pub open spec fn is_context_param(name: Seq<char>, declared_type: Seq<char>) -> bool {
    name == "context"@ || mentions(declared_type, "RunContext"@)
}

/// The declared parameters of a signature that are arguments, in order.
pub open spec fn argument_params(signature: Seq<(String, String)>) -> Seq<(String, String)>
    decreases signature.len(),
{
    if signature.len() == 0 {
        Seq::empty()
    } else {
        let kept = argument_params(signature.drop_last());
        let p = signature.last();
        if is_context_param(p.0@, p.1@) {
            kept
        } else {
            kept.push(p)
        }
    }
}

/// The parameter table of a function signature given as (name, type name)
/// pairs: the run's state is left out, and every other parameter keeps its
/// position and gets the kind its type name maps to.
pub fn param_table(signature: &Vec<(String, String)>) -> (r: Vec<ParamSpec>)
    ensures
        r@.len() == argument_params(signature@).len(),
        forall|i: int|
            0 <= i < r@.len() ==> {
                &&& (#[trigger] r@[i]).name@ == argument_params(signature@)[i].0@
                &&& r@[i].kind == kind_of_type_name(argument_params(signature@)[i].1@)
            },
{
    let mut out: Vec<ParamSpec> = Vec::new();
    let mut i: usize = 0;
    while i < signature.len()
        invariant
            i <= signature@.len(),
            out@.len() == argument_params(signature@.subrange(0, i as int)).len(),
            forall|j: int|
                0 <= j < out@.len() ==> {
                    &&& (#[trigger] out@[j]).name@ == argument_params(
                        signature@.subrange(0, i as int),
                    )[j].0@
                    &&& out@[j].kind == kind_of_type_name(
                        argument_params(signature@.subrange(0, i as int))[j].1@,
                    )
                },
        decreases signature.len() - i,
    {
        let name = signature[i].0.as_str();
        let declared_type = signature[i].1.as_str();
        proof {
            assert(signature@.subrange(0, i + 1).drop_last() =~= signature@.subrange(0, i as int));
            assert(signature@.subrange(0, i + 1).last() == signature@[i as int]);
        }
        if !(str_eq(name, "context") || contains_text(declared_type, "RunContext")) {
            out.push(ParamSpec::new(name, kind_for_type_name(declared_type)));
        }
        i = i + 1;
    }
    proof {
        assert(signature@.subrange(0, i as int) =~= signature@);
    }
    out
}

/// The schema entry that describes one parameter.
pub open spec fn property_view(p: ParamSpec) -> (Seq<char>, JsonView) {
    (p.name@, JsonView::Object(seq![("type"@, JsonView::Str(json_type_name(p.kind)))]))
}

/// The entries of the `properties` object, one per parameter, in order.
pub open spec fn properties_view(params: Seq<ParamSpec>) -> Seq<(Seq<char>, JsonView)> {
    params.map_values(|p: ParamSpec| property_view(p))
}

/// The `required` list: every parameter name, in order.
pub open spec fn required_view(params: Seq<ParamSpec>) -> Seq<JsonView> {
    params.map_values(|p: ParamSpec| JsonView::Str(p.name@))
}

/// The parameter schema of a tool with parameters `params`.
pub open spec fn schema_view(params: Seq<ParamSpec>) -> JsonView {
    JsonView::Object(
        seq![
            ("type"@, JsonView::Str("object"@)),
            ("properties"@, JsonView::Object(properties_view(params))),
            ("required"@, JsonView::Array(required_view(params))),
        ],
    )
}

/// The model of an array is the sequence of its items' models.
proof fn lemma_array_view(items: Vec<JsonValue>)
    ensures
        JsonValue::Array(items)@ == JsonView::Array(items@.map_values(|v: JsonValue| v@)),
{
    let v = JsonValue::Array(items);
    assert(v@->Array_0 =~= items@.map_values(|v: JsonValue| v@));
}

/// Builds the JSON Schema object for parameters `params`: every parameter is
/// a property typed by its kind, and every parameter is required.
pub fn parameters_schema(params: &Vec<ParamSpec>) -> (r: JsonValue)
    ensures
        r@ == schema_view(params@),
{
    let mut properties: Vec<(String, JsonValue)> = Vec::new();
    let mut required: Vec<JsonValue> = Vec::new();
    let mut i: usize = 0;
    while i < params.len()
        invariant
            i <= params@.len(),
            members_view(properties@) =~= properties_view(params@).subrange(0, i as int),
            required@.map_values(|v: JsonValue| v@) =~= required_view(params@).subrange(0, i as int),
        decreases params.len() - i,
    {
        let p = &params[i];
        let entry = vec![(String::from_str("type"), JsonValue::Str(p.kind.json_type()))];
        proof {
            lemma_object_view(entry);
            assert(members_view(entry@) =~= seq![("type"@, JsonView::Str(json_type_name(p.kind)))]);
        }
        let ghost old_props = properties@;
        let ghost old_req = required@;
        properties.push((p.name.clone(), JsonValue::Object(entry)));
        required.push(JsonValue::Str(p.name.clone()));
        proof {
            assert(members_view(properties@) =~= members_view(old_props).push(property_view(*p)));
            assert(properties_view(params@).subrange(0, i + 1) =~= properties_view(params@).subrange(
                0,
                i as int,
            ).push(property_view(params@[i as int])));
            assert(required@.map_values(|v: JsonValue| v@) =~= old_req.map_values(
                |v: JsonValue| v@,
            ).push(JsonView::Str(p.name@)));
            assert(required_view(params@).subrange(0, i + 1) =~= required_view(params@).subrange(
                0,
                i as int,
            ).push(JsonView::Str(params@[i as int].name@)));
        }
        i = i + 1;
    }
    proof {
        lemma_object_view(properties);
        lemma_array_view(required);
        assert(properties_view(params@).subrange(0, i as int) =~= properties_view(params@));
        assert(required_view(params@).subrange(0, i as int) =~= required_view(params@));
    }
    let props = JsonValue::Object(properties);
    let req = JsonValue::Array(required);
    let top = vec![
        (String::from_str("type"), JsonValue::Str(String::from_str("object"))),
        (String::from_str("properties"), props),
        (String::from_str("required"), req),
    ];
    proof {
        lemma_object_view(top);
        assert(members_view(top@) =~= schema_view(params@)->Object_0);
    }
    JsonValue::Object(top)
}

/// A value extracted for one parameter.
#[derive(Debug, Clone)]
pub enum ArgValue {
    Integer(i64),
    Unsigned(u64),
    /// A number: an `Int`, `UInt` or `Fraction` value.
    Number(JsonValue),
    Text(String),
    Boolean(bool),
    Json(JsonValue),
}

/// The model of an extracted value.
pub enum ArgView {
    Integer(i64),
    Unsigned(u64),
    Number(JsonView),
    Text(Seq<char>),
    Boolean(bool),
    Json(JsonView),
}

impl View for ArgValue {
    type V = ArgView;

    open spec fn view(&self) -> ArgView {
        match self {
            ArgValue::Integer(i) => ArgView::Integer(*i),
            ArgValue::Unsigned(u) => ArgView::Unsigned(*u),
            ArgValue::Number(v) => ArgView::Number(v@),
            ArgValue::Text(s) => ArgView::Text(s@),
            ArgValue::Boolean(b) => ArgView::Boolean(*b),
            ArgValue::Json(v) => ArgView::Json(v@),
        }
    }
}

/// The value a JSON value yields for a parameter of kind `kind`, if its shape
/// fits: integers in range for the integer kinds, any number for a number,
/// strings for text, booleans for booleans, and any value for a structured
/// parameter.
pub open spec fn coerce(kind: ParamKind, v: JsonView) -> Option<ArgView> {
    match kind {
        ParamKind::Integer => match v {
            JsonView::Int(i) => Some(ArgView::Integer(i)),
            JsonView::UInt(u) => if u <= i64::MAX {
                Some(ArgView::Integer(u as i64))
            } else {
                None
            },
            _ => None,
        },
        ParamKind::Unsigned => match v {
            JsonView::Int(i) => if i >= 0 {
                Some(ArgView::Unsigned(i as u64))
            } else {
                None
            },
            JsonView::UInt(u) => Some(ArgView::Unsigned(u)),
            _ => None,
        },
        ParamKind::Float => match v {
            JsonView::Int(_) => Some(ArgView::Number(v)),
            JsonView::UInt(_) => Some(ArgView::Number(v)),
            JsonView::Fraction(_) => Some(ArgView::Number(v)),
            _ => None,
        },
        ParamKind::Text => match v {
            JsonView::Str(s) => Some(ArgView::Text(s)),
            _ => None,
        },
        ParamKind::Boolean => match v {
            JsonView::Bool(b) => Some(ArgView::Boolean(b)),
            _ => None,
        },
        ParamKind::Structured => Some(ArgView::Json(v)),
    }
}

/// The value extracted for parameter `p` from the arguments object `args`:
/// its member under the parameter's name, coerced to the parameter's kind.
pub open spec fn argument_of(p: ParamSpec, args: JsonView) -> Option<ArgView> {
    match field_of(args, p.name@) {
        Some(v) => coerce(p.kind, v),
        None => None,
    }
}

/// Every parameter in `params` can be extracted from `args`.
pub open spec fn all_extracted(params: Seq<ParamSpec>, args: JsonView) -> bool {
    forall|i: int| 0 <= i < params.len() ==> (#[trigger] argument_of(params[i], args)) is Some
}

/// The detail of the error that names a missing or mismatched parameter.
pub open spec fn missing_message(name: Seq<char>) -> Seq<char> {
    "Missing or invalid parameter: "@ + name
}

/// `e` is the error for the first parameter of `params` that cannot be
/// extracted from `args`.
pub open spec fn is_extraction_error(e: AgentError, params: Seq<ParamSpec>, args: JsonView) -> bool {
    exists|i: int|
        0 <= i < params.len() && (#[trigger] argument_of(params[i], args)) is None && (forall|j: int|
            0 <= j < i ==> (#[trigger] argument_of(params[j], args)) is Some) && e is InvalidInput
            && e->InvalidInput_0@ == missing_message(params[i].name@)
}

/// Coerces one JSON value to a parameter kind.
pub fn coerce_value(kind: ParamKind, v: &JsonValue) -> (r: Option<ArgValue>)
    ensures
        match r {
            Some(a) => coerce(kind, v@) == Some(a@),
            None => coerce(kind, v@) is None,
        },
{
    match kind {
        ParamKind::Integer => match v {
            JsonValue::Int(i) => Some(ArgValue::Integer(*i)),
            JsonValue::UInt(u) => if *u <= i64::MAX as u64 {
                Some(ArgValue::Integer(*u as i64))
            } else {
                None
            },
            _ => None,
        },
        ParamKind::Unsigned => match v {
            JsonValue::Int(i) => if *i >= 0 {
                Some(ArgValue::Unsigned(*i as u64))
            } else {
                None
            },
            JsonValue::UInt(u) => Some(ArgValue::Unsigned(*u)),
            _ => None,
        },
        ParamKind::Float => match v {
            JsonValue::Int(_) => Some(ArgValue::Number(v.clone())),
            JsonValue::UInt(_) => Some(ArgValue::Number(v.clone())),
            JsonValue::Fraction(_) => Some(ArgValue::Number(v.clone())),
            _ => None,
        },
        ParamKind::Text => match v {
            JsonValue::Str(s) => Some(ArgValue::Text(s.clone())),
            _ => None,
        },
        ParamKind::Boolean => match v {
            JsonValue::Bool(b) => Some(ArgValue::Boolean(*b)),
            _ => None,
        },
        ParamKind::Structured => Some(ArgValue::Json(v.clone())),
    }
}

/// Extracts one value per parameter, in declaration order, from the
/// arguments object `args`; fails with `InvalidInput` naming the first
/// parameter whose member is absent or of the wrong shape.
pub fn extract_arguments(params: &Vec<ParamSpec>, args: &JsonValue) -> (r: Result<
    Vec<ArgValue>,
    AgentError,
>)
    ensures
        r is Ok <==> all_extracted(params@, args@),
        match r {
            Ok(vals) => {
                &&& vals@.len() == params@.len()
                &&& forall|i: int|
                    0 <= i < params@.len() ==> argument_of(params@[i], args@) == Some(
                        (#[trigger] vals@[i])@,
                    )
            },
            Err(e) => is_extraction_error(e, params@, args@),
        },
{
    let mut vals: Vec<ArgValue> = Vec::new();
    let mut i: usize = 0;
    while i < params.len()
        invariant
            i <= params@.len(),
            vals@.len() == i,
            forall|j: int|
                0 <= j < i ==> argument_of(params@[j], args@) == Some((#[trigger] vals@[j])@),
        decreases params.len() - i,
    {
        let p = &params[i];
        let found = match args.get(p.name.as_str()) {
            Some(v) => coerce_value(p.kind, v),
            None => None,
        };
        match found {
            Some(a) => {
                vals.push(a);
            },
            None => {
                let mut msg = String::from_str("Missing or invalid parameter: ");
                msg.append(p.name.as_str());
                let e = AgentError::InvalidInput(msg);
                proof {
                    assert(argument_of(params@[i as int], args@) is None);
                    assert(forall|j: int|
                        0 <= j < i ==> (#[trigger] argument_of(params@[j], args@)) is Some) by {
                        assert forall|j: int| 0 <= j < i implies (#[trigger] argument_of(
                            params@[j],
                            args@,
                        )) is Some by {
                            assert(argument_of(params@[j], args@) == Some(vals@[j]@));
                        }
                    }
                }
                return Err(e);
            },
        }
        i = i + 1;
    }
    proof {
        assert forall|j: int| 0 <= j < params@.len() implies (#[trigger] argument_of(
            params@[j],
            args@,
        )) is Some by {
            assert(argument_of(params@[j], args@) == Some(vals@[j]@));
        }
    }
    Ok(vals)
}

/// The outcome of reading argument text for parameters `params`: `r` is
/// `InvalidInput` where the text is not a JSON object; otherwise it is what
/// extraction gives on the object the text holds.
pub open spec fn reads_arguments(
    r: Result<Vec<ArgValue>, AgentError>,
    params: Seq<ParamSpec>,
    text: Seq<char>,
) -> bool {
    match object_members_of(text) {
        None => r is Err && r->Err_0 is InvalidInput,
        Some(m) => {
            let args = object_of_members(m);
            &&& r is Ok <==> all_extracted(params, args)
            &&& match r {
                Ok(vals) => {
                    &&& vals@.len() == params.len()
                    &&& forall|i: int|
                        0 <= i < params.len() ==> argument_of(params[i], args) == Some(
                            (#[trigger] vals@[i])@,
                        )
                },
                Err(e) => is_extraction_error(e, params, args),
            }
        },
    }
}

/// Parses raw argument text as a JSON object and extracts one value per
/// parameter from it.
pub fn read_arguments(params: &Vec<ParamSpec>, text: &str) -> (r: Result<Vec<ArgValue>, AgentError>)
    ensures
        reads_arguments(r, params@, text@),
{
    match JsonValue::parse_object(text) {
        Ok(args) => extract_arguments(params, &args),
        Err(e) => Err(AgentError::InvalidInput(e.to_string())),
    }
}

/// A tool derived from a declared parameter table and a function of the
/// run's state and the extracted values: its schema and its argument
/// extraction both come from the table. The function reads the state and does
/// not change it.
pub struct DerivedTool<F: Fn(&RunContext, &Vec<ArgValue>) -> String> {
    name: String,
    description: String,
    params: Vec<ParamSpec>,
    function: F,
}

impl<F: Fn(&RunContext, &Vec<ArgValue>) -> String> DerivedTool<F> {
    #[verifier::type_invariant]
    spec fn callable(&self) -> bool {
        forall|args: (&RunContext, &Vec<ArgValue>)| #[trigger] self.function.requires(args)
    }

    /// The tool's name.
    pub closed spec fn spec_tool_name(&self) -> Seq<char> {
        self.name@
    }

    /// The tool's description.
    pub closed spec fn spec_tool_description(&self) -> Seq<char> {
        self.description@
    }

    /// The declared parameters, in order.
    pub closed spec fn spec_params(&self) -> Seq<ParamSpec> {
        self.params@
    }

    /// The function the tool runs.
    pub closed spec fn spec_function(&self) -> F {
        self.function
    }

    /// Whether reading argument text `text` in state `before` may return `r`:
    /// where the arguments cannot be read, `r` is that failure; otherwise the
    /// function ran on the caller's state and the extracted values, and `r`
    /// reports its return value under the tool's name.
    pub open spec fn invokes(
        &self,
        before: RunContext,
        text: Seq<char>,
        r: Result<ToolResult, AgentError>,
    ) -> bool {
        exists|read: Result<Vec<ArgValue>, AgentError>|
            {
                &&& #[trigger] reads_arguments(read, self.spec_params(), text)
                &&& match read {
                    Ok(vals) => {
                        &&& r is Ok
                        &&& r->Ok_0.tool_name@ == self.spec_tool_name()
                        &&& exists|args: (&RunContext, &Vec<ArgValue>)|
                            *args.0 == before && *args.1 == vals
                                && #[trigger] self.spec_function().ensures(args, r->Ok_0.output)
                    },
                    Err(e) => r == Err::<ToolResult, AgentError>(e),
                }
            }
    }

    /// A tool named `name` whose parameters are `params` and which calls
    /// `function` with the values extracted for them, in declaration order.
    pub fn new(name: &str, description: &str, params: Vec<ParamSpec>, function: F) -> (r: Self)
        requires
            forall|args: (&RunContext, &Vec<ArgValue>)| #[trigger] function.requires(args),
        ensures
            r.spec_tool_name() == name@,
            r.spec_tool_description() == description@,
            r.spec_params() == params@,
            r.spec_function() == function,
    {
        DerivedTool {
            name: String::from_str(name),
            description: String::from_str(description),
            params,
            function,
        }
    }

    /// A tool for the function named `fn_name`: its name is `name` where
    /// given, else `fn_name`; its description is `description` where given,
    /// else `Tool function ` followed by `fn_name`.
    pub fn for_function(
        fn_name: &str,
        name: Option<&str>,
        description: Option<&str>,
        params: Vec<ParamSpec>,
        function: F,
    ) -> (r: Self)
        requires
            forall|args: (&RunContext, &Vec<ArgValue>)| #[trigger] function.requires(args),
        ensures
            r.spec_tool_name() == match name {
                Some(n) => n@,
                None => fn_name@,
            },
            r.spec_tool_description() == match description {
                Some(d) => d@,
                None => "Tool function "@ + fn_name@,
            },
            r.spec_params() == params@,
            r.spec_function() == function,
    {
        let tool_name = match name {
            Some(n) => String::from_str(n),
            None => String::from_str(fn_name),
        };
        let tool_description = match description {
            Some(d) => String::from_str(d),
            None => {
                let mut d = String::from_str("Tool function ");
                d.append(fn_name);
                d
            },
        };
        DerivedTool { name: tool_name, description: tool_description, params, function }
    }

    /// The JSON Schema object of the declared parameters.
    pub fn schema(&self) -> (r: JsonValue)
        ensures
            r@ == schema_view(self.spec_params()),
    {
        parameters_schema(&self.params)
    }

    /// Reads raw argument text into one value per declared parameter.
    pub fn arguments(&self, text: &str) -> (r: Result<Vec<ArgValue>, AgentError>)
        ensures
            reads_arguments(r, self.spec_params(), text@),
    {
        read_arguments(&self.params, text)
    }

    /// Reads the arguments, calls the function with the run's state and them,
    /// and reports its output under the tool's name.
    pub fn invoke(&self, context: &RunContext, text: &str) -> (r: Result<ToolResult, AgentError>)
        ensures
            self.invokes(*context, text@, r),
    {
        proof {
            use_type_invariant(self);
        }
        let read = self.arguments(text);
        match read {
            Ok(vals) => {
                let output = (self.function)(context, &vals);
                let r = Ok(ToolResult { tool_name: self.name.clone(), output });
                proof {
                    assert(self.spec_function().ensures((context, &vals), r->Ok_0.output));
                    assert(reads_arguments(Ok(vals), self.spec_params(), text@));
                }
                r
            },
            Err(e) => {
                proof {
                    assert(reads_arguments(Err(e), self.spec_params(), text@));
                }
                Err(e)
            },
        }
    }
}

impl<F: Fn(&RunContext, &Vec<ArgValue>) -> String> Tool for DerivedTool<F> {
    open spec fn spec_name(&self) -> Seq<char> {
        self.spec_tool_name()
    }

    open spec fn spec_description(&self) -> Seq<char> {
        self.spec_tool_description()
    }

    open spec fn spec_schema(&self) -> JsonView {
        schema_view(self.spec_params())
    }

    /// The arguments were read and the function ran as `invokes` says; the
    /// state is unchanged.
    open spec fn executes(
        &self,
        before: RunContext,
        params: Seq<char>,
        after: RunContext,
        r: Result<ToolResult, AgentError>,
    ) -> bool {
        after == before && self.invokes(before, params, r)
    }

    fn name(&self) -> (r: &str) {
        self.name.as_str()
    }

    fn description(&self) -> (r: &str) {
        self.description.as_str()
    }

    fn parameters_schema(&self) -> (r: JsonValue) {
        self.schema()
    }

    fn execute(&self, context: &mut RunContext, params: &str) -> (r: Result<ToolResult, AgentError>) {
        self.invoke(&*context, params)
    }
}

/// The names declared in the `properties` member of a schema.
pub open spec fn property_keys(schema: JsonView) -> Set<Seq<char>> {
    match field_of(schema, "properties"@) {
        Some(JsonView::Object(members)) => member_keys(members).to_set(),
        _ => Set::empty(),
    }
}

/// The names listed in the `required` member of a schema.
pub open spec fn required_keys(schema: JsonView) -> Set<Seq<char>> {
    match field_of(schema, "required"@) {
        Some(JsonView::Array(items)) => Set::new(|k: Seq<char>| items.contains(JsonView::Str(k))),
        _ => Set::empty(),
    }
}

/// A well-formed JSON Schema object: its `type` is `object`, its
/// `properties` is an object whose every entry is an object with a string
/// `type`, and its `required` is an array of strings.
pub open spec fn is_object_schema(schema: JsonView) -> bool {
    &&& field_of(schema, "type"@) == Some(JsonView::Str("object"@))
    &&& match field_of(schema, "properties"@) {
        Some(JsonView::Object(members)) => forall|i: int|
            0 <= i < members.len() ==> (field_of(#[trigger] members[i].1, "type"@) matches Some(
                JsonView::Str(_),
            )),
        _ => false,
    }
    &&& match field_of(schema, "required"@) {
        Some(JsonView::Array(items)) => forall|i: int|
            0 <= i < items.len() ==> (#[trigger] items[i]) is Str,
        _ => false,
    }
}

/// The schema derived for any parameter table is a well-formed JSON Schema
/// object, and its `required` list names exactly the keys of its
/// `properties`.
pub proof fn lemma_schema_well_formed(params: Seq<ParamSpec>)
    ensures
        is_object_schema(schema_view(params)),
        required_keys(schema_view(params)) == property_keys(schema_view(params)),
{
    reveal_strlit("type");
    reveal_strlit("properties");
    reveal_strlit("required");
    let s = schema_view(params);
    let top = s->Object_0;
    let keys = member_keys(top);
    assert(keys =~= seq!["type"@, "properties"@, "required"@]);
    assert("type"@ != "properties"@ && "type"@ != "required"@ && "properties"@ != "required"@) by {
        assert("type"@[0] != "properties"@[0]);
        assert("type"@[0] != "required"@[0]);
        assert("properties"@[0] != "required"@[0]);
    }
    lemma_first_index(keys, "type"@, 0);
    lemma_first_index(keys, "properties"@, 1);
    lemma_first_index(keys, "required"@, 2);
    let props = properties_view(params);
    assert forall|i: int| 0 <= i < props.len() implies (field_of(
        #[trigger] props[i].1,
        "type"@,
    ) matches Some(JsonView::Str(_))) by {
        let inner = props[i].1->Object_0;
        assert(member_keys(inner) =~= seq!["type"@]);
        lemma_first_index(member_keys(inner), "type"@, 0);
    }
    let req = required_view(params);
    assert(required_keys(s) =~= property_keys(s)) by {
        assert forall|k: Seq<char>| required_keys(s).contains(k) implies property_keys(
            s,
        ).contains(k) by {
            let i = choose|i: int| 0 <= i < req.len() && req[i] == JsonView::Str(k);
            assert(member_keys(props)[i] == k);
        }
        assert forall|k: Seq<char>| property_keys(s).contains(k) implies required_keys(
            s,
        ).contains(k) by {
            let i = choose|i: int| 0 <= i < member_keys(props).len() && member_keys(props)[i] == k;
            assert(req[i] == JsonView::Str(k));
        }
    }
}

/// Whether an extracted value is of the kind a parameter declares.
pub open spec fn fits_kind(kind: ParamKind, a: ArgView) -> bool {
    match kind {
        ParamKind::Integer => a is Integer,
        ParamKind::Unsigned => a is Unsigned,
        ParamKind::Float => a matches ArgView::Number(v) && (v is Int || v is UInt || v is Fraction),
        ParamKind::Text => a is Text,
        ParamKind::Boolean => a is Boolean,
        ParamKind::Structured => a is Json,
    }
}

/// The JSON value that encodes an extracted value: an unsigned integer in the
/// range of `i64` is an ordinary integer, as it is when read from JSON text.
pub open spec fn json_of_arg(a: ArgView) -> JsonView {
    match a {
        ArgView::Integer(i) => JsonView::Int(i),
        ArgView::Unsigned(u) => if u <= i64::MAX {
            JsonView::Int(u as i64)
        } else {
            JsonView::UInt(u)
        },
        ArgView::Number(v) => v,
        ArgView::Text(s) => JsonView::Str(s),
        ArgView::Boolean(b) => JsonView::Bool(b),
        ArgView::Json(v) => v,
    }
}

/// The arguments object holding `vals` under the names of `params`, in order.
pub open spec fn encode_arguments(params: Seq<ParamSpec>, vals: Seq<ArgView>) -> JsonView {
    JsonView::Object(
        Seq::new(params.len(), |i: int| (params[i].name@, json_of_arg(vals[i]))),
    )
}

/// Parameter names are pairwise distinct.
pub open spec fn names_distinct(params: Seq<ParamSpec>) -> bool {
    forall|i: int, j: int|
        0 <= i < j < params.len() ==> (#[trigger] params[i]).name@ != (#[trigger] params[j]).name@
}

/// Values of the declared kinds, encoded as an object under their parameter
/// names, are extracted back unchanged: extraction succeeds and yields each
/// value for its parameter.
pub proof fn lemma_arguments_round_trip(params: Seq<ParamSpec>, vals: Seq<ArgView>)
    requires
        params.len() == vals.len(),
        names_distinct(params),
        forall|i: int| 0 <= i < params.len() ==> fits_kind(params[i].kind, #[trigger] vals[i]),
    ensures
        all_extracted(params, encode_arguments(params, vals)),
        forall|i: int|
            0 <= i < params.len() ==> argument_of(params[i], encode_arguments(params, vals)) == Some(
                #[trigger] vals[i],
            ),
{
    let args = encode_arguments(params, vals);
    let members = args->Object_0;
    let keys = member_keys(members);
    assert forall|i: int| 0 <= i < params.len() implies argument_of(
        params[i],
        args,
    ) == Some(#[trigger] vals[i]) by {
        assert forall|j: int| 0 <= j < i implies keys[j] != params[i].name@ by {
            assert(keys[j] == params[j].name@);
        }
        lemma_first_index(keys, params[i].name@, i);
        assert(fits_kind(params[i].kind, vals[i]));
    }
    assert forall|i: int| 0 <= i < params.len() implies (#[trigger] argument_of(params[i], args))
        is Some by {
        assert(argument_of(params[i], args) == Some(vals[i]));
    }
}

/// A derived tool given argument text whose object encodes values of the
/// declared kinds under distinct parameter names succeeds: its function runs
/// on the caller's state and on values equal to those encoded, and the
/// result carries the tool's name and the function's output.
pub proof fn lemma_invoke_round_trip<F: Fn(&RunContext, &Vec<ArgValue>) -> String>(
    tool: DerivedTool<F>,
    before: RunContext,
    text: Seq<char>,
    r: Result<ToolResult, AgentError>,
    vals: Seq<ArgView>,
)
    requires
        tool.invokes(before, text, r),
        object_members_of(text) matches Some(m) && object_of_members(m) == encode_arguments(
            tool.spec_params(),
            vals,
        ),
        tool.spec_params().len() == vals.len(),
        names_distinct(tool.spec_params()),
        forall|i: int|
            0 <= i < vals.len() ==> fits_kind(tool.spec_params()[i].kind, #[trigger] vals[i]),
    ensures
        r is Ok,
        r->Ok_0.tool_name@ == tool.spec_tool_name(),
        exists|args: (&RunContext, &Vec<ArgValue>)|
            {
                &&& *args.0 == before
                &&& args.1@.len() == vals.len()
                &&& forall|i: int| 0 <= i < vals.len() ==> (#[trigger] args.1@[i])@ == vals[i]
                &&& #[trigger] tool.spec_function().ensures(args, r->Ok_0.output)
            },
{
    let params = tool.spec_params();
    lemma_arguments_round_trip(params, vals);
    let read = choose|read: Result<Vec<ArgValue>, AgentError>|
        #[trigger] reads_arguments(read, params, text) && match read {
            Ok(vs) => {
                &&& r is Ok
                &&& r->Ok_0.tool_name@ == tool.spec_tool_name()
                &&& exists|args: (&RunContext, &Vec<ArgValue>)|
                    *args.0 == before && *args.1 == vs && #[trigger] tool.spec_function().ensures(
                        args,
                        r->Ok_0.output,
                    )
            },
            Err(e) => r == Err::<ToolResult, AgentError>(e),
        };
    let vs = read->Ok_0;
    assert forall|i: int| 0 <= i < vals.len() implies (#[trigger] vs@[i])@ == vals[i] by {
        assert(argument_of(params[i], encode_arguments(params, vals)) == Some(vals[i]));
    }
}

} // verus!
