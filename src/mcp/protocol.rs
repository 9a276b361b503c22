//! Content blocks and tool results of the agent protocol.
use vstd::prelude::*;
use crate::text::opt_view;

verus! {

/// One block of a tool result.
#[derive(Debug, Clone)]
pub struct Content {
    pub content_type: String,
    pub text: Option<String>,
    pub mime_type: Option<String>,
}

/// A text block with `text` and no media type.
pub open spec fn is_text_block(c: Content, text: Seq<char>) -> bool {
    &&& c.content_type@ == "text"@
    &&& opt_view(c.text) == Some(text)
    &&& c.mime_type is None
}

impl Content {
    /// A text block.
    pub fn text(text: &str) -> (r: Self)
        ensures
            is_text_block(r, text@),
    {
        Content {
            content_type: String::from_str("text"),
            text: Some(String::from_str(text)),
            mime_type: None,
        }
    }

    /// A text block tagged with a media type.
    pub fn text_with_mime(text: &str, mime_type: &str) -> (r: Self)
        ensures
            r.content_type@ == "text"@,
            opt_view(r.text) == Some(text@),
            opt_view(r.mime_type) == Some(mime_type@),
    {
        Content {
            content_type: String::from_str("text"),
            text: Some(String::from_str(text)),
            mime_type: Some(String::from_str(mime_type)),
        }
    }
}

/// The outcome of a tool call: content blocks and whether it reports an error.
#[derive(Debug, Clone)]
pub struct ToolCallResult {
    pub content: Vec<Content>,
    pub is_error: bool,
}

/// Whether a flag is unset; such a flag is left out of the wire form.
pub fn is_false(b: &bool) -> (r: bool)
    ensures
        r == !*b,
{
    !*b
}

} // verus!

verus! {

/// The default of a tool argument.
#[derive(Debug, Clone, Copy, PartialEq, Eq, Structural)]
pub enum DefaultValue {
    Integer(u64),
    Bool(bool),
}

/// One argument in a tool's input schema.
#[derive(Debug, Clone)]
pub struct Property {
    pub property_type: String,
    pub description: Option<String>,
    pub enum_values: Option<Vec<String>>,
    pub default: Option<DefaultValue>,
}

/// The input schema of a tool: an object with named arguments, some required.
#[derive(Debug, Clone)]
pub struct InputSchema {
    pub schema_type: String,
    pub properties: Vec<(String, Property)>,
    pub required: Option<Vec<String>>,
}

/// A tool the server offers.
#[derive(Debug, Clone)]
pub struct Tool {
    pub name: String,
    pub description: String,
    pub input_schema: InputSchema,
}

/// The argument names of a schema, in order.
pub open spec fn property_names(s: InputSchema) -> Seq<Seq<char>> {
    s.properties@.map_values(|p: (String, Property)| p.0@)
}

/// The names of a list of strings.
pub open spec fn texts(v: Seq<String>) -> Seq<Seq<char>> {
    v.map_values(|s: String| s@)
}

/// The shape of a tool: its name, its argument names, and its required ones.
pub open spec fn tool_shape(t: Tool) -> (Seq<char>, Seq<Seq<char>>, Option<Seq<Seq<char>>>) {
    (
        t.name@,
        property_names(t.input_schema),
        match t.input_schema.required {
            Some(r) => Some(texts(r@)),
            None => None,
        },
    )
}

/// The tools, by shape and in order.
pub open spec fn tool_shapes() -> Seq<(Seq<char>, Seq<Seq<char>>, Option<Seq<Seq<char>>>)> {
    seq![
        ("connect"@, seq!["session"@], Some(seq!["session"@])),
        ("switch"@, seq!["session"@], Some(seq!["session"@])),
        ("close"@, seq!["session"@], Some(seq!["session"@])),
        ("status"@, Seq::empty(), None),
        ("execute"@, seq!["command"@, "session"@, "timeout"@, "background"@], Some(seq!["command"@])),
    ]
}

fn property(property_type: &str, description: &str, default: Option<DefaultValue>) -> (r: Property)
    ensures
        r.property_type@ == property_type@,
        r.default == default,
{
    Property {
        property_type: String::from_str(property_type),
        description: Some(String::from_str(description)),
        enum_values: None,
        default,
    }
}

fn one_string_schema(name: &str, description: &str) -> (r: InputSchema)
    ensures
        property_names(r) == seq![name@],
        r.required matches Some(req) && texts(req@) == seq![name@],
        r.schema_type@ == "object"@,
{
    let mut properties = Vec::new();
    properties.push((String::from_str(name), property("string", description, None)));
    let mut required = Vec::new();
    required.push(String::from_str(name));
    let r = InputSchema { schema_type: String::from_str("object"), properties, required: Some(required) };
    assert(property_names(r) =~= seq![name@]);
    assert(texts(required@) =~= seq![name@]);
    r
}

fn tool(name: &str, description: &str, input_schema: InputSchema) -> (r: Tool)
    ensures
        r.name@ == name@,
        r.input_schema == input_schema,
{
    Tool { name: String::from_str(name), description: String::from_str(description), input_schema }
}

/// The tools the server offers: connect, switch, close, status, execute.
pub fn get_tool_definitions() -> (r: Vec<Tool>)
    ensures
        r@.len() == tool_shapes().len(),
        forall|i: int| 0 <= i < r@.len() ==> tool_shape(#[trigger] r@[i]) == tool_shapes()[i],
        forall|i: int| 0 <= i < r@.len() ==> (#[trigger] r@[i]).input_schema.schema_type@ == "object"@,
{
    let mut tools = Vec::new();
    tools.push(tool(
        "connect",
        "Connect to an SSH session",
        one_string_schema("session", "Name of the session to connect to"),
    ));
    tools.push(tool(
        "switch",
        "Switch to a different session",
        one_string_schema("session", "Name of the session to switch to"),
    ));
    tools.push(tool(
        "close",
        "Close an SSH session",
        one_string_schema("session", "Name of the session to close"),
    ));
    let empty = InputSchema { schema_type: String::from_str("object"), properties: Vec::new(), required: None };
    assert(property_names(empty) =~= Seq::<Seq<char>>::empty());
    tools.push(tool("status", "Get status of all sessions", empty));
    let mut properties = Vec::new();
    properties.push((String::from_str("command"), property("string", "Command to execute", None)));
    properties.push((
        String::from_str("session"),
        property(
            "string",
            "Optional: specific session to execute in (uses active session if not specified)",
            None,
        ),
    ));
    properties.push((
        String::from_str("timeout"),
        property(
            "integer",
            "Optional: command timeout in seconds (ignored if background is true)",
            Some(DefaultValue::Integer(300)),
        ),
    ));
    properties.push((
        String::from_str("background"),
        property(
            "boolean",
            "Optional: run command in background (default: false)",
            Some(DefaultValue::Bool(false)),
        ),
    ));
    let mut required = Vec::new();
    required.push(String::from_str("command"));
    let schema = InputSchema { schema_type: String::from_str("object"), properties, required: Some(required) };
    assert(property_names(schema) =~= seq!["command"@, "session"@, "timeout"@, "background"@]);
    assert(texts(required@) =~= seq!["command"@]);
    tools.push(tool(
        "execute",
        "Execute a command in the active session (optionally in background)",
        schema,
    ));
    assert(tool_shape(tools@[3]) == tool_shapes()[3]);
    tools
}

} // verus!
