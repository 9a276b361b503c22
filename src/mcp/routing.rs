//! How the protocol server dispatches: which methods it knows, which of them
//! are answered, which tool and resource names exist, and the errors for
//! names it does not know.
use vstd::prelude::*;
use crate::mcp::errors::{error_parts, parts, ErrorCode, MCPError};
use crate::text::{concat2, same_text};

verus! {

/// The JSON-RPC code for an unknown method.
pub const METHOD_NOT_FOUND: i32 = -32601;

/// A registered protocol method.
#[derive(Debug, Clone, Copy, PartialEq, Eq, Structural)]
pub enum Method {
    Initialize,
    Initialized,
    ToolsList,
    ToolsCall,
    ResourcesList,
    ResourcesRead,
    Ping,
    Cancelled,
    Progress,
}

/// The method registered under `name`, if any.
pub open spec fn method_named(name: Seq<char>) -> Option<Method> {
    if name == "initialize"@ {
        Some(Method::Initialize)
    } else if name == "initialized"@ {
        Some(Method::Initialized)
    } else if name == "tools/list"@ {
        Some(Method::ToolsList)
    } else if name == "tools/call"@ {
        Some(Method::ToolsCall)
    } else if name == "resources/list"@ {
        Some(Method::ResourcesList)
    } else if name == "resources/read"@ {
        Some(Method::ResourcesRead)
    } else if name == "ping"@ {
        Some(Method::Ping)
    } else if name == "cancelled"@ {
        Some(Method::Cancelled)
    } else if name == "progress"@ {
        Some(Method::Progress)
    } else {
        None
    }
}

/// Looks up a method by name.
pub fn method_for(name: &str) -> (r: Option<Method>)
    ensures
        r == method_named(name@),
{
    if same_text(name, "initialize") {
        Some(Method::Initialize)
    } else if same_text(name, "initialized") {
        Some(Method::Initialized)
    } else if same_text(name, "tools/list") {
        Some(Method::ToolsList)
    } else if same_text(name, "tools/call") {
        Some(Method::ToolsCall)
    } else if same_text(name, "resources/list") {
        Some(Method::ResourcesList)
    } else if same_text(name, "resources/read") {
        Some(Method::ResourcesRead)
    } else if same_text(name, "ping") {
        Some(Method::Ping)
    } else if same_text(name, "cancelled") {
        Some(Method::Cancelled)
    } else if same_text(name, "progress") {
        Some(Method::Progress)
    } else {
        None
    }
}

/// What the server does with one message.
#[derive(Debug, Clone, Copy, PartialEq, Eq, Structural)]
pub enum Dispatch {
    /// Run the handler; answer only when `respond`.
    Handle { method: Method, respond: bool },
    /// Answer with the JSON-RPC "Method not found" error.
    MethodNotFound,
    /// Nothing to do.
    Ignore,
}

/// The dispatch of a message: without a method it is ignored; an unknown
/// method gets a "Method not found" error when the message has an id and is
/// dropped otherwise; a known one is handled, and answered when the message
/// has an id.
pub open spec fn dispatch_of(method: Option<Seq<char>>, has_id: bool) -> Dispatch {
    match method {
        None => Dispatch::Ignore,
        Some(m) => match method_named(m) {
            None => if has_id {
                Dispatch::MethodNotFound
            } else {
                Dispatch::Ignore
            },
            Some(k) => Dispatch::Handle { method: k, respond: has_id },
        },
    }
}

/// Decides what to do with a message.
pub fn dispatch(method: Option<&str>, has_id: bool) -> (r: Dispatch)
    ensures
        r == dispatch_of(
            match method {
                Some(m) => Some(m@),
                None => None,
            },
            has_id,
        ),
{
    match method {
        None => Dispatch::Ignore,
        Some(m) => match method_for(m) {
            None => if has_id {
                Dispatch::MethodNotFound
            } else {
                Dispatch::Ignore
            },
            Some(k) => Dispatch::Handle { method: k, respond: has_id },
        },
    }
}

/// The tools the server offers.
#[derive(Debug, Clone, Copy, PartialEq, Eq, Structural)]
pub enum ToolKind {
    Connect,
    Switch,
    Close,
    Status,
    Execute,
}

/// The tool called `name`, if any.
pub open spec fn tool_named(name: Seq<char>) -> Option<ToolKind> {
    if name == "connect"@ {
        Some(ToolKind::Connect)
    } else if name == "switch"@ {
        Some(ToolKind::Switch)
    } else if name == "close"@ {
        Some(ToolKind::Close)
    } else if name == "status"@ {
        Some(ToolKind::Status)
    } else if name == "execute"@ {
        Some(ToolKind::Execute)
    } else {
        None
    }
}

/// Looks up a tool by name; an unknown name is an invalid parameter.
pub fn tool_for(name: &str) -> (r: Result<ToolKind, MCPError>)
    ensures
        match tool_named(name@) {
            Some(k) => r == Ok::<ToolKind, MCPError>(k),
            None => r matches Err(e) && parts(e) == error_parts(
                ErrorCode::InvalidParameter,
                "Unknown tool: "@ + name@,
                None,
                None,
            ),
        },
{
    if same_text(name, "connect") {
        Ok(ToolKind::Connect)
    } else if same_text(name, "switch") {
        Ok(ToolKind::Switch)
    } else if same_text(name, "close") {
        Ok(ToolKind::Close)
    } else if same_text(name, "status") {
        Ok(ToolKind::Status)
    } else if same_text(name, "execute") {
        Ok(ToolKind::Execute)
    } else {
        let m = concat2("Unknown tool: ", name);
        Err(MCPError::new(ErrorCode::InvalidParameter, m.as_str()))
    }
}

/// The read-only documents the server offers.
#[derive(Debug, Clone, Copy, PartialEq, Eq, Structural)]
pub enum ResourceKind {
    ActiveSession,
    AllSessions,
    Config,
    State,
}

/// The resource at `uri`, if any.
pub open spec fn resource_at(uri: Seq<char>) -> Option<ResourceKind> {
    if uri == "session://active"@ {
        Some(ResourceKind::ActiveSession)
    } else if uri == "session://all"@ {
        Some(ResourceKind::AllSessions)
    } else if uri == "config://thop"@ {
        Some(ResourceKind::Config)
    } else if uri == "state://thop"@ {
        Some(ResourceKind::State)
    } else {
        None
    }
}

/// Looks up a resource by URI; an unknown URI is an invalid parameter.
pub fn resource_for(uri: &str) -> (r: Result<ResourceKind, MCPError>)
    ensures
        match resource_at(uri@) {
            Some(k) => r == Ok::<ResourceKind, MCPError>(k),
            None => r matches Err(e) && parts(e) == error_parts(
                ErrorCode::InvalidParameter,
                "Unknown resource URI: "@ + uri@,
                None,
                None,
            ),
        },
{
    if same_text(uri, "session://active") {
        Ok(ResourceKind::ActiveSession)
    } else if same_text(uri, "session://all") {
        Ok(ResourceKind::AllSessions)
    } else if same_text(uri, "config://thop") {
        Ok(ResourceKind::Config)
    } else if same_text(uri, "state://thop") {
        Ok(ResourceKind::State)
    } else {
        let m = concat2("Unknown resource URI: ", uri);
        Err(MCPError::new(ErrorCode::InvalidParameter, m.as_str()))
    }
}

} // verus!

verus! {

/// A read-only document the server offers.
#[derive(Debug, Clone)]
pub struct Resource {
    pub uri: String,
    pub name: String,
    pub description: Option<String>,
    pub mime_type: Option<String>,
}

/// The resource URIs, in the order they are listed.
pub open spec fn resource_uris() -> Seq<Seq<char>> {
    seq!["session://active"@, "session://all"@, "config://thop"@, "state://thop"@]
}

fn resource(uri: &str, name: &str, description: &str) -> (r: Resource)
    ensures
        r.uri@ == uri@,
        r.mime_type matches Some(m) && m@ == "application/json"@,
{
    Resource {
        uri: String::from_str(uri),
        name: String::from_str(name),
        description: Some(String::from_str(description)),
        mime_type: Some(String::from_str("application/json")),
    }
}

/// The resources the server lists; each is a JSON document and each URI is
/// one that `resource_for` accepts.
pub fn resource_definitions() -> (r: Vec<Resource>)
    ensures
        r@.len() == resource_uris().len(),
        forall|i: int| 0 <= i < r@.len() ==> (#[trigger] r@[i]).uri@ == resource_uris()[i] && resource_at(
            r@[i].uri@,
        ) is Some && (r@[i].mime_type matches Some(m) && m@ == "application/json"@),
{
    let mut r = Vec::new();
    r.push(resource("session://active", "Active Session", "Information about the currently active session"));
    r.push(resource("session://all", "All Sessions", "Information about all configured sessions"));
    r.push(resource("config://thop", "Thop Configuration", "Current thop configuration"));
    r.push(resource("state://thop", "Thop State", "Current thop state including session states"));
    proof {
        reveal_strlit("session://active");
        reveal_strlit("session://all");
        reveal_strlit("config://thop");
        reveal_strlit("state://thop");
    }
    r
}

} // verus!
