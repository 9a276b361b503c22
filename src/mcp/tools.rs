//! The decisions behind each tool: argument checks, routing to the session
//! manager, and the rendering of outcomes as tool results. Work that needs a
//! process or a network connection is handed back to the caller as a plan.
use vstd::prelude::*;
use crate::error::{ErrorCode as SessionCode, ThopError, thop_error_text};
use crate::manager::{connected_step, disconnected, ConnectStep, Manager, SessionInfo};
use crate::mcp::errors::{
    auth_key_failed_parts, auth_password_failed_parts, command_timeout_parts,
    connection_failed_parts, error_parts, host_key_unknown_parts, missing_parameter_parts,
    not_implemented_parts, parts, report_text, session_not_connected_parts,
    session_not_found_parts, ErrorCode, ErrorParts, MCPError,
};
use crate::mcp::protocol::{Content, ToolCallResult, is_text_block};
use crate::session::ExecuteResult;
use crate::text::{concat2, concat3, concat5, i64_to_text, signed_decimal};

verus! {

/// The arguments of a tool call, as far as the tools read them.
#[derive(Debug, Clone)]
pub struct ToolArgs {
    pub session: Option<String>,
    pub command: Option<String>,
    pub background: Option<bool>,
    pub timeout: Option<u64>,
}

/// A result with one text block.
pub open spec fn is_single_text(r: ToolCallResult, text: Seq<char>, is_error: bool) -> bool {
    &&& r.is_error == is_error
    &&& r.content@.len() == 1
    &&& is_text_block(r.content@[0], text)
}

/// A result that reports the error `p`.
pub open spec fn reports(r: ToolCallResult, p: ErrorParts) -> bool {
    is_single_text(r, report_text(p), true)
}

fn single_text(text: String) -> (r: ToolCallResult)
    ensures
        is_single_text(r, text@, false),
{
    let mut content = Vec::new();
    content.push(Content::text(text.as_str()));
    ToolCallResult { content, is_error: false }
}

/// What remains of a `connect` call.
pub enum ConnectOutcome {
    /// The call is answered.
    Done(ToolCallResult),
    /// The remote session must be reached; the outcome is then reported with
    /// `connect_result`.
    Handshake(String),
}

/// The success message of `connect`.
pub open spec fn connected_text(name: Seq<char>) -> Seq<char> {
    "Successfully connected to session '"@ + name + "'"@
}

/// The error a failed connection of `name` reports, chosen by the failure's kind.
pub open spec fn connect_error_parts(name: Seq<char>, e: ThopError) -> ErrorParts {
    match e {
        ThopError::Session(s) => match s.code {
            SessionCode::SessionNotFound => session_not_found_parts(name),
            SessionCode::AuthKeyRejected => auth_key_failed_parts(name),
            SessionCode::AuthFailed => auth_key_failed_parts(name),
            SessionCode::AuthPasswordRequired => auth_password_failed_parts(name),
            SessionCode::HostKeyVerificationFailed => host_key_unknown_parts(name),
            SessionCode::HostKeyChanged => host_key_unknown_parts(name),
            SessionCode::ConnectionTimeout => error_parts(
                ErrorCode::ConnectionTimeout,
                "Connection timed out"@,
                Some(name),
                Some("Check network connectivity and firewall settings"@),
            ),
            _ => connection_failed_parts(name, thop_error_text(e)),
        },
        _ => connection_failed_parts(name, thop_error_text(e)),
    }
}

/// The result of connecting `name`: its success message, or the error that
/// the failure's kind calls for.
pub fn connect_result(name: &str, outcome: Result<(), ThopError>) -> (r: ToolCallResult)
    ensures
        match outcome {
            Ok(_) => is_single_text(r, connected_text(name@), false),
            Err(e) => reports(r, connect_error_parts(name@, e)),
        },
{
    match outcome {
        Ok(_) => single_text(concat3("Successfully connected to session '", name, "'")),
        Err(e) => {
            let err = match &e {
                ThopError::Session(s) => match s.code {
                    SessionCode::SessionNotFound => MCPError::session_not_found(name),
                    SessionCode::AuthKeyRejected => MCPError::auth_key_failed(name),
                    SessionCode::AuthFailed => MCPError::auth_key_failed(name),
                    SessionCode::AuthPasswordRequired => MCPError::auth_password_failed(name),
                    SessionCode::HostKeyVerificationFailed => MCPError::host_key_unknown(name),
                    SessionCode::HostKeyChanged => MCPError::host_key_unknown(name),
                    SessionCode::ConnectionTimeout => MCPError::new(
                        ErrorCode::ConnectionTimeout,
                        "Connection timed out",
                    ).with_session(name).with_suggestion(
                        "Check network connectivity and firewall settings",
                    ),
                    _ => {
                        let t = e.to_string();
                        MCPError::connection_failed(name, t.as_str())
                    },
                },
                _ => {
                    let t = e.to_string();
                    MCPError::connection_failed(name, t.as_str())
                },
            };
            assert(parts(err) == connect_error_parts(name@, e));
            err.to_tool_result()
        },
    }
}

/// Handles `connect`: a missing `session` argument or an unknown session is
/// reported; a local or already connected remote session is done at once; a
/// remote one that is not connected asks for a handshake.
pub fn tool_connect(sessions: &mut Manager, args: &ToolArgs) -> (r: ConnectOutcome)
    requires
        old(sessions).wf(),
    ensures
        final(sessions).wf(),
        final(sessions).names() == old(sessions).names(),
        final(sessions).active_name() == old(sessions).active_name(),
        args.session is None ==> final(sessions).transports() == old(sessions).transports(),
        args.session matches Some(name) ==> exists|step: Result<ConnectStep, ThopError>|
            #[trigger] connected_step(*old(sessions), *final(sessions), name@, step) && (
            r is Handshake <==> step == Ok::<ConnectStep, ThopError>(ConnectStep::Handshake)),
        match args.session {
            None => r matches ConnectOutcome::Done(res) && reports(
                res,
                missing_parameter_parts("session"@),
            ),
            Some(name) => if !old(sessions).names().contains(name@) {
                r matches ConnectOutcome::Done(res) && reports(res, session_not_found_parts(name@))
            } else {
                match r {
                    ConnectOutcome::Done(res) => is_single_text(res, connected_text(name@), false),
                    ConnectOutcome::Handshake(n) => n@ == name@,
                }
            },
        },
{
    let name = match &args.session {
        Some(s) => s,
        None => return ConnectOutcome::Done(MCPError::missing_parameter("session").to_tool_result()),
    };
    let step = sessions.connect(name.as_str());
    let ghost g = step;
    let r = match step {
        Err(e) => ConnectOutcome::Done(connect_result(name.as_str(), Err(e))),
        Ok(ConnectStep::Done) => ConnectOutcome::Done(connect_result(name.as_str(), Ok(()))),
        Ok(ConnectStep::Handshake) => ConnectOutcome::Handshake(name.clone()),
    };
    assert(connected_step(*old(sessions), *sessions, name@, g));
    r
}

/// The success message of `switch`.
pub open spec fn switched_text(name: Seq<char>, cwd: Seq<char>) -> Seq<char> {
    "Switched to session '"@ + name + "' (cwd: "@ + cwd + ")"@
}

/// Handles `switch`: makes the named session active and reports its
/// directory; a missing argument or unknown session is reported.
pub fn tool_switch(sessions: &mut Manager, args: &ToolArgs) -> (r: ToolCallResult)
    requires
        old(sessions).wf(),
    ensures
        final(sessions).wf(),
        final(sessions).transports() == old(sessions).transports(),
        match args.session {
            None => reports(r, missing_parameter_parts("session"@)) && final(sessions).active_name()
                == old(sessions).active_name(),
            Some(name) => if old(sessions).names().contains(name@) {
                final(sessions).active_name() == name@ && exists|i: int|
                    0 <= i < old(sessions).transports().len() && old(sessions).names()[i] == name@
                        && is_single_text(
                        r,
                        switched_text(name@, (#[trigger] old(sessions).transports()[i]).cwd_view()),
                        false,
                    )
            } else {
                reports(r, session_not_found_parts(name@)) && final(sessions).active_name() == old(
                    sessions,
                ).active_name()
            },
        },
{
    let name = match &args.session {
        Some(s) => s,
        None => return MCPError::missing_parameter("session").to_tool_result(),
    };
    match sessions.set_active_session(name.as_str()) {
        Err(_) => MCPError::session_not_found(name.as_str()).to_tool_result(),
        Ok(()) => {
            let cwd = match sessions.get_session(name.as_str()) {
                Some(t) => String::from_str(t.get_cwd()),
                None => String::from_str("unknown"),
            };
            let text = concat5("Switched to session '", name.as_str(), "' (cwd: ", cwd.as_str(), ")");
            single_text(text)
        },
    }
}

/// The success message of `close`.
pub open spec fn closed_text(name: Seq<char>) -> Seq<char> {
    "Session '"@ + name + "' closed"@
}

/// Handles `close`: disconnects the named session.
pub fn tool_close(sessions: &mut Manager, args: &ToolArgs) -> (r: ToolCallResult)
    requires
        old(sessions).wf(),
    ensures
        final(sessions).wf(),
        final(sessions).names() == old(sessions).names(),
        final(sessions).active_name() == old(sessions).active_name(),
        args.session is None ==> final(sessions).transports() == old(sessions).transports(),
        args.session matches Some(name) ==> disconnected(
            *old(sessions),
            *final(sessions),
            name@,
            old(sessions).names().contains(name@),
        ),
        match args.session {
            None => reports(r, missing_parameter_parts("session"@)),
            Some(name) => if old(sessions).names().contains(name@) {
                is_single_text(r, closed_text(name@), false)
            } else {
                reports(r, session_not_found_parts(name@))
            },
        },
{
    let name = match &args.session {
        Some(s) => s,
        None => return MCPError::missing_parameter("session").to_tool_result(),
    };
    match sessions.disconnect(name.as_str()) {
        Err(_) => MCPError::session_not_found(name.as_str()).to_tool_result(),
        Ok(()) => single_text(concat3("Session '", name.as_str(), "' closed")),
    }
}

/// Handles `status`: one listing entry per configured session, to be
/// rendered as a JSON array with `status_result`.
pub fn tool_status(sessions: &Manager) -> (r: Vec<SessionInfo>)
    ensures
        r@.len() == sessions.transports().len(),
        forall|i: int| 0 <= i < r@.len() ==> crate::manager::is_listing(
            #[trigger] r@[i],
            sessions.transports()[i],
            sessions.active_name(),
        ),
{
    sessions.list_sessions()
}

/// The result of `status` once its listing is rendered as `json`.
pub fn status_result(json: &str) -> (r: ToolCallResult)
    ensures
        !r.is_error,
        r.content@.len() == 1,
        r.content@[0].text == Some(r.content@[0].text->0) && r.content@[0].text->0@ == json@,
        r.content@[0].mime_type == Some(r.content@[0].mime_type->0)
            && r.content@[0].mime_type->0@ == "application/json"@,
{
    let mut content = Vec::new();
    content.push(Content::text_with_mime(json, "application/json"));
    ToolCallResult { content, is_error: false }
}

/// A command that `execute` hands to the caller to run.
pub struct ExecutePlan {
    /// The session named in the call; `None` for the active one.
    pub session: Option<String>,
    pub command: String,
    pub timeout: u64,
}

/// The timeout of an `execute` call, 300 seconds unless given.
pub open spec fn timeout_of(args: ToolArgs) -> u64 {
    match args.timeout {
        Some(t) => t,
        None => 300,
    }
}

/// Handles the checks of `execute`: a missing `command`, a request to run in
/// the background (not available), and an unknown named session are
/// reported; otherwise the command to run is returned.
pub fn tool_execute(sessions: &Manager, args: &ToolArgs) -> (r: Result<ExecutePlan, ToolCallResult>)
    ensures
        match args.command {
            None => r matches Err(res) && reports(res, missing_parameter_parts("command"@)),
            Some(cmd) => if args.background == Some(true) {
                r matches Err(res) && reports(res, not_implemented_parts("Background execution"@))
            } else if args.session is Some && !sessions.names().contains(args.session->0@) {
                r matches Err(res) && reports(res, session_not_found_parts(args.session->0@))
            } else {
                r matches Ok(plan) && plan.command@ == cmd@ && plan.session == args.session
                    && plan.timeout == timeout_of(*args)
            },
        },
{
    let command = match &args.command {
        Some(c) => c,
        None => return Err(MCPError::missing_parameter("command").to_tool_result()),
    };
    let background = match args.background {
        Some(b) => b,
        None => false,
    };
    let timeout = match args.timeout {
        Some(t) => t,
        None => 300,
    };
    if background {
        return Err(MCPError::not_implemented("Background execution").to_tool_result());
    }
    match &args.session {
        Some(name) => {
            if !sessions.has_session(name.as_str()) {
                return Err(MCPError::session_not_found(name.as_str()).to_tool_result());
            }
        },
        None => {},
    }
    Ok(ExecutePlan { session: args.session.clone(), command: command.clone(), timeout })
}

/// The blocks that report a command's result: its standard output when not
/// empty, its standard error after a `stderr:` line when not empty, its exit
/// code when not zero; a fixed message when there is none of these.
pub open spec fn output_blocks(res: ExecuteResult) -> Seq<Seq<char>> {
    let a = if res.stdout@.len() > 0 { seq![res.stdout@] } else { Seq::empty() };
    let b = if res.stderr@.len() > 0 { seq!["stderr:\n"@ + res.stderr@] } else { Seq::empty() };
    let c = if res.exit_code != 0 {
        seq!["Exit code: "@ + signed_decimal(res.exit_code as int)]
    } else {
        Seq::empty()
    };
    let all = a + b + c;
    if all.len() == 0 {
        seq!["Command executed successfully (no output)"@]
    } else {
        all
    }
}

/// The tool result for a command that ran: one text block per part of
/// `output_blocks`, flagged as an error when the exit code is not zero.
pub fn execute_result(res: &ExecuteResult) -> (r: ToolCallResult)
    ensures
        r.is_error == (res.exit_code != 0),
        r.content@.len() == output_blocks(*res).len(),
        forall|i: int| 0 <= i < r.content@.len() ==> is_text_block(
            #[trigger] r.content@[i],
            output_blocks(*res)[i],
        ),
{
    let ghost blocks = output_blocks(*res);
    let mut content: Vec<Content> = Vec::new();
    let ghost mut texts: Seq<Seq<char>> = Seq::empty();
    if res.stdout.as_str().unicode_len() > 0 {
        content.push(Content::text(res.stdout.as_str()));
        proof { texts = texts.push(res.stdout@); }
    }
    if res.stderr.as_str().unicode_len() > 0 {
        let t = concat2("stderr:\n", res.stderr.as_str());
        content.push(Content::text(t.as_str()));
        proof { texts = texts.push(t@); }
    }
    if res.exit_code != 0 {
        let code = i64_to_text(res.exit_code as i64);
        let t = concat2("Exit code: ", code.as_str());
        content.push(Content::text(t.as_str()));
        proof { texts = texts.push(t@); }
    }
    assert(content@.len() == texts.len());
    if content.len() == 0 {
        content.push(Content::text("Command executed successfully (no output)"));
        proof { texts = texts.push("Command executed successfully (no output)"@); }
    }
    proof {
        let a = if res.stdout@.len() > 0 { seq![res.stdout@] } else { Seq::<Seq<char>>::empty() };
        let b = if res.stderr@.len() > 0 { seq!["stderr:\n"@ + res.stderr@] } else { Seq::<Seq<char>>::empty() };
        let c = if res.exit_code != 0 {
            seq!["Exit code: "@ + signed_decimal(res.exit_code as int)]
        } else {
            Seq::<Seq<char>>::empty()
        };
        assert(texts =~= blocks);
    }
    ToolCallResult { content, is_error: res.exit_code != 0 }
}

/// The error a failed command on `session` reports, chosen by the failure's kind.
pub open spec fn execute_error_parts(session: Seq<char>, timeout: u64, e: ThopError) -> ErrorParts {
    match e {
        ThopError::Session(s) => match s.code {
            SessionCode::SessionNotFound => session_not_found_parts(session),
            SessionCode::SessionDisconnected => session_not_connected_parts(session),
            SessionCode::CommandTimeout => command_timeout_parts(session, timeout as nat),
            _ => error_parts(ErrorCode::CommandFailed, thop_error_text(e), Some(session), None),
        },
        _ => error_parts(ErrorCode::CommandFailed, thop_error_text(e), Some(session), None),
    }
}

/// The tool result for a command on `session` that could not run.
pub fn execute_error(session: &str, timeout: u64, e: &ThopError) -> (r: ToolCallResult)
    ensures
        reports(r, execute_error_parts(session@, timeout, *e)),
{
    let err = match e {
        ThopError::Session(s) => match s.code {
            SessionCode::SessionNotFound => MCPError::session_not_found(session),
            SessionCode::SessionDisconnected => MCPError::session_not_connected(session),
            SessionCode::CommandTimeout => MCPError::command_timeout(session, timeout),
            _ => {
                let t = e.to_string();
                MCPError::new(ErrorCode::CommandFailed, t.as_str()).with_session(session)
            },
        },
        _ => {
            let t = e.to_string();
            MCPError::new(ErrorCode::CommandFailed, t.as_str()).with_session(session)
        },
    };
    assert(parts(err) == execute_error_parts(session@, timeout, *e));
    err.to_tool_result()
}

} // verus!
