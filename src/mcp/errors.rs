//! Error kinds of the agent protocol and their rendering as tool results.
use vstd::prelude::*;
use crate::mcp::protocol::{Content, ToolCallResult, is_text_block};
use crate::text::{concat2, concat3, opt_view, u64_to_text, decimal};

verus! {

/// Machine-readable kind of a protocol-level domain error.
#[derive(Debug, Clone, Copy, PartialEq, Eq, Structural)]
pub enum ErrorCode {
    SessionNotFound,
    SessionNotConnected,
    SessionAlreadyExists,
    NoActiveSession,
    CannotCloseLocal,
    ConnectionFailed,
    AuthFailed,
    AuthKeyFailed,
    AuthPasswordFailed,
    HostKeyUnknown,
    HostKeyMismatch,
    ConnectionTimeout,
    ConnectionRefused,
    CommandFailed,
    CommandTimeout,
    CommandNotFound,
    PermissionDenied,
    InvalidParameter,
    MissingParameter,
    NotImplemented,
    OperationFailed,
}

/// The wire name of each kind.
pub open spec fn code_name(c: ErrorCode) -> Seq<char> {
    match c {
        ErrorCode::SessionNotFound => "SESSION_NOT_FOUND"@,
        ErrorCode::SessionNotConnected => "SESSION_NOT_CONNECTED"@,
        ErrorCode::SessionAlreadyExists => "SESSION_ALREADY_EXISTS"@,
        ErrorCode::NoActiveSession => "NO_ACTIVE_SESSION"@,
        ErrorCode::CannotCloseLocal => "CANNOT_CLOSE_LOCAL"@,
        ErrorCode::ConnectionFailed => "CONNECTION_FAILED"@,
        ErrorCode::AuthFailed => "AUTH_FAILED"@,
        ErrorCode::AuthKeyFailed => "AUTH_KEY_FAILED"@,
        ErrorCode::AuthPasswordFailed => "AUTH_PASSWORD_FAILED"@,
        ErrorCode::HostKeyUnknown => "HOST_KEY_UNKNOWN"@,
        ErrorCode::HostKeyMismatch => "HOST_KEY_MISMATCH"@,
        ErrorCode::ConnectionTimeout => "CONNECTION_TIMEOUT"@,
        ErrorCode::ConnectionRefused => "CONNECTION_REFUSED"@,
        ErrorCode::CommandFailed => "COMMAND_FAILED"@,
        ErrorCode::CommandTimeout => "COMMAND_TIMEOUT"@,
        ErrorCode::CommandNotFound => "COMMAND_NOT_FOUND"@,
        ErrorCode::PermissionDenied => "PERMISSION_DENIED"@,
        ErrorCode::InvalidParameter => "INVALID_PARAMETER"@,
        ErrorCode::MissingParameter => "MISSING_PARAMETER"@,
        ErrorCode::NotImplemented => "NOT_IMPLEMENTED"@,
        ErrorCode::OperationFailed => "OPERATION_FAILED"@,
    }
}

impl ErrorCode {
    /// The wire name of this kind.
    pub fn as_str(&self) -> (r: &'static str)
        ensures
            r@ == code_name(*self),
    {
        match self {
            ErrorCode::SessionNotFound => "SESSION_NOT_FOUND",
            ErrorCode::SessionNotConnected => "SESSION_NOT_CONNECTED",
            ErrorCode::SessionAlreadyExists => "SESSION_ALREADY_EXISTS",
            ErrorCode::NoActiveSession => "NO_ACTIVE_SESSION",
            ErrorCode::CannotCloseLocal => "CANNOT_CLOSE_LOCAL",
            ErrorCode::ConnectionFailed => "CONNECTION_FAILED",
            ErrorCode::AuthFailed => "AUTH_FAILED",
            ErrorCode::AuthKeyFailed => "AUTH_KEY_FAILED",
            ErrorCode::AuthPasswordFailed => "AUTH_PASSWORD_FAILED",
            ErrorCode::HostKeyUnknown => "HOST_KEY_UNKNOWN",
            ErrorCode::HostKeyMismatch => "HOST_KEY_MISMATCH",
            ErrorCode::ConnectionTimeout => "CONNECTION_TIMEOUT",
            ErrorCode::ConnectionRefused => "CONNECTION_REFUSED",
            ErrorCode::CommandFailed => "COMMAND_FAILED",
            ErrorCode::CommandTimeout => "COMMAND_TIMEOUT",
            ErrorCode::CommandNotFound => "COMMAND_NOT_FOUND",
            ErrorCode::PermissionDenied => "PERMISSION_DENIED",
            ErrorCode::InvalidParameter => "INVALID_PARAMETER",
            ErrorCode::MissingParameter => "MISSING_PARAMETER",
            ErrorCode::NotImplemented => "NOT_IMPLEMENTED",
            ErrorCode::OperationFailed => "OPERATION_FAILED",
        }
    }

    /// The wire name of this kind, as an owned string.
    pub fn to_string(&self) -> (r: String)
        ensures
            r@ == code_name(*self),
    {
        String::from_str(self.as_str())
    }
}

/// A domain error of the agent protocol.
#[derive(Debug, Clone)]
pub struct MCPError {
    pub code: ErrorCode,
    pub message: String,
    pub session: Option<String>,
    pub suggestion: Option<String>,
}

/// The parts of a protocol error, as plain text.
pub struct ErrorParts {
    pub code: ErrorCode,
    pub message: Seq<char>,
    pub session: Option<Seq<char>>,
    pub suggestion: Option<Seq<char>>,
}

/// The parts of `e`.
pub open spec fn parts(e: MCPError) -> ErrorParts {
    ErrorParts {
        code: e.code,
        message: e.message@,
        session: opt_view(e.session),
        suggestion: opt_view(e.suggestion),
    }
}

/// The text of the tool result that reports an error: the bracketed kind,
/// the message, then the suggestion and the session when present.
pub open spec fn report_text(p: ErrorParts) -> Seq<char> {
    let with_suggestion = match p.suggestion {
        Some(s) => p.message + "\n\nSuggestion: "@ + s,
        None => p.message,
    };
    let with_session = match p.session {
        Some(s) => with_suggestion + "\n\nSession: "@ + s,
        None => with_suggestion,
    };
    "["@ + code_name(p.code) + "] "@ + with_session
}

/// The text of the tool result that reports `e`.
pub open spec fn error_report(e: MCPError) -> Seq<char> {
    report_text(parts(e))
}

/// An error with every part given.
pub open spec fn error_parts(
    code: ErrorCode,
    message: Seq<char>,
    session: Option<Seq<char>>,
    suggestion: Option<Seq<char>>,
) -> ErrorParts {
    ErrorParts { code, message, session, suggestion }
}

/// The parts of `session_not_found(name)`.
pub open spec fn session_not_found_parts(name: Seq<char>) -> ErrorParts {
    error_parts(
        ErrorCode::SessionNotFound,
        "Session '"@ + name + "' not found"@,
        Some(name),
        Some("Use /status to see available sessions or /add-session to create a new one"@),
    )
}

/// The parts of `session_not_connected(name)`.
pub open spec fn session_not_connected_parts(name: Seq<char>) -> ErrorParts {
    error_parts(
        ErrorCode::SessionNotConnected,
        "Session '"@ + name + "' is not connected"@,
        Some(name),
        Some("Use /connect to establish a connection"@),
    )
}

/// The parts of `auth_key_failed(name)`.
pub open spec fn auth_key_failed_parts(name: Seq<char>) -> ErrorParts {
    error_parts(
        ErrorCode::AuthKeyFailed,
        "SSH key authentication failed"@,
        Some(name),
        Some("Use /auth to provide a password or check your SSH key configuration"@),
    )
}

/// The parts of `auth_password_failed(name)`.
pub open spec fn auth_password_failed_parts(name: Seq<char>) -> ErrorParts {
    error_parts(
        ErrorCode::AuthPasswordFailed,
        "Password authentication failed"@,
        Some(name),
        Some("Verify the password is correct"@),
    )
}

/// The parts of `host_key_unknown(name)`.
pub open spec fn host_key_unknown_parts(name: Seq<char>) -> ErrorParts {
    error_parts(
        ErrorCode::HostKeyUnknown,
        "Host key is not in known_hosts"@,
        Some(name),
        Some("Use /trust to accept the host key"@),
    )
}

/// The parts of `connection_failed(name, reason)`.
pub open spec fn connection_failed_parts(name: Seq<char>, reason: Seq<char>) -> ErrorParts {
    error_parts(
        ErrorCode::ConnectionFailed,
        "Connection failed: "@ + reason,
        Some(name),
        Some("Check network connectivity and session configuration"@),
    )
}

/// The parts of `command_timeout(name, timeout)`.
pub open spec fn command_timeout_parts(name: Seq<char>, timeout: nat) -> ErrorParts {
    error_parts(
        ErrorCode::CommandTimeout,
        "Command execution timed out after "@ + decimal(timeout) + " seconds"@,
        Some(name),
        Some("Increase timeout parameter or run command in background"@),
    )
}

/// The parts of `missing_parameter(param)`.
pub open spec fn missing_parameter_parts(param: Seq<char>) -> ErrorParts {
    error_parts(
        ErrorCode::MissingParameter,
        "Required parameter '"@ + param + "' is missing"@,
        None,
        Some("Provide the '"@ + param + "' parameter"@),
    )
}

/// The parts of `not_implemented(feature)`.
pub open spec fn not_implemented_parts(feature: Seq<char>) -> ErrorParts {
    error_parts(
        ErrorCode::NotImplemented,
        feature + " is not yet implemented"@,
        None,
        Some("This feature is planned for a future release"@),
    )
}

/// The parts of `no_active_session()`.
pub open spec fn no_active_session_parts() -> ErrorParts {
    error_parts(
        ErrorCode::NoActiveSession,
        "No active session"@,
        None,
        Some("Use /connect to establish a session or specify a session name"@),
    )
}

/// The parts of `cannot_close_local(name)`.
pub open spec fn cannot_close_local_parts(name: Seq<char>) -> ErrorParts {
    error_parts(
        ErrorCode::CannotCloseLocal,
        "Cannot close the local session"@,
        Some(name),
        Some("Use /switch to change to another session instead"@),
    )
}

/// The one-line rendering of `e`: kind, message and session when present.
pub open spec fn error_line(e: MCPError) -> Seq<char> {
    match e.session {
        Some(s) => "["@ + code_name(e.code) + "] "@ + e.message@ + " (session: "@ + s@ + ")"@,
        None => "["@ + code_name(e.code) + "] "@ + e.message@,
    }
}

impl MCPError {
    /// An error of kind `code` with no session or suggestion.
    pub fn new(code: ErrorCode, message: &str) -> (r: Self)
        ensures
            r.code == code,
            r.message@ == message@,
            r.session is None,
            r.suggestion is None,
    {
        MCPError { code, message: String::from_str(message), session: None, suggestion: None }
    }

    /// The same error, naming `session`.
    pub fn with_session(self, session: &str) -> (r: Self)
        ensures
            r.code == self.code,
            r.message == self.message,
            r.suggestion == self.suggestion,
            opt_view(r.session) == Some(session@),
    {
        MCPError { session: Some(String::from_str(session)), ..self }
    }

    /// The same error, with a suggestion.
    pub fn with_suggestion(self, suggestion: &str) -> (r: Self)
        ensures
            r.code == self.code,
            r.message == self.message,
            r.session == self.session,
            opt_view(r.suggestion) == Some(suggestion@),
    {
        MCPError { suggestion: Some(String::from_str(suggestion)), ..self }
    }

    /// The one-line rendering of this error.
    pub fn to_string(&self) -> (r: String)
        ensures
            r@ == error_line(*self),
    {
        let mut s = concat3("[", self.code.as_str(), "] ");
        s.append(self.message.as_str());
        match &self.session {
            Some(name) => {
                s.append(" (session: ");
                s.append(name.as_str());
                s.append(")");
            },
            None => {},
        }
        s
    }

    /// This error as a tool result: one text block, flagged as an error.
    pub fn to_tool_result(&self) -> (r: ToolCallResult)
        ensures
            r.is_error,
            r.content@.len() == 1,
            is_text_block(r.content@[0], error_report(*self)),
    {
        let mut text = self.message.clone();
        match &self.suggestion {
            Some(s) => {
                text.append("\n\nSuggestion: ");
                text.append(s.as_str());
            },
            None => {},
        }
        match &self.session {
            Some(s) => {
                text.append("\n\nSession: ");
                text.append(s.as_str());
            },
            None => {},
        }
        let full = concat3("[", self.code.as_str(), "] ");
        let full = concat2(full.as_str(), text.as_str());
        let mut content = Vec::new();
        content.push(Content::text(full.as_str()));
        ToolCallResult { content, is_error: true }
    }

    /// No session of that name is configured.
    pub fn session_not_found(session_name: &str) -> (r: Self)
        ensures
            parts(r) == session_not_found_parts(session_name@),
    {
        let m = concat3("Session '", session_name, "' not found");
        Self::new(ErrorCode::SessionNotFound, m.as_str()).with_session(
            session_name,
        ).with_suggestion(
            "Use /status to see available sessions or /add-session to create a new one",
        )
    }

    /// The session exists but is not connected.
    pub fn session_not_connected(session_name: &str) -> (r: Self)
        ensures
            parts(r) == session_not_connected_parts(session_name@),
    {
        let m = concat3("Session '", session_name, "' is not connected");
        Self::new(ErrorCode::SessionNotConnected, m.as_str()).with_session(
            session_name,
        ).with_suggestion("Use /connect to establish a connection")
    }

    /// Key authentication was refused.
    pub fn auth_key_failed(session_name: &str) -> (r: Self)
        ensures
            parts(r) == auth_key_failed_parts(session_name@),
    {
        Self::new(ErrorCode::AuthKeyFailed, "SSH key authentication failed").with_session(
            session_name,
        ).with_suggestion("Use /auth to provide a password or check your SSH key configuration")
    }

    /// Password authentication was refused.
    pub fn auth_password_failed(session_name: &str) -> (r: Self)
        ensures
            parts(r) == auth_password_failed_parts(session_name@),
    {
        Self::new(ErrorCode::AuthPasswordFailed, "Password authentication failed").with_session(
            session_name,
        ).with_suggestion("Verify the password is correct")
    }

    /// The host key is not in the known-hosts store.
    pub fn host_key_unknown(session_name: &str) -> (r: Self)
        ensures
            parts(r) == host_key_unknown_parts(session_name@),
    {
        Self::new(ErrorCode::HostKeyUnknown, "Host key is not in known_hosts").with_session(
            session_name,
        ).with_suggestion("Use /trust to accept the host key")
    }

    /// The connection failed for `reason`.
    pub fn connection_failed(session_name: &str, reason: &str) -> (r: Self)
        ensures
            parts(r) == connection_failed_parts(session_name@, reason@),
    {
        let m = concat2("Connection failed: ", reason);
        Self::new(ErrorCode::ConnectionFailed, m.as_str()).with_session(
            session_name,
        ).with_suggestion("Check network connectivity and session configuration")
    }

    /// A command ran longer than `timeout` seconds.
    pub fn command_timeout(session_name: &str, timeout: u64) -> (r: Self)
        ensures
            parts(r) == command_timeout_parts(session_name@, timeout as nat),
    {
        let t = u64_to_text(timeout);
        let m = concat3("Command execution timed out after ", t.as_str(), " seconds");
        Self::new(ErrorCode::CommandTimeout, m.as_str()).with_session(
            session_name,
        ).with_suggestion("Increase timeout parameter or run command in background")
    }

    /// A required tool argument is absent.
    pub fn missing_parameter(param: &str) -> (r: Self)
        ensures
            parts(r) == missing_parameter_parts(param@),
    {
        let m = concat3("Required parameter '", param, "' is missing");
        let s = concat3("Provide the '", param, "' parameter");
        Self::new(ErrorCode::MissingParameter, m.as_str()).with_suggestion(s.as_str())
    }

    /// A feature that is not available yet.
    pub fn not_implemented(feature: &str) -> (r: Self)
        ensures
            parts(r) == not_implemented_parts(feature@),
    {
        let m = concat2(feature, " is not yet implemented");
        Self::new(ErrorCode::NotImplemented, m.as_str()).with_suggestion(
            "This feature is planned for a future release",
        )
    }

    /// No session is active.
    pub fn no_active_session() -> (r: Self)
        ensures
            parts(r) == no_active_session_parts(),
    {
        Self::new(ErrorCode::NoActiveSession, "No active session").with_suggestion(
            "Use /connect to establish a session or specify a session name",
        )
    }

    /// The local session cannot be closed.
    pub fn cannot_close_local(session_name: &str) -> (r: Self)
        ensures
            parts(r) == cannot_close_local_parts(session_name@),
    {
        Self::new(ErrorCode::CannotCloseLocal, "Cannot close the local session").with_session(
            session_name,
        ).with_suggestion("Use /switch to change to another session instead")
    }
}

} // verus!
