//! The error taxonomy shared by transports and the session manager.
use vstd::prelude::*;
use crate::text::{concat2, concat3, concat4, opt_view};

verus! {

/// Machine-readable kind of a session error.
#[derive(Debug, Clone, Copy, PartialEq, Eq, Structural)]
pub enum ErrorCode {
    ConnectionFailed,
    ConnectionTimeout,
    AuthPasswordRequired,
    AuthKeyRejected,
    AuthFailed,
    HostKeyVerificationFailed,
    HostKeyChanged,
    CommandTimeout,
    CommandRestricted,
    SessionNotFound,
    SessionDisconnected,
}

/// The wire name of each error kind.
pub open spec fn error_code_name(c: ErrorCode) -> Seq<char> {
    match c {
        ErrorCode::ConnectionFailed => "CONNECTION_FAILED"@,
        ErrorCode::ConnectionTimeout => "CONNECTION_TIMEOUT"@,
        ErrorCode::AuthPasswordRequired => "AUTH_PASSWORD_REQUIRED"@,
        ErrorCode::AuthKeyRejected => "AUTH_KEY_REJECTED"@,
        ErrorCode::AuthFailed => "AUTH_FAILED"@,
        ErrorCode::HostKeyVerificationFailed => "HOST_KEY_VERIFICATION_FAILED"@,
        ErrorCode::HostKeyChanged => "HOST_KEY_CHANGED"@,
        ErrorCode::CommandTimeout => "COMMAND_TIMEOUT"@,
        ErrorCode::CommandRestricted => "COMMAND_RESTRICTED"@,
        ErrorCode::SessionNotFound => "SESSION_NOT_FOUND"@,
        ErrorCode::SessionDisconnected => "SESSION_DISCONNECTED"@,
    }
}

impl ErrorCode {
    /// The wire name of this kind.
    pub fn as_str(&self) -> (r: &'static str)
        ensures
            r@ == error_code_name(*self),
    {
        match self {
            ErrorCode::ConnectionFailed => "CONNECTION_FAILED",
            ErrorCode::ConnectionTimeout => "CONNECTION_TIMEOUT",
            ErrorCode::AuthPasswordRequired => "AUTH_PASSWORD_REQUIRED",
            ErrorCode::AuthKeyRejected => "AUTH_KEY_REJECTED",
            ErrorCode::AuthFailed => "AUTH_FAILED",
            ErrorCode::HostKeyVerificationFailed => "HOST_KEY_VERIFICATION_FAILED",
            ErrorCode::HostKeyChanged => "HOST_KEY_CHANGED",
            ErrorCode::CommandTimeout => "COMMAND_TIMEOUT",
            ErrorCode::CommandRestricted => "COMMAND_RESTRICTED",
            ErrorCode::SessionNotFound => "SESSION_NOT_FOUND",
            ErrorCode::SessionDisconnected => "SESSION_DISCONNECTED",
        }
    }
}

/// A structured transport or manager failure: a kind, a message, and the
/// context that helps a caller act on it.
#[derive(Debug, Clone)]
pub struct SessionError {
    pub code: ErrorCode,
    pub message: String,
    pub session: Option<String>,
    pub host: Option<String>,
    pub retryable: bool,
    pub suggestion: Option<String>,
}

impl SessionError {
    /// An error of kind `code` about `session`, with no host, suggestion or retry.
    pub fn new(code: ErrorCode, message: &str, session: &str) -> (r: Self)
        ensures
            r.code == code,
            r.message@ == message@,
            opt_view(r.session) == Some(session@),
            r.host is None,
            !r.retryable,
            r.suggestion is None,
    {
        SessionError {
            code,
            message: String::from_str(message),
            session: Some(String::from_str(session)),
            host: None,
            retryable: false,
            suggestion: None,
        }
    }

    /// The same error, naming `host`.
    pub fn with_host(self, host: &str) -> (r: Self)
        ensures
            r == (SessionError { host: r.host, ..self }),
            opt_view(r.host) == Some(host@),
    {
        SessionError { host: Some(String::from_str(host)), ..self }
    }

    /// The same error, with its retry flag set to `retryable`.
    pub fn with_retryable(self, retryable: bool) -> (r: Self)
        ensures
            r == (SessionError { retryable, ..self }),
    {
        SessionError { retryable, ..self }
    }

    /// The same error, with a suggestion for the caller.
    pub fn with_suggestion(self, suggestion: &str) -> (r: Self)
        ensures
            r == (SessionError { suggestion: r.suggestion, ..self }),
            opt_view(r.suggestion) == Some(suggestion@),
    {
        SessionError { suggestion: Some(String::from_str(suggestion)), ..self }
    }

    /// No session of that name is configured.
    pub fn session_not_found(name: &str) -> (r: Self)
        ensures
            r.code == ErrorCode::SessionNotFound,
            r.message@ == "Session '"@ + name@ + "' not found"@,
            opt_view(r.session) == Some(name@),
            r.host is None,
            !r.retryable,
            r.suggestion is None,
    {
        let m = concat3("Session '", name, "' not found");
        Self::new(ErrorCode::SessionNotFound, m.as_str(), name)
    }

    /// The session exists but is not connected.
    pub fn session_disconnected(name: &str) -> (r: Self)
        ensures
            r.code == ErrorCode::SessionDisconnected,
            r.message@ == "Session '"@ + name@ + "' is not connected"@,
            opt_view(r.session) == Some(name@),
            r.host is None,
            !r.retryable,
            opt_view(r.suggestion) == Some("Use /connect to establish connection"@),
    {
        let m = concat3("Session '", name, "' is not connected");
        Self::new(ErrorCode::SessionDisconnected, m.as_str(), name).with_suggestion(
            "Use /connect to establish connection",
        )
    }

    /// The transport connection could not be opened; `err` says why.
    pub fn connection_failed(session: &str, host: &str, err: &str) -> (r: Self)
        ensures
            r.code == ErrorCode::ConnectionFailed,
            r.message@ == "Failed to connect to "@ + host@ + ": "@ + err@,
            opt_view(r.session) == Some(session@),
            opt_view(r.host) == Some(host@),
            r.retryable,
            opt_view(r.suggestion) == Some("Check network connectivity and host address"@),
    {
        let m = concat4("Failed to connect to ", host, ": ", err);
        Self::new(ErrorCode::ConnectionFailed, m.as_str(), session).with_host(host).with_retryable(
            true,
        ).with_suggestion("Check network connectivity and host address")
    }

    /// The transport connection timed out.
    pub fn connection_timeout(session: &str, host: &str) -> (r: Self)
        ensures
            r.code == ErrorCode::ConnectionTimeout,
            r.message@ == "Connection timed out to "@ + host@,
            opt_view(r.session) == Some(session@),
            opt_view(r.host) == Some(host@),
            r.retryable,
            opt_view(r.suggestion) == Some("Check network connectivity and firewall settings"@),
    {
        let m = concat2("Connection timed out to ", host);
        Self::new(ErrorCode::ConnectionTimeout, m.as_str(), session).with_host(host).with_retryable(
            true,
        ).with_suggestion("Check network connectivity and firewall settings")
    }

    /// No authentication method succeeded.
    pub fn auth_failed(session: &str, host: &str) -> (r: Self)
        ensures
            r.code == ErrorCode::AuthFailed,
            r.message@ == "Authentication failed for "@ + host@,
            opt_view(r.session) == Some(session@),
            opt_view(r.host) == Some(host@),
            !r.retryable,
            opt_view(r.suggestion) == Some("Check SSH key or credentials"@),
    {
        let m = concat2("Authentication failed for ", host);
        Self::new(ErrorCode::AuthFailed, m.as_str(), session).with_host(host).with_suggestion(
            "Check SSH key or credentials",
        )
    }

    /// The server's host key is not in the known-hosts store.
    pub fn host_key_verification_failed(session: &str, host: &str) -> (r: Self)
        ensures
            r.code == ErrorCode::HostKeyVerificationFailed,
            r.message@ == "Host key verification failed for "@ + host@,
            opt_view(r.session) == Some(session@),
            opt_view(r.host) == Some(host@),
            !r.retryable,
            opt_view(r.suggestion) == Some(
                "Add the host to known_hosts: ssh-keyscan <host> >> ~/.ssh/known_hosts"@,
            ),
    {
        let m = concat2("Host key verification failed for ", host);
        Self::new(ErrorCode::HostKeyVerificationFailed, m.as_str(), session).with_host(
            host,
        ).with_suggestion("Add the host to known_hosts: ssh-keyscan <host> >> ~/.ssh/known_hosts")
    }

    /// The restriction policy refused `command`, of the given category.
    pub fn command_restricted(command: &str, category: &str) -> (r: Self)
        ensures
            r.code == ErrorCode::CommandRestricted,
            r.message@ == category@ + ": '"@ + command@ + "' is not allowed in restricted mode"@,
            r.session is None,
            r.host is None,
            !r.retryable,
            opt_view(r.suggestion) == Some(
                "Remove --restricted flag to allow this command, or use a different approach"@,
            ),
    {
        SessionError {
            code: ErrorCode::CommandRestricted,
            message: concat4(category, ": '", command, "' is not allowed in restricted mode"),
            session: None,
            host: None,
            retryable: false,
            suggestion: Some(
                String::from_str(
                    "Remove --restricted flag to allow this command, or use a different approach",
                ),
            ),
        }
    }
}

/// Any failure the library reports.
#[derive(Debug, Clone)]
pub enum ThopError {
    Session(SessionError),
    Config(String),
    Io(String),
    State(String),
    Other(String),
}

/// The human-readable text of an error.
pub open spec fn thop_error_text(e: ThopError) -> Seq<char> {
    match e {
        ThopError::Session(s) => s.message@,
        ThopError::Config(m) => "Configuration error: "@ + m@,
        ThopError::Io(m) => "IO error: "@ + m@,
        ThopError::State(m) => "State error: "@ + m@,
        ThopError::Other(m) => m@,
    }
}

impl ThopError {
    /// The human-readable text of this error.
    pub fn to_string(&self) -> (r: String)
        ensures
            r@ == thop_error_text(*self),
    {
        match self {
            ThopError::Session(s) => s.message.clone(),
            ThopError::Config(m) => concat2("Configuration error: ", m.as_str()),
            ThopError::Io(m) => concat2("IO error: ", m.as_str()),
            ThopError::State(m) => concat2("State error: ", m.as_str()),
            ThopError::Other(m) => m.clone(),
        }
    }
}

} // verus!
