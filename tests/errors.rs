use thop::error::{ErrorCode as SessionCode, SessionError, ThopError};
use thop::mcp::errors::{ErrorCode, MCPError};
use thop::mcp::protocol::Content;

#[test]
fn test_error_code_display() {
    assert_eq!(ErrorCode::SessionNotFound.to_string(), "SESSION_NOT_FOUND");
    assert_eq!(ErrorCode::AuthKeyFailed.to_string(), "AUTH_KEY_FAILED");
}

#[test]
fn test_mcp_error_creation() {
    let err = MCPError::new(ErrorCode::SessionNotFound, "Test error");
    assert_eq!(err.code, ErrorCode::SessionNotFound);
    assert_eq!(err.message, "Test error");
    assert!(err.session.is_none());
    assert!(err.suggestion.is_none());
}

#[test]
fn test_mcp_error_with_session() {
    let err = MCPError::new(ErrorCode::SessionNotFound, "Test error").with_session("test-session");
    assert_eq!(err.session, Some("test-session".to_string()));
}

#[test]
fn test_mcp_error_to_tool_result() {
    let err = MCPError::session_not_found("test-session");
    let result = err.to_tool_result();
    assert!(result.is_error);
    assert_eq!(result.content.len(), 1);
    assert!(result.content[0].text.as_ref().unwrap().contains("SESSION_NOT_FOUND"));
}

#[test]
fn test_common_error_constructors() {
    let err = MCPError::session_not_found("prod");
    assert_eq!(err.code, ErrorCode::SessionNotFound);
    assert!(err.session.is_some());
    assert!(err.suggestion.is_some());

    let err = MCPError::command_timeout("prod", 30);
    assert_eq!(err.code, ErrorCode::CommandTimeout);
    assert!(err.message.contains("30"));
}

#[test]
fn test_content_helpers() {
    let text = Content::text("Hello");
    assert_eq!(text.content_type, "text");
    assert_eq!(text.text, Some("Hello".to_string()));
    assert!(text.mime_type.is_none());

    let json = Content::text_with_mime("{}", "application/json");
    assert_eq!(json.mime_type, Some("application/json".to_string()));
}

#[test]
fn tool_result_text_lays_out_every_part() {
    let err = MCPError::missing_parameter("command");
    let result = err.to_tool_result();
    assert_eq!(
        result.content[0].text.as_deref(),
        Some("[MISSING_PARAMETER] Required parameter 'command' is missing\n\nSuggestion: Provide the 'command' parameter")
    );
    let err = MCPError::new(ErrorCode::CommandFailed, "boom").with_session("prod");
    assert_eq!(err.to_tool_result().content[0].text.as_deref(), Some("[COMMAND_FAILED] boom\n\nSession: prod"));
    assert_eq!(err.to_string(), "[COMMAND_FAILED] boom (session: prod)");
}

#[test]
fn command_timeout_renders_the_number() {
    assert_eq!(MCPError::command_timeout("s", 0).message, "Command execution timed out after 0 seconds");
    assert_eq!(
        MCPError::command_timeout("s", 18446744073709551615).message,
        "Command execution timed out after 18446744073709551615 seconds"
    );
}

#[test]
fn session_error_constructors_fill_their_fields() {
    let e = SessionError::connection_failed("prod", "db.example.com", "refused");
    assert_eq!(e.code, SessionCode::ConnectionFailed);
    assert_eq!(e.message, "Failed to connect to db.example.com: refused");
    assert_eq!(e.host.as_deref(), Some("db.example.com"));
    assert!(e.retryable);
    assert_eq!(e.code.as_str(), "CONNECTION_FAILED");

    let e = SessionError::connection_timeout("prod", "h");
    assert!(e.retryable);
    assert_eq!(e.message, "Connection timed out to h");

    let e = SessionError::auth_failed("prod", "h");
    assert!(!e.retryable);
    assert_eq!(e.suggestion.as_deref(), Some("Check SSH key or credentials"));

    let e = SessionError::session_disconnected("prod");
    assert_eq!(e.message, "Session 'prod' is not connected");

    let e = SessionError::command_restricted("sudo", "Privilege escalation");
    assert_eq!(e.message, "Privilege escalation: 'sudo' is not allowed in restricted mode");
    assert!(e.session.is_none());

    let e = SessionError::host_key_verification_failed("prod", "h");
    assert_eq!(e.code, SessionCode::HostKeyVerificationFailed);

    assert_eq!(ThopError::Config("bad".to_string()).to_string(), "Configuration error: bad");
    assert_eq!(ThopError::Session(SessionError::session_not_found("x")).to_string(), "Session 'x' not found");
}
