use thop::config::{Config, Session as ConfigSession};
use thop::error::{SessionError, ThopError};
use thop::manager::Manager;
use thop::mcp::routing::{dispatch, resource_for, tool_for, Dispatch, Method, ResourceKind, ToolKind};
use thop::mcp::tools::{
    connect_result, execute_error, execute_result, status_result, tool_close, tool_connect,
    tool_execute, tool_status, tool_switch, ConnectOutcome, ToolArgs,
};
use thop::session::ExecuteResult;

fn create_test_manager() -> Manager {
    Manager::new(&Config::default(), None)
}

fn no_args() -> ToolArgs {
    ToolArgs { session: None, command: None, background: None, timeout: None }
}

fn text_of(r: &thop::mcp::protocol::ToolCallResult, i: usize) -> String {
    r.content[i].text.clone().unwrap()
}

#[test]
fn test_tool_status() {
    let manager = create_test_manager();
    let sessions = tool_status(&manager);
    assert_eq!(sessions.len(), 1);
    let result = status_result("[]");
    assert!(!result.is_error);
    assert!(!result.content.is_empty());
}

#[test]
fn test_tool_connect_missing_session() {
    let mut manager = create_test_manager();
    match tool_connect(&mut manager, &no_args()) {
        ConnectOutcome::Done(result) => {
            assert!(result.is_error);
            assert!(text_of(&result, 0).contains("MISSING_PARAMETER"));
        },
        ConnectOutcome::Handshake(_) => panic!("expected an answer"),
    }
}

#[test]
fn test_tool_switch_missing_session() {
    let mut manager = create_test_manager();
    let result = tool_switch(&mut manager, &no_args());
    assert!(result.is_error);
    assert!(text_of(&result, 0).contains("MISSING_PARAMETER"));
}

#[test]
fn test_tool_close_missing_session() {
    let mut manager = create_test_manager();
    let result = tool_close(&mut manager, &no_args());
    assert!(result.is_error);
    assert!(text_of(&result, 0).contains("MISSING_PARAMETER"));
}

#[test]
fn test_tool_execute_missing_command() {
    let manager = create_test_manager();
    let result = tool_execute(&manager, &no_args()).err().unwrap();
    assert!(result.is_error);
    assert!(text_of(&result, 0).contains("MISSING_PARAMETER"));
}

#[test]
fn test_tool_switch_local() {
    let mut manager = create_test_manager();
    let args = ToolArgs { session: Some("local".to_string()), ..no_args() };
    let result = tool_switch(&mut manager, &args);
    assert!(!result.is_error);
    assert!(text_of(&result, 0).contains("Switched to session 'local'"));
}

#[test]
fn test_tool_connect_nonexistent() {
    let mut manager = create_test_manager();
    let args = ToolArgs { session: Some("nonexistent".to_string()), ..no_args() };
    match tool_connect(&mut manager, &args) {
        ConnectOutcome::Done(result) => {
            assert!(result.is_error);
            assert!(text_of(&result, 0).contains("SESSION_NOT_FOUND"));
        },
        ConnectOutcome::Handshake(_) => panic!("expected an answer"),
    }
}

#[test]
fn test_tool_execute_background_not_implemented() {
    let manager = create_test_manager();
    let args = ToolArgs { command: Some("sleep 10".to_string()), background: Some(true), ..no_args() };
    let result = tool_execute(&manager, &args).err().unwrap();
    assert!(result.is_error);
    assert!(text_of(&result, 0).contains("NOT_IMPLEMENTED"));
}

#[test]
fn test_tool_execute_local() {
    let manager = create_test_manager();
    let args = ToolArgs { command: Some("echo hello".to_string()), ..no_args() };
    let plan = tool_execute(&manager, &args).ok().unwrap();
    assert_eq!(plan.command, "echo hello");
    assert_eq!(plan.timeout, 300);
    let result = execute_result(&ExecuteResult { stdout: "hello\n".to_string(), stderr: String::new(), exit_code: 0 });
    assert!(!result.is_error);
    assert!(text_of(&result, 0).contains("hello"));
}

#[test]
fn execute_with_missing_command_is_a_tool_error_not_a_protocol_error() {
    let manager = create_test_manager();
    let args = ToolArgs { session: Some("local".to_string()), ..no_args() };
    let result = tool_execute(&manager, &args).err().unwrap();
    assert!(result.is_error);
    assert_eq!(result.content.len(), 1);
    assert!(text_of(&result, 0).starts_with("[MISSING_PARAMETER] "));
}

#[test]
fn execute_on_unknown_session_is_reported() {
    let manager = create_test_manager();
    let args = ToolArgs { command: Some("ls".to_string()), session: Some("ghost".to_string()), ..no_args() };
    let result = tool_execute(&manager, &args).err().unwrap();
    assert!(text_of(&result, 0).starts_with("[SESSION_NOT_FOUND] Session 'ghost' not found"));
}

#[test]
fn execute_result_blocks() {
    let r = execute_result(&ExecuteResult { stdout: String::new(), stderr: String::new(), exit_code: 0 });
    assert_eq!(text_of(&r, 0), "Command executed successfully (no output)");
    assert!(!r.is_error);
    let r = execute_result(&ExecuteResult { stdout: "out".to_string(), stderr: "err".to_string(), exit_code: -3 });
    assert_eq!(r.content.len(), 3);
    assert_eq!(text_of(&r, 0), "out");
    assert_eq!(text_of(&r, 1), "stderr:\nerr");
    assert_eq!(text_of(&r, 2), "Exit code: -3");
    assert!(r.is_error);
}

#[test]
fn status_lists_every_configured_session() {
    let manager = create_test_manager();
    let sessions = tool_status(&manager);
    assert_eq!(sessions.len(), manager.session_names().len());
    let r = status_result("[{\"name\":\"local\"}]");
    assert_eq!(r.content[0].mime_type.as_deref(), Some("application/json"));
}

#[test]
fn connect_failures_are_classified_by_kind() {
    let e = ThopError::Session(SessionError::connection_timeout("s", "h"));
    let r = connect_result("s", Err(e));
    assert!(text_of(&r, 0).starts_with("[CONNECTION_TIMEOUT] Connection timed out"));
    let e = ThopError::Session(SessionError::auth_failed("s", "h"));
    assert!(text_of(&connect_result("s", Err(e)), 0).starts_with("[AUTH_KEY_FAILED]"));
    let e = ThopError::Other("weird".to_string());
    assert!(text_of(&connect_result("s", Err(e)), 0).starts_with("[CONNECTION_FAILED] Connection failed: weird"));
    assert_eq!(text_of(&connect_result("s", Ok(())), 0), "Successfully connected to session 's'");
}

#[test]
fn execute_failures_are_classified_by_kind() {
    let e = ThopError::Session(SessionError::session_disconnected("p"));
    assert!(text_of(&execute_error("p", 300, &e), 0).starts_with("[SESSION_NOT_CONNECTED]"));
    let e = ThopError::Io("broken pipe".to_string());
    assert!(text_of(&execute_error("p", 300, &e), 0).starts_with("[COMMAND_FAILED] IO error: broken pipe"));
}

#[test]
fn close_and_switch_report_outcomes() {
    let mut manager = create_test_manager();
    let args = ToolArgs { session: Some("local".to_string()), ..no_args() };
    assert_eq!(text_of(&tool_close(&mut manager, &args), 0), "Session 'local' closed");
    let args = ToolArgs { session: Some("ghost".to_string()), ..no_args() };
    assert!(text_of(&tool_close(&mut manager, &args), 0).starts_with("[SESSION_NOT_FOUND]"));
    assert!(tool_switch(&mut manager, &args).is_error);
}

#[test]
fn test_handler_registration() {
    for (name, method) in [
        ("initialize", Method::Initialize),
        ("tools/list", Method::ToolsList),
        ("tools/call", Method::ToolsCall),
        ("resources/list", Method::ResourcesList),
        ("resources/read", Method::ResourcesRead),
        ("ping", Method::Ping),
    ] {
        assert_eq!(dispatch(Some(name), true), Dispatch::Handle { method, respond: true });
    }
}

#[test]
fn test_handle_unknown_method() {
    assert_eq!(dispatch(Some("unknown_method"), true), Dispatch::MethodNotFound);
    assert_eq!(dispatch(Some("unknown_method"), false), Dispatch::Ignore);
    assert_eq!(dispatch(None, true), Dispatch::Ignore);
    assert_eq!(dispatch(Some("initialized"), false), Dispatch::Handle { method: Method::Initialized, respond: false });
    assert_eq!(thop::mcp::routing::METHOD_NOT_FOUND, -32601);
}

#[test]
fn tools_and_resources_are_looked_up_by_name() {
    assert_eq!(tool_for("execute").unwrap(), ToolKind::Execute);
    assert_eq!(tool_for("bogus").err().unwrap().message, "Unknown tool: bogus");
    assert_eq!(resource_for("session://all").unwrap(), ResourceKind::AllSessions);
    assert_eq!(resource_for("state://thop").unwrap(), ResourceKind::State);
    assert_eq!(resource_for("x://y").err().unwrap().message, "Unknown resource URI: x://y");
}

#[test]
fn test_handle_resources_list() {
    let resources = thop::mcp::routing::resource_definitions();
    assert_eq!(resources.len(), 4);
    for r in &resources {
        assert!(resource_for(&r.uri).is_ok());
        assert_eq!(r.mime_type.as_deref(), Some("application/json"));
    }
}

#[test]
fn test_handle_initialized() {
    assert_eq!(dispatch(Some("initialized"), false), Dispatch::Handle { method: Method::Initialized, respond: false });
}

#[test]
fn test_handle_cancelled() {
    assert_eq!(dispatch(Some("cancelled"), false), Dispatch::Handle { method: Method::Cancelled, respond: false });
    assert_eq!(dispatch(Some("progress"), false), Dispatch::Handle { method: Method::Progress, respond: false });
}

#[test]
fn test_handle_ping() {
    assert_eq!(dispatch(Some("ping"), true), Dispatch::Handle { method: Method::Ping, respond: true });
}

#[test]
fn test_handle_tools_list() {
    assert_eq!(dispatch(Some("tools/list"), true), Dispatch::Handle { method: Method::ToolsList, respond: true });
    assert_eq!(thop::mcp::protocol::get_tool_definitions().len(), 5);
}

#[test]
fn connect_tool_marks_local_and_asks_handshake_for_remote() {
    let mut config = Config::default();
    config.sessions.insert(
        "prod",
        ConfigSession {
            session_type: "ssh".to_string(),
            shell: None,
            host: Some("h".to_string()),
            user: None,
            port: None,
            identity_file: None,
            jump_host: None,
            startup_commands: vec![],
        },
    );
    let mut manager = Manager::new(&config, None);
    manager.disconnect("local").unwrap();
    let args = ToolArgs { session: Some("local".to_string()), ..no_args() };
    match tool_connect(&mut manager, &args) {
        ConnectOutcome::Done(r) => assert_eq!(text_of(&r, 0), "Successfully connected to session 'local'"),
        _ => panic!("expected done"),
    }
    assert!(manager.get_session("local").unwrap().is_connected());
    let args = ToolArgs { session: Some("prod".to_string()), ..no_args() };
    assert!(matches!(tool_connect(&mut manager, &args), ConnectOutcome::Handshake(n) if n == "prod"));
    manager.mark_connected("prod", None).unwrap();
    assert!(matches!(tool_connect(&mut manager, &args), ConnectOutcome::Done(_)));
    assert_eq!(text_of(&tool_close(&mut manager, &args), 0), "Session 'prod' closed");
    assert!(!manager.get_session("prod").unwrap().is_connected());
}
