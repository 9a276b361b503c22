use thop::cli::{parse_assignment, join_args, parse_slash, plan_copy, read_command, write_command, CopyPlan, SlashKind};
use thop::config::{Config, Session as ConfigSession, SessionTable, Settings};
use thop::error::ThopError;
use thop::manager::Manager;
use thop::mcp::protocol::{get_tool_definitions, DefaultValue};
use thop::ssh::{AttemptOutcome, AuthNext, host_key_verdict, AuthAttempt, HostKeyCheck, SshConfig, SshSession};

fn two_remote_config() -> Config {
    let mut sessions = SessionTable::new();
    sessions.insert("local", ConfigSession::local(None));
    for name in ["prod", "stage"] {
        sessions.insert(
            name,
            ConfigSession {
                session_type: "ssh".to_string(),
                shell: None,
                host: Some(format!("{}.example.com", name)),
                user: None,
                port: None,
                identity_file: None,
                jump_host: None,
                startup_commands: vec![],
            },
        );
    }
    Config { settings: Settings { default_session: "local".to_string(), ..Settings::default() }, sessions }
}

#[test]
fn test_get_tool_definitions() {
    let tools = get_tool_definitions();
    let names: Vec<&str> = tools.iter().map(|t| t.name.as_str()).collect();
    assert_eq!(tools.len(), 5);
    assert!(names.contains(&"connect"));
    assert!(names.contains(&"switch"));
    assert!(names.contains(&"close"));
    assert!(names.contains(&"status"));
    assert!(names.contains(&"execute"));
    let exec = &tools[4];
    assert_eq!(exec.input_schema.required, Some(vec!["command".to_string()]));
    let timeout = exec.input_schema.properties.iter().find(|p| p.0 == "timeout").unwrap();
    assert_eq!(timeout.1.default, Some(DefaultValue::Integer(300)));
}

#[test]
fn slash_commands_parse_with_aliases_and_usage() {
    let c = parse_slash("/SW prod").unwrap().ok().unwrap();
    assert_eq!(c.kind, SlashKind::Switch);
    assert_eq!(c.args, vec!["prod".to_string()]);
    match parse_slash("/connect").unwrap() {
        Err(ThopError::Other(m)) => assert_eq!(m, "usage: /connect <session>"),
        _ => panic!("expected usage"),
    }
    match parse_slash("/frobnicate x").unwrap() {
        Err(ThopError::Other(m)) => assert_eq!(m, "unknown command: /frobnicate (use /help for available commands)"),
        _ => panic!("expected an unknown command"),
    }
    assert!(parse_slash("   ").is_none());
    let c = parse_slash("/write f hello   world").unwrap().ok().unwrap();
    assert_eq!(c.kind, SlashKind::Write);
    assert_eq!(join_args(&c.args, 1), "hello world");
    assert_eq!(parse_slash("/?").unwrap().ok().unwrap().kind, SlashKind::Help);
}

#[test]
fn file_commands_quote_paths() {
    assert_eq!(read_command("/etc/hosts"), "cat /etc/hosts");
    assert_eq!(read_command("my file"), "cat 'my file'");
    assert_eq!(write_command("a b", "x"), "cat > 'a b' << 'THOP_EOF'\nx\nTHOP_EOF");
}

#[test]
fn copy_plans_follow_session_kinds() {
    let mut m = Manager::new(&two_remote_config(), None);
    match plan_copy(&m, "/tmp/a", "prod:/srv/a").unwrap() {
        CopyPlan::Upload { local_path, session, remote_path } => {
            assert_eq!((local_path.as_str(), session.as_str(), remote_path.as_str()), ("/tmp/a", "prod", "/srv/a"));
        },
        _ => panic!("expected an upload"),
    }
    assert!(matches!(plan_copy(&m, "prod:/x", "stage:/y").unwrap(), CopyPlan::Relay { .. }));
    assert!(plan_copy(&m, "/a", "/b").is_err());
    assert!(plan_copy(&m, "remote:/a", "/b").is_err());
    assert!(plan_copy(&m, "ghost:/a", "/b").is_err());
    m.set_active_session("stage").unwrap();
    match plan_copy(&m, "remote:/var/log", "local:/tmp/log").unwrap() {
        CopyPlan::Download { session, .. } => assert_eq!(session, "stage"),
        _ => panic!("expected a download"),
    }
}

#[test]
fn host_keys_must_match() {
    assert!(host_key_verdict("p", "h", HostKeyCheck::Match).is_ok());
    match host_key_verdict("p", "h", HostKeyCheck::Mismatch) {
        Err(ThopError::Session(e)) => assert_eq!(e.message, "Host key for h has changed! This could be a security issue."),
        _ => panic!("expected a changed key"),
    }
    assert!(host_key_verdict("p", "h", HostKeyCheck::NotFound).is_err());
}

#[test]
fn auth_attempts_are_ordered() {
    let config = SshConfig { host: "h".to_string(), user: "u".to_string(), port: 22, identity_file: Some("~/.ssh/k".to_string()) };
    let s = SshSession::new("p", config);
    let a = s.auth_attempts(Some("/home/u".to_string()));
    assert_eq!(a.len(), 5);
    assert!(matches!(a[0], AuthAttempt::Agent));
    match &a[1] {
        AuthAttempt::KeyFile { path, decisive } => {
            assert_eq!(path, "/home/u/.ssh/k");
            assert!(*decisive);
        },
        _ => panic!("expected the configured key"),
    }
    match &a[4] {
        AuthAttempt::KeyFile { path, decisive } => {
            assert_eq!(path, "/home/u/.ssh/id_ecdsa");
            assert!(!*decisive);
        },
        _ => panic!("expected a default key"),
    }
    assert_eq!(s.key_rejected("bad").to_string(), "Key rejected: bad");
    assert_eq!(s.auth_exhausted().to_string(), "Authentication failed for h");
}

#[test]
fn copy_errors_come_on_their_own_inputs() {
    let m = Manager::new(&two_remote_config(), None);
    let text = |r: Result<CopyPlan, ThopError>| match r {
        Err(ThopError::Other(t)) => t,
        _ => panic!("expected an error"),
    };
    assert_eq!(text(plan_copy(&m, "remote:/a", "prod:/b")), "no remote session active - use session name instead");
    assert_eq!(text(plan_copy(&m, "prod:/a", "remote:/b")), "no remote session active - use session name instead");
    assert_eq!(text(plan_copy(&m, "ghost:/a", "prod:/b")), "source session 'ghost' not found");
    assert_eq!(text(plan_copy(&m, "prod:/a", "ghost:/b")), "destination session 'ghost' not found");
    assert_eq!(text(plan_copy(&m, "/a", "local:/b")), "both source and destination are local - use regular cp command");
    match plan_copy(&m, "prod:/x", "stage:/y").unwrap() {
        CopyPlan::Relay { from_session, from_path, to_session, to_path } => {
            assert_eq!((from_session.as_str(), from_path.as_str()), ("prod", "/x"));
            assert_eq!((to_session.as_str(), to_path.as_str()), ("stage", "/y"));
        },
        _ => panic!("expected a relay"),
    }
}

#[test]
fn assignments_split_at_the_first_equals() {
    assert_eq!(parse_assignment("A=b=c"), Some(("A".to_string(), "b=c".to_string())));
    assert_eq!(parse_assignment("A="), Some(("A".to_string(), String::new())));
    assert_eq!(parse_assignment("PATH"), None);
}

#[test]
fn auth_steps_follow_the_attempt() {
    let s = SshSession::new("p", SshConfig { host: "h".to_string(), user: "u".to_string(), port: 22, identity_file: None });
    let decisive = AuthAttempt::KeyFile { path: "/k".to_string(), decisive: true };
    let optional = AuthAttempt::KeyFile { path: "/d".to_string(), decisive: false };
    assert!(matches!(s.auth_step(&AuthAttempt::Agent, AttemptOutcome::Rejected("x".to_string())), AuthNext::Continue));
    assert!(matches!(s.auth_step(&optional, AttemptOutcome::Rejected("x".to_string())), AuthNext::Continue));
    assert!(matches!(s.auth_step(&decisive, AttemptOutcome::Skipped), AuthNext::Continue));
    assert!(matches!(s.auth_step(&optional, AttemptOutcome::Succeeded), AuthNext::Done));
    match s.auth_step(&decisive, AttemptOutcome::Rejected("bad key".to_string())) {
        AuthNext::Fail(e) => assert_eq!(e.to_string(), "Key rejected: bad key"),
        _ => panic!("expected a failure"),
    }
}

#[test]
fn changed_host_key_names_the_host() {
    match host_key_verdict("p", "h", HostKeyCheck::Mismatch) {
        Err(ThopError::Session(e)) => assert_eq!(e.host.as_deref(), Some("h")),
        _ => panic!("expected a changed key"),
    }
}
