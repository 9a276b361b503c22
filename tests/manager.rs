use thop::config::{Config, Session as ConfigSession, SessionTable, Settings};
use thop::manager::{ConnectStep, Manager, Transport};
use thop::restriction::Checker;

fn create_test_config() -> Config {
    let mut sessions = SessionTable::new();
    sessions.insert("local", ConfigSession::local(Some("/bin/sh".to_string())));
    sessions.insert(
        "testserver",
        ConfigSession {
            session_type: "ssh".to_string(),
            shell: None,
            host: Some("example.com".to_string()),
            user: Some("testuser".to_string()),
            port: Some(22),
            identity_file: None,
            jump_host: None,
            startup_commands: vec![],
        },
    );
    Config { settings: Settings { default_session: "local".to_string(), ..Settings::default() }, sessions }
}

#[test]
fn manager_test_new_manager() {
    let manager = Manager::new(&create_test_config(), None);
    assert!(manager.has_session("local"));
    assert!(manager.has_session("testserver"));
    assert_eq!(manager.get_active_session_name(), "local");
}

#[test]
fn manager_test_get_session() {
    let manager = Manager::new(&create_test_config(), None);
    let session = manager.get_session("local");
    assert!(session.is_some());
    assert_eq!(session.unwrap().name(), "local");
    assert!(manager.get_session("nonexistent").is_none());
}

#[test]
fn test_set_active_session() {
    let mut manager = Manager::new(&create_test_config(), None);
    manager.set_active_session("testserver").unwrap();
    assert_eq!(manager.get_active_session_name(), "testserver");
    let result = manager.set_active_session("nonexistent");
    assert!(result.is_err());
    assert_eq!(manager.get_active_session_name(), "testserver");
}

#[test]
fn test_execute_on() {
    let mut manager = Manager::new(&create_test_config(), None);
    assert_eq!(manager.resolve(Some("local")).unwrap(), "local");
    assert!(manager.get_session_mut("local").is_some());
    assert!(manager.resolve(Some("nonexistent")).is_err());
}

#[test]
fn test_list_sessions() {
    let manager = Manager::new(&create_test_config(), None);
    let sessions = manager.list_sessions();
    assert_eq!(sessions.len(), 2);
    let local = sessions.iter().find(|s| s.name == "local").unwrap();
    assert_eq!(local.session_type, "local");
    assert!(local.connected);
    assert!(local.active);
    let remote = sessions.iter().find(|s| s.name == "testserver").unwrap();
    assert!(!remote.active);
    assert!(!remote.connected);
}

#[test]
fn test_session_names() {
    let manager = Manager::new(&create_test_config(), None);
    let names = manager.session_names();
    assert_eq!(names.len(), 2);
    assert!(names.contains(&"local"));
    assert!(names.contains(&"testserver"));
}

#[test]
fn test_connect_disconnect_local() {
    let mut manager = Manager::new(&create_test_config(), None);
    assert_eq!(manager.connect("local").unwrap(), ConnectStep::Done);
    assert!(manager.disconnect("local").is_ok());
    assert!(manager.connect("nonexistent").is_err());
    assert!(manager.disconnect("nonexistent").is_err());
}

#[test]
fn switch_to_each_configured_session_makes_it_active() {
    let mut manager = Manager::new(&create_test_config(), None);
    for name in ["testserver", "local", "testserver"] {
        manager.set_active_session(name).unwrap();
        assert_eq!(manager.get_active_session_name(), name);
    }
    assert!(manager.set_active_session("ghost").is_err());
    assert_eq!(manager.get_active_session_name(), "testserver");
}

#[test]
fn remote_connect_asks_for_a_handshake_once() {
    let mut manager = Manager::new(&create_test_config(), None);
    assert_eq!(manager.connect("testserver").unwrap(), ConnectStep::Handshake);
    manager.mark_connected("testserver", Some("/home/testuser")).unwrap();
    assert_eq!(manager.connect("testserver").unwrap(), ConnectStep::Done);
    assert_eq!(manager.connect("testserver").unwrap(), ConnectStep::Done);
    assert!(manager.disconnect("testserver").is_ok());
    assert!(manager.disconnect("testserver").is_ok());
    match manager.get_session("testserver").unwrap() {
        Transport::Ssh(s) => {
            assert!(!s.is_connected());
            assert_eq!(s.get_cwd(), "/home/testuser");
        },
        _ => panic!("expected a remote session"),
    }
}

#[test]
fn preferred_active_session_and_fallback() {
    let manager = Manager::new(&create_test_config(), Some("testserver".to_string()));
    assert_eq!(manager.get_active_session_name(), "testserver");
    let manager = Manager::new(&create_test_config(), Some("gone".to_string()));
    assert!(manager.has_session(manager.get_active_session_name()));
}

#[test]
fn guard_refuses_restricted_commands_when_enabled() {
    let mut checker = Checker::new();
    assert!(thop::manager::guard_command(&checker, "sudo ls").is_ok());
    checker.set_enabled(true);
    let err = thop::manager::guard_command(&checker, "sudo ls").unwrap_err();
    assert_eq!(err.to_string(), "Privilege escalation: 'sudo' is not allowed in restricted mode");
    assert!(thop::manager::guard_command(&checker, "ls").is_ok());
}

#[test]
fn added_remote_sessions_need_a_fresh_name() {
    let mut manager = Manager::new(&create_test_config(), None);
    manager.add_ssh_session("db", "db.example.com", "ops", 22).unwrap();
    assert!(manager.has_session("db"));
    assert_eq!(manager.get_active_session_name(), "local");
    let err = manager.add_ssh_session("db", "x", "y", 22).unwrap_err();
    assert_eq!(err.to_string(), "Session 'db' already exists");
}

#[test]
fn switch_connects_remote_sessions_first() {
    let mut manager = Manager::new(&create_test_config(), None);
    assert_eq!(manager.switch("testserver").unwrap(), ConnectStep::Handshake);
    assert_eq!(manager.get_active_session_name(), "local");
    manager.mark_connected("testserver", None).unwrap();
    assert_eq!(manager.switch("testserver").unwrap(), ConnectStep::Done);
    assert_eq!(manager.get_active_session_name(), "testserver");
    assert_eq!(manager.switch("local").unwrap(), ConnectStep::Done);
    assert_eq!(manager.get_active_session_name(), "local");
    assert!(manager.switch("ghost").is_err());
    assert_eq!(manager.get_active_session_name(), "local");
}

#[test]
fn closing_the_active_session_falls_back_to_local() {
    let mut manager = Manager::new(&create_test_config(), None);
    manager.connect("testserver").unwrap();
    manager.mark_connected("testserver", None).unwrap();
    manager.set_active_session("testserver").unwrap();
    assert!(manager.close("testserver").unwrap());
    assert_eq!(manager.get_active_session_name(), "local");
    assert!(!manager.close("testserver").unwrap());
    assert!(manager.close("ghost").is_err());
}
