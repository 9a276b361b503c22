use thop::session::{
    cd_probe, format_prompt, is_cd, process_result, resolve_cd_target, ExecuteResult, LocalAction,
    LocalSession, ShellOutcome,
};
use thop::ssh::{SshConfig, SshSession};

#[test]
fn test_format_prompt() {
    assert_eq!(format_prompt("local"), "(local) $ ");
    assert_eq!(format_prompt("prod"), "(prod) $ ");
}

#[test]
fn test_new_local_session() {
    let session = LocalSession::new("test", Some("/bin/bash".to_string()));
    assert_eq!(session.name(), "test");
    assert_eq!(session.session_type(), "local");
    assert!(session.is_connected());
    assert!(!session.get_cwd().is_empty());
}

#[test]
fn test_default_shell() {
    let session = LocalSession::new("test", None);
    assert!(!session.shell().is_empty());
}

#[test]
fn test_connect_disconnect() {
    let mut session = LocalSession::new("test", None);
    session.disconnect().unwrap();
    assert!(!session.is_connected());
    session.connect().unwrap();
    assert!(session.is_connected());
}

#[test]
fn local_test_set_cwd() {
    let mut session = LocalSession::new("test", None);
    session.set_cwd("/tmp").unwrap();
    assert_eq!(session.get_cwd(), "/tmp");
    let err = session.set_cwd("/nonexistent_12345");
    assert!(err.is_err());
}

#[test]
fn local_test_env() {
    let mut session = LocalSession::new("test", None);
    session.set_env("TEST_VAR", "test_value");
    assert_eq!(session.env_value("TEST_VAR").unwrap(), "test_value");
    let env = session.get_env();
    assert!(env.contains(&("TEST_VAR".to_string(), "test_value".to_string())));
    match session.prepare("echo $TEST_VAR") {
        LocalAction::Run { command } => assert_eq!(command, "echo $TEST_VAR"),
        _ => panic!("expected a shell run"),
    }
}

#[test]
fn test_cd() {
    let mut session = LocalSession::with_environment("test", "/bin/sh".to_string(), "/".to_string());
    let target = match session.prepare("cd /tmp") {
        LocalAction::ChangeDir { target } => target,
        _ => panic!("expected a change of directory"),
    };
    assert_eq!(target, "/tmp");
    let result = session.finish_cd(
        &target,
        ShellOutcome::Exited { success: true, code: Some(0), stdout: "/tmp\n".to_string(), stderr: String::new() },
    );
    assert_eq!(result.exit_code, 0);
    assert_eq!(session.get_cwd(), "/tmp");
    match session.prepare("pwd") {
        LocalAction::Run { command } => assert_eq!(command, "pwd"),
        _ => panic!("expected a shell run"),
    }

    // cd with no argument goes to the home directory
    let home = dirs::home_dir().unwrap().to_string_lossy().to_string();
    match session.prepare("cd") {
        LocalAction::ChangeDir { target } => assert_eq!(target, home),
        _ => panic!("expected a change to the home directory"),
    }
}

#[test]
fn test_cd_nonexistent() {
    let session = LocalSession::with_environment("test", "/bin/sh".to_string(), "/".to_string());
    let initial_cwd = session.get_cwd().to_string();
    match session.prepare("cd /nonexistent_path_12345") {
        LocalAction::Reply(result) => {
            assert_ne!(result.exit_code, 0);
            assert!(result.stderr.contains("No such file"));
        },
        _ => panic!("expected a failure"),
    }
    assert_eq!(session.get_cwd(), initial_cwd);
}

#[test]
fn cd_to_missing_directory_keeps_cwd_and_fails_with_code_one() {
    let session = LocalSession::with_environment("t", "/bin/sh".to_string(), "/var".to_string());
    match session.prepare("cd missing_dir_98765") {
        LocalAction::Reply(r) => {
            assert_eq!(r.exit_code, 1);
            assert_eq!(r.stderr, "cd: /var/missing_dir_98765: No such file or directory\n");
        },
        _ => panic!("expected a failure"),
    }
    assert_eq!(session.get_cwd(), "/var");
}

#[test]
fn cd_targets_resolve_against_cwd_and_home() {
    assert_eq!(resolve_cd_target("/a", Some("/home/u".to_string()), Some("b")), Some("/a/b".to_string()));
    assert_eq!(resolve_cd_target("/a", Some("/home/u".to_string()), Some("/x")), Some("/x".to_string()));
    assert_eq!(resolve_cd_target("/a", Some("/home/u".to_string()), Some("~/src")), Some("/home/u/src".to_string()));
    assert_eq!(resolve_cd_target("/a", None, Some("~/src")), Some("/a/~/src".to_string()));
    assert_eq!(resolve_cd_target("/a", Some("/home/u".to_string()), None), Some("/home/u".to_string()));
    assert_eq!(resolve_cd_target("/a", None, None), None);
}

#[test]
fn cd_probe_distinguishes_missing_and_not_a_directory() {
    match cd_probe("/f".to_string(), true, false) {
        LocalAction::Reply(r) => assert_eq!(r.stderr, "cd: /f: Not a directory\n"),
        _ => panic!("expected a failure"),
    }
    match cd_probe("/f".to_string(), false, false) {
        LocalAction::Reply(r) => assert_eq!(r.stderr, "cd: /f: No such file or directory\n"),
        _ => panic!("expected a failure"),
    }
    assert!(matches!(cd_probe("/d".to_string(), true, true), LocalAction::ChangeDir { .. }));
}

#[test]
fn failed_or_empty_cd_keeps_cwd() {
    let mut s = LocalSession::with_environment("t", "/bin/sh".to_string(), "/start".to_string());
    let r = s.finish_cd("/x", ShellOutcome::Exited { success: true, code: Some(0), stdout: "  \n".to_string(), stderr: "oops".to_string() });
    assert_eq!(r.exit_code, 1);
    assert_eq!(r.stderr, "oops");
    assert_eq!(s.get_cwd(), "/start");
    let r = s.finish_cd("/x", ShellOutcome::Exited { success: false, code: Some(2), stdout: String::new(), stderr: "no".to_string() });
    assert_eq!(r.exit_code, 2);
    let r = s.finish_cd("/x", ShellOutcome::SpawnFailed("not found".to_string()));
    assert_eq!(r.stderr, "cd: /x: not found\n");
    assert_eq!(r.exit_code, 1);
    assert_eq!(s.get_cwd(), "/start");
}

#[test]
fn cd_detection_needs_the_word_cd() {
    assert!(is_cd("cd"));
    assert!(is_cd("  cd /tmp "));
    assert!(!is_cd("cdrom"));
    assert!(!is_cd("echo cd"));
}

#[test]
fn process_result_defaults_missing_code() {
    let r = process_result("o".to_string(), "e".to_string(), None);
    assert_eq!(r.exit_code, -1);
    let r = process_result("o".to_string(), "e".to_string(), Some(42));
    assert_eq!(r.exit_code, 42);
    let d = ExecuteResult::default();
    assert_eq!(d.exit_code, 0);
    assert!(d.stdout.is_empty());
}

fn ssh_config() -> SshConfig {
    SshConfig { host: "example.com".to_string(), user: "testuser".to_string(), port: 22, identity_file: None }
}

#[test]
fn test_new_ssh_session() {
    let session = SshSession::new("test", ssh_config());
    assert_eq!(session.name(), "test");
    assert_eq!(session.session_type(), "ssh");
    assert!(!session.is_connected());
    assert_eq!(session.host(), "example.com");
    assert_eq!(session.user(), "testuser");
    assert_eq!(session.port(), 22);
}

#[test]
fn ssh_test_env() {
    let mut session = SshSession::new("test", ssh_config());
    session.set_env("TEST_VAR", "test_value");
    assert_eq!(session.env_value("TEST_VAR").unwrap(), "test_value");
}

#[test]
fn ssh_test_set_cwd() {
    let mut session = SshSession::new("test", ssh_config());
    session.set_cwd("/tmp").unwrap();
    assert_eq!(session.get_cwd(), "/tmp");
}

#[test]
fn remote_command_carries_cwd_and_quoted_variables() {
    let mut s = SshSession::new("r", ssh_config());
    assert!(s.prepare("ls").is_err());
    s.mark_connected(Some("/home/testuser\n"));
    assert_eq!(s.get_cwd(), "/home/testuser");
    s.set_env("K", "it's");
    s.set_env("A", "1");
    s.set_env("K", "v");
    assert_eq!(s.prepare("echo $K").unwrap(), "cd /home/testuser && export A='1' && export K='v' && echo $K");
    s.set_env("Q", "a'b");
    assert_eq!(
        s.prepare("true").unwrap(),
        "cd /home/testuser && export A='1' && export K='v' && export Q='a'\\''b' && true"
    );
}

#[test]
fn remote_disconnect_and_connect_are_idempotent() {
    let mut s = SshSession::new("r", ssh_config());
    assert!(s.disconnect().is_ok());
    assert!(s.disconnect().is_ok());
    assert!(s.needs_handshake());
    s.mark_connected(None);
    assert!(!s.needs_handshake());
    assert_eq!(s.get_cwd(), "/");
}

#[test]
fn remote_cd_refreshes_cwd_only_after_success() {
    let mut s = SshSession::new("r", ssh_config());
    assert!(SshSession::wants_cwd_refresh("cd /etc", 0));
    assert!(!SshSession::wants_cwd_refresh("cd /etc", 1));
    assert!(!SshSession::wants_cwd_refresh("ls", 0));
    s.refresh_cwd(&ExecuteResult { stdout: "/etc\n".to_string(), stderr: String::new(), exit_code: 0 });
    assert_eq!(s.get_cwd(), "/etc");
    s.refresh_cwd(&ExecuteResult { stdout: "/x\n".to_string(), stderr: String::new(), exit_code: 1 });
    assert_eq!(s.get_cwd(), "/etc");
}
