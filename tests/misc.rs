use thop::cli::{parse_file_spec, shell_escape};
use thop::config::{Config, Settings};
use thop::logger::{LogLevel, Logger};

#[test]
fn test_shell_escape() {
    assert_eq!(shell_escape("simple"), "simple");
    assert_eq!(shell_escape("with space"), "'with space'");
    assert_eq!(shell_escape("with'quote"), "'with'\\''quote'");
}

#[test]
fn shell_escape_quotes_specials() {
    assert_eq!(shell_escape("$HOME"), "'$HOME'");
    assert_eq!(shell_escape("a\\b"), "'a\\b'");
    assert_eq!(shell_escape(""), "");
}

#[test]
fn file_specs_split_on_the_first_colon() {
    assert_eq!(parse_file_spec("prod:/etc/hosts"), ("prod".to_string(), "/etc/hosts".to_string()));
    assert_eq!(parse_file_spec("C:\\x"), (String::new(), "C:\\x".to_string()));
    assert_eq!(parse_file_spec("/plain/path"), (String::new(), "/plain/path".to_string()));
    assert_eq!(parse_file_spec(":x"), (String::new(), ":x".to_string()));
    assert_eq!(parse_file_spec("ab:c:d"), ("ab".to_string(), "c:d".to_string()));
}

#[test]
fn test_default_config() {
    let config = Config::default();
    assert_eq!(config.settings.default_session, "local");
    assert_eq!(config.settings.command_timeout, 300);
    assert!(config.sessions.contains_key("local"));
}

#[test]
fn mod_test_get_session() {
    let config = Config::default();
    assert!(config.get_session("local").is_some());
    assert!(config.get_session("nonexistent").is_none());
}

#[test]
fn default_settings_values() {
    let s = Settings::default();
    assert_eq!(s.reconnect_attempts, 5);
    assert_eq!(s.reconnect_backoff_base, 2);
    assert_eq!(s.log_level, "info");
    assert_eq!(Config::default().session_names(), vec!["local"]);
}

#[test]
fn test_log_level_from_str() {
    assert_eq!(LogLevel::from_str("debug"), LogLevel::Debug);
    assert_eq!(LogLevel::from_str("DEBUG"), LogLevel::Debug);
    assert_eq!(LogLevel::from_str("info"), LogLevel::Info);
    assert_eq!(LogLevel::from_str("warn"), LogLevel::Warn);
    assert_eq!(LogLevel::from_str("warning"), LogLevel::Warn);
    assert_eq!(LogLevel::from_str("error"), LogLevel::Error);
    assert_eq!(LogLevel::from_str("off"), LogLevel::Off);
    assert_eq!(LogLevel::from_str("none"), LogLevel::Off);
    assert_eq!(LogLevel::from_str("unknown"), LogLevel::Info);
}

#[test]
fn test_log_level_ordering() {
    assert!(LogLevel::Debug > LogLevel::Info);
    assert!(LogLevel::Info > LogLevel::Warn);
    assert!(LogLevel::Warn > LogLevel::Error);
    assert!(LogLevel::Error > LogLevel::Off);
}

#[test]
fn logger_lines_respect_the_level() {
    let logger = Logger::new(LogLevel::Warn, None);
    assert_eq!(logger.line(LogLevel::Error, "T", "m"), Some("[T] ERROR - m\n".to_string()));
    assert_eq!(logger.line(LogLevel::Info, "T", "m"), None);
    assert_eq!(logger.line(LogLevel::Off, "T", "m"), None);
    assert!(logger.echoes(LogLevel::Error));
    assert!(!logger.echoes(LogLevel::Debug));
}
