use thop::sshconfig::{parse_port, SshConfigParser};

#[test]
fn test_parse_basic() {
    let config = r#"
Host myserver
    HostName example.com
    User deploy
    Port 2222

Host prod
    HostName production.example.com
    User admin
    IdentityFile ~/.ssh/prod_key
    ForwardAgent yes
"#;
    let parser = SshConfigParser::from_text(config, Some("/home/u".to_string()));

    let entry = parser.get("myserver").unwrap();
    assert_eq!(entry.hostname.as_deref(), Some("example.com"));
    assert_eq!(entry.user.as_deref(), Some("deploy"));
    assert_eq!(entry.port, Some(2222));

    let entry = parser.get("prod").unwrap();
    assert_eq!(entry.hostname.as_deref(), Some("production.example.com"));
    assert_eq!(entry.user.as_deref(), Some("admin"));
    assert!(entry.forward_agent);
    assert_eq!(entry.identity_file.as_deref(), Some("/home/u/.ssh/prod_key"));
}

#[test]
fn test_resolve_hostname() {
    let config = "\nHost myalias\n    HostName real.server.com\n";
    let parser = SshConfigParser::from_text(config, None);
    assert_eq!(parser.resolve_hostname("myalias"), "real.server.com");
    assert_eq!(parser.resolve_hostname("unknown"), "unknown");
}

#[test]
fn test_resolve_port() {
    let config = "\nHost custom\n    Port 3333\n";
    let parser = SshConfigParser::from_text(config, None);
    assert_eq!(parser.resolve_port("custom"), 3333);
    assert_eq!(parser.resolve_port("unknown"), 22);
}

#[test]
fn test_proxy_jump() {
    let config = "\nHost internal\n    HostName internal.server.com\n    ProxyJump bastion.example.com\n";
    let parser = SshConfigParser::from_text(config, None);
    let entry = parser.get("internal").unwrap();
    assert_eq!(entry.proxy_jump.as_deref(), Some("bastion.example.com"));
}

#[test]
fn comments_quotes_case_and_bad_ports() {
    let config = "# comment\nHOST a\n  user \"quoted\"\n  Port 70000\n  forwardagent YES\nHost b\nPort +8\nnovalue\n";
    let parser = SshConfigParser::from_text(config, None);
    assert_eq!(parser.resolve_user("a").as_deref(), Some("quoted"));
    assert_eq!(parser.resolve_port("a"), 22);
    assert!(parser.forward_agent("a"));
    assert_eq!(parser.resolve_port("b"), 8);
    assert!(!parser.forward_agent("b"));
    assert!(parser.resolve_identity_file("a").is_none());
    assert!(parser.resolve_proxy_jump("b").is_none());
}

#[test]
fn later_blocks_for_a_host_win() {
    let mut parser = SshConfigParser::from_text("Host h\n Port 1\n", None);
    parser.parse("Host h\n Port 2\n", None);
    assert_eq!(parser.resolve_port("h"), 2);
}

#[test]
fn port_parsing_follows_u16_rules() {
    assert_eq!(parse_port("22"), Some(22));
    assert_eq!(parse_port("+22"), Some(22));
    assert_eq!(parse_port("65535"), Some(65535));
    assert_eq!(parse_port("65536"), None);
    assert_eq!(parse_port(""), None);
    assert_eq!(parse_port("+"), None);
    assert_eq!(parse_port("2a"), None);
    assert_eq!(parse_port("-1"), None);
    assert_eq!(parse_port("0099"), Some(99));
}
