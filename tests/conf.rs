use idlesync::{Account, Conf, LogConfig, LogLevel, MissingConfigError};
use idlesync::conf::parse_level;

fn account(tls: bool, port: Option<u16>, name: Option<&str>) -> Account {
    Account {
        host: "mail.example.com".to_string(),
        user: "u".to_string(),
        pass: "p".to_string(),
        tls,
        commands: vec![],
        port,
        name: name.map(|n| n.to_string()),
        folders: None,
    }
}

#[test]
fn log_config_default_is_info_without_file() {
    let l = LogConfig::default();
    assert_eq!(l.level, "info");
    assert_eq!(l.file, "");
    assert_eq!(l.log_level(), LogLevel::Info);
}

#[test]
fn account_default_values() {
    let a = Account::default();
    assert_eq!(a.host, "localhost");
    assert_eq!(a.port, Some(993));
    assert!(a.tls);
    assert_eq!(a.user, "");
    assert_eq!(a.pass, "");
    assert_eq!(a.name, Some("default".to_string()));
    assert!(a.commands.is_empty());
    assert!(a.folders.is_none());
}

#[test]
fn port_defaults_by_transport() {
    assert_eq!(account(true, None, None).port_or_default(), 993);
    assert_eq!(account(false, None, None).port_or_default(), 143);
    assert_eq!(account(true, Some(1993), None).port_or_default(), 1993);
    assert_eq!(account(false, Some(10143), None).port_or_default(), 10143);
}

#[test]
fn display_name_falls_back_to_host() {
    assert_eq!(account(true, None, None).display_name(), "mail.example.com");
    assert_eq!(account(true, None, Some("work")).display_name(), "work");
}

#[test]
fn conf_defaults() {
    let c = Conf::default();
    assert_eq!(c.retry, 60);
    assert_eq!(c.idle_timeout, 600);
    assert!(c.accounts.is_empty());
    assert_eq!(c.log.level, "info");
}

#[test]
fn conf_from_parts_fills_missing_entries() {
    let c = Conf::from_parts(None, None, None, None);
    assert_eq!(c.retry, 60);
    assert_eq!(c.idle_timeout, 600);
    assert!(c.accounts.is_empty());
    assert_eq!(c.log.level, "info");
    assert_eq!(c.log.file, "");

    let log = LogConfig { level: "warn".to_string(), file: "/tmp/x.log".to_string() };
    let c = Conf::from_parts(Some(5), Some(10), Some(vec![account(true, None, None)]), Some(log));
    assert_eq!(c.retry, 5);
    assert_eq!(c.idle_timeout, 10);
    assert_eq!(c.accounts.len(), 1);
    assert_eq!(c.log.level, "warn");
    assert_eq!(c.log.file, "/tmp/x.log");
    let s = c.settings();
    assert_eq!(s.retry, 5);
    assert_eq!(s.idle_timeout, 10);
}

#[test]
fn enable_debug_sets_level_only() {
    let mut c = Conf::from_parts(Some(7), None, None, None);
    c.enable_debug();
    assert_eq!(c.log.level, "debug");
    assert_eq!(c.log.log_level(), LogLevel::Debug);
    assert_eq!(c.retry, 7);
    assert_eq!(c.idle_timeout, 600);
}

#[test]
fn level_names() {
    assert_eq!(parse_level(&"debug".to_string()), LogLevel::Debug);
    assert_eq!(parse_level(&"info".to_string()), LogLevel::Info);
    assert_eq!(parse_level(&"warn".to_string()), LogLevel::Warn);
    assert_eq!(parse_level(&"error".to_string()), LogLevel::Error);
    assert_eq!(parse_level(&"verbose".to_string()), LogLevel::Info);
    assert_eq!(parse_level(&"".to_string()), LogLevel::Info);
}

#[test]
fn source_path_choice() {
    let given = Some("/etc/a.yaml".to_string());
    let found = Some("/home/u/.config/idlesync/config.yaml".to_string());
    assert_eq!(Conf::source_path(given.clone(), found.clone()), given);
    assert_eq!(Conf::source_path(None, found.clone()), found);
    assert_eq!(Conf::source_path(None, None), None);
    assert_eq!(Conf::source_path(Some(String::new()), found), None);
}

#[test]
fn missing_config_error_texts() {
    let e = MissingConfigError::new("no config.yaml".to_string());
    assert_eq!(e.description(), "no config.yaml");
    assert_eq!(e.message(), "configuration file missing");
}
