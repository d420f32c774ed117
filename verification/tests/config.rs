use subversive::config::{Args, Config, HostnameAction};

fn empty_args() -> Args {
    Args {
        port: None,
        peer: None,
        database: None,
        name: None,
        hostname: None,
        config: None,
        noip_hostname: None,
        noip_username: None,
        noip_password: None,
        opendns_hostname: None,
        opendns_username: None,
        opendns_password: None,
        opendns_network: None,
        survival_mode: None,
        log_level: None,
    }
}

#[test]
fn test_default_config() {
    let config = Config::default_config();

    // Check default values
    assert!(config.port.is_some());
    assert!(config.port.unwrap() >= 10000, "Port should be >= 10000");
    assert_eq!(config.peer, None);
    assert_eq!(config.database, Some("p2p_network.db".to_string()));
    assert_eq!(config.name, Some("p2p_network".to_string()));
    assert_eq!(config.hostname, None);
    assert_eq!(config.noip_hostname, None);
    assert_eq!(config.noip_username, None);
    assert_eq!(config.noip_password, None);
    assert_eq!(config.opendns_hostname, None);
    assert_eq!(config.opendns_username, None);
    assert_eq!(config.opendns_password, None);
    assert_eq!(config.opendns_network, None);
    assert_eq!(config.survival_mode, None);
    assert_eq!(config.log_level, Some("info".to_string()));
}

#[test]
fn test_merge_with_args() {
    let config = Config {
        port: Some(8080),
        peer: Some("https://peer1:8080".to_string()),
        database: Some("config.db".to_string()),
        name: Some("config_node".to_string()),
        hostname: Some("config.example.com".to_string()),
        noip_hostname: None,
        noip_username: None,
        noip_password: None,
        opendns_hostname: None,
        opendns_username: None,
        opendns_password: None,
        opendns_network: None,
        survival_mode: None,
        log_level: Some("info".to_string()),
    };

    // Create args that override some values
    let args = Args {
        port: Some(9090),
        peer: Some("https://peer2:8080".to_string()),
        database: None, // Keep config value
        name: Some("arg_node".to_string()),
        hostname: None, // Keep config value
        config: None,
        noip_hostname: None,
        noip_username: None,
        noip_password: None,
        opendns_hostname: None,
        opendns_username: None,
        opendns_password: None,
        opendns_network: None,
        survival_mode: Some(true),
        log_level: Some("debug".to_string()),
    };

    let merged = config.merge_with_args(&args);

    // Check that args override config values when present
    assert_eq!(merged.port, Some(9090));
    assert_eq!(merged.peer, Some("https://peer2:8080".to_string()));
    assert_eq!(merged.database, Some("config.db".to_string())); // Kept from config
    assert_eq!(merged.name, Some("arg_node".to_string()));
    assert_eq!(merged.hostname, Some("config.example.com".to_string())); // Kept from config
    assert_eq!(merged.survival_mode, Some(true));
    assert_eq!(merged.log_level, Some("debug".to_string()));
}

#[test]
fn test_getters() {
    let mut config = Config::default_config();
    config.port = Some(8080);
    config.database = Some("test.db".to_string());
    config.name = Some("test_node".to_string());
    config.hostname = Some("test.example.com".to_string());
    config.log_level = Some("debug".to_string());

    assert_eq!(config.get_port(), 8080);
    assert_eq!(config.get_database(), "test.db");
    assert_eq!(config.get_name(), "test_node");
    assert_eq!(config.get_hostname(), Some("test.example.com".to_string()));
    assert_eq!(config.get_log_level(), "debug");

    // Test defaults when values are None
    let mut empty_config = Config::default_config();
    empty_config.port = None;
    empty_config.database = None;
    empty_config.name = None;
    empty_config.hostname = None;
    empty_config.log_level = None;

    assert_eq!(empty_config.get_port(), 0); // Default from u16
    assert_eq!(empty_config.get_database(), "");
    assert_eq!(empty_config.get_name(), "");
    assert_eq!(empty_config.get_hostname(), None);
    assert_eq!(empty_config.get_log_level(), "info");
}

#[test]
fn test_update_log_level() {
    let mut config = Config::default_config();
    assert_eq!(config.get_log_level(), "info");

    config.update_log_level("debug".to_string());
    assert_eq!(config.get_log_level(), "debug");

    config.update_log_level("trace".to_string());
    assert_eq!(config.get_log_level(), "trace");
}

#[test]
fn test_config_merge() {
    let config = Config::default_config();
    let mut args = empty_args();
    args.port = Some(8081);
    let merged = config.merge_with_args(&args);
    assert_eq!(merged.port, Some(8081));
}

#[test]
fn test_merge_with_empty_args_keeps_config() {
    let mut config = Config::default_config();
    config.survival_mode = Some(true);
    let merged = config.merge_with_args(&empty_args());
    assert_eq!(merged.port, config.port);
    assert_eq!(merged.database, config.database);
    assert_eq!(merged.log_level, config.log_level);
    // A configured survival mode stays when the arguments leave it unset.
    assert_eq!(merged.survival_mode, Some(true));
    let mut args = empty_args();
    args.survival_mode = Some(false);
    assert_eq!(config.merge_with_args(&args).survival_mode, Some(false));
}

#[test]
fn test_default_hostname() {
    let mut config = Config::default_config();
    config.hostname = Some("static".to_string());
    config.noip_hostname = Some("noip".to_string());
    assert_eq!(Config::default_hostname(&mut config), HostnameAction::Settled);
    assert_eq!(config.hostname, Some("static".to_string()));

    config.hostname = None;
    config.opendns_hostname = Some("opendns".to_string());
    assert_eq!(Config::default_hostname(&mut config), HostnameAction::Settled);
    assert_eq!(config.hostname, Some("noip".to_string()));

    config.hostname = None;
    config.noip_hostname = None;
    assert_eq!(Config::default_hostname(&mut config), HostnameAction::Settled);
    assert_eq!(config.hostname, Some("opendns".to_string()));

    config.hostname = None;
    config.opendns_hostname = None;
    assert_eq!(Config::default_hostname(&mut config), HostnameAction::LookUp);
    assert_eq!(config.hostname, None);
}

#[test]
fn test_load_config_no_file() {
    let mut args = empty_args();
    args.port = Some(8080);
    args.name = Some("test_node".to_string());
    let mut config = Config::default_config();
    Config::default_hostname(&mut config);
    let config = config.merge_with_args(&args);
    assert_eq!(config.port, Some(8080));
    assert_eq!(config.name, Some("test_node".to_string()));
    assert_eq!(config.database, Some("p2p_network.db".to_string()));
    assert_eq!(config.log_level, Some("info".to_string()));
}

#[test]
fn test_load_config() {
    let from_file = Config {
        port: Some(12345),
        peer: None,
        database: Some("config.db".to_string()),
        name: Some("config_node".to_string()),
        hostname: None,
        noip_hostname: None,
        noip_username: None,
        noip_password: None,
        opendns_hostname: None,
        opendns_username: None,
        opendns_password: None,
        opendns_network: None,
        survival_mode: None,
        log_level: Some("debug".to_string()),
    };
    let mut args = empty_args();
    args.port = Some(54321);
    args.name = Some("cli_node".to_string());
    let config = from_file.merge_with_args(&args);
    assert_eq!(config.port, Some(54321));
    assert_eq!(config.name, Some("cli_node".to_string()));
    assert_eq!(config.database, Some("config.db".to_string()));
    assert_eq!(config.log_level, Some("debug".to_string()));
}
