use mt5_adapter::config::{default_timeout, default_true, Mt5Config};

fn base_config() -> Mt5Config {
    Mt5Config::default()
}

#[test]
fn test_config_validation() {
    let mut config = Mt5Config::default();
    assert!(config.validate().is_err());

    config.api_key = "test_key".to_string();
    assert!(config.validate().is_err());

    config.api_secret = "test_secret".to_string();
    assert!(config.validate().is_ok());
}

#[test]
fn test_ws_url() {
    let config = Mt5Config {
        server_addr: "192.168.1.100:9876".to_string(),
        use_tls: false,
        ..Default::default()
    };
    assert_eq!(config.ws_url(), "ws://192.168.1.100:9876/client");

    let config_tls = Mt5Config {
        server_addr: "example.com:9876".to_string(),
        use_tls: true,
        ..Default::default()
    };
    assert_eq!(config_tls.ws_url(), "wss://example.com:9876/client");
}

#[test]
fn validation_error_order() {
    // empty address: the address error, whatever key and secret hold
    let mut config = base_config();
    config.server_addr = String::new();
    config.api_key = "k".to_string();
    config.api_secret = "s".to_string();
    assert_eq!(config.validate(), Err("Server address is required".to_string()));

    config.api_key = String::new();
    config.api_secret = String::new();
    assert_eq!(config.validate(), Err("Server address is required".to_string()));

    // address set, key empty: the key error, whatever the secret holds
    let mut config = base_config();
    config.api_key = String::new();
    config.api_secret = "s".to_string();
    assert_eq!(config.validate(), Err("API key is required".to_string()));

    // address and key set: only then the secret error
    let mut config = base_config();
    config.api_key = "k".to_string();
    config.api_secret = String::new();
    assert_eq!(config.validate(), Err("API secret is required".to_string()));
}

#[test]
fn default_config_values() {
    let config = Mt5Config::default();
    assert_eq!(config.server_addr, "localhost:9876");
    assert!(config.api_key.is_empty());
    assert!(config.api_secret.is_empty());
    assert!(!config.use_tls);
    assert_eq!(config.timeout_secs, default_timeout());
    assert_eq!(config.auto_reconnect, default_true());
}
