use mt5_adapter::modal::{Action, Message, Mt5ConfigModal, TestStatus};

#[test]
fn edits_update_config_and_reset_test_status() {
    let mut modal = Mt5ConfigModal::new();
    assert!(modal.is_new);
    assert_eq!(modal.test_status, TestStatus::Idle);

    let action = modal.update(Message::ServerAddressChanged("10.0.0.1:9876".to_string()));
    assert_eq!(action, Action::Idle);
    assert_eq!(modal.config.server_addr, "10.0.0.1:9876");

    let action = modal.update(Message::ApiKeyChanged("k".to_string()));
    assert_eq!(action, Action::Idle);
    let action = modal.update(Message::ApiSecretChanged("s".to_string()));
    assert_eq!(action, Action::Idle);
    let action = modal.update(Message::UseTlsChanged(true));
    assert_eq!(action, Action::Idle);
    assert!(modal.config.use_tls);
    let action = modal.update(Message::AutoReconnectChanged(false));
    assert_eq!(action, Action::Idle);
    assert!(!modal.config.auto_reconnect);
}

#[test]
fn test_connection_flow() {
    let mut modal = Mt5ConfigModal::new();
    let action = modal.update(Message::TestConnection);
    match action {
        Action::TestConnection(c) => assert_eq!(c.server_addr, modal.config.server_addr),
        other => panic!("expected a test action, got {:?}", other),
    }
    assert_eq!(modal.test_status, TestStatus::Testing);

    modal.update(Message::ConnectionTestResult(true, "ok".to_string()));
    assert_eq!(modal.test_status, TestStatus::Success("ok".to_string()));
    modal.update(Message::ConnectionTestResult(false, "no route".to_string()));
    assert_eq!(modal.test_status, TestStatus::Failed("no route".to_string()));
}

#[test]
fn save_validates_first() {
    let mut modal = Mt5ConfigModal::new();
    // the default config has an empty key: saving must fail on it
    let action = modal.update(Message::Save);
    assert_eq!(action, Action::Idle);
    assert_eq!(modal.test_status, TestStatus::Failed("API key is required".to_string()));

    modal.update(Message::ApiKeyChanged("k".to_string()));
    modal.update(Message::ApiSecretChanged("s".to_string()));
    let action = modal.update(Message::Save);
    match action {
        Action::SaveConfig(c) => {
            assert_eq!(c.api_key, "k");
            assert_eq!(c.api_secret, "s");
        }
        other => panic!("expected a save action, got {:?}", other),
    }
}

#[test]
fn cancel_exits() {
    let mut modal = Mt5ConfigModal::new();
    assert_eq!(modal.update(Message::Cancel), Action::Exit);
}
