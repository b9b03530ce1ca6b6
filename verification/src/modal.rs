//! Connection configuration dialog: the editable configuration, the
//! connection-test status, and the update logic mapping user messages to
//! actions. Rendering belongs to the surrounding application.

use crate::config::Mt5Config;
use vstd::prelude::*;

verus! {

/// What the user did in the dialog.
#[derive(Debug, Clone)]
pub enum Message {
    /// Server address changed.
    ServerAddressChanged(String),
    /// API key changed.
    ApiKeyChanged(String),
    /// API secret changed.
    ApiSecretChanged(String),
    /// TLS toggle changed.
    UseTlsChanged(bool),
    /// Auto-reconnect toggle changed.
    AutoReconnectChanged(bool),
    /// Test-connection button pressed.
    TestConnection,
    /// A connection test finished: whether it succeeded, and its message.
    ConnectionTestResult(bool, String),
    /// Save the configuration.
    Save,
    /// Close the dialog.
    Cancel,
}

/// What the dialog asks the application to do.
#[derive(Debug, Clone, PartialEq)]
pub enum Action {
    /// Save this configuration.
    SaveConfig(Mt5Config),
    /// Test a connection with this configuration.
    TestConnection(Mt5Config),
    /// Close the dialog.
    Exit,
    /// Nothing to do.
    Idle,
}

/// Where the connection test stands.
#[derive(Debug, Clone, PartialEq, Default)]
pub enum TestStatus {
    #[default]
    Idle,
    Testing,
    Success(String),
    Failed(String),
}

/// The dialog's state: the configuration being edited, the test status,
/// and whether this edits a new connection.
#[derive(Debug, Clone)]
pub struct Mt5ConfigModal {
    pub config: Mt5Config,
    pub test_status: TestStatus,
    pub is_new: bool,
}

/// The fields of two configurations are equal.
pub open spec fn same_config(a: Mt5Config, b: Mt5Config) -> bool {
    a.server_addr@ == b.server_addr@ && a.api_key@ == b.api_key@ && a.api_secret@ == b.api_secret@
        && a.use_tls == b.use_tls && a.timeout_secs == b.timeout_secs && a.auto_reconnect
        == b.auto_reconnect
}

impl Mt5ConfigModal {
    /// A dialog for a new connection, with the default configuration.
    pub fn new() -> (r: Mt5ConfigModal)
        ensures
            r.config.server_addr@ == "localhost:9876"@,
            r.config.api_key@.len() == 0,
            r.config.api_secret@.len() == 0,
            !r.config.use_tls,
            r.config.timeout_secs == 30,
            r.config.auto_reconnect,
            r.test_status == TestStatus::Idle,
            r.is_new,
    {
        Mt5ConfigModal { config: Mt5Config::default(), test_status: TestStatus::Idle, is_new: true }
    }

    /// Applies one user message. Edits update the configuration and reset
    /// the test status; `Save` validates first and reports the first
    /// failing field instead of saving.
    pub fn update(&mut self, message: Message) -> (r: Action)
        ensures
            final(self).is_new == old(self).is_new,
            match message {
                Message::ServerAddressChanged(addr) => final(self).config == (Mt5Config {
                    server_addr: addr,
                    ..old(self).config
                }) && final(self).test_status == TestStatus::Idle && r == Action::Idle,
                Message::ApiKeyChanged(key) => final(self).config == (Mt5Config {
                    api_key: key,
                    ..old(self).config
                }) && final(self).test_status == TestStatus::Idle && r == Action::Idle,
                Message::ApiSecretChanged(secret) => final(self).config == (Mt5Config {
                    api_secret: secret,
                    ..old(self).config
                }) && final(self).test_status == TestStatus::Idle && r == Action::Idle,
                Message::UseTlsChanged(use_tls) => final(self).config == (Mt5Config {
                    use_tls,
                    ..old(self).config
                }) && final(self).test_status == TestStatus::Idle && r == Action::Idle,
                Message::AutoReconnectChanged(auto_reconnect) => final(self).config == (Mt5Config {
                    auto_reconnect,
                    ..old(self).config
                }) && final(self).test_status == old(self).test_status && r == Action::Idle,
                Message::TestConnection => {
                    &&& final(self).config == old(self).config
                    &&& final(self).test_status == TestStatus::Testing
                    &&& (r matches Action::TestConnection(c) && same_config(c, old(self).config))
                },
                Message::ConnectionTestResult(success, msg) => {
                    &&& final(self).config == old(self).config
                    &&& final(self).test_status == (if success {
                        TestStatus::Success(msg)
                    } else {
                        TestStatus::Failed(msg)
                    })
                    &&& r == Action::Idle
                },
                Message::Save => if old(self).config.server_addr@.len() > 0 && old(self).config.api_key@.len()
                    > 0 && old(self).config.api_secret@.len() > 0 {
                    *final(self) == *old(self) && (r matches Action::SaveConfig(c) && same_config(
                        c,
                        old(self).config,
                    ))
                } else {
                    final(self).config == old(self).config && (final(self).test_status matches
                        TestStatus::Failed(m) && m@ == (if old(self).config.server_addr@.len()
                        == 0 {
                        "Server address is required"@
                    } else if old(self).config.api_key@.len() == 0 {
                        "API key is required"@
                    } else {
                        "API secret is required"@
                    })) && r == Action::Idle
                },
                Message::Cancel => *final(self) == *old(self) && r == Action::Exit,
            },
    {
        match message {
            Message::ServerAddressChanged(addr) => {
                self.config.server_addr = addr;
                self.test_status = TestStatus::Idle;
                Action::Idle
            },
            Message::ApiKeyChanged(key) => {
                self.config.api_key = key;
                self.test_status = TestStatus::Idle;
                Action::Idle
            },
            Message::ApiSecretChanged(secret) => {
                self.config.api_secret = secret;
                self.test_status = TestStatus::Idle;
                Action::Idle
            },
            Message::UseTlsChanged(use_tls) => {
                self.config.use_tls = use_tls;
                self.test_status = TestStatus::Idle;
                Action::Idle
            },
            Message::AutoReconnectChanged(auto_reconnect) => {
                self.config.auto_reconnect = auto_reconnect;
                Action::Idle
            },
            Message::TestConnection => {
                self.test_status = TestStatus::Testing;
                Action::TestConnection(self.config.duplicate())
            },
            Message::ConnectionTestResult(success, msg) => {
                self.test_status = if success {
                    TestStatus::Success(msg)
                } else {
                    TestStatus::Failed(msg)
                };
                Action::Idle
            },
            Message::Save => {
                match self.config.validate() {
                    Err(e) => {
                        self.test_status = TestStatus::Failed(e);
                        Action::Idle
                    },
                    Ok(_) => Action::SaveConfig(self.config.duplicate()),
                }
            },
            Message::Cancel => Action::Exit,
        }
    }
}

impl Default for Mt5ConfigModal {
    /// The same dialog `new` makes.
    fn default() -> (r: Self)
        ensures
            r.test_status == TestStatus::Idle,
            r.is_new,
    {
        Self::new()
    }
}

} // verus!
