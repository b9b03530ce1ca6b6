//! Connection configuration: the server address, credentials and options
//! for one proxy server, with validation and URL construction.

use vstd::prelude::*;

verus! {

/// Connection settings for one proxy server. The API secret is kept only
/// in memory; persisted forms of a connection leave it out.
#[derive(Debug, Clone, PartialEq)]
pub struct Mt5Config {
    /// Server address, `host:port`.
    pub server_addr: String,
    /// API key sent with the authentication request.
    pub api_key: String,
    /// API secret used as the signing key; never serialized.
    pub api_secret: String,
    /// Whether to connect over TLS.
    pub use_tls: bool,
    /// Connection timeout in seconds.
    pub timeout_secs: u64,
    /// Whether to reconnect automatically after a disconnect.
    pub auto_reconnect: bool,
}

/// The connection timeout used when none is configured.
pub fn default_timeout() -> (r: u64)
    ensures
        r == 30,
{
    30
}

/// The auto-reconnect setting used when none is configured.
pub fn default_true() -> (r: bool)
    ensures
        r,
{
    true
}

impl Default for Mt5Config {
    /// An empty configuration pointing at a local server.
    fn default() -> (r: Self)
        ensures
            r.server_addr@ == "localhost:9876"@,
            r.api_key@.len() == 0,
            r.api_secret@.len() == 0,
            !r.use_tls,
            r.timeout_secs == 30,
            r.auto_reconnect,
    {
        Mt5Config {
            server_addr: "localhost:9876".to_owned(),
            api_key: String::new(),
            api_secret: String::new(),
            use_tls: false,
            timeout_secs: 30,
            auto_reconnect: true,
        }
    }
}

/// The client endpoint URL for an address: `ws://` or `wss://` by the TLS
/// flag, then the address, then the dialect's client path.
pub open spec fn ws_url_of(use_tls: bool, addr: Seq<char>) -> Seq<char> {
    (if use_tls {
        "wss"@
    } else {
        "ws"@
    }) + "://"@ + addr + "/client"@
}

impl Mt5Config {
    /// The WebSocket URL of the client endpoint for this configuration.
    pub fn ws_url(&self) -> (r: String)
        ensures
            r@ == ws_url_of(self.use_tls, self.server_addr@),
    {
        let mut s = if self.use_tls {
            "wss".to_owned()
        } else {
            "ws".to_owned()
        };
        s.append("://");
        s.append(self.server_addr.as_str());
        s.append("/client");
        assert(s@ =~= ws_url_of(self.use_tls, self.server_addr@));
        s
    }

    /// A field-for-field copy whose contract pins every field, where a
    /// derived clone would promise nothing.
    pub fn duplicate(&self) -> (r: Mt5Config)
        ensures
            r.server_addr@ == self.server_addr@,
            r.api_key@ == self.api_key@,
            r.api_secret@ == self.api_secret@,
            r.use_tls == self.use_tls,
            r.timeout_secs == self.timeout_secs,
            r.auto_reconnect == self.auto_reconnect,
    {
        Mt5Config {
            server_addr: self.server_addr.clone(),
            api_key: self.api_key.clone(),
            api_secret: self.api_secret.clone(),
            use_tls: self.use_tls,
            timeout_secs: self.timeout_secs,
            auto_reconnect: self.auto_reconnect,
        }
    }

    /// Checks that address, key and secret are present, in that order: the
    /// first empty field of the three determines the error, and the result
    /// is `Ok` exactly when all three are non-empty.
    pub fn validate(&self) -> (r: Result<(), String>)
        ensures
            match r {
                Ok(_) => self.server_addr@.len() > 0 && self.api_key@.len() > 0
                    && self.api_secret@.len() > 0,
                Err(e) => if self.server_addr@.len() == 0 {
                    e@ == "Server address is required"@
                } else if self.api_key@.len() == 0 {
                    e@ == "API key is required"@
                } else {
                    self.api_secret@.len() == 0 && e@ == "API secret is required"@
                },
            },
    {
        if self.server_addr.as_str().is_empty() {
            return Err("Server address is required".to_owned());
        }
        if self.api_key.as_str().is_empty() {
            return Err("API key is required".to_owned());
        }
        if self.api_secret.as_str().is_empty() {
            return Err("API secret is required".to_owned());
        }
        Ok(())
    }
}

} // verus!
