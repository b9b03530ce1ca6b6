//! Persisted application state: saved layouts, display settings, and the
//! configured proxy connections. A persisted connection never carries the
//! API secret.

use vstd::prelude::*;

verus! {

/// One saved dashboard layout, by name.
#[derive(Debug, Clone, PartialEq)]
pub struct Layout {
    pub name: String,
}

/// The saved layouts and which of them is active.
#[derive(Debug, Clone, PartialEq)]
pub struct Layouts {
    pub layouts: Vec<Layout>,
    pub active_layout: Option<String>,
}

/// A color theme, by name.
#[derive(Debug, Clone, PartialEq)]
pub struct Theme(pub String);

/// Position and size of the main window, in physical pixels.
#[derive(Debug, Clone, Copy, PartialEq, Eq, Structural)]
pub struct WindowSpec {
    pub x: i64,
    pub y: i64,
    pub width: u64,
    pub height: u64,
}

/// Which clock timestamps are displayed in.
#[derive(Debug, Clone, Copy, PartialEq, Eq, Structural)]
pub enum UserTimezone {
    Utc,
    Local,
}

/// Sidebar display settings.
#[derive(Debug, Clone, Copy, PartialEq, Eq, Structural)]
pub struct Sidebar {
    pub visible: bool,
}

/// Interface scale, in percent of the native size.
#[derive(Debug, Clone, Copy, PartialEq, Eq, Structural)]
pub struct ScaleFactor(pub u32);

/// Audio notification settings.
#[derive(Debug, Clone, Copy, PartialEq, Eq, Structural)]
pub struct AudioStream {
    pub enabled: bool,
    pub volume: u32,
}

/// Whether order sizes are shown in the base or the quote currency.
#[derive(Debug, Clone, Copy, PartialEq, Eq, Structural)]
pub enum SizeUnit {
    BaseCurrency,
    QuoteCurrency,
}

/// One configured proxy connection, in its persisted form: the secret is
/// excluded by construction — this type has no field for it.
#[derive(Debug, Clone, PartialEq)]
pub struct Mt5Connection {
    /// Display name for this connection.
    pub name: String,
    /// Server address, `host:port`.
    pub server_addr: String,
    /// API key for authentication.
    pub api_key: String,
    /// Whether to connect over TLS.
    pub use_tls: bool,
    /// Whether to reconnect automatically after a disconnect.
    pub auto_reconnect: bool,
}

/// All configured proxy connections and which of them is active.
#[derive(Debug, Clone, PartialEq)]
pub struct Mt5Settings {
    pub connections: Vec<Mt5Connection>,
    pub active_connection: Option<String>,
}

impl Mt5Settings {
    /// No connections configured, none active.
    pub fn empty() -> (r: Mt5Settings)
        ensures
            r.connections@.len() == 0,
            r.active_connection is None,
    {
        Mt5Settings { connections: Vec::new(), active_connection: None }
    }
}

/// The whole persisted application state.
#[derive(Debug, Clone, PartialEq)]
pub struct State {
    pub layout_manager: Layouts,
    pub selected_theme: Theme,
    pub custom_theme: Option<Theme>,
    pub main_window: Option<WindowSpec>,
    pub timezone: UserTimezone,
    pub sidebar: Sidebar,
    pub scale_factor: ScaleFactor,
    pub audio_cfg: AudioStream,
    pub trade_fetch_enabled: bool,
    pub size_in_quote_ccy: SizeUnit,
    /// The proxy connection settings.
    pub mt5_settings: Mt5Settings,
}

impl State {
    /// Assembles a state from its parts. The caller passes the fetcher's
    /// current trade-fetch flag; the proxy settings start empty.
    pub fn from_parts(
        layout_manager: Layouts,
        selected_theme: Theme,
        custom_theme: Option<Theme>,
        main_window: Option<WindowSpec>,
        timezone: UserTimezone,
        sidebar: Sidebar,
        scale_factor: ScaleFactor,
        audio_cfg: AudioStream,
        trade_fetch_enabled: bool,
        volume_size_unit: SizeUnit,
    ) -> (r: State)
        ensures
            r.layout_manager == layout_manager,
            r.selected_theme == selected_theme,
            r.custom_theme == custom_theme,
            r.main_window == main_window,
            r.timezone == timezone,
            r.sidebar == sidebar,
            r.scale_factor == scale_factor,
            r.audio_cfg == audio_cfg,
            r.trade_fetch_enabled == trade_fetch_enabled,
            r.size_in_quote_ccy == volume_size_unit,
            r.mt5_settings.connections@.len() == 0,
            r.mt5_settings.active_connection is None,
    {
        let custom = match custom_theme {
            Some(t) => Some(Theme(t.0)),
            None => None,
        };
        State {
            layout_manager,
            selected_theme: Theme(selected_theme.0),
            custom_theme: custom,
            main_window,
            timezone,
            sidebar,
            scale_factor,
            audio_cfg,
            trade_fetch_enabled,
            size_in_quote_ccy: volume_size_unit,
            mt5_settings: Mt5Settings::empty(),
        }
    }
}

} // verus!
