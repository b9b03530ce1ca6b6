use mt5_adapter::facade::fetch_ticker_prices;
use mt5_adapter::config::Mt5Config;
use mt5_adapter::state::{
    AudioStream, Layout, Layouts, Mt5Connection, Mt5Settings, ScaleFactor, Sidebar, SizeUnit,
    State, Theme, UserTimezone, WindowSpec,
};
use mt5_adapter::types::{timeframe_to_mt5_string, AdapterError, Timeframe};

#[test]
fn state_from_parts_keeps_fields() {
    let layouts = Layouts {
        layouts: vec![Layout { name: "main".to_string() }],
        active_layout: Some("main".to_string()),
    };
    let state = State::from_parts(
        layouts.clone(),
        Theme("dark".to_string()),
        Some(Theme("custom".to_string())),
        Some(WindowSpec { x: 10, y: 20, width: 800, height: 600 }),
        UserTimezone::Utc,
        Sidebar { visible: true },
        ScaleFactor(100),
        AudioStream { enabled: false, volume: 50 },
        false,
        SizeUnit::QuoteCurrency,
    );
    assert_eq!(state.layout_manager, layouts);
    assert_eq!(state.selected_theme, Theme("dark".to_string()));
    assert_eq!(state.custom_theme, Some(Theme("custom".to_string())));
    assert_eq!(state.timezone, UserTimezone::Utc);
    assert_eq!(state.size_in_quote_ccy, SizeUnit::QuoteCurrency);
    // the flag is whatever the caller's fetcher reported
    assert!(!state.trade_fetch_enabled);
    // the proxy settings start empty
    assert!(state.mt5_settings.connections.is_empty());
    assert!(state.mt5_settings.active_connection.is_none());
}

#[test]
fn persisted_connection_has_no_secret_field() {
    // the persisted form carries name, address, key and flags — and
    // nothing else; the secret stays out of any persisted state
    let conn = Mt5Connection {
        name: "prod".to_string(),
        server_addr: "10.0.0.1:9876".to_string(),
        api_key: "k".to_string(),
        use_tls: true,
        auto_reconnect: true,
    };
    let settings = Mt5Settings {
        connections: vec![conn.clone()],
        active_connection: Some("prod".to_string()),
    };
    assert_eq!(settings.connections[0], conn);
}

#[test]
fn price_snapshot_is_empty_by_design() {
    let prices = fetch_ticker_prices(&Mt5Config::default()).expect("never fails");
    assert!(prices.is_empty());
}

#[test]
fn adapter_error_messages() {
    let e = AdapterError::WebsocketError("no route".to_string());
    assert_eq!(e.message(), "no route");
    let e = AdapterError::ParseError("bad frame".to_string());
    assert_eq!(e.message(), "bad frame");
}

#[test]
fn timeframe_codes() {
    assert_eq!(timeframe_to_mt5_string(Timeframe::M1), "M1");
    assert_eq!(timeframe_to_mt5_string(Timeframe::M15), "M15");
    assert_eq!(timeframe_to_mt5_string(Timeframe::H1), "H1");
    assert_eq!(timeframe_to_mt5_string(Timeframe::H12), "H12");
    assert_eq!(timeframe_to_mt5_string(Timeframe::D1), "D1");
}
