use mt5_adapter::json::{
    build_auth_request, build_klines_request, build_ping_request, build_subscribe_request,
    build_symbols_request, json_escape,
};
use mt5_adapter::types::Timeframe;

#[test]
fn escaping() {
    assert_eq!(json_escape("plain"), "plain");
    assert_eq!(json_escape(r#"a"b"#), r#"a\"b"#);
    assert_eq!(json_escape(r"a\b"), r"a\\b");
    assert_eq!(json_escape("a\nb\tc\rd"), r"a\nb\tc\rd");
    assert_eq!(json_escape("\u{1}"), r"\u0001");
    assert_eq!(json_escape("\u{1f}"), r"\u001f");
}

#[test]
fn auth_request_round_trips() {
    let text = build_auth_request("test_key", 1704355200000, "secret");
    let v: serde_json::Value = serde_json::from_str(&text).expect("valid JSON");
    assert_eq!(v["type"], "auth");
    assert_eq!(v["api_key"], "test_key");
    assert_eq!(v["timestamp"], 1704355200000u64);
    assert_eq!(
        v["signature"],
        "c77e3f1da5d8bf1a0ac93ab66f6952db0286884264c9145d516bca357600b3e7"
    );
}

#[test]
fn subscribe_request_text() {
    assert_eq!(
        build_subscribe_request("EURUSD"),
        r#"{"type":"subscribe","symbols":["EURUSD"],"channels":["trade","depth"]}"#
    );
}

#[test]
fn symbols_request_text() {
    assert_eq!(build_symbols_request(), r#"{"type":"get_symbols"}"#);
}

#[test]
fn klines_request_text() {
    assert_eq!(
        build_klines_request("EURUSD", Timeframe::M1, 500, None),
        r#"{"type":"get_klines","symbol":"EURUSD","timeframe":"M1","limit":500}"#
    );
    assert_eq!(
        build_klines_request("XAUUSD", Timeframe::H4, 200, Some((1000, 2000))),
        r#"{"type":"get_klines","symbol":"XAUUSD","timeframe":"H4","limit":200,"start":1000,"end":2000}"#
    );
}

#[test]
fn ping_request_text() {
    assert_eq!(build_ping_request(42), r#"{"type":"ping","time":42}"#);
}
