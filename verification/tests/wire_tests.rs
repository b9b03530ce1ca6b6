use mt5_adapter::types::{Exchange, Trade};
use mt5_adapter::wire::{
    convert_klines_response, convert_symbols_response, decode_frame, interpret_auth_frame,
    AuthReply, InboundMsg,
};

const TICK: u64 = 100; // 0.0001 in micro-units

#[test]
fn decode_trade_frame() {
    let raw = r#"{"type":"trade","time":1700000000123,"price":1.23456,"volume":2.5,"side":"sell"}"#;
    let msg = decode_frame(raw, TICK);
    assert_eq!(
        msg,
        InboundMsg::TradeMsg(Trade {
            time: 1700000000123,
            is_sell: true,
            price: 1_234_600, // 1.23456 quantized to the 0.0001 grid, half up
            qty: 2_500_000,
        })
    );

    let raw = r#"{"type":"trade","time":5,"price":2,"volume":1,"side":"buy"}"#;
    match decode_frame(raw, TICK) {
        InboundMsg::TradeMsg(t) => {
            assert!(!t.is_sell);
            assert_eq!(t.price, 2_000_000);
        }
        other => panic!("expected a trade, got {:?}", other),
    }
}

#[test]
fn decode_depth_frame() {
    let raw = r#"{"type":"depth","time":42,"bids":[[1.2345,3],[1.2344,1.5]],"asks":[[1.2346,2]]}"#;
    match decode_frame(raw, TICK) {
        InboundMsg::DepthMsg(p) => {
            assert_eq!(p.last_update_id, 42);
            assert_eq!(p.time, 42);
            assert_eq!(p.bids.len(), 2);
            assert_eq!((p.bids[0].price, p.bids[0].qty), (1_234_500, 3_000_000));
            assert_eq!((p.bids[1].price, p.bids[1].qty), (1_234_400, 1_500_000));
            assert_eq!(p.asks.len(), 1);
            assert_eq!((p.asks[0].price, p.asks[0].qty), (1_234_600, 2_000_000));
        }
        other => panic!("expected depth, got {:?}", other),
    }
}

#[test]
fn decode_control_frames() {
    assert_eq!(decode_frame(r#"{"type":"heartbeat"}"#, TICK), InboundMsg::Heartbeat);
    assert_eq!(
        decode_frame(r#"{"type":"error","error":"bad symbol"}"#, TICK),
        InboundMsg::ServerError("bad symbol".to_string())
    );
    // an unrecognized type is ignored, not an error
    assert_eq!(decode_frame(r#"{"type":"news","headline":"x"}"#, TICK), InboundMsg::Ignored);
    // text that is no frame at all
    assert_eq!(decode_frame("not json", TICK), InboundMsg::Malformed);
    assert_eq!(decode_frame(r#"{"no_type":1}"#, TICK), InboundMsg::Malformed);
    // a recognized type whose body fails validation
    assert_eq!(
        decode_frame(r#"{"type":"trade","time":1,"price":-3,"volume":1,"side":"buy"}"#, TICK),
        InboundMsg::Malformed
    );
}

#[test]
fn decode_auth_response_frames() {
    assert_eq!(
        decode_frame(r#"{"type":"auth_response","success":true}"#, TICK),
        InboundMsg::AuthResponse { success: true, error: None }
    );
    assert_eq!(
        decode_frame(r#"{"type":"auth_response","success":false,"error":"bad key"}"#, TICK),
        InboundMsg::AuthResponse { success: false, error: Some("bad key".to_string()) }
    );
}

#[test]
fn auth_frame_interpretation() {
    assert_eq!(interpret_auth_frame(r#"{"type":"auth_response","success":true}"#), AuthReply::Accepted);
    assert_eq!(
        interpret_auth_frame(r#"{"type":"auth_response","success":false,"error":"denied"}"#),
        AuthReply::Rejected("denied".to_string())
    );
    assert_eq!(
        interpret_auth_frame(r#"{"type":"auth_response","success":false}"#),
        AuthReply::Rejected("Auth failed".to_string())
    );
    assert_eq!(interpret_auth_frame(r#"{"type":"heartbeat"}"#), AuthReply::NotAuthFrame);
    assert_eq!(interpret_auth_frame("garbage"), AuthReply::Invalid);
}

#[test]
fn klines_conversion_splits_volume() {
    let raw = r#"{"data":[
        {"time":1000,"open":1.0,"high":1.5,"low":0.5,"close":1.2,"volume":10},
        {"time":2000,"open":"bad","high":1,"low":1,"close":1,"volume":1},
        {"time":3000,"open":2.0,"high":2.0,"low":2.0,"close":2.0,"volume":3}
    ]}"#;
    let klines = convert_klines_response(raw, TICK).expect("well-formed response");
    // the malformed middle entry is skipped, not fatal
    assert_eq!(klines.len(), 2);
    let k = &klines[0];
    assert_eq!(k.time, 1000);
    assert_eq!(k.open, 1_000_000);
    assert_eq!(k.high, 1_500_000);
    assert_eq!(k.low, 500_000);
    assert_eq!(k.close, 1_200_000);
    // aggregate volume 10 with no buy/sell split: half to each side
    assert_eq!(k.buy_volume, 5_000_000);
    assert_eq!(k.sell_volume, 5_000_000);
    assert_eq!(klines[1].time, 3000);

    assert_eq!(convert_klines_response("no data here", TICK), None);
}

#[test]
fn symbols_conversion_skips_malformed_entries() {
    let raw = r#"{"data":[
        {"symbol":"EURUSD","tick_size":0.00001,"min_lot":0.01,"contract_size":100000},
        {"symbol":"BAD"},
        {"symbol":"XAUUSD","tick_size":0.01,"min_lot":0.01,"contract_size":100}
    ]}"#;
    let infos = convert_symbols_response(raw).expect("well-formed response");
    assert_eq!(infos.len(), 2);
    assert_eq!(infos[0].ticker.symbol, "EURUSD");
    assert_eq!(infos[0].ticker.exchange, Exchange::MetaTrader5);
    assert_eq!(infos[0].min_ticksize, 10); // 0.00001 in micro-units
    assert_eq!(infos[0].min_lot, 10_000);
    assert_eq!(infos[0].contract_size, Some(100_000_000_000));
    assert_eq!(infos[1].ticker.symbol, "XAUUSD");
    assert_eq!(infos[1].min_ticksize, 10_000);

    assert_eq!(convert_symbols_response("garbage"), None);
}

#[test]
fn symbols_conversion_keeps_one_entry_per_symbol() {
    // of duplicate symbols the later entry wins, and the result is a
    // mapping: one entry per symbol
    let raw = r#"{"data":[
        {"symbol":"EURUSD","tick_size":0.00001,"min_lot":0.01,"contract_size":100000},
        {"symbol":"XAUUSD","tick_size":0.01,"min_lot":0.01,"contract_size":100},
        {"symbol":"EURUSD","tick_size":0.0001,"min_lot":0.1,"contract_size":100000}
    ]}"#;
    let infos = convert_symbols_response(raw).expect("well-formed response");
    assert_eq!(infos.len(), 2);
    let eurusd = infos
        .iter()
        .find(|i| i.ticker.symbol == "EURUSD")
        .expect("EURUSD is present once");
    assert_eq!(eurusd.min_ticksize, 100); // 0.0001: the later entry's tick
    assert_eq!(eurusd.min_lot, 100_000);
    assert_eq!(infos.iter().filter(|i| i.ticker.symbol == "EURUSD").count(), 1);
}
