use mt5_adapter::config::Mt5Config;
use mt5_adapter::machine::{Phase, StreamAction, StreamEvent, StreamMachine};
use mt5_adapter::types::{Event, Exchange, Ticker, TickerInfo};
use mt5_adapter::wire::decode_frame;

const TICK: u64 = 100;

fn test_config(auto_reconnect: bool) -> Mt5Config {
    Mt5Config {
        server_addr: "192.168.1.100:9876".to_string(),
        api_key: "test_key".to_string(),
        api_secret: "test_secret".to_string(),
        use_tls: false,
        timeout_secs: 30,
        auto_reconnect,
    }
}

fn test_info() -> TickerInfo {
    TickerInfo::new(Ticker::new("EURUSD", Exchange::MetaTrader5), TICK, 10_000, None)
}

fn frame(machine: &StreamMachine, raw: &str) -> StreamEvent {
    let _ = machine;
    StreamEvent::Frame(decode_frame(raw, TICK))
}

/// The backoff delays for consecutive failures double from one second and
/// cap at sixty.
#[test]
fn reconnect_backoff_sequence() {
    let mut machine = StreamMachine::new(test_config(true), test_info());
    let mut observed: Vec<u64> = Vec::new();
    for _ in 0..9 {
        // each attempt fails while connecting
        let acts = machine.step(StreamEvent::TransportFailed("refused".to_string()), 0);
        assert_eq!(acts.len(), 2);
        match &acts[1] {
            StreamAction::Sleep(secs) => observed.push(*secs),
            other => panic!("expected a sleep, got {:?}", other),
        }
        let acts = machine.step(StreamEvent::SleepDone, 0);
        assert_eq!(acts.len(), 1);
        assert!(matches!(acts[0], StreamAction::Connect(_)));
    }
    assert_eq!(observed, vec![1, 2, 4, 8, 16, 32, 60, 60, 60]);
}

#[test]
fn stopped_when_auto_reconnect_off() {
    let mut machine = StreamMachine::new(test_config(false), test_info());
    let acts = machine.step(StreamEvent::TransportFailed("refused".to_string()), 0);
    assert_eq!(acts.len(), 2);
    assert_eq!(
        acts[0],
        StreamAction::Emit(Event::Disconnected(Exchange::MetaTrader5, "refused".to_string()))
    );
    assert_eq!(acts[1], StreamAction::Stop);
    assert_eq!(machine.phase, Phase::Stopped);
}

/// Connect, authenticate, subscribe, stream: the emitted event carries
/// exactly the levels of the depth frame and no trades.
#[test]
fn end_to_end_scenario() {
    let mut machine = StreamMachine::new(test_config(true), test_info());
    assert!(matches!(
        machine.initial_action(),
        StreamAction::Connect(url) if url == "ws://192.168.1.100:9876/client"
    ));

    // transport opens: the signed auth request goes out
    let acts = machine.step(StreamEvent::Opened, 1704355200000);
    assert_eq!(acts.len(), 1);
    match &acts[0] {
        StreamAction::SendText(t) => {
            assert!(t.starts_with(r#"{"type":"auth","api_key":"test_key","timestamp":1704355200000,"signature":""#));
            assert!(t.ends_with(r#""}"#));
        }
        other => panic!("expected the auth request, got {:?}", other),
    }
    assert_eq!(machine.phase, Phase::Authenticating);

    // successful auth response: subscribe goes out and Connected is emitted
    let ev = frame(&machine, r#"{"type":"auth_response","success":true}"#);
    let acts = machine.step(ev, 0);
    assert_eq!(acts.len(), 2);
    assert_eq!(
        acts[0],
        StreamAction::SendText(
            r#"{"type":"subscribe","symbols":["EURUSD"],"channels":["trade","depth"]}"#.to_string()
        )
    );
    assert_eq!(acts[1], StreamAction::Emit(Event::Connected(Exchange::MetaTrader5)));
    assert_eq!(machine.phase, Phase::Streaming);

    // a depth frame arrives with no trades buffered yet
    let ev = frame(&machine, r#"{"type":"depth","time":7,"bids":[[1.2345,3]],"asks":[[1.2346,2]]}"#);
    let acts = machine.step(ev, 0);
    assert_eq!(acts.len(), 1);
    match &acts[0] {
        StreamAction::Emit(Event::DepthReceived(info, time, bids, asks, trades)) => {
            assert_eq!(info.ticker.symbol, "EURUSD");
            assert_eq!(*time, 7);
            assert_eq!(bids.len(), 1);
            assert_eq!((bids[0].price, bids[0].qty), (1_234_500, 3_000_000));
            assert_eq!(asks.len(), 1);
            assert_eq!((asks[0].price, asks[0].qty), (1_234_600, 2_000_000));
            assert!(trades.is_empty());
        }
        other => panic!("expected a depth event, got {:?}", other),
    }
}

/// Trades received between two depth frames are drained together exactly
/// once into the following depth event, and the buffer is empty after.
#[test]
fn trades_drain_with_next_depth_event() {
    let mut machine = StreamMachine::new(test_config(true), test_info());
    machine.step(StreamEvent::Opened, 0);
    let ev = frame(&machine, r#"{"type":"auth_response","success":true}"#);
    machine.step(ev, 0);

    let ev = frame(&machine, r#"{"type":"trade","time":1,"price":1.0,"volume":1,"side":"buy"}"#);
    assert!(machine.step(ev, 0).is_empty());
    let ev = frame(&machine, r#"{"type":"trade","time":2,"price":1.1,"volume":2,"side":"sell"}"#);
    assert!(machine.step(ev, 0).is_empty());
    assert_eq!(machine.trades.len(), 2);

    let ev = frame(&machine, r#"{"type":"depth","time":5,"bids":[[1.0,1]],"asks":[]}"#);
    let acts = machine.step(ev, 0);
    match &acts[0] {
        StreamAction::Emit(Event::DepthReceived(_, _, _, _, trades)) => {
            assert_eq!(trades.len(), 2);
            assert_eq!(trades[0].time, 1);
            assert!(!trades[0].is_sell);
            assert_eq!(trades[1].time, 2);
            assert!(trades[1].is_sell);
        }
        other => panic!("expected a depth event, got {:?}", other),
    }
    // drained exactly once: the buffer is empty immediately after
    assert!(machine.trades.is_empty());

    // the next depth event carries no trades
    let ev = frame(&machine, r#"{"type":"depth","time":6,"bids":[[1.0,2]],"asks":[]}"#);
    let acts = machine.step(ev, 0);
    match &acts[0] {
        StreamAction::Emit(Event::DepthReceived(_, _, _, _, trades)) => assert!(trades.is_empty()),
        other => panic!("expected a depth event, got {:?}", other),
    }
}

#[test]
fn heartbeat_answered_and_errors_tolerated() {
    let mut machine = StreamMachine::new(test_config(true), test_info());
    machine.step(StreamEvent::Opened, 0);
    let ev = frame(&machine, r#"{"type":"auth_response","success":true}"#);
    machine.step(ev, 0);

    let ev = frame(&machine, r#"{"type":"heartbeat"}"#);
    let acts = machine.step(ev, 123);
    assert_eq!(acts, vec![StreamAction::SendText(r#"{"type":"ping","time":123}"#.to_string())]);

    // a server error frame and a malformed frame end nothing
    let ev = frame(&machine, r#"{"type":"error","error":"slow down"}"#);
    assert!(machine.step(ev, 0).is_empty());
    let ev = frame(&machine, "garbage");
    assert!(machine.step(ev, 0).is_empty());
    assert_eq!(machine.phase, Phase::Streaming);
}

#[test]
fn close_during_auth_wait_reports_missing_response() {
    let mut machine = StreamMachine::new(test_config(true), test_info());
    machine.step(StreamEvent::Opened, 0);
    assert_eq!(machine.phase, Phase::Authenticating);

    // the server closes before any auth response arrived
    let acts = machine.step(StreamEvent::TransportClosed, 0);
    assert_eq!(
        acts[0],
        StreamAction::Emit(Event::Disconnected(
            Exchange::MetaTrader5,
            "No auth response received".to_string()
        ))
    );
    // no subscribe frame was ever sent and no depth event emitted
    assert_eq!(acts.len(), 2);
    assert!(matches!(acts[1], StreamAction::Sleep(_)));
    assert_eq!(machine.phase, Phase::BackingOff);
}

#[test]
fn close_while_streaming_reports_clean_close() {
    let mut machine = StreamMachine::new(test_config(true), test_info());
    machine.step(StreamEvent::Opened, 0);
    let ev = frame(&machine, r#"{"type":"auth_response","success":true}"#);
    machine.step(ev, 0);
    assert_eq!(machine.phase, Phase::Streaming);

    let acts = machine.step(StreamEvent::TransportClosed, 0);
    assert_eq!(
        acts[0],
        StreamAction::Emit(Event::Disconnected(
            Exchange::MetaTrader5,
            "Connection closed".to_string()
        ))
    );
}

#[test]
fn auth_rejection_disconnects_with_server_reason() {
    let mut machine = StreamMachine::new(test_config(true), test_info());
    machine.step(StreamEvent::Opened, 0);
    let ev = frame(&machine, r#"{"type":"auth_response","success":false,"error":"bad key"}"#);
    let acts = machine.step(ev, 0);
    assert_eq!(
        acts[0],
        StreamAction::Emit(Event::Disconnected(Exchange::MetaTrader5, "bad key".to_string()))
    );
    assert_eq!(machine.phase, Phase::BackingOff);
}

#[test]
fn timeouts_disconnect_with_their_reasons() {
    let mut machine = StreamMachine::new(test_config(true), test_info());
    let acts = machine.step(StreamEvent::TimedOut, 0);
    assert_eq!(
        acts[0],
        StreamAction::Emit(Event::Disconnected(
            Exchange::MetaTrader5,
            "Connection timeout".to_string()
        ))
    );

    let mut machine = StreamMachine::new(test_config(true), test_info());
    machine.step(StreamEvent::Opened, 0);
    let acts = machine.step(StreamEvent::TimedOut, 0);
    assert_eq!(
        acts[0],
        StreamAction::Emit(Event::Disconnected(
            Exchange::MetaTrader5,
            "Auth response timeout".to_string()
        ))
    );
}

#[test]
fn book_resets_on_reconnect() {
    let mut machine = StreamMachine::new(test_config(true), test_info());
    machine.step(StreamEvent::Opened, 0);
    let ev = frame(&machine, r#"{"type":"auth_response","success":true}"#);
    machine.step(ev, 0);
    let ev = frame(&machine, r#"{"type":"depth","time":5,"bids":[[1.0,1]],"asks":[]}"#);
    machine.step(ev, 0);
    assert!(machine.cache.has_snapshot);

    machine.step(StreamEvent::TransportClosed, 0);
    let acts = machine.step(StreamEvent::SleepDone, 0);
    assert!(matches!(acts[0], StreamAction::Connect(_)));
    assert_eq!(machine.phase, Phase::Connecting);
    // the cache starts empty on reconnect: a fresh snapshot is required
    assert!(!machine.cache.has_snapshot);
    assert_eq!(machine.cache.book().0.len(), 0);
}
