//! Canonical domain types: instruments, trades, candles, errors and the
//! events a stream emits. Prices and quantities are fixed-point integers
//! in micro-units (millionths), quantized at the wire boundary.

use vstd::prelude::*;

verus! {

/// The venue a symbol trades on.
#[derive(Debug, Clone, Copy, PartialEq, Eq, Structural, Hash)]
pub enum Exchange {
    MetaTrader5,
}

/// A tradable symbol on a venue; the pair is the unique key.
#[derive(Debug, Clone, PartialEq, Eq, Hash)]
pub struct Ticker {
    pub symbol: String,
    pub exchange: Exchange,
}

impl Ticker {
    /// A ticker for a symbol on a venue.
    pub fn new(symbol: &str, exchange: Exchange) -> (r: Ticker)
        ensures
            r.symbol@ == symbol@,
            r.exchange == exchange,
    {
        Ticker { symbol: symbol.to_owned(), exchange }
    }
}

/// Immutable metadata of one instrument.
#[derive(Debug, Clone, PartialEq, Eq)]
pub struct TickerInfo {
    pub ticker: Ticker,
    /// Minimum price increment, in micro-units; always positive.
    pub min_ticksize: u64,
    /// Minimum order size, in micro-units.
    pub min_lot: u64,
    /// Contract size, in micro-units, when the venue reports one.
    pub contract_size: Option<u64>,
}

impl TickerInfo {
    /// Metadata for a ticker.
    pub fn new(ticker: Ticker, min_ticksize: u64, min_lot: u64, contract_size: Option<u64>) -> (r:
        TickerInfo)
        ensures
            r == (TickerInfo { ticker, min_ticksize, min_lot, contract_size }),
    {
        TickerInfo { ticker, min_ticksize, min_lot, contract_size }
    }

    /// A field-for-field copy whose contract pins every field, where a
    /// derived clone would promise nothing.
    pub fn duplicate(&self) -> (r: TickerInfo)
        ensures
            r.ticker.symbol@ == self.ticker.symbol@,
            r.ticker.exchange == self.ticker.exchange,
            r.min_ticksize == self.min_ticksize,
            r.min_lot == self.min_lot,
            r.contract_size == self.contract_size,
    {
        TickerInfo {
            ticker: Ticker {
                symbol: self.ticker.symbol.clone(),
                exchange: self.ticker.exchange,
            },
            min_ticksize: self.min_ticksize,
            min_lot: self.min_lot,
            contract_size: self.contract_size,
        }
    }
}

/// Price statistics of one instrument. In this dialect statistics come
/// from the live stream, so requests for them return no entries.
#[derive(Debug, Clone, PartialEq, Eq)]
pub struct TickerStats {
    /// Last traded price, in micro-units.
    pub last_price: u64,
    /// Daily traded volume, in micro-units.
    pub daily_volume: u64,
}

/// A candle timeframe, minute to day granularity.
#[derive(Debug, Clone, Copy, PartialEq, Eq, Structural)]
pub enum Timeframe {
    M1,
    M3,
    M5,
    M15,
    M30,
    H1,
    H2,
    H4,
    H12,
    D1,
}

/// The dialect's code for a timeframe.
pub open spec fn tf_code(tf: Timeframe) -> Seq<char> {
    match tf {
        Timeframe::M1 => "M1"@,
        Timeframe::M3 => "M3"@,
        Timeframe::M5 => "M5"@,
        Timeframe::M15 => "M15"@,
        Timeframe::M30 => "M30"@,
        Timeframe::H1 => "H1"@,
        Timeframe::H2 => "H2"@,
        Timeframe::H4 => "H4"@,
        Timeframe::H12 => "H12"@,
        Timeframe::D1 => "D1"@,
    }
}

/// The dialect's code for a timeframe.
pub fn timeframe_to_mt5_string(tf: Timeframe) -> (r: &'static str)
    ensures
        r@ == tf_code(tf),
{
    match tf {
        Timeframe::M1 => "M1",
        Timeframe::M3 => "M3",
        Timeframe::M5 => "M5",
        Timeframe::M15 => "M15",
        Timeframe::M30 => "M30",
        Timeframe::H1 => "H1",
        Timeframe::H2 => "H2",
        Timeframe::H4 => "H4",
        Timeframe::H12 => "H12",
        Timeframe::D1 => "D1",
    }
}

/// One trade print, price quantized to the instrument's tick size.
#[derive(Debug, Clone, Copy, PartialEq, Eq, Structural)]
pub struct Trade {
    /// Epoch milliseconds.
    pub time: u64,
    /// Whether the aggressor sold.
    pub is_sell: bool,
    /// Price in micro-units, a multiple of the tick size.
    pub price: u64,
    /// Quantity in micro-units.
    pub qty: u64,
}

/// One candle; when the venue reports only aggregate volume, the buy and
/// sell halves each carry half the total (a documented approximation).
#[derive(Debug, Clone, Copy, PartialEq, Eq, Structural)]
pub struct Kline {
    /// Open time, epoch milliseconds.
    pub time: u64,
    pub open: u64,
    pub high: u64,
    pub low: u64,
    pub close: u64,
    pub buy_volume: u64,
    pub sell_volume: u64,
}

/// Why an adapter call failed.
#[derive(Debug, Clone, PartialEq, Eq)]
pub enum AdapterError {
    /// Transport-level connect, read or write failure, or an explicit
    /// authentication rejection.
    WebsocketError(String),
    /// A frame that failed schema validation in a context that needed it.
    ParseError(String),
}

impl AdapterError {
    /// The human-readable description carried by the error.
    pub fn message(&self) -> (r: &str)
        ensures
            r@ == match self {
                AdapterError::WebsocketError(m) => m@,
                AdapterError::ParseError(m) => m@,
            },
    {
        match self {
            AdapterError::WebsocketError(m) => m.as_str(),
            AdapterError::ParseError(m) => m.as_str(),
        }
    }
}

/// One price level of the book: price and quantity, both in micro-units.
#[derive(Debug, Clone, Copy, PartialEq, Eq, Structural)]
pub struct DepthLevel {
    pub price: u64,
    pub qty: u64,
}

/// What a stream emits outward.
#[derive(Debug, Clone, PartialEq)]
pub enum Event {
    /// The stream reached its steady state.
    Connected(Exchange),
    /// The connection attempt ended, with a human-readable reason.
    Disconnected(Exchange, String),
    /// A depth update was applied: the book's time, its bid and ask levels
    /// at emission, and the trades buffered since the previous depth event.
    DepthReceived(TickerInfo, u64, Vec<DepthLevel>, Vec<DepthLevel>, Vec<Trade>),
}

} // verus!
