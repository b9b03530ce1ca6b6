//! Wire message codec, inbound side: the dialect's JSON frames mapped to
//! canonical domain types. Frame text is taken apart by a JSON parser
//! behind trusted wrappers; everything after that — decimal parsing,
//! quantization to the tick size, and frame classification — is verified
//! against the named parse results.

use crate::depth::DepthPayload;
use crate::numeric::{micro_u64_of, parse_micro, quantize, quantized, str_eq};
use crate::types::{DepthLevel, Exchange, Kline, Ticker, TickerInfo, Trade};
use vstd::prelude::*;

verus! {

/// What the JSON parser extracts from a frame: its `type`, `success` and
/// `error` fields; nothing when the text is not a JSON object with a
/// string `type`.
pub uninterp spec fn server_fields_of(raw: Seq<char>) -> Option<
    (Seq<char>, Option<bool>, Option<Seq<char>>),
>;

/// What the JSON parser extracts from a trade frame: time, price text,
/// volume text and side.
pub uninterp spec fn trade_fields_of(raw: Seq<char>) -> Option<
    (u64, Seq<char>, Seq<char>, Seq<char>),
>;

/// What the JSON parser extracts from a depth frame: time, then the
/// price and quantity texts of each bid and each ask level.
pub uninterp spec fn depth_fields_of(raw: Seq<char>) -> Option<
    (u64, Seq<(Seq<char>, Seq<char>)>, Seq<(Seq<char>, Seq<char>)>),
>;

/// What the JSON parser extracts from a response: the text of each element
/// of its `data` array.
pub uninterp spec fn data_items_of(raw: Seq<char>) -> Option<Seq<Seq<char>>>;

/// What the JSON parser extracts from one kline entry: open time, then the
/// open, high, low, close and volume texts.
pub uninterp spec fn kline_fields_of(raw: Seq<char>) -> Option<
    (u64, Seq<char>, Seq<char>, Seq<char>, Seq<char>, Seq<char>),
>;

/// What the JSON parser extracts from one symbol entry: the symbol, then
/// the tick size, minimum lot and contract size texts.
pub uninterp spec fn symbol_fields_of(raw: Seq<char>) -> Option<
    (Seq<char>, Seq<char>, Seq<char>, Seq<char>),
>;

/// Relies on serde_json: parses the frame and extracts the `type`,
/// `success` and `error` fields; the result depends on the text alone.
#[verifier::external_body]
fn parse_server_fields(raw: &str) -> (r: Option<(String, Option<bool>, Option<String>)>)
    ensures
        r.deep_view() == server_fields_of(raw@),
{
    let v: serde_json::Value = serde_json::from_str(raw).ok()?;
    let t = v.get("type")?.as_str()?.to_string();
    let success = v.get("success").and_then(serde_json::Value::as_bool);
    let error = v.get("error").and_then(serde_json::Value::as_str).map(str::to_string);
    Some((t, success, error))
}

/// Relies on serde_json: parses a trade frame's time, price, volume and
/// side; the result depends on the text alone.
#[verifier::external_body]
fn parse_trade_fields(raw: &str) -> (r: Option<(u64, String, String, String)>)
    ensures
        r.deep_view() == trade_fields_of(raw@),
{
    let v: serde_json::Value = serde_json::from_str(raw).ok()?;
    Some((
        v.get("time")?.as_u64()?,
        v.get("price")?.as_number()?.to_string(),
        v.get("volume")?.as_number()?.to_string(),
        v.get("side")?.as_str()?.to_string(),
    ))
}

/// Relies on serde_json: parses a depth frame's time and its bid and ask
/// arrays of `[price, qty]` pairs; the result depends on the text alone.
#[verifier::external_body]
fn parse_depth_fields(raw: &str) -> (r: Option<(u64, Vec<(String, String)>, Vec<(String, String)>)>)
    ensures
        r.deep_view() == depth_fields_of(raw@),
{
    let v: serde_json::Value = serde_json::from_str(raw).ok()?;
    let time = v.get("time")?.as_u64()?;
    let mut bids: Vec<(String, String)> = Vec::new();
    for e in v.get("bids")?.as_array()? {
        bids.push((e.get(0)?.as_number()?.to_string(), e.get(1)?.as_number()?.to_string()));
    }
    let mut asks: Vec<(String, String)> = Vec::new();
    for e in v.get("asks")?.as_array()? {
        asks.push((e.get(0)?.as_number()?.to_string(), e.get(1)?.as_number()?.to_string()));
    }
    Some((time, bids, asks))
}

/// Relies on serde_json: parses a response object and hands back the JSON
/// text of each element of its `data` array; the result depends on the
/// text alone.
#[verifier::external_body]
fn parse_data_items(raw: &str) -> (r: Option<Vec<String>>)
    ensures
        r.deep_view() == data_items_of(raw@),
{
    let v: serde_json::Value = serde_json::from_str(raw).ok()?;
    let mut out: Vec<String> = Vec::new();
    for item in v.get("data")?.as_array()? {
        out.push(item.to_string());
    }
    Some(out)
}

/// Relies on serde_json: parses one kline entry's time and its open, high,
/// low, close and volume texts; the result depends on the text alone.
#[verifier::external_body]
fn parse_kline_entry(raw: &str) -> (r: Option<(u64, String, String, String, String, String)>)
    ensures
        r.deep_view() == kline_fields_of(raw@),
{
    let v: serde_json::Value = serde_json::from_str(raw).ok()?;
    Some((
        v.get("time")?.as_u64()?,
        v.get("open")?.as_number()?.to_string(),
        v.get("high")?.as_number()?.to_string(),
        v.get("low")?.as_number()?.to_string(),
        v.get("close")?.as_number()?.to_string(),
        v.get("volume")?.as_number()?.to_string(),
    ))
}

/// Relies on serde_json: parses one symbol entry's symbol and its tick
/// size, minimum lot and contract size texts; the result depends on the
/// text alone.
#[verifier::external_body]
fn parse_symbol_entry(raw: &str) -> (r: Option<(String, String, String, String)>)
    ensures
        r.deep_view() == symbol_fields_of(raw@),
{
    let v: serde_json::Value = serde_json::from_str(raw).ok()?;
    Some((
        v.get("symbol")?.as_str()?.to_string(),
        v.get("tick_size")?.as_number()?.to_string(),
        v.get("min_lot")?.as_number()?.to_string(),
        v.get("contract_size")?.as_number()?.to_string(),
    ))
}

/// The canonical trade for a trade frame's fields: price and volume
/// parsed as micro-units, the price quantized to the tick size; a side of
/// `sell` marks a sale, anything else a purchase.
pub open spec fn trade_of_fields(f: (u64, Seq<char>, Seq<char>, Seq<char>), tick: u64) -> Option<
    Trade,
> {
    let (time, price_s, volume_s, side_s) = f;
    match (micro_u64_of(price_s), micro_u64_of(volume_s)) {
        (Some(p), Some(q)) => if 1 <= tick && p + tick / 2 <= u64::MAX {
            Some(
                Trade {
                    time,
                    is_sell: side_s == "sell"@,
                    price: quantized(p as nat, tick as nat) as u64,
                    qty: q,
                },
            )
        } else {
            None
        },
        _ => None,
    }
}

/// Converts a trade frame's fields into a canonical trade.
pub fn convert_trade(time: u64, price_s: &str, volume_s: &str, side_s: &str, tick: u64) -> (r:
    Option<Trade>)
    ensures
        r == trade_of_fields((time, price_s@, volume_s@, side_s@), tick),
{
    let p = match parse_micro(price_s) {
        Some(p) => p,
        None => {
            return None;
        },
    };
    let q = match parse_micro(volume_s) {
        Some(q) => q,
        None => {
            return None;
        },
    };
    if tick < 1 || p > u64::MAX - tick / 2 {
        return None;
    }
    Some(Trade { time, is_sell: str_eq(side_s, "sell"), price: quantize(p, tick), qty: q })
}

/// The canonical level for one `[price, qty]` pair: both parsed as
/// micro-units, the price quantized to the tick size. A zero quantity is
/// kept — in a delta it removes the level.
pub open spec fn level_of_fields(price_s: Seq<char>, qty_s: Seq<char>, tick: u64) -> Option<
    DepthLevel,
> {
    match (micro_u64_of(price_s), micro_u64_of(qty_s)) {
        (Some(p), Some(q)) => if 1 <= tick && p + tick / 2 <= u64::MAX {
            Some(DepthLevel { price: quantized(p as nat, tick as nat) as u64, qty: q })
        } else {
            None
        },
        _ => None,
    }
}

/// The canonical levels for a side's pairs; any malformed pair rejects
/// the whole side, so a damaged frame is dropped rather than applied in
/// part.
pub open spec fn levels_of_fields(s: Seq<(Seq<char>, Seq<char>)>, tick: u64) -> Option<
    Seq<DepthLevel>,
>
    decreases s.len(),
{
    if s.len() == 0 {
        Some(Seq::empty())
    } else {
        match (levels_of_fields(s.drop_last(), tick), level_of_fields(
            s.last().0,
            s.last().1,
            tick,
        )) {
            (Some(rest), Some(l)) => Some(rest.push(l)),
            _ => None,
        }
    }
}

proof fn lemma_levels_of_fields_none(s: Seq<(Seq<char>, Seq<char>)>, i: int, tick: u64)
    requires
        0 <= i < s.len(),
        level_of_fields(s[i].0, s[i].1, tick) is None,
    ensures
        levels_of_fields(s, tick) is None,
    decreases s.len(),
{
    if i < s.len() - 1 {
        assert(s.drop_last()[i] == s[i]);
        lemma_levels_of_fields_none(s.drop_last(), i, tick);
    }
}

/// Converts one side's pairs into canonical levels.
pub fn convert_levels(entries: &Vec<(String, String)>, tick: u64) -> (r: Option<Vec<DepthLevel>>)
    ensures
        match r {
            Some(v) => levels_of_fields(entries.deep_view(), tick) == Some(v@),
            None => levels_of_fields(entries.deep_view(), tick) is None,
        },
{
    let n = entries.len();
    let mut out: Vec<DepthLevel> = Vec::new();
    let mut i: usize = 0;
    while i < n
        invariant
            i <= n,
            n == entries@.len(),
            entries.deep_view().len() == entries@.len(),
            forall|j: int|
                0 <= j < n ==> #[trigger] entries.deep_view()[j] == (
                entries@[j].0@,
                entries@[j].1@,
            ),
            levels_of_fields(entries.deep_view().take(i as int), tick) == Some(out@),
        decreases n - i,
    {
        let l = match convert_level(&entries[i].0, &entries[i].1, tick) {
            Some(l) => l,
            None => {
                proof {
                    lemma_levels_of_fields_none(entries.deep_view(), i as int, tick);
                }
                return None;
            },
        };
        out.push(l);
        proof {
            assert(entries.deep_view().take(i + 1).drop_last() =~= entries.deep_view().take(
                i as int,
            ));
            assert(entries.deep_view().take(i + 1).last() == entries.deep_view()[i as int]);
        }
        i = i + 1;
    }
    proof {
        assert(entries.deep_view().take(n as int) =~= entries.deep_view());
    }
    Some(out)
}

/// Converts one `[price, qty]` pair into a canonical level.
pub fn convert_level(price_s: &String, qty_s: &String, tick: u64) -> (r: Option<DepthLevel>)
    ensures
        r == level_of_fields(price_s@, qty_s@, tick),
{
    let p = match parse_micro(price_s.as_str()) {
        Some(p) => p,
        None => {
            return None;
        },
    };
    let q = match parse_micro(qty_s.as_str()) {
        Some(q) => q,
        None => {
            return None;
        },
    };
    if tick < 1 || p > u64::MAX - tick / 2 {
        return None;
    }
    Some(DepthLevel { price: quantize(p, tick), qty: q })
}

/// Converts a depth frame's fields into a depth payload; its update
/// identifier is the frame's time, as the dialect carries no separate one.
pub fn convert_depth(
    time: u64,
    bids: &Vec<(String, String)>,
    asks: &Vec<(String, String)>,
    tick: u64,
) -> (r: Option<DepthPayload>)
    ensures
        match r {
            Some(p) => p.last_update_id == time && p.time == time && levels_of_fields(
                bids.deep_view(),
                tick,
            ) == Some(p.bids@) && levels_of_fields(asks.deep_view(), tick) == Some(p.asks@),
            None => levels_of_fields(bids.deep_view(), tick) is None || levels_of_fields(
                asks.deep_view(),
                tick,
            ) is None,
        },
{
    let b = match convert_levels(bids, tick) {
        Some(b) => b,
        None => {
            return None;
        },
    };
    let a = match convert_levels(asks, tick) {
        Some(a) => a,
        None => {
            return None;
        },
    };
    Some(DepthPayload { last_update_id: time, time, bids: b, asks: a })
}

/// The canonical candle for one kline entry's fields: prices parsed as
/// micro-units and quantized to the tick size. The venue reports only
/// aggregate volume, so the buy and sell halves each carry half of it —
/// a documented approximation, not a measured split.
pub open spec fn kline_of_fields(
    f: (u64, Seq<char>, Seq<char>, Seq<char>, Seq<char>, Seq<char>),
    tick: u64,
) -> Option<Kline> {
    let (time, o, h, l, c, v) = f;
    match (micro_u64_of(o), micro_u64_of(h), micro_u64_of(l), micro_u64_of(c), micro_u64_of(v)) {
        (Some(po), Some(ph), Some(pl), Some(pc), Some(vol)) => if 1 <= tick && po + tick / 2
            <= u64::MAX && ph + tick / 2 <= u64::MAX && pl + tick / 2 <= u64::MAX && pc + tick / 2
            <= u64::MAX {
            Some(
                Kline {
                    time,
                    open: quantized(po as nat, tick as nat) as u64,
                    high: quantized(ph as nat, tick as nat) as u64,
                    low: quantized(pl as nat, tick as nat) as u64,
                    close: quantized(pc as nat, tick as nat) as u64,
                    buy_volume: (vol / 2) as u64,
                    sell_volume: (vol / 2) as u64,
                },
            )
        } else {
            None
        },
        _ => None,
    }
}

/// Converts one kline entry's fields into a canonical candle.
pub fn convert_kline(
    time: u64,
    open_s: &str,
    high_s: &str,
    low_s: &str,
    close_s: &str,
    volume_s: &str,
    tick: u64,
) -> (r: Option<Kline>)
    ensures
        r == kline_of_fields((time, open_s@, high_s@, low_s@, close_s@, volume_s@), tick),
{
    let po = match parse_micro(open_s) {
        Some(p) => p,
        None => {
            return None;
        },
    };
    let ph = match parse_micro(high_s) {
        Some(p) => p,
        None => {
            return None;
        },
    };
    let pl = match parse_micro(low_s) {
        Some(p) => p,
        None => {
            return None;
        },
    };
    let pc = match parse_micro(close_s) {
        Some(p) => p,
        None => {
            return None;
        },
    };
    let vol = match parse_micro(volume_s) {
        Some(v) => v,
        None => {
            return None;
        },
    };
    if tick < 1 || po > u64::MAX - tick / 2 || ph > u64::MAX - tick / 2 || pl > u64::MAX - tick / 2
        || pc > u64::MAX - tick / 2 {
        return None;
    }
    Some(
        Kline {
            time,
            open: quantize(po, tick),
            high: quantize(ph, tick),
            low: quantize(pl, tick),
            close: quantize(pc, tick),
            buy_volume: vol / 2,
            sell_volume: vol / 2,
        },
    )
}

/// The candles of a klines response, in order, malformed entries skipped.
pub open spec fn klines_of(items: Seq<Seq<char>>, tick: u64) -> Seq<Kline>
    decreases items.len(),
{
    if items.len() == 0 {
        Seq::empty()
    } else {
        let rest = klines_of(items.drop_last(), tick);
        match kline_fields_of(items.last()) {
            Some(f) => match kline_of_fields(f, tick) {
                Some(k) => rest.push(k),
                None => rest,
            },
            None => rest,
        }
    }
}

/// Converts a klines response into candles, skipping malformed entries;
/// nothing when the response itself is not of the expected shape.
pub fn convert_klines_response(raw: &str, tick: u64) -> (r: Option<Vec<Kline>>)
    ensures
        match data_items_of(raw@) {
            Some(items) => r matches Some(v) && v@ == klines_of(items, tick),
            None => r is None,
        },
{
    let items = match parse_data_items(raw) {
        Some(items) => items,
        None => {
            return None;
        },
    };
    let n = items.len();
    let mut out: Vec<Kline> = Vec::new();
    let mut i: usize = 0;
    while i < n
        invariant
            i <= n,
            n == items@.len(),
            items.deep_view().len() == items@.len(),
            forall|j: int| 0 <= j < n ==> #[trigger] items.deep_view()[j] == items@[j]@,
            out@ =~= klines_of(items.deep_view().take(i as int), tick),
        decreases n - i,
    {
        match parse_kline_entry(items[i].as_str()) {
            Some((time, o, h, l, c, v)) => {
                match convert_kline(
                    time,
                    o.as_str(),
                    h.as_str(),
                    l.as_str(),
                    c.as_str(),
                    v.as_str(),
                    tick,
                ) {
                    Some(k) => {
                        out.push(k);
                    },
                    None => {},
                }
            },
            None => {},
        }
        proof {
            assert(items.deep_view().take(i + 1).drop_last() =~= items.deep_view().take(i as int));
            assert(items.deep_view().take(i + 1).last() == items.deep_view()[i as int]);
        }
        i = i + 1;
    }
    proof {
        assert(items.deep_view().take(n as int) =~= items.deep_view());
    }
    Some(out)
}

/// The instrument data of one symbol entry: tick size, minimum lot and
/// contract size parsed as micro-units. An entry whose tick size is not
/// positive is rejected — every price must be quantizable to it.
pub open spec fn symbol_info_of(f: (Seq<char>, Seq<char>, Seq<char>, Seq<char>)) -> Option<
    (Seq<char>, u64, u64, u64),
> {
    let (sym, tick_s, lot_s, cs_s) = f;
    match (micro_u64_of(tick_s), micro_u64_of(lot_s), micro_u64_of(cs_s)) {
        (Some(t), Some(l), Some(c)) => if t >= 1 {
            Some((sym, t, l, c))
        } else {
            None
        },
        _ => None,
    }
}

/// Converts one symbol entry's fields into instrument metadata.
pub fn convert_symbol(sym: &str, tick_s: &str, lot_s: &str, cs_s: &str) -> (r: Option<TickerInfo>)
    ensures
        match symbol_info_of((sym@, tick_s@, lot_s@, cs_s@)) {
            Some((s, t, l, c)) => r matches Some(info) && info.ticker.symbol@ == s
                && info.ticker.exchange == Exchange::MetaTrader5 && info.min_ticksize == t
                && info.min_lot == l && info.contract_size == Some(c),
            None => r is None,
        },
{
    let t = match parse_micro(tick_s) {
        Some(t) => t,
        None => {
            return None;
        },
    };
    let l = match parse_micro(lot_s) {
        Some(l) => l,
        None => {
            return None;
        },
    };
    let c = match parse_micro(cs_s) {
        Some(c) => c,
        None => {
            return None;
        },
    };
    if t < 1 {
        return None;
    }
    Some(TickerInfo::new(Ticker::new(sym, Exchange::MetaTrader5), t, l, Some(c)))
}

/// The instrument data of a symbols response, as the mapping symbol →
/// (tick size, minimum lot, contract size): malformed entries are
/// skipped, and of duplicate symbols the later entry wins.
pub open spec fn symbols_map_of(items: Seq<Seq<char>>) -> Map<Seq<char>, (u64, u64, Option<u64>)>
    decreases items.len(),
{
    if items.len() == 0 {
        Map::empty()
    } else {
        let m = symbols_map_of(items.drop_last());
        match symbol_fields_of(items.last()) {
            Some(f) => match symbol_info_of(f) {
                Some((s, t, l, c)) => m.insert(s, (t, l, Some(c))),
                None => m,
            },
            None => m,
        }
    }
}

/// The mapping that a sequence of instrument entries represents; a later
/// entry for the same symbol wins.
pub open spec fn info_map(s: Seq<TickerInfo>) -> Map<Seq<char>, (u64, u64, Option<u64>)>
    decreases s.len(),
{
    if s.len() == 0 {
        Map::empty()
    } else {
        info_map(s.drop_last()).insert(
            s.last().ticker.symbol@,
            (s.last().min_ticksize, s.last().min_lot, s.last().contract_size),
        )
    }
}

/// No two entries share a symbol.
pub open spec fn distinct_symbols(s: Seq<TickerInfo>) -> bool {
    forall|i: int, j: int|
        0 <= i < j < s.len() ==> (#[trigger] s[i]).ticker.symbol@ != (
        #[trigger] s[j]).ticker.symbol@
}

proof fn lemma_info_map_contains(s: Seq<TickerInfo>, p: Seq<char>)
    ensures
        info_map(s).dom().contains(p) <==> exists|i: int|
            0 <= i < s.len() && (#[trigger] s[i]).ticker.symbol@ == p,
    decreases s.len(),
{
    if s.len() > 0 {
        lemma_info_map_contains(s.drop_last(), p);
        if s.last().ticker.symbol@ == p {
            assert(s[s.len() - 1].ticker.symbol@ == p);
        } else if info_map(s).dom().contains(p) {
            let i = choose|i: int|
                0 <= i < s.drop_last().len() && (#[trigger] s.drop_last()[i]).ticker.symbol@ == p;
            assert(s[i].ticker.symbol@ == p);
        } else {
            if exists|i: int| 0 <= i < s.len() && (#[trigger] s[i]).ticker.symbol@ == p {
                let i = choose|i: int| 0 <= i < s.len() && (#[trigger] s[i]).ticker.symbol@ == p;
                assert(s.drop_last()[i] == s[i]);
            }
        }
    }
}

proof fn lemma_info_map_update(s: Seq<TickerInfo>, i: int, info: TickerInfo)
    requires
        0 <= i < s.len(),
        distinct_symbols(s),
        s[i].ticker.symbol@ == info.ticker.symbol@,
    ensures
        info_map(s.update(i, info)) =~= info_map(s).insert(
            info.ticker.symbol@,
            (info.min_ticksize, info.min_lot, info.contract_size),
        ),
    decreases s.len(),
{
    let t = s.update(i, info);
    if i == s.len() - 1 {
        assert(t.drop_last() =~= s.drop_last());
        assert(t.last() == info);
    } else {
        assert(t.drop_last() =~= s.drop_last().update(i, info));
        assert(t.last() == s.last());
        lemma_info_map_update(s.drop_last(), i, info);
        // the last entry's symbol differs, so the two inserts commute
        assert(s[s.len() - 1].ticker.symbol@ != s[i].ticker.symbol@);
    }
}

/// The position of a symbol among instrument entries, if it is there.
fn find_symbol(v: &Vec<TickerInfo>, sym: &str) -> (r: Option<usize>)
    ensures
        match r {
            Some(i) => i < v@.len() && v@[i as int].ticker.symbol@ == sym@,
            None => forall|j: int| 0 <= j < v@.len() ==> (#[trigger] v@[j]).ticker.symbol@ != sym@,
        },
{
    let n = v.len();
    let mut i: usize = 0;
    while i < n
        invariant
            i <= n,
            n == v@.len(),
            forall|j: int| 0 <= j < i ==> (#[trigger] v@[j]).ticker.symbol@ != sym@,
        decreases n - i,
    {
        if str_eq(v[i].ticker.symbol.as_str(), sym) {
            return Some(i);
        }
        i = i + 1;
    }
    None
}

/// Upserts one instrument entry by symbol: a repeated symbol replaces the
/// earlier entry in place.
fn upsert_info(v: &mut Vec<TickerInfo>, info: TickerInfo)
    requires
        distinct_symbols(old(v)@),
        forall|j: int|
            0 <= j < old(v)@.len() ==> (#[trigger] old(v)@[j]).ticker.exchange
                == Exchange::MetaTrader5,
        info.ticker.exchange == Exchange::MetaTrader5,
    ensures
        distinct_symbols(final(v)@),
        forall|j: int|
            0 <= j < final(v)@.len() ==> (#[trigger] final(v)@[j]).ticker.exchange
                == Exchange::MetaTrader5,
        info_map(final(v)@) == info_map(old(v)@).insert(
            info.ticker.symbol@,
            (info.min_ticksize, info.min_lot, info.contract_size),
        ),
{
    match find_symbol(v, info.ticker.symbol.as_str()) {
        Some(i) => {
            proof {
                lemma_info_map_update(v@, i as int, info);
            }
            v.set(i, info);
        },
        None => {
            v.push(info);
            proof {
                assert(v@.drop_last() =~= old(v)@);
            }
        },
    }
}

/// Converts a symbols response into instrument metadata: the result holds
/// one entry per symbol, together representing exactly the response's
/// mapping (malformed entries skipped, later duplicates winning); nothing
/// when the response itself is not of the expected shape.
pub fn convert_symbols_response(raw: &str) -> (r: Option<Vec<TickerInfo>>)
    ensures
        match data_items_of(raw@) {
            Some(items) => r matches Some(v) && distinct_symbols(v@) && info_map(v@)
                == symbols_map_of(items) && (forall|j: int|
                0 <= j < v@.len() ==> (#[trigger] v@[j]).ticker.exchange == Exchange::MetaTrader5),
            None => r is None,
        },
{
    let items = match parse_data_items(raw) {
        Some(items) => items,
        None => {
            return None;
        },
    };
    let n = items.len();
    let mut out: Vec<TickerInfo> = Vec::new();
    let mut i: usize = 0;
    while i < n
        invariant
            i <= n,
            n == items@.len(),
            items.deep_view().len() == items@.len(),
            forall|j: int| 0 <= j < n ==> #[trigger] items.deep_view()[j] == items@[j]@,
            distinct_symbols(out@),
            forall|j: int|
                0 <= j < out@.len() ==> (#[trigger] out@[j]).ticker.exchange
                    == Exchange::MetaTrader5,
            info_map(out@) == symbols_map_of(items.deep_view().take(i as int)),
        decreases n - i,
    {
        match parse_symbol_entry(items[i].as_str()) {
            Some((sym, t, l, c)) => {
                match convert_symbol(sym.as_str(), t.as_str(), l.as_str(), c.as_str()) {
                    Some(info) => {
                        upsert_info(&mut out, info);
                    },
                    None => {},
                }
            },
            None => {},
        }
        proof {
            assert(items.deep_view().take(i + 1).drop_last() =~= items.deep_view().take(i as int));
            assert(items.deep_view().take(i + 1).last() == items.deep_view()[i as int]);
        }
        i = i + 1;
    }
    proof {
        assert(items.deep_view().take(n as int) =~= items.deep_view());
    }
    Some(out)
}

/// How an authentication wait treats one frame.
#[derive(Debug, Clone, PartialEq)]
pub enum AuthReply {
    /// An `auth_response` reporting success: proceed.
    Accepted,
    /// An `auth_response` reporting failure: the server's stated error.
    Rejected(String),
    /// A frame of another type: keep waiting.
    NotAuthFrame,
    /// Text that is no frame: a parse failure, fatal while waiting.
    Invalid,
}

/// Classifies one frame received while waiting for the authentication
/// response. A missing error text on a rejection falls back to a generic
/// description.
pub fn interpret_auth_frame(raw: &str) -> (r: AuthReply)
    ensures
        match server_fields_of(raw@) {
            None => r == AuthReply::Invalid,
            Some((t, succ, err)) => if t == "auth_response"@ {
                if succ == Some(true) {
                    r == AuthReply::Accepted
                } else {
                    r matches AuthReply::Rejected(m) && m@ == (match err {
                        Some(e) => e,
                        None => "Auth failed"@,
                    })
                }
            } else {
                r == AuthReply::NotAuthFrame
            },
        },
{
    let fields = match parse_server_fields(raw) {
        Some(f) => f,
        None => {
            return AuthReply::Invalid;
        },
    };
    let (t, succ, err) = fields;
    if str_eq(t.as_str(), "auth_response") {
        let ok = match succ {
            Some(b) => b,
            None => false,
        };
        if ok {
            AuthReply::Accepted
        } else {
            AuthReply::Rejected(
                match err {
                    Some(e) => e,
                    None => "Auth failed".to_owned(),
                },
            )
        }
    } else {
        AuthReply::NotAuthFrame
    }
}

/// One inbound streaming frame, decoded.
#[derive(Debug, Clone, PartialEq)]
pub enum InboundMsg {
    /// An `auth_response` frame: the success flag and the server's error.
    AuthResponse { success: bool, error: Option<String> },
    /// A `trade` frame.
    TradeMsg(Trade),
    /// A `depth` frame.
    DepthMsg(DepthPayload),
    /// A `heartbeat` frame, to be answered promptly.
    Heartbeat,
    /// An `error` frame: reported, not fatal.
    ServerError(String),
    /// A frame of an unrecognized type: ignored by design.
    Ignored,
    /// A frame whose type is recognized but whose body fails validation,
    /// or text that is no frame at all: dropped in a stream.
    Malformed,
}

/// Decodes one streaming frame, quantizing prices to the tick size at
/// this boundary. An unrecognized `type` is not an error; a recognized
/// frame that fails validation is `Malformed`, which a stream drops and a
/// request/response exchange treats as fatal.
pub fn decode_frame(raw: &str, tick: u64) -> (r: InboundMsg)
    ensures
        match server_fields_of(raw@) {
            None => r == InboundMsg::Malformed,
            Some((t, succ, err)) => if t == "auth_response"@ {
                r matches InboundMsg::AuthResponse { success, error } && success == (succ == Some(
                    true,
                )) && error.deep_view() == err
            } else if t == "trade"@ {
                match trade_fields_of(raw@) {
                    Some(f) => match trade_of_fields(f, tick) {
                        Some(tr) => r == InboundMsg::TradeMsg(tr),
                        None => r == InboundMsg::Malformed,
                    },
                    None => r == InboundMsg::Malformed,
                }
            } else if t == "depth"@ {
                match depth_fields_of(raw@) {
                    Some((time, bf, af)) => match (levels_of_fields(bf, tick), levels_of_fields(
                        af,
                        tick,
                    )) {
                        (Some(bl), Some(al)) => r matches InboundMsg::DepthMsg(p)
                            && p.last_update_id == time && p.time == time && p.bids@ == bl
                            && p.asks@ == al,
                        _ => r == InboundMsg::Malformed,
                    },
                    None => r == InboundMsg::Malformed,
                }
            } else if t == "heartbeat"@ {
                r == InboundMsg::Heartbeat
            } else if t == "error"@ {
                r matches InboundMsg::ServerError(m) && m@ == (match err {
                    Some(e) => e,
                    None => Seq::<char>::empty(),
                })
            } else {
                r == InboundMsg::Ignored
            },
        },
{
    let fields = match parse_server_fields(raw) {
        Some(f) => f,
        None => {
            return InboundMsg::Malformed;
        },
    };
    let (t, succ, err) = fields;
    if str_eq(t.as_str(), "auth_response") {
        let success = match succ {
            Some(b) => b,
            None => false,
        };
        InboundMsg::AuthResponse { success, error: err }
    } else if str_eq(t.as_str(), "trade") {
        match parse_trade_fields(raw) {
            Some((time, p, v, s)) => {
                match convert_trade(time, p.as_str(), v.as_str(), s.as_str(), tick) {
                    Some(tr) => InboundMsg::TradeMsg(tr),
                    None => InboundMsg::Malformed,
                }
            },
            None => InboundMsg::Malformed,
        }
    } else if str_eq(t.as_str(), "depth") {
        match parse_depth_fields(raw) {
            Some((time, bids, asks)) => {
                match convert_depth(time, &bids, &asks, tick) {
                    Some(p) => InboundMsg::DepthMsg(p),
                    None => InboundMsg::Malformed,
                }
            },
            None => InboundMsg::Malformed,
        }
    } else if str_eq(t.as_str(), "heartbeat") {
        InboundMsg::Heartbeat
    } else if str_eq(t.as_str(), "error") {
        InboundMsg::ServerError(
            match err {
                Some(e) => e,
                None => String::new(),
            },
        )
    } else {
        InboundMsg::Ignored
    }
}

} // verus!
