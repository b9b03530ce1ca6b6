//! Adapter façade pieces that involve no transport. The one-shot symbol
//! and history exchanges and the live stream are assembled by the
//! surrounding driver from the request builders, the response converters
//! and the stream machine; the price-snapshot call is answered here.

use crate::config::Mt5Config;
use crate::types::{AdapterError, Ticker, TickerStats};
use vstd::prelude::*;

verus! {

/// Price statistics for the configured server's instruments. In this
/// dialect prices come from the live stream, not a one-shot request, so
/// the mapping is empty by design; downstream consumers rely on the
/// stream as the sole source.
pub fn fetch_ticker_prices(_config: &Mt5Config) -> (r: Result<
    Vec<(Ticker, TickerStats)>,
    AdapterError,
>)
    ensures
        r matches Ok(v) && v@.len() == 0,
{
    Ok(Vec::new())
}

} // verus!
