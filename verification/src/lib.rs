//! Market-data adapter for a MetaTrader 5 proxy server.
//!
//! The adapter speaks a JSON dialect over a WebSocket transport: it
//! authenticates with a keyed-hash signature, subscribes to instruments,
//! reconstructs a local order book from depth frames, buffers trade prints,
//! and exposes canonical events and request/response conversions.
//!
//! Prices and quantities are carried as fixed-point integers in units of
//! one millionth (micro-units); the wire's decimal text is parsed and
//! quantized to the instrument's tick size at the boundary.

use vstd::prelude::*;

pub mod auth;
pub mod config;
pub mod depth;
pub mod facade;
pub mod json;
pub mod machine;
pub mod modal;
pub mod numeric;
pub mod state;
pub mod types;
pub mod wire;

verus! {

} // verus!
