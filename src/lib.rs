//! Market-data streaming core: the message model, per-symbol statistics,
//! a fan-out distributor with bounded per-subscriber buffers, the wire codec
//! and the session lifecycle.
//!
//! Prices, sizes and quantities are fixed-point integers: one unit is
//! `10^-8` of a currency or instrument unit (see [`types::SCALE`]).
use vstd::prelude::*;

pub mod codec;
pub mod distributor;
pub mod session;
pub mod stats;
pub mod types;

pub use codec::{decode, encode, DecodeError, JsonValue};
pub use distributor::{Distributor, Received};
pub use session::{ClientError, FrameOutcome, MarketDataClient, SessionAction, SessionEvent, SessionState};
pub use stats::{MarketStats, StatsBook};
pub use types::{
    BookView, MarketDataMessage, MessageView, OrderBookSnapshot, PriceLevel, Quote, Trade, TradeSide,
    SCALE,
};

verus! {

} // verus!
