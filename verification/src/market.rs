//! The candle data model and the market capability interface.

use vstd::prelude::*;
use crate::errors::TradeError;

verus! {

/// One OHLCV summary for a fixed time interval. Times are unix
/// milliseconds; prices and volumes are fixed-point integers (the
/// unverified boundary chooses the scale and keeps it uniform).
/// Immutable once produced.
#[derive(Clone, Copy, Debug, PartialEq, Eq, Structural)]
pub struct Candle {
    pub open_time: u64,
    pub close_time: u64,
    pub open: u64,
    pub high: u64,
    pub low: u64,
    pub close: u64,
    pub volume: u64,
    pub quote_asset_volume: u64,
}

impl Candle {
    /// A candle is well formed when it closes strictly after it opens.
    pub open spec fn wf(self) -> bool {
        self.open_time < self.close_time
    }
}

/// Candles are strictly increasing in `open_time`.
pub open spec fn candles_increasing(s: Seq<Candle>) -> bool {
    forall|i: int, j: int| 0 <= i < j < s.len() ==> s[i].open_time < s[j].open_time
}

/// Candles cover pairwise disjoint time ranges, in order: each candle
/// closes strictly before any later candle opens.
pub open spec fn candles_disjoint(s: Seq<Candle>) -> bool {
    forall|i: int, j: int| 0 <= i < j < s.len() ==> s[i].close_time < s[j].open_time
}

/// Shared trait to be implemented by all supported markets.
pub trait Market {
    /// Returns the current price of the specified symbol or pair.
    fn get_price(&self, symbol: &str) -> Result<u64, TradeError>;

    /// Places a buy order on the market for the given quote quantity;
    /// `test` routes to the simulated order path.
    fn place_buy_order(&self, symbol: &str, quantity: u64, test: bool) -> Result<(), TradeError>;

    /// Places a sell order on the market for the given quote quantity;
    /// `test` routes to the simulated order path.
    fn place_sell_order(&self, symbol: &str, quantity: u64, test: bool) -> Result<(), TradeError>;
}

} // verus!
