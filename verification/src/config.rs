//! Application configuration: plain settings the core consumes. Reading
//! and deserializing a configuration file happens outside the library;
//! the semantic checks live here.

use vstd::prelude::*;
use crate::errors::TradeError;

verus! {

/// Exchange credentials and the dataset lookback window.
#[derive(Clone, Debug)]
pub struct BinanceConfig {
    pub api_key: String,
    pub api_secret: String,
    /// Dataset lookback window: how many days of hourly candles one
    /// training cycle uses.
    pub dataset_max_days: u16,
}

/// Trade sizing and routing.
#[derive(Clone, Debug)]
pub struct TradeConfig {
    /// Quote quantity spent per buy order, fixed point.
    pub amount: u64,
    /// Routes orders to the simulated ("paper") path instead of the
    /// live one; selected by configuration, never inferred.
    pub test: bool,
    /// Profit percentage that triggers the sell, fixed point at
    /// `PCT_SCALE`.
    pub profit_target_pct: u64,
}

/// Notification side-channel settings.
#[derive(Clone, Debug)]
pub struct TelegramConfig {
    pub bot_token: String,
    pub chat_id: u64,
}

/// Everything the process is configured with.
#[derive(Clone, Debug)]
pub struct AppConfig {
    pub binance: BinanceConfig,
    pub trade: TradeConfig,
    pub telegram: TelegramConfig,
    pub symbol: String,
    pub verbose: bool,
}

impl AppConfig {
    /// Semantically valid settings: a symbol to trade, a positive
    /// amount small enough for exact profit arithmetic, a target the
    /// sell trigger can compare exactly, and a non-empty lookback
    /// window small enough that its hour count fits a page limit.
    pub open spec fn wf(self) -> bool {
        &&& self.symbol@.len() > 0
        &&& 0 < self.trade.amount < 0x8000_0000_0000_0000
        &&& self.trade.profit_target_pct < 0x8000_0000_0000_0000
        &&& 0 < self.binance.dataset_max_days
        &&& self.binance.dataset_max_days * 24 <= u16::MAX
    }

    /// Checks the settings once at startup; fails with `ConfigError`
    /// if, and only if, they are not semantically valid.
    pub fn validate(&self) -> (r: Result<(), TradeError>)
        ensures
            r is Ok <==> self.wf(),
            r matches Err(e) ==> e == TradeError::ConfigError,
    {
        let ok = !self.symbol.as_str().is_empty() && 0 < self.trade.amount
            && self.trade.amount < 0x8000_0000_0000_0000 && self.trade.profit_target_pct
            < 0x8000_0000_0000_0000 && 0 < self.binance.dataset_max_days
            && self.binance.dataset_max_days <= u16::MAX / 24;
        if ok {
            Ok(())
        } else {
            Err(TradeError::ConfigError)
        }
    }
}

} // verus!
