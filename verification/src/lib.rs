//! An automated trading loop: a resumable historical-candle backfill
//! generator, a dataset builder for model training, and a stateful
//! buy/wait/sell strategy engine gated on a live price feed and an
//! external cancellation signal.
//!
//! Prices and quantities are fixed-point integers throughout: every
//! contract in this crate is stated over plain integer values, and the
//! unverified edges (exchange client, model trainer, file input) convert
//! at the boundary.

pub mod binance_market;
pub mod config;
pub mod dataset;
pub mod errors;
pub mod market;
pub mod model;
pub mod strategy;
pub mod utils;

use vstd::prelude::*;

verus! {

} // verus!
