//! Error taxonomy of the trading core.

use vstd::prelude::*;

verus! {

/// Every failure the core surfaces. The core never retries silently:
/// each of these is either fatal to the current cycle or fatal to the
/// process.
#[derive(Clone, Copy, Debug, PartialEq, Eq, Structural)]
pub enum TradeError {
    /// A single page fetch from the market failed; propagated, not
    /// retried by the generator itself.
    TransientFetchError,
    /// The dataset builder produced zero training examples.
    EmptyDatasetError,
    /// A buy or sell order was rejected by the exchange.
    OrderPlacementError,
    /// The live price feed dropped while waiting for the target.
    StreamDisconnectError,
    /// Malformed or missing settings; fatal at startup.
    ConfigError,
}

} // verus!
