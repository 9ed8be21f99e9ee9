//! Time-cursor helpers for hourly candle boundaries, and the exact
//! profit computation that drives the sell decision.

use vstd::prelude::*;
use vstd::arithmetic::div_mod::{lemma_div_by_multiple, lemma_div_denominator};

verus! {

/// Milliseconds in one second.
pub const MILLIS_PER_SECOND: u64 = 1000;

/// Seconds in one hour.
pub const SECONDS_PER_HOUR: u64 = 3600;

/// Milliseconds in one hour.
pub const MILLIS_PER_HOUR: u64 = 3_600_000;

/// The start of the hour containing `t` (unix milliseconds).
pub open spec fn floor_hour_spec(t: int) -> int {
    (t / (MILLIS_PER_HOUR as int)) * (MILLIS_PER_HOUR as int)
}

/// The first hour boundary strictly after the hour containing `t`
/// (unix milliseconds).
pub open spec fn ceil_hour_spec(t: int) -> int {
    (t / (MILLIS_PER_HOUR as int) + 1) * (MILLIS_PER_HOUR as int)
}

/// Returns the nearest hour below `timestamp` (unix milliseconds),
/// rounded down; sub-second precision is discarded.
pub fn floor_hour(timestamp: u64) -> (r: u64)
    ensures
        r == floor_hour_spec(timestamp as int),
{
    let secs = timestamp / MILLIS_PER_SECOND;
    let since_nearest_hour = secs % SECONDS_PER_HOUR;
    let nearest = secs - since_nearest_hour;
    proof {
        lemma_div_denominator(
            timestamp as int,
            MILLIS_PER_SECOND as int,
            SECONDS_PER_HOUR as int,
        );
        assert(nearest == (secs as int / 3600) * 3600);
        assert(nearest * 1000 <= secs * 1000 <= timestamp);
    }
    nearest * MILLIS_PER_SECOND
}

/// Returns the nearest hour above `timestamp` (unix milliseconds),
/// rounded up; an exact hour boundary rounds up to the next one.
pub fn ceil_hour(timestamp: u64) -> (r: u64)
    requires
        timestamp + MILLIS_PER_HOUR <= u64::MAX,
    ensures
        r == ceil_hour_spec(timestamp as int),
{
    let secs = timestamp / MILLIS_PER_SECOND;
    let since_nearest_hour = secs % SECONDS_PER_HOUR;
    let upper = secs + (SECONDS_PER_HOUR - since_nearest_hour);
    proof {
        lemma_div_denominator(
            timestamp as int,
            MILLIS_PER_SECOND as int,
            SECONDS_PER_HOUR as int,
        );
        assert(upper == (secs as int / 3600) * 3600 + 3600);
        assert(upper * 1000 <= timestamp + MILLIS_PER_HOUR);
    }
    upper * MILLIS_PER_SECOND
}

/// Law: rounding down to an hour boundary is idempotent; a cursor
/// already on a boundary is left unchanged.
pub proof fn lemma_floor_hour_idempotent(t: int)
    requires
        0 <= t,
    ensures
        floor_hour_spec(floor_hour_spec(t)) == floor_hour_spec(t),
{
    let h = MILLIS_PER_HOUR as int;
    let k = t / h;
    lemma_div_by_multiple(k, h);
    assert((k * h) / h == k);
}

/// Returns the primary timestamp minus the given duration, both in
/// milliseconds.
pub fn earlier(timestamp: u64, duration_earlier: u64) -> (r: u64)
    requires
        duration_earlier <= timestamp,
    ensures
        r == timestamp - duration_earlier,
{
    timestamp - duration_earlier
}

/// Returns the primary timestamp (milliseconds) minus the given number
/// of seconds.
pub fn earlier_seconds(timestamp: u64, secs: u64) -> (r: u64)
    requires
        secs * MILLIS_PER_SECOND <= timestamp,
    ensures
        r == timestamp - secs * MILLIS_PER_SECOND,
{
    earlier(timestamp, secs * MILLIS_PER_SECOND)
}

/// Returns the current time as unix epoch milliseconds.
///
/// Relies on std::time::SystemTime::now and
/// SystemTime::duration_since(UNIX_EPOCH): the wall clock is outside the
/// program, so nothing is promised of the value.
#[verifier::external_body]
pub fn now() -> u64 {
    std::time::SystemTime::now()
        .duration_since(std::time::UNIX_EPOCH)
        .map(|d| d.as_millis() as u64)
        .unwrap_or(0)
}

/// An exact ratio of two integers; profit figures are reported as
/// `num / den` with no rounding.
#[derive(Clone, Copy, Debug, PartialEq, Eq, Structural)]
pub struct Ratio {
    pub num: i128,
    pub den: u64,
}

/// Computes, for an `investment` spent at `initial_price` and sold at
/// `selling_price`, the absolute profit `investment * (selling / initial)
/// - investment` and the profit percentage `profit / investment * 100`,
/// both as exact ratios over the common denominator `initial_price`.
pub fn calculate_profit(investment: u64, initial_price: u64, selling_price: u64) -> (r: (
    Ratio,
    Ratio,
))
    requires
        0 < investment < 0x8000_0000_0000_0000,
        0 < initial_price < 0x8000_0000_0000_0000,
        selling_price < 0x8000_0000_0000_0000,
    ensures
        r.0.num == investment * (selling_price - initial_price),
        r.0.den == initial_price,
        r.1.num == 100 * (selling_price - initial_price),
        r.1.den == initial_price,
{
    let diff: i128 = selling_price as i128 - initial_price as i128;
    proof {
        assert((investment as int) * diff < 0x4000_0000_0000_0000_0000_0000_0000_0000int
            && -0x4000_0000_0000_0000_0000_0000_0000_0000int <= (investment as int) * diff)
            by (nonlinear_arith)
            requires
                0 < investment < 0x8000_0000_0000_0000,
                -0x8000_0000_0000_0000 < diff < 0x8000_0000_0000_0000,
        ;
    }
    let profit_num: i128 = investment as i128 * diff;
    let percentage_num: i128 = 100 * diff;
    (
        Ratio { num: profit_num, den: initial_price },
        Ratio { num: percentage_num, den: initial_price },
    )
}

} // verus!
