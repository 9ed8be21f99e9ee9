//! The strategy engine: a strict buy/wait/sell cycle
//! (idle, training, gating, bought, waiting-for-target, selling)
//! driven by events from the unverified boundary and gated on a
//! cancellation flag.
//!
//! The engine itself is a pure transition function, [`step`]: given the
//! current state, the next event, and the cancellation flag as observed
//! when the event was delivered, it returns the next state and the one
//! action the driver must perform before delivering the next event. The
//! driver loop (training, order placement, the live stream) runs
//! outside the library and performs each action; the laws at the bottom
//! of this module hold for every driver that answers actions with
//! matching events.

use vstd::prelude::*;
use std::sync::Arc;
use std::sync::atomic::{AtomicBool, Ordering};
use crate::binance_market::{BinanceKlineInterval, BinanceKlineOptions};
use crate::utils::{
    earlier_seconds, floor_hour, floor_hour_spec, Ratio, MILLIS_PER_HOUR, MILLIS_PER_SECOND,
    SECONDS_PER_HOUR,
};

verus! {

/// Fixed-point scale of percentage values: a stored `profit_target_pct`
/// of `PCT_SCALE` means a target of one percent.
pub const PCT_SCALE: u64 = 100_000_000;

/// The phase of one buy/sell cycle.
#[derive(Clone, Copy, Debug, PartialEq, Eq, Structural)]
pub enum Phase {
    Idle,
    Training,
    Gating,
    Bought,
    WaitingForTarget,
    Selling,
}

/// The engine's per-cycle state. Exclusively owned by one running
/// strategy instance; reset to `Idle` at cycle start.
#[derive(Clone, Copy, Debug, PartialEq, Eq, Structural)]
pub struct TradeState {
    /// The price the position was entered at (the close of the candle
    /// current when the buy was decided).
    pub entry_price: u64,
    /// The model's predicted high for the current candle.
    pub predicted_high: u64,
    /// Profit percentage that triggers the sell, fixed point at
    /// `PCT_SCALE`.
    pub profit_target_pct: u64,
    pub phase: Phase,
}

/// What the unverified boundary reports back to the engine.
#[derive(Clone, Copy, Debug, PartialEq, Eq, Structural)]
pub enum EngineEvent {
    /// The loop re-entered its top.
    CycleStart,
    /// Model trained, current candle fetched, prediction computed.
    Trained { open: u64, close: u64, predicted: u64 },
    /// Fetching candles, building the dataset or training failed; fatal
    /// to the cycle, not to the process.
    TrainFailed,
    /// The cooldown sleep until the next candle finished.
    SleepDone,
    /// The buy order was accepted by the exchange.
    BuyPlaced,
    /// The buy order was rejected.
    BuyFailed,
    /// The live price stream for the symbol is connected.
    Subscribed,
    /// One live price update; `candle_closed` reports that the candle
    /// of the current interval closed at this price.
    PriceTick { price: u64, candle_closed: bool },
    /// The live feed dropped.
    StreamDropped,
    /// The sell order was accepted by the exchange.
    SellPlaced,
    /// The sell order was rejected.
    SellFailed,
}

/// What the driver must do before delivering the next event.
#[derive(Clone, Copy, Debug, PartialEq, Eq, Structural)]
pub enum EngineAction {
    /// Build the dataset from fresh candles, train, fetch the current
    /// candle, predict.
    Train,
    /// Sleep until the start of the next candle.
    Sleep,
    /// Place a buy order for the given quote quantity; `test` routes to
    /// the simulated path.
    PlaceBuy { quantity: u64, test: bool },
    /// Subscribe to the live price stream for the symbol.
    Subscribe,
    /// Place a sell order for the given quote quantity.
    PlaceSell { quantity: u64, test: bool },
    /// Disconnect the live price stream.
    Disconnect,
    /// Stop the loop; no further event is delivered.
    Halt,
    /// Nothing to perform; keep delivering events.
    Stay,
}

impl TradeState {
    /// A fresh engine about to start its first cycle.
    pub fn new(profit_target_pct: u64) -> (s: TradeState)
        ensures
            s == (TradeState {
                entry_price: 0,
                predicted_high: 0,
                profit_target_pct,
                phase: Phase::Idle,
            }),
    {
        TradeState { entry_price: 0, predicted_high: 0, profit_target_pct, phase: Phase::Idle }
    }

    /// Bounds under which the sell trigger's exact arithmetic cannot
    /// overflow.
    pub open spec fn wf(self) -> bool {
        &&& self.entry_price < 0x8000_0000_0000_0000
        &&& self.profit_target_pct < 0x8000_0000_0000_0000
    }
}

/// Price bounds the engine needs of the values an event carries: small
/// enough for exact trigger arithmetic, and a positive close for a
/// candle a buy could be entered at.
pub open spec fn event_wf(e: EngineEvent) -> bool {
    match e {
        EngineEvent::Trained { open, close, predicted } => {
            &&& open < 0x8000_0000_0000_0000
            &&& close < 0x8000_0000_0000_0000
            &&& predicted < 0x8000_0000_0000_0000
            &&& 0 < close
        },
        EngineEvent::PriceTick { price, candle_closed } => price < 0x8000_0000_0000_0000,
        _ => true,
    }
}

/// A position is open (or being closed) in these phases.
pub open spec fn position_open(p: Phase) -> bool {
    p == Phase::Bought || p == Phase::WaitingForTarget || p == Phase::Selling
}

/// The authoritative sell trigger: selling at `price` after buying at
/// `entry` yields a profit percentage of at least `target_pct /
/// PCT_SCALE`. Exact arithmetic, denominators cleared:
/// `100 * (price - entry) / entry >= target_pct / PCT_SCALE`.
pub open spec fn target_reached(entry: u64, price: u64, target_pct: u64) -> bool {
    100 * (PCT_SCALE as int) * (price - entry) >= target_pct * entry
}

/// Evaluates the sell trigger exactly.
pub fn check_target_reached(entry: u64, price: u64, target_pct: u64) -> (b: bool)
    requires
        entry < 0x8000_0000_0000_0000,
        price < 0x8000_0000_0000_0000,
        target_pct < 0x8000_0000_0000_0000,
    ensures
        b == target_reached(entry, price, target_pct),
{
    proof {
        let diff = price - entry;
        assert(-0x4000_0000_0000_0000_0000_0000_0000_0000int <= 10_000_000_000 * diff
            < 0x4000_0000_0000_0000_0000_0000_0000_0000int && target_pct * entry
            < 0x4000_0000_0000_0000_0000_0000_0000_0000int) by (nonlinear_arith)
            requires
                entry < 0x8000_0000_0000_0000,
                price < 0x8000_0000_0000_0000,
                target_pct < 0x8000_0000_0000_0000,
                diff == price - entry,
        ;
    }
    let lhs: i128 = 100 * (PCT_SCALE as i128) * (price as i128 - entry as i128);
    let rhs: i128 = (target_pct as i128) * (entry as i128);
    lhs >= rhs
}

/// Law: the sell trigger agrees with the exact profit percentage that
/// `calculate_profit` reports: for a percentage ratio `pct` over a
/// positive denominator, the trigger fires exactly when
/// `pct >= target_pct / PCT_SCALE`.
pub proof fn lemma_target_matches_profit_percentage(
    entry: u64,
    price: u64,
    target_pct: u64,
    pct: Ratio,
)
    requires
        0 < entry,
        pct.num == 100 * (price - entry),
        pct.den == entry,
    ensures
        target_reached(entry, price, target_pct) <==> pct.num * (PCT_SCALE as int) >= target_pct
            * pct.den,
{
    assert(pct.num * (PCT_SCALE as int) == 100 * (PCT_SCALE as int) * (price - entry))
        by (nonlinear_arith)
        requires
            pct.num == 100 * (price - entry),
    ;
}

/// The state `s` with its phase reset to idle, everything else kept.
pub open spec fn to_idle(s: TradeState) -> TradeState {
    TradeState { phase: Phase::Idle, ..s }
}

/// The whole transition table of the engine: from the current state,
/// the delivered event, and the cancellation flag as observed at
/// delivery, to the next state and the action the driver must perform.
///
/// Cancellation always leads to idle without selling: the stream is
/// disconnected if a position phase was interrupted, otherwise the loop
/// halts. An open position is abandoned, never force-sold.
pub open spec fn step_spec(
    s: TradeState,
    quantity: u64,
    test: bool,
    e: EngineEvent,
    cancelled: bool,
) -> (TradeState, EngineAction) {
    if cancelled {
        (
            to_idle(s),
            if position_open(s.phase) {
                EngineAction::Disconnect
            } else {
                EngineAction::Halt
            },
        )
    } else {
        match (s.phase, e) {
            (Phase::Idle, EngineEvent::CycleStart) => (
                TradeState { phase: Phase::Training, ..s },
                EngineAction::Train,
            ),
            (Phase::Training, EngineEvent::Trained { open, close, predicted }) => {
                if predicted < open || predicted < close {
                    (TradeState { phase: Phase::Gating, ..s }, EngineAction::Sleep)
                } else {
                    (
                        TradeState {
                            phase: Phase::Gating,
                            entry_price: close,
                            predicted_high: predicted,
                            ..s
                        },
                        EngineAction::PlaceBuy { quantity, test },
                    )
                }
            },
            (Phase::Training, EngineEvent::TrainFailed) => (to_idle(s), EngineAction::Stay),
            (Phase::Gating, EngineEvent::SleepDone) => (to_idle(s), EngineAction::Stay),
            (Phase::Gating, EngineEvent::BuyPlaced) => (
                TradeState { phase: Phase::Bought, ..s },
                EngineAction::Subscribe,
            ),
            (Phase::Gating, EngineEvent::BuyFailed) => (to_idle(s), EngineAction::Halt),
            (Phase::Bought, EngineEvent::Subscribed) => (
                TradeState { phase: Phase::WaitingForTarget, ..s },
                EngineAction::Stay,
            ),
            (Phase::Bought, EngineEvent::StreamDropped) => (to_idle(s), EngineAction::Stay),
            (Phase::WaitingForTarget, EngineEvent::PriceTick { price, candle_closed }) => {
                if target_reached(s.entry_price, price, s.profit_target_pct) || (candle_closed
                    && price >= s.entry_price) {
                    (
                        TradeState { phase: Phase::Selling, ..s },
                        EngineAction::PlaceSell { quantity, test },
                    )
                } else {
                    (s, EngineAction::Stay)
                }
            },
            (Phase::WaitingForTarget, EngineEvent::StreamDropped) => (
                to_idle(s),
                EngineAction::Stay,
            ),
            (Phase::Selling, EngineEvent::SellPlaced) => (to_idle(s), EngineAction::Disconnect),
            (Phase::Selling, EngineEvent::SellFailed) => (to_idle(s), EngineAction::Halt),
            _ => (s, EngineAction::Stay),
        }
    }
}

/// Performs one engine step. The returned action is what the driver
/// must perform before delivering the next event.
pub fn step(s: &TradeState, quantity: u64, test: bool, e: &EngineEvent, cancelled: bool) -> (r: (
    TradeState,
    EngineAction,
))
    requires
        s.wf(),
        event_wf(*e),
    ensures
        r == step_spec(*s, quantity, test, *e, cancelled),
        r.0.wf(),
{
    if cancelled {
        let action = if s.phase == Phase::Bought || s.phase == Phase::WaitingForTarget || s.phase
            == Phase::Selling {
            EngineAction::Disconnect
        } else {
            EngineAction::Halt
        };
        return (TradeState { phase: Phase::Idle, ..*s }, action);
    }
    match (s.phase, e) {
        (Phase::Idle, EngineEvent::CycleStart) => (
            TradeState { phase: Phase::Training, ..*s },
            EngineAction::Train,
        ),
        (Phase::Training, EngineEvent::Trained { open, close, predicted }) => {
            if *predicted < *open || *predicted < *close {
                (TradeState { phase: Phase::Gating, ..*s }, EngineAction::Sleep)
            } else {
                (
                    TradeState {
                        phase: Phase::Gating,
                        entry_price: *close,
                        predicted_high: *predicted,
                        ..*s
                    },
                    EngineAction::PlaceBuy { quantity, test },
                )
            }
        },
        (Phase::Training, EngineEvent::TrainFailed) => (
            TradeState { phase: Phase::Idle, ..*s },
            EngineAction::Stay,
        ),
        (Phase::Gating, EngineEvent::SleepDone) => (
            TradeState { phase: Phase::Idle, ..*s },
            EngineAction::Stay,
        ),
        (Phase::Gating, EngineEvent::BuyPlaced) => (
            TradeState { phase: Phase::Bought, ..*s },
            EngineAction::Subscribe,
        ),
        (Phase::Gating, EngineEvent::BuyFailed) => (
            TradeState { phase: Phase::Idle, ..*s },
            EngineAction::Halt,
        ),
        (Phase::Bought, EngineEvent::Subscribed) => (
            TradeState { phase: Phase::WaitingForTarget, ..*s },
            EngineAction::Stay,
        ),
        (Phase::Bought, EngineEvent::StreamDropped) => (
            TradeState { phase: Phase::Idle, ..*s },
            EngineAction::Stay,
        ),
        (Phase::WaitingForTarget, EngineEvent::PriceTick { price, candle_closed }) => {
            let hit = check_target_reached(s.entry_price, *price, s.profit_target_pct);
            if hit || (*candle_closed && *price >= s.entry_price) {
                (
                    TradeState { phase: Phase::Selling, ..*s },
                    EngineAction::PlaceSell { quantity, test },
                )
            } else {
                (*s, EngineAction::Stay)
            }
        },
        (Phase::WaitingForTarget, EngineEvent::StreamDropped) => (
            TradeState { phase: Phase::Idle, ..*s },
            EngineAction::Stay,
        ),
        (Phase::Selling, EngineEvent::SellPlaced) => (
            TradeState { phase: Phase::Idle, ..*s },
            EngineAction::Disconnect,
        ),
        (Phase::Selling, EngineEvent::SellFailed) => (
            TradeState { phase: Phase::Idle, ..*s },
            EngineAction::Halt,
        ),
        _ => (*s, EngineAction::Stay),
    }
}

/// The process-wide cancellation signal: a single shared boolean,
/// written only by the interrupt handler, read by every phase of the
/// strategy engine. Another execution context may flip it at any time,
/// so nothing is promised of the value an observation returns: the
/// engine's laws hold for every observation.
#[derive(Clone)]
pub struct CancellationFlag {
    inner: Arc<AtomicBool>,
}

impl CancellationFlag {
    /// A fresh, clear flag.
    pub fn new() -> CancellationFlag {
        CancellationFlag { inner: Arc::new(AtomicBool::new(false)) }
    }

    /// Sets the flag. Idempotent; the flag is never cleared.
    pub fn set(&self) {
        self.inner.store(true, Ordering::SeqCst);
    }

    /// Observes the flag.
    pub fn is_set(&self) -> bool {
        self.inner.load(Ordering::SeqCst)
    }
}

/// Shared trait to be implemented by all supported strategies: run the
/// trading loop until the cancellation signal is observed set.
pub trait Strategy {
    fn execute(&self, running: &CancellationFlag);
}

/// The kline options one training cycle loads its dataset with: hourly
/// candles, at most the lookback window's hour count, ending at the
/// hour boundary one hour below `now_millis`, so that the currently
/// open candle is excluded.
pub fn training_kline_options(symbol: &str, dataset_max_days: u16, now_millis: u64) -> (r:
    BinanceKlineOptions)
    requires
        dataset_max_days * 24 <= u16::MAX,
        MILLIS_PER_HOUR <= now_millis,
    ensures
        r.pair@ == symbol@,
        r.interval == BinanceKlineInterval::Hourly,
        r.limit == Some((dataset_max_days * 24) as u16),
        r.start is None,
        r.end matches Some(en) && en == floor_hour_spec(now_millis as int) - MILLIS_PER_HOUR,
{
    let limit = dataset_max_days * 24;
    let fl = floor_hour(now_millis);
    proof {
        let h = MILLIS_PER_HOUR as int;
        let t = now_millis as int;
        assert(h <= (t / h) * h) by (nonlinear_arith)
            requires
                0 < h <= t,
        ;
        assert(3600 * (MILLIS_PER_SECOND as int) == h);
    }
    let end = earlier_seconds(fl, SECONDS_PER_HOUR);
    BinanceKlineOptions {
        pair: symbol.to_owned(),
        interval: BinanceKlineInterval::Hourly,
        limit: Some(limit),
        start: None,
        end: Some(end),
    }
}

/// Law (skip path): given a predicted value below the current open or
/// below the current close, the engine moves through gating back to
/// idle, sleeping one cooldown on the way, and never places a buy
/// order.
pub proof fn lemma_low_prediction_skips_trade(
    s: TradeState,
    quantity: u64,
    test: bool,
    open: u64,
    close: u64,
    predicted: u64,
)
    requires
        s.phase == Phase::Training,
        predicted < open || predicted < close,
    ensures
        ({
            let (s1, a1) = step_spec(
                s,
                quantity,
                test,
                EngineEvent::Trained { open, close, predicted },
                false,
            );
            let (s2, a2) = step_spec(s1, quantity, test, EngineEvent::SleepDone, false);
            &&& a1 == EngineAction::Sleep
            &&& s1.phase == Phase::Gating
            &&& s2.phase == Phase::Idle
            &&& !(a1 is PlaceBuy)
            &&& !(a2 is PlaceBuy)
        }),
{
}

/// Law (buy exactly at the gating pass): the engine emits `PlaceBuy`
/// exactly when a trained prediction is at or above both the current
/// open and the current close and no cancellation was observed; the
/// position is then entered at that candle's close.
pub proof fn lemma_buy_only_on_gating_pass(
    s: TradeState,
    quantity: u64,
    test: bool,
    e: EngineEvent,
    cancelled: bool,
)
    ensures
        ({
            let (s1, a1) = step_spec(s, quantity, test, e, cancelled);
            &&& (a1 is PlaceBuy) <==> (!cancelled && s.phase == Phase::Training && (
            e matches EngineEvent::Trained { open, close, predicted } && predicted >= open
                && predicted >= close))
            &&& (a1 is PlaceBuy) ==> a1 == (EngineAction::PlaceBuy { quantity, test })
            &&& (a1 is PlaceBuy) ==> s1.phase == Phase::Gating && (
            e matches EngineEvent::Trained { open, close, predicted } && s1.entry_price == close
                && s1.predicted_high == predicted)
        }),
{
}

/// Law (sell exactly at the target): the engine emits `PlaceSell`
/// exactly when, in the waiting phase and without cancellation, a price
/// tick reaches the profit target, or closes the candle at or above the
/// entry price; the engine then leaves the waiting phase, so later
/// ticks of the cycle produce no further sell.
pub proof fn lemma_sell_only_on_target(
    s: TradeState,
    quantity: u64,
    test: bool,
    e: EngineEvent,
    cancelled: bool,
)
    ensures
        ({
            let (s1, a1) = step_spec(s, quantity, test, e, cancelled);
            &&& (a1 is PlaceSell) <==> (!cancelled && s.phase == Phase::WaitingForTarget && (
            e matches EngineEvent::PriceTick { price, candle_closed } && (target_reached(
                s.entry_price,
                price,
                s.profit_target_pct,
            ) || (candle_closed && price >= s.entry_price))))
            &&& (a1 is PlaceSell) ==> a1 == (EngineAction::PlaceSell { quantity, test })
            &&& (a1 is PlaceSell) ==> s1.phase == Phase::Selling
        }),
{
}

/// Law (the loop re-enters training only while the flag is clear): no
/// step under an observed cancellation reaches the training phase, and
/// the only way into it is a cycle start from idle — the flag is
/// re-checked before every new cycle.
pub proof fn lemma_training_needs_clear_flag(
    s: TradeState,
    quantity: u64,
    test: bool,
    e: EngineEvent,
    cancelled: bool,
)
    ensures
        ({
            let (s1, a1) = step_spec(s, quantity, test, e, cancelled);
            s1.phase == Phase::Training ==> !cancelled && (s.phase == Phase::Training || (s.phase
                == Phase::Idle && e is CycleStart))
        }),
{
}

/// Law (cancellation): an event delivered with the cancellation flag
/// set returns the engine to idle in one step and places no order — in
/// particular no sell: an open position is abandoned, and the stream is
/// disconnected if a position phase was interrupted; otherwise the loop
/// halts.
pub proof fn lemma_cancel_exits_without_selling(
    s: TradeState,
    quantity: u64,
    test: bool,
    e: EngineEvent,
)
    ensures
        ({
            let (s1, a1) = step_spec(s, quantity, test, e, true);
            &&& s1.phase == Phase::Idle
            &&& !(a1 is PlaceSell)
            &&& !(a1 is PlaceBuy)
            &&& a1 == if position_open(s.phase) {
                EngineAction::Disconnect
            } else {
                EngineAction::Halt
            }
        }),
{
}

/// The driver protocol: which event may answer the engine's last
/// action, given the phase the engine is now in.
pub open spec fn event_matches(s: TradeState, last: EngineAction, e: EngineEvent) -> bool {
    match last {
        EngineAction::Train => e is Trained || e is TrainFailed,
        EngineAction::Sleep => e is SleepDone,
        EngineAction::PlaceBuy { .. } => e is BuyPlaced || e is BuyFailed,
        EngineAction::Subscribe => e is Subscribed || e is StreamDropped,
        EngineAction::PlaceSell { .. } => e is SellPlaced || e is SellFailed,
        EngineAction::Disconnect => e is CycleStart,
        EngineAction::Stay => match s.phase {
            Phase::Idle => e is CycleStart,
            Phase::WaitingForTarget => e is PriceTick || e is StreamDropped,
            _ => false,
        },
        EngineAction::Halt => false,
    }
}

/// A valid driver run from state `s` after last action `last`: each
/// delivered event (paired with the cancellation flag as observed at
/// delivery) answers the action before it, nothing answers a halt, and
/// after an event delivered with the flag set the driver exits, so
/// nothing further is delivered.
pub open spec fn trace_valid(
    s: TradeState,
    last: EngineAction,
    quantity: u64,
    test: bool,
    events: Seq<(EngineEvent, bool)>,
) -> bool
    decreases events.len(),
{
    events.len() == 0 || {
        let e = events[0].0;
        let c = events[0].1;
        let r = step_spec(s, quantity, test, e, c);
        &&& event_matches(s, last, e)
        &&& (c ==> events.len() <= 1)
        &&& trace_valid(r.0, r.1, quantity, test, events.drop_first())
    }
}

/// The actions a run emits, in order.
pub open spec fn trace_actions(
    s: TradeState,
    quantity: u64,
    test: bool,
    events: Seq<(EngineEvent, bool)>,
) -> Seq<EngineAction>
    decreases events.len(),
{
    if events.len() == 0 {
        Seq::empty()
    } else {
        let r = step_spec(s, quantity, test, events[0].0, events[0].1);
        seq![r.1] + trace_actions(r.0, quantity, test, events.drop_first())
    }
}

/// How many buy orders a run placed.
pub open spec fn count_buys(actions: Seq<EngineAction>) -> int
    decreases actions.len(),
{
    if actions.len() == 0 {
        0
    } else {
        (if actions[0] is PlaceBuy {
            1int
        } else {
            0int
        }) + count_buys(actions.drop_first())
    }
}

/// How many sell orders a run placed.
pub open spec fn count_sells(actions: Seq<EngineAction>) -> int
    decreases actions.len(),
{
    if actions.len() == 0 {
        0
    } else {
        (if actions[0] is PlaceSell {
            1int
        } else {
            0int
        }) + count_sells(actions.drop_first())
    }
}

/// How many cycle starts a run saw.
pub open spec fn count_starts(events: Seq<(EngineEvent, bool)>) -> int
    decreases events.len(),
{
    if events.len() == 0 {
        0
    } else {
        (if events[0].0 is CycleStart {
            1int
        } else {
            0int
        }) + count_starts(events.drop_first())
    }
}

/// How many more buys than sells the protocol owes at this point: one
/// while a position is entered or held, none otherwise. The pending buy
/// in gating is recorded by the last action.
pub open spec fn open_balance(s: TradeState, last: EngineAction) -> int {
    match s.phase {
        Phase::Idle | Phase::Training => 0,
        Phase::Gating => if last is PlaceBuy {
            1int
        } else {
            0int
        },
        Phase::Bought | Phase::WaitingForTarget => 1,
        Phase::Selling => 0,
    }
}

/// The run invariant behind the trade-ordering laws: buys minus sells
/// never falls below the open balance (so no sell without its buy), and
/// each cycle start pays for at most one buy and at most one sell.
pub open spec fn run_inv(
    s: TradeState,
    last: EngineAction,
    buys: int,
    sells: int,
    starts: int,
) -> bool {
    &&& 0 <= open_balance(s, last)
    &&& buys - sells >= open_balance(s, last)
    &&& buys + (if s.phase == Phase::Training {
        1int
    } else {
        0int
    }) <= starts
    &&& sells + (if s.phase == Phase::Training || s.phase == Phase::Gating || s.phase
        == Phase::Bought || s.phase == Phase::WaitingForTarget {
        1int
    } else {
        0int
    }) <= starts
}

/// One matched step preserves the run invariant, with the counts
/// advanced by what the step emitted and consumed.
proof fn lemma_step_preserves_run_inv(
    s: TradeState,
    last: EngineAction,
    quantity: u64,
    test: bool,
    e: EngineEvent,
    c: bool,
    buys: int,
    sells: int,
    starts: int,
)
    requires
        run_inv(s, last, buys, sells, starts),
        event_matches(s, last, e),
    ensures
        ({
            let (s1, a1) = step_spec(s, quantity, test, e, c);
            run_inv(
                s1,
                a1,
                buys + if a1 is PlaceBuy {
                    1int
                } else {
                    0int
                },
                sells + if a1 is PlaceSell {
                    1int
                } else {
                    0int
                },
                starts + if e is CycleStart {
                    1int
                } else {
                    0int
                },
            )
        }),
{
}

/// Folding the run invariant over a valid run bounds its order counts.
proof fn lemma_run_inv_fold(
    s: TradeState,
    last: EngineAction,
    quantity: u64,
    test: bool,
    events: Seq<(EngineEvent, bool)>,
    buys: int,
    sells: int,
    starts: int,
)
    requires
        trace_valid(s, last, quantity, test, events),
        run_inv(s, last, buys, sells, starts),
    ensures
        ({
            let acts = trace_actions(s, quantity, test, events);
            &&& sells + count_sells(acts) <= buys + count_buys(acts)
            &&& buys + count_buys(acts) <= starts + count_starts(events)
            &&& sells + count_sells(acts) <= starts + count_starts(events)
        }),
    decreases events.len(),
{
    if events.len() > 0 {
        let e = events[0].0;
        let c = events[0].1;
        let r = step_spec(s, quantity, test, e, c);
        let bd: int = if r.1 is PlaceBuy {
            1
        } else {
            0
        };
        let sd: int = if r.1 is PlaceSell {
            1
        } else {
            0
        };
        let cd: int = if e is CycleStart {
            1
        } else {
            0
        };
        lemma_step_preserves_run_inv(s, last, quantity, test, e, c, buys, sells, starts);
        lemma_run_inv_fold(
            r.0,
            r.1,
            quantity,
            test,
            events.drop_first(),
            buys + bd,
            sells + sd,
            starts + cd,
        );
        let acts = trace_actions(s, quantity, test, events);
        let tail_acts = trace_actions(r.0, quantity, test, events.drop_first());
        assert(acts.drop_first() =~= tail_acts);
    }
}

/// `trace_valid` is closed under taking prefixes of the run.
proof fn lemma_trace_valid_take(
    s: TradeState,
    last: EngineAction,
    quantity: u64,
    test: bool,
    events: Seq<(EngineEvent, bool)>,
    i: int,
)
    requires
        trace_valid(s, last, quantity, test, events),
        0 <= i <= events.len(),
    ensures
        trace_valid(s, last, quantity, test, events.take(i)),
    decreases i,
{
    if i == 0 {
        assert(events.take(0) =~= Seq::<(EngineEvent, bool)>::empty());
    } else {
        let e = events[0].0;
        let c = events[0].1;
        let r = step_spec(s, quantity, test, e, c);
        lemma_trace_valid_take(r.0, r.1, quantity, test, events.drop_first(), i - 1);
        assert(events.take(i).drop_first() =~= events.drop_first().take(i - 1));
        assert(events.take(i)[0] == events[0]);
    }
}

/// Law (trade ordering discipline): in any valid driver run of a fresh
/// engine, after any number of delivered events, the engine has never
/// placed more sell orders than buy orders — within one cycle, buy
/// always precedes sell — and has placed at most one buy order and at
/// most one sell order per cycle start: it never holds two open
/// positions, and a satisfied target sells exactly once.
pub proof fn lemma_trade_discipline(
    s0: TradeState,
    quantity: u64,
    test: bool,
    events: Seq<(EngineEvent, bool)>,
    i: int,
)
    requires
        s0.phase == Phase::Idle,
        trace_valid(s0, EngineAction::Stay, quantity, test, events),
        0 <= i <= events.len(),
    ensures
        ({
            let acts = trace_actions(s0, quantity, test, events.take(i));
            &&& count_sells(acts) <= count_buys(acts)
            &&& count_buys(acts) <= count_starts(events.take(i))
            &&& count_sells(acts) <= count_starts(events.take(i))
        }),
{
    lemma_trace_valid_take(s0, EngineAction::Stay, quantity, test, events, i);
    lemma_run_inv_fold(s0, EngineAction::Stay, quantity, test, events.take(i), 0, 0, 0);
}

} // verus!
