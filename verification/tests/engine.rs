use crypto_trading_bot::config::{AppConfig, BinanceConfig, TelegramConfig, TradeConfig};
use crypto_trading_bot::errors::TradeError;
use crypto_trading_bot::strategy::{
    check_target_reached, step, CancellationFlag, EngineAction, EngineEvent, Phase, TradeState,
    PCT_SCALE,
};

const QTY: u64 = 50;
const TEST_MODE: bool = true;

fn is_buy(a: &EngineAction) -> bool {
    matches!(a, EngineAction::PlaceBuy { .. })
}

fn is_sell(a: &EngineAction) -> bool {
    matches!(a, EngineAction::PlaceSell { .. })
}

#[test]
fn test_low_prediction_skips_trade() {
    // Predicted below both current open and current close.
    let s0 = TradeState::new(PCT_SCALE);
    let (s1, a1) = step(&s0, QTY, TEST_MODE, &EngineEvent::CycleStart, false);
    assert_eq!(a1, EngineAction::Train);
    let trained = EngineEvent::Trained { open: 100, close: 102, predicted: 99 };
    let (s2, a2) = step(&s1, QTY, TEST_MODE, &trained, false);
    assert_eq!(s2.phase, Phase::Gating);
    assert_eq!(a2, EngineAction::Sleep);
    let (s3, a3) = step(&s2, QTY, TEST_MODE, &EngineEvent::SleepDone, false);
    assert_eq!(s3.phase, Phase::Idle);
    assert!(!is_buy(&a1) && !is_buy(&a2) && !is_buy(&a3));
}

#[test]
fn test_prediction_below_close_only_still_skips() {
    let s0 = TradeState::new(PCT_SCALE);
    let (s1, _) = step(&s0, QTY, TEST_MODE, &EngineEvent::CycleStart, false);
    // At or above open but below close.
    let trained = EngineEvent::Trained { open: 100, close: 102, predicted: 101 };
    let (_, a) = step(&s1, QTY, TEST_MODE, &trained, false);
    assert_eq!(a, EngineAction::Sleep);
}

#[test]
fn test_high_prediction_buys_once_then_sells_once() {
    // A full cycle: the prediction is at or above both prices, the buy
    // is placed exactly once, and only after the profit target is
    // reached is the sell placed, exactly once, before disconnecting.
    let mut actions: Vec<EngineAction> = Vec::new();
    let s0 = TradeState::new(PCT_SCALE / 10); // target: 0.1 percent

    let (s1, a) = step(&s0, QTY, TEST_MODE, &EngineEvent::CycleStart, false);
    actions.push(a);
    let trained = EngineEvent::Trained { open: 20870, close: 20878, predicted: 21000 };
    let (s2, a) = step(&s1, QTY, TEST_MODE, &trained, false);
    actions.push(a);
    assert_eq!(a, EngineAction::PlaceBuy { quantity: QTY, test: TEST_MODE });
    assert_eq!(s2.entry_price, 20878);
    assert_eq!(s2.predicted_high, 21000);

    let (s3, a) = step(&s2, QTY, TEST_MODE, &EngineEvent::BuyPlaced, false);
    actions.push(a);
    assert_eq!(a, EngineAction::Subscribe);
    let (s4, a) = step(&s3, QTY, TEST_MODE, &EngineEvent::Subscribed, false);
    actions.push(a);
    assert_eq!(s4.phase, Phase::WaitingForTarget);

    // A tick below the target keeps waiting.
    let low_tick = EngineEvent::PriceTick { price: 20880, candle_closed: false };
    let (s5, a) = step(&s4, QTY, TEST_MODE, &low_tick, false);
    actions.push(a);
    assert_eq!(a, EngineAction::Stay);
    assert_eq!(s5.phase, Phase::WaitingForTarget);

    // 20900 yields about 0.105 percent profit over 20878: target reached.
    let hit_tick = EngineEvent::PriceTick { price: 20900, candle_closed: false };
    let (s6, a) = step(&s5, QTY, TEST_MODE, &hit_tick, false);
    actions.push(a);
    assert_eq!(a, EngineAction::PlaceSell { quantity: QTY, test: TEST_MODE });
    assert_eq!(s6.phase, Phase::Selling);

    let (s7, a) = step(&s6, QTY, TEST_MODE, &EngineEvent::SellPlaced, false);
    actions.push(a);
    assert_eq!(a, EngineAction::Disconnect);
    assert_eq!(s7.phase, Phase::Idle);

    let buys = actions.iter().filter(|a| is_buy(a)).count();
    let sells = actions.iter().filter(|a| is_sell(a)).count();
    assert_eq!(buys, 1);
    assert_eq!(sells, 1);
    let first_buy = actions.iter().position(|a| is_buy(a)).unwrap();
    let first_sell = actions.iter().position(|a| is_sell(a)).unwrap();
    assert!(first_buy < first_sell);
}

#[test]
fn test_no_further_sells_after_target_sell() {
    // Once the sell was placed the engine has left the waiting phase:
    // simulated later stream events produce no further sell calls.
    let mut s = TradeState::new(PCT_SCALE / 10);
    s = step(&s, QTY, TEST_MODE, &EngineEvent::CycleStart, false).0;
    let trained = EngineEvent::Trained { open: 20870, close: 20878, predicted: 21000 };
    s = step(&s, QTY, TEST_MODE, &trained, false).0;
    s = step(&s, QTY, TEST_MODE, &EngineEvent::BuyPlaced, false).0;
    s = step(&s, QTY, TEST_MODE, &EngineEvent::Subscribed, false).0;
    let hit_tick = EngineEvent::PriceTick { price: 20900, candle_closed: false };
    let (selling, a) = step(&s, QTY, TEST_MODE, &hit_tick, false);
    assert!(is_sell(&a));

    // Ticks delivered while the sell is in flight.
    let (still_selling, a) = step(&selling, QTY, TEST_MODE, &hit_tick, false);
    assert_eq!(a, EngineAction::Stay);
    assert_eq!(still_selling.phase, Phase::Selling);

    // And after the cycle closed.
    let (idle, a) = step(&still_selling, QTY, TEST_MODE, &EngineEvent::SellPlaced, false);
    assert_eq!(a, EngineAction::Disconnect);
    let (_, a) = step(&idle, QTY, TEST_MODE, &hit_tick, false);
    assert!(!is_sell(&a));
}

#[test]
fn test_candle_close_fallback_sells_at_or_above_entry() {
    let mut s = TradeState::new(PCT_SCALE * 10); // an unreachable target
    s = step(&s, QTY, TEST_MODE, &EngineEvent::CycleStart, false).0;
    let trained = EngineEvent::Trained { open: 20870, close: 20878, predicted: 21000 };
    s = step(&s, QTY, TEST_MODE, &trained, false).0;
    s = step(&s, QTY, TEST_MODE, &EngineEvent::BuyPlaced, false).0;
    s = step(&s, QTY, TEST_MODE, &EngineEvent::Subscribed, false).0;

    // The candle closes barely above the entry: the fallback sells so
    // the position is never closed at a loss.
    let close_tick = EngineEvent::PriceTick { price: 20879, candle_closed: true };
    let (_, a) = step(&s, QTY, TEST_MODE, &close_tick, false);
    assert!(is_sell(&a));

    // The same price without the candle closing keeps waiting.
    let open_tick = EngineEvent::PriceTick { price: 20879, candle_closed: false };
    let (_, a) = step(&s, QTY, TEST_MODE, &open_tick, false);
    assert_eq!(a, EngineAction::Stay);

    // A closing candle below the entry does not sell.
    let losing_tick = EngineEvent::PriceTick { price: 20877, candle_closed: true };
    let (_, a) = step(&s, QTY, TEST_MODE, &losing_tick, false);
    assert_eq!(a, EngineAction::Stay);
}

#[test]
fn test_cancellation_before_waiting_exits_without_sell() {
    // The flag is set while the position is entered, before the waiting
    // phase begins: the engine exits after the current phase and never
    // places a sell order.
    let mut s = TradeState::new(PCT_SCALE / 10);
    s = step(&s, QTY, TEST_MODE, &EngineEvent::CycleStart, false).0;
    let trained = EngineEvent::Trained { open: 20870, close: 20878, predicted: 21000 };
    s = step(&s, QTY, TEST_MODE, &trained, false).0;
    s = step(&s, QTY, TEST_MODE, &EngineEvent::BuyPlaced, false).0;
    assert_eq!(s.phase, Phase::Bought);

    let (s1, a) = step(&s, QTY, TEST_MODE, &EngineEvent::Subscribed, true);
    assert_eq!(s1.phase, Phase::Idle);
    assert_eq!(a, EngineAction::Disconnect);
    assert!(!is_sell(&a));

    // Back at idle with the flag still set, the loop halts.
    let (_, a) = step(&s1, QTY, TEST_MODE, &EngineEvent::CycleStart, true);
    assert_eq!(a, EngineAction::Halt);
}

#[test]
fn test_cancellation_while_waiting_abandons_position() {
    let mut s = TradeState::new(PCT_SCALE / 10);
    s = step(&s, QTY, TEST_MODE, &EngineEvent::CycleStart, false).0;
    let trained = EngineEvent::Trained { open: 20870, close: 20878, predicted: 21000 };
    s = step(&s, QTY, TEST_MODE, &trained, false).0;
    s = step(&s, QTY, TEST_MODE, &EngineEvent::BuyPlaced, false).0;
    s = step(&s, QTY, TEST_MODE, &EngineEvent::Subscribed, false).0;
    assert_eq!(s.phase, Phase::WaitingForTarget);

    // Even a tick that reaches the target is overridden by cancellation.
    let hit_tick = EngineEvent::PriceTick { price: 20900, candle_closed: false };
    let (s1, a) = step(&s, QTY, TEST_MODE, &hit_tick, true);
    assert_eq!(s1.phase, Phase::Idle);
    assert_eq!(a, EngineAction::Disconnect);
}

#[test]
fn test_failed_orders_halt_the_cycle() {
    let mut s = TradeState::new(PCT_SCALE / 10);
    s = step(&s, QTY, TEST_MODE, &EngineEvent::CycleStart, false).0;
    let trained = EngineEvent::Trained { open: 20870, close: 20878, predicted: 21000 };
    s = step(&s, QTY, TEST_MODE, &trained, false).0;
    let (s1, a) = step(&s, QTY, TEST_MODE, &EngineEvent::BuyFailed, false);
    assert_eq!(s1.phase, Phase::Idle);
    assert_eq!(a, EngineAction::Halt);

    // A failed training aborts the cycle but lets the loop retry.
    let fresh = TradeState::new(PCT_SCALE / 10);
    let training = step(&fresh, QTY, TEST_MODE, &EngineEvent::CycleStart, false).0;
    let (s2, a) = step(&training, QTY, TEST_MODE, &EngineEvent::TrainFailed, false);
    assert_eq!(s2.phase, Phase::Idle);
    assert_eq!(a, EngineAction::Stay);
}

#[test]
fn test_target_trigger_exact_values() {
    // Selling 20900 after buying 20878 yields 2200/20878, about 0.105
    // percent.
    assert!(check_target_reached(20878, 20900, PCT_SCALE / 10)); // 0.1 percent target
    assert!(!check_target_reached(20878, 20900, PCT_SCALE / 5)); // 0.2 percent target
    // A zero target is reached exactly at the entry price.
    assert!(check_target_reached(100, 100, 0));
    assert!(!check_target_reached(100, 99, 0));
    // One percent over 100 is exactly 101.
    assert!(check_target_reached(100, 101, PCT_SCALE));
    assert!(!check_target_reached(100, 101, PCT_SCALE + 1));
}

#[test]
fn test_cancellation_flag() {
    let flag = CancellationFlag::new();
    assert!(!flag.is_set());
    let handle = flag.clone();
    handle.set();
    assert!(flag.is_set());
    // Idempotent.
    flag.set();
    assert!(flag.is_set());
}

#[test]
fn test_training_window_excludes_open_candle() {
    let now_millis: u64 = 1674928799000; // 2023-01-28T17:59:59 UTC
    let opts = crypto_trading_bot::strategy::training_kline_options("BTCUSDT", 50, now_millis);
    assert_eq!(opts.pair, "BTCUSDT");
    assert_eq!(opts.limit, Some(1200)); // 50 days as hours
    assert_eq!(opts.start, None);
    // One hour below the current hour boundary: 16:00 UTC.
    assert_eq!(opts.end, Some(1674921600000));
    assert!(matches!(opts.interval, crypto_trading_bot::binance_market::BinanceKlineInterval::Hourly));
}

fn valid_config() -> AppConfig {
    AppConfig {
        binance: BinanceConfig {
            api_key: "key".to_owned(),
            api_secret: "secret".to_owned(),
            dataset_max_days: 50,
        },
        trade: TradeConfig { amount: 50, test: true, profit_target_pct: PCT_SCALE },
        telegram: TelegramConfig { bot_token: "123456789:blablabla".to_owned(), chat_id: 1 },
        symbol: "BTCUSDT".to_owned(),
        verbose: true,
    }
}

#[test]
fn test_config_validation() {
    assert!(valid_config().validate().is_ok());

    let mut empty_symbol = valid_config();
    empty_symbol.symbol = "".to_owned();
    assert_eq!(empty_symbol.validate().unwrap_err(), TradeError::ConfigError);

    let mut zero_amount = valid_config();
    zero_amount.trade.amount = 0;
    assert_eq!(zero_amount.validate().unwrap_err(), TradeError::ConfigError);

    let mut zero_window = valid_config();
    zero_window.binance.dataset_max_days = 0;
    assert_eq!(zero_window.validate().unwrap_err(), TradeError::ConfigError);

    let mut huge_window = valid_config();
    huge_window.binance.dataset_max_days = 2731;
    assert_eq!(huge_window.validate().unwrap_err(), TradeError::ConfigError);
}
