use crypto_trading_bot::utils::{calculate_profit, ceil_hour, earlier, floor_hour};

#[test]
fn test_calculate_profit() {
    let (profit, percentage) = calculate_profit(10, 20, 30);
    assert_eq!(profit.num, 100);
    assert_eq!(profit.den, 20);
    assert_eq!(percentage.num, 1000);
    assert_eq!(percentage.den, 20);
    assert_eq!(profit.num as f64 / profit.den as f64, 5.0);
    assert_eq!(percentage.num as f64 / percentage.den as f64, 50.0);

    let (profit, percentage) = calculate_profit(30, 20878, 20900);
    assert_eq!(profit.num, 660);
    assert_eq!(profit.den, 20878);
    assert_eq!(percentage.num, 2200);
    assert_eq!(percentage.den, 20878);
    assert!((profit.num as f64 / profit.den as f64 - 0.03161222339304359).abs() < 1e-12);
    assert!((percentage.num as f64 / percentage.den as f64 - 0.10537407797681198).abs() < 1e-12);
}

#[test]
fn test_earlier() {
    let timestamp: u64 = 1674925200000; // 5 PM UTC
    let expected: u64 = 1674921600000; // 4 PM UTC
    let hour_earlier = earlier(timestamp, 3600 * 1000);
    assert_eq!(hour_earlier, expected);
}

#[test]
fn test_floor_hour() {
    let upper_timestamp: u64 = 1674928799000; // 2023-01-28T17:59:59 UTC
    let lower_timestamp: u64 = 1674925201000; // 2023-01-28T17:00:01Z UTC
    let expected_timestamp: u64 = 1674925200000; // 2023-01-28T17:00:00Z UTC
    assert_eq!(floor_hour(upper_timestamp), expected_timestamp);
    assert_eq!(floor_hour(lower_timestamp), expected_timestamp);
    assert_eq!(floor_hour(expected_timestamp), expected_timestamp);
}

#[test]
fn test_ceil_hour() {
    let upper_timestamp: u64 = 1674928799000; // 2023-01-28T17:59:59 UTC
    let lower_timestamp: u64 = 1674925201000; // 2023-01-28T17:00:01Z UTC
    let expected_timestamp: u64 = 1674928800000; // 2023-01-28T18:00:00Z UTC
    assert_eq!(ceil_hour(upper_timestamp), expected_timestamp);
    assert_eq!(ceil_hour(lower_timestamp), expected_timestamp);
}

#[test]
fn test_floor_hour_idempotent() {
    for t in [0u64, 999, 1674928799000, 1674925200000, 1674940162060] {
        assert_eq!(floor_hour(floor_hour(t)), floor_hour(t));
    }
}

#[test]
fn test_profit_negative_when_selling_below_initial() {
    let (profit, percentage) = calculate_profit(10, 40, 30);
    assert_eq!(profit.num, -100);
    assert_eq!(profit.den, 40);
    assert_eq!(percentage.num, -1000);
    assert_eq!(percentage.den, 40);
    assert_eq!(profit.num as f64 / profit.den as f64, -2.5);
}
