use crypto_trading_bot::binance_market::{
    backfill_collect, check_page, Backfill, BinanceKlineInterval, BinanceKlineOptions,
    BINANCE_MARKET_EPOCH, BINANCE_MAX_KLINES,
};
use crypto_trading_bot::errors::TradeError;
use crypto_trading_bot::market::Candle;

fn hourly_candle(open_time: u64, open: u64, high: u64) -> Candle {
    Candle {
        open_time,
        close_time: open_time + 3_599_999,
        open,
        high,
        low: open,
        close: open + 1,
        volume: 10,
        quote_asset_volume: 10,
    }
}

fn options(start: Option<u64>, end: Option<u64>, limit: Option<u16>) -> BinanceKlineOptions {
    BinanceKlineOptions {
        pair: "BTCUSDT".to_owned(),
        interval: BinanceKlineInterval::Hourly,
        limit,
        start,
        end,
    }
}

#[test]
fn test_interval_conversions_exact() {
    assert_eq!(BinanceKlineInterval::Hourly.to_seconds(), 3600);
    assert_eq!(BinanceKlineInterval::Daily.to_seconds(), 86400);
    assert_eq!(BinanceKlineInterval::Hourly.to_millis(), 3_600_000);
    assert_eq!(BinanceKlineInterval::Daily.to_millis(), 86_400_000);
    assert_eq!(BinanceKlineInterval::Hourly.to_string(), "1h");
    assert_eq!(BinanceKlineInterval::Daily.to_string(), "1d");
}

#[test]
fn test_new_defaults() {
    let b = Backfill::new(options(None, None, None));
    let req = b.next_request().expect("a fresh backfill requests a page");
    assert_eq!(req.start, BINANCE_MARKET_EPOCH);
    assert_eq!(req.limit, BINANCE_MAX_KLINES);
    assert_eq!(req.end, None);
}

#[test]
fn test_end_bound_passed_through() {
    let b = Backfill::new(options(Some(0), Some(7_200_000), Some(24)));
    let req = b.next_request().unwrap();
    assert_eq!(req.start, 0);
    assert_eq!(req.limit, 24);
    assert_eq!(req.end, Some(7_200_000));
}

#[test]
fn test_backfill_pages_strictly_increasing() {
    let mut b = Backfill::new(options(Some(0), None, None));
    let mut yielded: Vec<Candle> = Vec::new();

    let page1 = vec![hourly_candle(0, 100, 110), hourly_candle(3_600_000, 101, 111)];
    let req1 = b.next_request().unwrap();
    assert_eq!(req1.start, 0);
    assert!(check_page(req1.start, &BinanceKlineInterval::Hourly, &page1));
    b.feed_page(&page1);
    yielded.extend(page1.iter().cloned());

    // The cursor advanced one interval past the last close: the next
    // page starts strictly after everything yielded.
    let req2 = b.next_request().unwrap();
    assert_eq!(req2.start, 7_199_999 + 3_600_000);
    assert!(yielded.iter().all(|c| c.open_time < req2.start));

    let page2 = vec![hourly_candle(req2.start, 102, 112), hourly_candle(req2.start + 3_600_000, 103, 113)];
    assert!(check_page(req2.start, &BinanceKlineInterval::Hourly, &page2));
    b.feed_page(&page2);
    yielded.extend(page2.iter().cloned());

    for w in yielded.windows(2) {
        assert!(w[0].open_time < w[1].open_time);
        assert!(w[0].close_time < w[1].open_time);
    }
}

#[test]
fn test_backfill_terminates_on_empty_page() {
    let mut b = Backfill::new(options(Some(0), None, None));
    let page1 = vec![hourly_candle(0, 100, 110)];
    assert!(check_page(0, &BinanceKlineInterval::Hourly, &page1));
    b.feed_page(&page1);
    assert!(b.next_request().is_some());

    let empty: Vec<Candle> = Vec::new();
    b.feed_page(&empty);
    assert!(b.next_request().is_none());
}

#[test]
fn test_backfill_collect_yields_all_pages_in_order() {
    let pages = vec![
        vec![hourly_candle(0, 100, 110), hourly_candle(3_600_000, 101, 111)],
        vec![hourly_candle(10_800_000, 102, 112)],
        vec![], // end of data: later pages are never requested
        vec![hourly_candle(999, 1, 1)],
    ];
    let candles = backfill_collect(options(Some(0), None, None), &pages).unwrap();
    // Exactly the concatenation of the pages consumed before the empty
    // page, in order.
    let expected: Vec<Candle> = pages[0].iter().chain(pages[1].iter()).cloned().collect();
    assert_eq!(candles, expected);
    for w in candles.windows(2) {
        assert!(w[0].open_time < w[1].open_time);
        assert!(w[0].close_time < w[1].open_time);
    }
}

#[test]
fn test_backfill_collect_rejects_malformed_page() {
    // The second page restarts before the cursor: a duplicate the
    // generator must never yield.
    let pages = vec![
        vec![hourly_candle(0, 100, 110)],
        vec![hourly_candle(0, 100, 110)],
    ];
    let r = backfill_collect(options(Some(0), None, None), &pages);
    assert_eq!(r.unwrap_err(), TradeError::TransientFetchError);
}

#[test]
fn test_check_page_rejects_bad_pages() {
    let interval = BinanceKlineInterval::Hourly;
    // A candle opening before the requested start.
    let early = vec![hourly_candle(0, 100, 110)];
    assert!(!check_page(1, &interval, &early));
    // Overlapping candles.
    let overlapping = vec![hourly_candle(0, 100, 110), hourly_candle(1_800_000, 101, 111)];
    assert!(!check_page(0, &interval, &overlapping));
    // Out of order.
    let unsorted = vec![hourly_candle(7_200_000, 102, 112), hourly_candle(0, 100, 110)];
    assert!(!check_page(0, &interval, &unsorted));
    // A candle closing at or before it opens.
    let inverted = vec![Candle {
        open_time: 10,
        close_time: 10,
        open: 1,
        high: 1,
        low: 1,
        close: 1,
        volume: 0,
        quote_asset_volume: 0,
    }];
    assert!(!check_page(0, &interval, &inverted));
    // The empty page is a well-formed end-of-data signal.
    let empty: Vec<Candle> = Vec::new();
    assert!(check_page(0, &interval, &empty));
}
