//! The candle backfill generator: a lazy, finite, forward-only,
//! non-restartable pager over historical klines.
//!
//! The generator owns only the paging cursor. The unverified boundary
//! performs each network fetch: it asks [`Backfill::next_request`] what
//! to request, fetches that page, checks it with [`check_page`] and
//! hands it to [`Backfill::feed_page`], which advances the cursor past
//! the last candle so that pages never overlap.

use vstd::prelude::*;
use crate::errors::TradeError;
use crate::market::{candles_disjoint, candles_increasing, Candle};

verus! {

/// The maximum amount of klines the exchange supports in one response.
pub const BINANCE_MAX_KLINES: u16 = 1500;

/// The starting timestamp when the exchange started indexing market
/// data. Human readable date: `2017-08-17T04:00:00.000Z`.
pub const BINANCE_MARKET_EPOCH: u64 = 1502942400000;

/// Candle open/close intervals. Only hourly and daily intervals are
/// supported for now.
#[derive(Clone, Copy, Debug, PartialEq, Eq, Structural)]
pub enum BinanceKlineInterval {
    Hourly,
    Daily,
}

/// The exact length of an interval in seconds; it drives cursor
/// advancement, so it must be exact.
pub open spec fn interval_seconds(interval: BinanceKlineInterval) -> int {
    match interval {
        BinanceKlineInterval::Hourly => 3600,
        BinanceKlineInterval::Daily => 86400,
    }
}

/// The exact length of an interval in milliseconds.
pub open spec fn interval_millis(interval: BinanceKlineInterval) -> int {
    interval_seconds(interval) * 1000
}

impl BinanceKlineInterval {
    /// The interval's wire code on the kline endpoints.
    pub fn to_string(&self) -> (r: String)
        ensures
            *self == BinanceKlineInterval::Hourly ==> r@ == "1h"@,
            *self == BinanceKlineInterval::Daily ==> r@ == "1d"@,
    {
        match self {
            BinanceKlineInterval::Hourly => "1h".to_owned(),
            BinanceKlineInterval::Daily => "1d".to_owned(),
        }
    }

    /// The exact number of seconds one candle of this interval spans.
    pub fn to_seconds(&self) -> (r: u64)
        ensures
            r == interval_seconds(*self),
    {
        match self {
            BinanceKlineInterval::Hourly => 3600,
            BinanceKlineInterval::Daily => 86400,
        }
    }

    /// The exact number of milliseconds one candle of this interval
    /// spans.
    pub fn to_millis(&self) -> (r: u64)
        ensures
            r == interval_millis(*self),
    {
        self.to_seconds() * 1000
    }
}

/// Options for one backfill of historical klines.
pub struct BinanceKlineOptions {
    /// The target trading pair/symbol.
    pub pair: String,
    /// Candle open/close interval.
    pub interval: BinanceKlineInterval,
    /// Maximum amount of results per page. Defaults to
    /// `BINANCE_MAX_KLINES`.
    pub limit: Option<u16>,
    /// Start time. Defaults to `BINANCE_MARKET_EPOCH`.
    pub start: Option<u64>,
    /// End time, passed through to each page request. Defaults to
    /// `None`.
    pub end: Option<u64>,
}

/// One page request the consumer should perform next: up to `limit`
/// candles beginning at `start`, bounded by `end` if present.
#[derive(Clone, Copy, Debug, PartialEq, Eq, Structural)]
pub struct PageRequest {
    pub start: u64,
    pub limit: u16,
    pub end: Option<u64>,
}

/// What a fetched page must look like to be fed to the generator: every
/// candle well formed, none opening before the requested start, ranges
/// pairwise disjoint and in order, and no close time so large that
/// advancing the cursor past it would overflow.
pub open spec fn page_wf(cursor: u64, interval: BinanceKlineInterval, page: Seq<Candle>) -> bool {
    &&& forall|i: int| 0 <= i < page.len() ==> (#[trigger] page[i]).wf()
    &&& forall|i: int| 0 <= i < page.len() ==> cursor <= (#[trigger] page[i]).open_time
    &&& candles_disjoint(page)
    &&& forall|i: int|
        0 <= i < page.len() ==> (#[trigger] page[i]).close_time + interval_millis(interval)
            <= u64::MAX
}

/// The paging state of one backfill: the time cursor for the next page,
/// and whether the source has been exhausted. `yielded` is the ghost
/// record of every candle handed to the consumer so far.
pub struct Backfill {
    pub pair: String,
    pub interval: BinanceKlineInterval,
    pub limit: Option<u16>,
    pub end: Option<u64>,
    pub cursor: u64,
    pub done: bool,
    pub yielded: Ghost<Seq<Candle>>,
}

impl Backfill {
    /// The generator's invariant: everything yielded so far is well
    /// formed, strictly increasing in `open_time`, pairwise disjoint,
    /// and closed strictly before the cursor, so nothing yielded later
    /// can duplicate or precede it.
    pub open spec fn wf(self) -> bool {
        &&& candles_increasing(self.yielded@)
        &&& candles_disjoint(self.yielded@)
        &&& forall|i: int| 0 <= i < self.yielded@.len() ==> (#[trigger] self.yielded@[i]).wf()
        &&& forall|i: int|
            0 <= i < self.yielded@.len() ==> (#[trigger] self.yielded@[i]).close_time
                < self.cursor
    }

    /// The generator state after one page is accepted: an empty page
    /// exhausts the source; otherwise the cursor advances to one
    /// interval past the last candle's close.
    pub open spec fn feed_result(self, page: Seq<Candle>) -> Backfill {
        if page.len() == 0 {
            Backfill { done: true, ..self }
        } else {
            Backfill {
                cursor: (page.last().close_time + interval_millis(self.interval)) as u64,
                yielded: Ghost(self.yielded@ + page),
                ..self
            }
        }
    }

    /// The fresh generator the given options start: the cursor at
    /// `options.start` (or the market epoch when unset), nothing
    /// yielded yet.
    pub open spec fn initial(options: BinanceKlineOptions) -> Backfill {
        Backfill {
            pair: options.pair,
            interval: options.interval,
            limit: options.limit,
            end: options.end,
            cursor: match options.start {
                Some(s) => s,
                None => BINANCE_MARKET_EPOCH,
            },
            done: false,
            yielded: Ghost(Seq::empty()),
        }
    }

    /// Starts a backfill at `options.start` (or the market epoch when
    /// unset); nothing has been yielded yet.
    pub fn new(options: BinanceKlineOptions) -> (b: Backfill)
        ensures
            b == Backfill::initial(options),
            b.wf(),
    {
        let cursor = match options.start {
            Some(s) => s,
            None => BINANCE_MARKET_EPOCH,
        };
        Backfill {
            pair: options.pair,
            interval: options.interval,
            limit: options.limit,
            end: options.end,
            cursor,
            done: false,
            yielded: Ghost(Seq::empty()),
        }
    }

    /// The next page to fetch, or `None` once the source is exhausted:
    /// up to `limit` (defaulting to the source's maximum page size)
    /// candles beginning at the cursor, with the `end` bound, if any,
    /// passed through unchanged.
    pub fn next_request(&self) -> (r: Option<PageRequest>)
        ensures
            r is Some <==> !self.done,
            r matches Some(req) ==> req.start == self.cursor && req.end == self.end
                && req.limit == match self.limit {
                    Some(l) => l,
                    None => BINANCE_MAX_KLINES,
                },
    {
        if self.done {
            None
        } else {
            let limit = match self.limit {
                Some(l) => l,
                None => BINANCE_MAX_KLINES,
            };
            Some(PageRequest { start: self.cursor, limit, end: self.end })
        }
    }

    /// Accepts the page fetched for the current cursor. An empty page
    /// terminates the sequence (exhausted, not an error). Otherwise
    /// every candle in the page is yielded in order and the cursor
    /// advances to one interval past the last candle's close, so the
    /// next page starts strictly after everything yielded: the whole
    /// yielded sequence stays strictly increasing in `open_time`.
    pub fn feed_page(&mut self, page: &Vec<Candle>)
        requires
            old(self).wf(),
            !old(self).done,
            page_wf(old(self).cursor, old(self).interval, page@),
        ensures
            *final(self) == old(self).feed_result(page@),
            final(self).wf(),
            final(self).yielded@ == old(self).yielded@ + page@,
            candles_increasing(final(self).yielded@),
            forall|i: int|
                0 <= i < page@.len() ==> old(self).cursor <= (#[trigger] page@[i]).open_time,
    {
        if page.len() == 0 {
            self.done = true;
            proof {
                assert(self.yielded@ =~= self.yielded@ + page@);
            }
        } else {
            let last = page[page.len() - 1];
            let step = self.interval.to_millis();
            self.cursor = last.close_time + step;
            let ghost new_yielded = self.yielded@ + page@;
            self.yielded = Ghost(new_yielded);
            proof {
                let s = self.yielded@;
                let n = old(self).yielded@.len() as int;
                assert forall|i: int, j: int| 0 <= i < j < s.len() implies s[i].close_time
                    < s[j].open_time by {
                    if j < n {
                    } else if i < n {
                        assert(s[i].close_time < old(self).cursor);
                        assert(old(self).cursor <= page@[j - n].open_time);
                    } else {
                        assert(page@[i - n].close_time < page@[j - n].open_time);
                    }
                }
                assert forall|i: int, j: int| 0 <= i < j < s.len() implies s[i].open_time
                    < s[j].open_time by {
                    assert(s[i].wf());
                    assert(s[i].close_time < s[j].open_time);
                }
                assert forall|i: int| 0 <= i < s.len() implies (#[trigger] s[i]).close_time
                    < self.cursor by {
                    if i < n {
                        assert(s[i].close_time < old(self).cursor);
                        assert(old(self).cursor <= page@[page@.len() - 1].open_time);
                        assert(page@[page@.len() - 1].wf());
                    } else if i < s.len() - 1 {
                        assert(page@[i - n].close_time < page@[page@.len() - 1].open_time);
                        assert(page@[page@.len() - 1].wf());
                    }
                }
            }
        }
    }
}

/// Law: the generator terminates when the source returns an empty page.
/// Feeding an empty page exhausts the generator, and an exhausted
/// generator issues no further page request (`next_request` returns
/// `None`), so a consumer loop driven by `next_request` exits.
pub proof fn lemma_empty_page_terminates(b: Backfill)
    ensures
        b.feed_result(Seq::<Candle>::empty()).done,
{
}

/// The generator state after the first `n` of the fetched pages, each
/// fed where the one before left the cursor; once the source is
/// exhausted, later pages are not consumed.
pub open spec fn collect_state(b: Backfill, pages: Seq<Vec<Candle>>, n: int) -> Backfill
    decreases n,
{
    if n <= 0 {
        b
    } else {
        let prev = collect_state(b, pages, n - 1);
        if prev.done {
            prev
        } else {
            prev.feed_result(pages[n - 1]@)
        }
    }
}

/// Each of the first `n` pages, at the cursor the generator was then
/// at, has the shape the exchange documents for a kline response — up
/// to the first empty page, after which nothing more is consumed.
pub open spec fn pages_accepted(b: Backfill, pages: Seq<Vec<Candle>>, n: int) -> bool
    decreases n,
{
    n <= 0 || (pages_accepted(b, pages, n - 1) && {
        let prev = collect_state(b, pages, n - 1);
        prev.done || page_wf(prev.cursor, prev.interval, pages[n - 1]@)
    })
}

/// Once the source is exhausted, feeding on changes nothing: the run
/// state and its acceptance are those at the exhaustion point.
proof fn lemma_collect_state_stops(b: Backfill, pages: Seq<Vec<Candle>>, i: int, n: int)
    requires
        0 <= i <= n,
        collect_state(b, pages, i).done,
    ensures
        collect_state(b, pages, n) == collect_state(b, pages, i),
        pages_accepted(b, pages, i) ==> pages_accepted(b, pages, n),
    decreases n - i,
{
    if i < n {
        lemma_collect_state_stops(b, pages, i, n - 1);
    }
}

/// Acceptance of a run covers every shorter run.
proof fn lemma_pages_accepted_prefix(b: Backfill, pages: Seq<Vec<Candle>>, k: int, n: int)
    requires
        0 <= k <= n,
        pages_accepted(b, pages, n),
    ensures
        pages_accepted(b, pages, k),
    decreases n - k,
{
    if k < n {
        lemma_pages_accepted_prefix(b, pages, k, n - 1);
    }
}

/// Runs a backfill to completion against already-fetched pages: page
/// after page is checked and fed until the source signals end-of-data
/// with an empty page or the pages run out, so the loop always
/// terminates. It succeeds exactly when every consumed page has the
/// shape the exchange documents, and then yields every candle of every
/// consumed page, in order, strictly increasing in `open_time` and
/// pairwise disjoint; a page out of shape surfaces as a terminal
/// `TransientFetchError`, never retried here.
#[verifier::loop_isolation(false)]
pub fn backfill_collect(options: BinanceKlineOptions, pages: &Vec<Vec<Candle>>) -> (r: Result<
    Vec<Candle>,
    TradeError,
>)
    ensures
        r is Ok <==> pages_accepted(Backfill::initial(options), pages@, pages@.len() as int),
        r matches Ok(c) ==> c@ == collect_state(
            Backfill::initial(options),
            pages@,
            pages@.len() as int,
        ).yielded@,
        r matches Ok(c) ==> candles_increasing(c@) && candles_disjoint(c@),
        r matches Err(e) ==> e == TradeError::TransientFetchError,
{
    let ghost init = Backfill::initial(options);
    let interval = options.interval;
    let mut backfill = Backfill::new(options);
    let mut out: Vec<Candle> = Vec::new();
    let mut i: usize = 0;
    while i < pages.len() && !backfill.done
        invariant
            0 <= i <= pages@.len(),
            backfill.wf(),
            backfill.interval == interval,
            out@ == backfill.yielded@,
            backfill == collect_state(init, pages@, i as int),
            pages_accepted(init, pages@, i as int),
        decreases pages@.len() - i,
    {
        let page = &pages[i];
        if !check_page(backfill.cursor, &interval, page) {
            proof {
                if pages_accepted(init, pages@, pages@.len() as int) {
                    lemma_pages_accepted_prefix(init, pages@, i as int + 1, pages@.len() as int);
                    assert(pages_accepted(init, pages@, i as int + 1));
                    let prev = collect_state(init, pages@, i as int);
                    assert(prev == backfill);
                    assert(prev.done || page_wf(prev.cursor, prev.interval, pages@[i as int]@));
                    assert(false);
                }
            }
            return Err(TradeError::TransientFetchError);
        }
        let ghost prev = out@;
        let mut j: usize = 0;
        while j < page.len()
            invariant
                0 <= j <= page@.len(),
                out@ == prev + page@.take(j as int),
            decreases page@.len() - j,
        {
            out.push(page[j]);
            proof {
                assert(prev + page@.take(j as int) + seq![page@[j as int]] =~= prev + page@.take(
                    j as int + 1,
                ));
            }
            j = j + 1;
        }
        proof {
            assert(page@.take(page@.len() as int) =~= page@);
        }
        backfill.feed_page(page);
        i = i + 1;
    }
    proof {
        if i < pages@.len() {
            lemma_collect_state_stops(init, pages@, i as int, pages@.len() as int);
        }
    }
    Ok(out)
}

/// Checks that a fetched page may be fed to the generator at `cursor`:
/// this is exactly the shape the exchange documents for a kline
/// response to a request starting at `cursor`, checked rather than
/// assumed, since the page crosses the trust boundary.
pub fn check_page(cursor: u64, interval: &BinanceKlineInterval, page: &Vec<Candle>) -> (b: bool)
    ensures
        b == page_wf(cursor, *interval, page@),
{
    let step = interval.to_millis();
    let n = page.len();
    let mut i: usize = 0;
    while i < n
        invariant
            0 <= i <= n,
            n == page@.len(),
            step == interval_millis(*interval),
            forall|k: int| 0 <= k < i ==> (#[trigger] page@[k]).wf(),
            forall|k: int| 0 <= k < i ==> cursor <= (#[trigger] page@[k]).open_time,
            forall|k: int| 0 < k < i ==> page@[k - 1].close_time < (#[trigger] page@[k]).open_time,
            forall|k: int|
                0 <= k < i ==> (#[trigger] page@[k]).close_time + interval_millis(*interval)
                    <= u64::MAX,
        decreases n - i,
    {
        let c = page[i];
        if !(c.open_time < c.close_time && cursor <= c.open_time && c.close_time <= u64::MAX
            - step) {
            proof {
                let k = i as int;
                assert(!(page@[k].wf() && cursor <= page@[k].open_time && page@[k].close_time
                    + interval_millis(*interval) <= u64::MAX));
            }
            return false;
        }
        if i > 0 && !(page[i - 1].close_time < c.open_time) {
            proof {
                assert(!candles_disjoint(page@)) by {
                    let k = i as int;
                    assert(0 <= k - 1 < k < page@.len());
                    assert(!(page@[k - 1].close_time < page@[k].open_time));
                }
            }
            return false;
        }
        i = i + 1;
    }
    proof {
        lemma_disjoint_from_adjacent(page@);
    }
    true
}

/// From adjacent disjointness and well-formed candles, any earlier
/// candle closes before any later one opens.
proof fn lemma_disjoint_from_adjacent(s: Seq<Candle>)
    requires
        forall|i: int| 0 <= i < s.len() ==> (#[trigger] s[i]).wf(),
        forall|i: int| 0 < i < s.len() ==> s[i - 1].close_time < (#[trigger] s[i]).open_time,
    ensures
        candles_disjoint(s),
{
    assert forall|i: int, j: int| 0 <= i < j < s.len() implies s[i].close_time
        < s[j].open_time by {
        lemma_close_before_open(s, i, j);
    }
}

/// Helper induction: `s[i]` closes before `s[j]` opens, for `i < j`.
proof fn lemma_close_before_open(s: Seq<Candle>, i: int, j: int)
    requires
        forall|k: int| 0 <= k < s.len() ==> (#[trigger] s[k]).wf(),
        forall|k: int| 0 < k < s.len() ==> s[k - 1].close_time < (#[trigger] s[k]).open_time,
        0 <= i < j < s.len(),
    ensures
        s[i].close_time < s[j].open_time,
    decreases j - i,
{
    if j == i + 1 {
        assert(s[j - 1].close_time < s[j].open_time);
    } else {
        lemma_close_before_open(s, i, j - 1);
        assert(s[j - 1].close_time < s[j].open_time);
        assert(s[j - 1].wf());
    }
}


} // verus!
