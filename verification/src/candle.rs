//! Time-bucketed aggregation of trades. A series owns one in-progress
//! candle and a history of closed ones; folding a trade either updates the
//! current bucket, closes it and opens a later one, or is rejected as
//! stale. The whole series state is a pure fold of the trades pushed into
//! it, which is what makes per-engine queries reproducible.

use vstd::prelude::*;

use crate::errors::StateUpdateError;

verus! {

/// One closed or in-progress time bucket. Prices and volume are
/// fixed-point integers; `start` is the bucket's first millisecond and is
/// always a multiple of the series timeframe.
#[derive(Clone, Copy, Debug, PartialEq, Eq, Structural)]
pub struct Candle {
    pub start: u64,
    pub open: u64,
    pub high: u64,
    pub low: u64,
    pub close: u64,
    pub volume: u64,
}

/// The mathematical state of a series: its timeframe, the closed buckets
/// oldest first, and the bucket being aggregated, if any.
pub struct SeriesView {
    pub timeframe: u64,
    pub history: Seq<Candle>,
    pub current: Option<Candle>,
}

impl SeriesView {
    pub open spec fn wf(self) -> bool {
        self.timeframe > 0
    }
}

/// The bucket a timestamp falls into: the greatest multiple of the
/// timeframe that does not exceed it.
pub open spec fn bucket_start(timeframe: u64, ts: u64) -> u64
    recommends
        timeframe > 0,
{
    ((ts as int / timeframe as int) * timeframe as int) as u64
}

/// A fresh bucket opened by one trade.
pub open spec fn open_candle(timeframe: u64, price: u64, size: u64, ts: u64) -> Candle {
    Candle {
        start: bucket_start(timeframe, ts),
        open: price,
        high: price,
        low: price,
        close: price,
        volume: size,
    }
}

/// Addition that stops at `u64::MAX` instead of wrapping.
pub open spec fn sat_add(a: u64, b: u64) -> u64 {
    if a + b > u64::MAX {
        u64::MAX
    } else {
        (a + b) as u64
    }
}

/// One more trade folded into an in-progress bucket: the extremes widen,
/// the close follows the trade, the volume accumulates.
pub open spec fn merge_candle(c: Candle, price: u64, size: u64) -> Candle {
    Candle {
        start: c.start,
        open: c.open,
        high: if price > c.high {
            price
        } else {
            c.high
        },
        low: if price < c.low {
            price
        } else {
            c.low
        },
        close: price,
        volume: sat_add(c.volume, size),
    }
}

/// What folding one trade does to a series: opens the first bucket,
/// extends the current one, closes it and opens a later one, or — for a
/// trade older than the current bucket — rejects (`None`).
pub open spec fn spec_push(v: SeriesView, price: u64, size: u64, ts: u64) -> Option<SeriesView>
    recommends
        v.wf(),
{
    let bs = bucket_start(v.timeframe, ts);
    match v.current {
        None => Some(
            SeriesView {
                current: Some(open_candle(v.timeframe, price, size, ts)),
                ..v
            },
        ),
        Some(c) => {
            if bs == c.start {
                Some(SeriesView { current: Some(merge_candle(c, price, size)), ..v })
            } else if bs > c.start {
                Some(
                    SeriesView {
                        history: v.history.push(c),
                        current: Some(open_candle(v.timeframe, price, size, ts)),
                        ..v
                    },
                )
            } else {
                None
            }
        },
    }
}

/// A series is time-ordered: every bucket start is aligned to the
/// timeframe, closed buckets stand in strictly increasing time order, the
/// in-progress bucket lies after all of them, and closed buckets only
/// exist once some bucket is in progress.
pub open spec fn series_ordered(v: SeriesView) -> bool {
    &&& forall|i: int|
        0 <= i < v.history.len() ==> (#[trigger] v.history[i]).start as int % v.timeframe as int
            == 0
    &&& forall|i: int, j: int|
        0 <= i < j < v.history.len() ==> v.history[i].start < v.history[j].start
    &&& match v.current {
        Some(c) => c.start as int % v.timeframe as int == 0 && forall|i: int|
            0 <= i < v.history.len() ==> (#[trigger] v.history[i]).start < c.start,
        None => v.history.len() == 0,
    }
}

/// A fresh bucket's start is at most the trade's timestamp and aligned to
/// the timeframe.
pub proof fn lemma_bucket_start_basics(timeframe: u64, ts: u64)
    requires
        timeframe > 0,
    ensures
        bucket_start(timeframe, ts) <= ts,
        bucket_start(timeframe, ts) as int % timeframe as int == 0,
{
    let tf = timeframe as int;
    let q = ts as int / tf;
    vstd::arithmetic::div_mod::lemma_fundamental_div_mod(ts as int, tf);
    vstd::arithmetic::div_mod::lemma_mod_division_less_than_divisor(ts as int, tf);
    assert(q * tf == ts as int - (ts as int % tf)) by (nonlinear_arith)
        requires
            ts as int == tf * q + (ts as int % tf),
    ;
    assert(0 <= q * tf <= ts as int);
    vstd::arithmetic::div_mod::lemma_mod_multiples_basic(q, tf);
}

/// Law: folding preserves time order. Whatever one trade does to an
/// ordered series — opening, extending or closing a bucket, or being
/// rejected as stale — the series stays ordered.
pub proof fn lemma_push_preserves_order(v: SeriesView, price: u64, size: u64, ts: u64)
    requires
        v.wf(),
        series_ordered(v),
    ensures
        match spec_push(v, price, size, ts) {
            Some(w) => series_ordered(w),
            None => true,
        },
{
    lemma_bucket_start_basics(v.timeframe, ts);
}

/// An empty series with the given timeframe.
pub open spec fn empty_series(timeframe: u64) -> SeriesView {
    SeriesView { timeframe, history: Seq::empty(), current: None }
}

/// The price a point-in-time query reports: the close of the bucket being
/// aggregated, else of the last closed one, else nothing.
pub open spec fn spec_latest_price(v: SeriesView) -> Option<u64> {
    match v.current {
        Some(c) => Some(c.close),
        None => if v.history.len() > 0 {
            Some(v.history.last().close)
        } else {
            None
        },
    }
}

/// Number of buckets the series holds, the in-progress one included.
pub open spec fn spec_series_len(v: SeriesView) -> nat {
    v.history.len() + if v.current is Some {
        1nat
    } else {
        0nat
    }
}

/// The same count as a machine word, saturated at `usize::MAX`.
pub open spec fn capped_series_len(v: SeriesView) -> usize {
    if spec_series_len(v) <= usize::MAX {
        spec_series_len(v) as usize
    } else {
        usize::MAX
    }
}

/// Exclusive owner of one time-bucketed aggregation. Mutated only by
/// [`CandleSeries::push`]; every read is a pure function of the view.
#[derive(Clone, Debug)]
pub struct CandleSeries {
    timeframe: u64,
    history: Vec<Candle>,
    current: Option<Candle>,
}

impl View for CandleSeries {
    type V = SeriesView;

    closed spec fn view(&self) -> SeriesView {
        SeriesView { timeframe: self.timeframe, history: self.history@, current: self.current }
    }
}

impl CandleSeries {
    /// A new, empty series bucketing trades into `timeframe`-millisecond
    /// candles.
    pub fn new(timeframe: u64) -> (r: Self)
        requires
            timeframe > 0,
        ensures
            r@ == empty_series(timeframe),
            r@.wf(),
    {
        let r = CandleSeries { timeframe, history: Vec::new(), current: None };
        proof {
            assert(r@.history =~= empty_series(timeframe).history);
        }
        r
    }

    /// Folds one trade into the series, exactly as [`spec_push`] says: a
    /// stale trade is rejected and the state stays what it was.
    pub fn push(&mut self, price: u64, size: u64, timestamp: u64) -> (r: Result<
        (),
        StateUpdateError,
    >)
        requires
            old(self)@.wf(),
        ensures
            final(self)@.wf(),
            match spec_push(old(self)@, price, size, timestamp) {
                Some(v) => r is Ok && final(self)@ == v,
                None => r == Err::<(), StateUpdateError>(StateUpdateError::Stale) && final(self)@
                    == old(self)@,
            },
    {
        let q = timestamp / self.timeframe;
        proof {
            vstd::arithmetic::div_mod::lemma_fundamental_div_mod(
                timestamp as int,
                self.timeframe as int,
            );
            vstd::arithmetic::div_mod::lemma_mod_division_less_than_divisor(
                timestamp as int,
                self.timeframe as int,
            );
            assert(q as int == timestamp as int / self.timeframe as int);
            assert(self.timeframe as int * (timestamp as int / self.timeframe as int) <= timestamp
                as int);
            assert(q as int * self.timeframe as int <= timestamp as int) by (nonlinear_arith)
                requires
                    q as int == timestamp as int / self.timeframe as int,
                    self.timeframe as int * (timestamp as int / self.timeframe as int) <= timestamp
                        as int,
            ;
        }
        let bs = q * self.timeframe;
        assert(bs == bucket_start(self.timeframe, timestamp));
        match self.current {
            None => {
                self.current = Some(
                    Candle {
                        start: bs,
                        open: price,
                        high: price,
                        low: price,
                        close: price,
                        volume: size,
                    },
                );
                Ok(())
            },
            Some(c) => {
                if bs == c.start {
                    let vol = if size > u64::MAX - c.volume {
                        u64::MAX
                    } else {
                        c.volume + size
                    };
                    self.current = Some(
                        Candle {
                            start: c.start,
                            open: c.open,
                            high: if price > c.high {
                                price
                            } else {
                                c.high
                            },
                            low: if price < c.low {
                                price
                            } else {
                                c.low
                            },
                            close: price,
                            volume: vol,
                        },
                    );
                    Ok(())
                } else if bs > c.start {
                    self.history.push(c);
                    self.current = Some(
                        Candle {
                            start: bs,
                            open: price,
                            high: price,
                            low: price,
                            close: price,
                            volume: size,
                        },
                    );
                    Ok(())
                } else {
                    Err(StateUpdateError::Stale)
                }
            },
        }
    }

    /// The price a query reports right now; see [`spec_latest_price`].
    pub fn latest_price(&self) -> (r: Option<u64>)
        ensures
            r == spec_latest_price(self@),
    {
        match self.current {
            Some(c) => Some(c.close),
            None => {
                if self.history.len() > 0 {
                    Some(self.history[self.history.len() - 1].close)
                } else {
                    None
                }
            },
        }
    }

    /// Total number of buckets, the in-progress one included, saturated
    /// at `usize::MAX`.
    pub fn len(&self) -> (r: usize)
        ensures
            r == capped_series_len(self@),
    {
        if self.current.is_some() {
            if self.history.len() == usize::MAX {
                usize::MAX
            } else {
                self.history.len() + 1
            }
        } else {
            self.history.len()
        }
    }

    /// Number of closed buckets.
    pub fn history_len(&self) -> (r: usize)
        ensures
            r == self@.history.len(),
    {
        self.history.len()
    }

    /// The `i`-th closed bucket, oldest first.
    pub fn history_at(&self, i: usize) -> (r: Candle)
        requires
            i < self@.history.len(),
        ensures
            r == self@.history[i as int],
    {
        self.history[i]
    }

    /// The bucket being aggregated, if any trade has arrived for it.
    pub fn current(&self) -> (r: Option<Candle>)
        ensures
            r == self@.current,
    {
        self.current
    }
}

} // verus!
