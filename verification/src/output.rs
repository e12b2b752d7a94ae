//! What a state engine hands back when queried: a point-in-time, read-only
//! snapshot of its aggregation, one entry per source that has seen a trade.

use vstd::prelude::*;

use crate::event::EventSource;

verus! {

/// Derived indicator outputs for one source, as the external analytics
/// collaborator reported them: fixed-point values, or `None` where the
/// collaborator found the history insufficient. An unavailable indicator
/// is a valid answer, never an error.
#[derive(Clone, Copy, Debug, PartialEq, Eq, Structural)]
pub struct IndicatorReport {
    pub rsi: Option<u64>,
    pub natr: Option<u64>,
}

impl IndicatorReport {
    /// A report with every indicator unavailable.
    pub fn unavailable() -> (r: IndicatorReport)
        ensures
            r.rsi is None,
            r.natr is None,
    {
        IndicatorReport { rsi: None, natr: None }
    }
}

/// One indicator report per source, gathered for a single query.
#[derive(Clone, Copy, Debug, PartialEq, Eq, Structural)]
pub struct IndicatorSet {
    pub binance: IndicatorReport,
    pub bybit: IndicatorReport,
    pub coinbase: IndicatorReport,
}

impl IndicatorSet {
    /// A set with every indicator unavailable.
    pub fn unavailable() -> (r: IndicatorSet)
        ensures
            r.binance.rsi is None && r.binance.natr is None,
            r.bybit.rsi is None && r.bybit.natr is None,
            r.coinbase.rsi is None && r.coinbase.natr is None,
    {
        IndicatorSet {
            binance: IndicatorReport::unavailable(),
            bybit: IndicatorReport::unavailable(),
            coinbase: IndicatorReport::unavailable(),
        }
    }

    /// The report belonging to `source`.
    pub open spec fn spec_for_source(self, source: EventSource) -> IndicatorReport {
        match source {
            EventSource::Binance => self.binance,
            EventSource::Bybit => self.bybit,
            EventSource::Coinbase => self.coinbase,
        }
    }
}

/// The snapshot entry for one source: its latest aggregated price and the
/// indicator outputs that came with the query. The price is always
/// present; the indicators may each be unavailable.
#[derive(Clone, Copy, Debug, PartialEq, Eq, Structural)]
pub struct PriceData {
    pub source: EventSource,
    pub price: u64,
    pub rsi: Option<u64>,
    pub natr: Option<u64>,
}

impl PriceData {
    pub fn new(source: EventSource, price: u64, rsi: Option<u64>, natr: Option<u64>) -> (r:
        PriceData)
        ensures
            r == (PriceData { source, price, rsi, natr }),
    {
        PriceData { source, price, rsi, natr }
    }

    /// Builds an entry if the source has a price at all. Unavailable
    /// indicators never suppress the entry: a query must report the
    /// in-progress aggregate even when the derived values are missing.
    pub fn try_new(
        source: EventSource,
        price: Option<u64>,
        rsi: Option<u64>,
        natr: Option<u64>,
    ) -> (r: Option<PriceData>)
        ensures
            r is Some <==> price is Some,
            price is Some ==> r == Some(
                PriceData { source, price: price->0, rsi, natr },
            ),
    {
        match price {
            Some(p) => Some(PriceData { source, price: p, rsi, natr }),
            None => None,
        }
    }
}

/// A state engine's answer to one query.
#[derive(Clone, Debug, PartialEq)]
pub enum StateOutput {
    Prices(Vec<PriceData>),
}

} // verus!
