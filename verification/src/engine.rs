//! The price state engine: exclusive owner of one time-bucketed candle
//! series per source. Its whole state is a pure fold of the trade events
//! delivered to it, so a query's answer is determined by exactly the
//! events folded before the query and by nothing else.

use vstd::prelude::*;

use crate::candle::{
    capped_series_len, empty_series, spec_latest_price, spec_push, CandleSeries, SeriesView,
};
use crate::errors::StateUpdateError;
use crate::event::{EventSource, InternalEvent, Trade};
use crate::output::{IndicatorSet, PriceData, StateOutput};

verus! {

/// The mathematical state of the engine: one series view per source.
pub struct EngineStateView {
    pub binance: SeriesView,
    pub bybit: SeriesView,
    pub coinbase: SeriesView,
}

/// The series a source's trades are folded into.
pub open spec fn engine_series(v: EngineStateView, source: EventSource) -> SeriesView {
    match source {
        EventSource::Binance => v.binance,
        EventSource::Bybit => v.bybit,
        EventSource::Coinbase => v.coinbase,
    }
}

/// The engine state with one source's series replaced.
pub open spec fn engine_with(
    v: EngineStateView,
    source: EventSource,
    sv: SeriesView,
) -> EngineStateView {
    match source {
        EventSource::Binance => EngineStateView { binance: sv, ..v },
        EventSource::Bybit => EngineStateView { bybit: sv, ..v },
        EventSource::Coinbase => EngineStateView { coinbase: sv, ..v },
    }
}

/// Folding one trade: the matching series takes it, or drops it unchanged
/// if it is stale; the other series are untouched.
pub open spec fn engine_step(v: EngineStateView, t: Trade) -> EngineStateView {
    let sv = engine_series(v, t.source);
    let sv2 = match spec_push(sv, t.price, t.size, t.timestamp) {
        Some(w) => w,
        None => sv,
    };
    engine_with(v, t.source, sv2)
}

/// Folding a sequence of trades, first to last.
pub open spec fn engine_fold(v: EngineStateView, ts: Seq<Trade>) -> EngineStateView
    decreases ts.len(),
{
    if ts.len() == 0 {
        v
    } else {
        engine_fold(engine_step(v, ts[0]), ts.skip(1))
    }
}

/// The engine state before any event.
pub open spec fn empty_engine(timeframe: u64) -> EngineStateView {
    EngineStateView {
        binance: empty_series(timeframe),
        bybit: empty_series(timeframe),
        coinbase: empty_series(timeframe),
    }
}

/// Law: folding a sequence of trades is independent of how it is chunked
/// across deliveries — folding `a + b` in one piece equals folding `a`,
/// then `b`, from the intermediate state.
pub proof fn lemma_fold_chunking(v: EngineStateView, a: Seq<Trade>, b: Seq<Trade>)
    ensures
        engine_fold(v, a + b) == engine_fold(engine_fold(v, a), b),
    decreases a.len(),
{
    if a.len() == 0 {
        assert(a + b =~= b);
    } else {
        assert((a + b)[0] == a[0]);
        assert((a + b).skip(1) =~= a.skip(1) + b);
        lemma_fold_chunking(engine_step(v, a[0]), a.skip(1), b);
    }
}

/// Folding a sequence of deliveries, each a chunk of trades, chunk by
/// chunk.
pub open spec fn fold_chunks(v: EngineStateView, chunks: Seq<Seq<Trade>>) -> EngineStateView
    decreases chunks.len(),
{
    if chunks.len() == 0 {
        v
    } else {
        fold_chunks(engine_fold(v, chunks.first()), chunks.drop_first())
    }
}

/// Law: however a trade sequence is chunked across deliveries, folding the
/// deliveries one by one leaves the state that folding the whole sequence
/// at once would leave.
pub proof fn lemma_fold_chunking_any(v: EngineStateView, chunks: Seq<Seq<Trade>>)
    ensures
        fold_chunks(v, chunks) == engine_fold(v, chunks.flatten()),
    decreases chunks.len(),
{
    if chunks.len() == 0 {
        assert(chunks.flatten() =~= Seq::<Trade>::empty());
    } else {
        assert(chunks.flatten() == chunks.first() + chunks.drop_first().flatten());
        lemma_fold_chunking(v, chunks.first(), chunks.drop_first().flatten());
        lemma_fold_chunking_any(engine_fold(v, chunks.first()), chunks.drop_first());
    }
}

/// Every series of the engine state is well-formed and time-ordered.
pub open spec fn engine_ordered(v: EngineStateView) -> bool {
    &&& v.binance.wf() && crate::candle::series_ordered(v.binance)
    &&& v.bybit.wf() && crate::candle::series_ordered(v.bybit)
    &&& v.coinbase.wf() && crate::candle::series_ordered(v.coinbase)
}

proof fn lemma_engine_step_ordered(v: EngineStateView, t: Trade)
    requires
        engine_ordered(v),
    ensures
        engine_ordered(engine_step(v, t)),
{
    crate::candle::lemma_push_preserves_order(
        engine_series(v, t.source),
        t.price,
        t.size,
        t.timestamp,
    );
}

proof fn lemma_engine_fold_ordered(v: EngineStateView, ts: Seq<Trade>)
    requires
        engine_ordered(v),
    ensures
        engine_ordered(engine_fold(v, ts)),
    decreases ts.len(),
{
    if ts.len() > 0 {
        lemma_engine_step_ordered(v, ts[0]);
        lemma_engine_fold_ordered(engine_step(v, ts[0]), ts.skip(1));
    }
}

/// Law: every reachable engine state is time-ordered. However many events
/// have been folded, each source's closed buckets stand in strictly
/// increasing, timeframe-aligned time order, with the in-progress bucket
/// after all of them.
pub proof fn lemma_engine_series_ordered(e: &PriceStateEngine, source: EventSource)
    requires
        e.wf(),
    ensures
        crate::candle::series_ordered(engine_series(e@, source)),
{
    assert(engine_ordered(empty_engine(e.spec_timeframe())));
    lemma_engine_fold_ordered(empty_engine(e.spec_timeframe()), e.log());
}

/// The snapshot entries one source contributes: one entry if it has a
/// price, none otherwise.
pub open spec fn source_entries(
    v: EngineStateView,
    ind: IndicatorSet,
    source: EventSource,
) -> Seq<PriceData> {
    match spec_latest_price(engine_series(v, source)) {
        Some(p) => seq![
            PriceData {
                source,
                price: p,
                rsi: ind.spec_for_source(source).rsi,
                natr: ind.spec_for_source(source).natr,
            },
        ],
        None => Seq::empty(),
    }
}

/// The full snapshot: entries in the fixed source order.
pub open spec fn spec_snapshot(v: EngineStateView, ind: IndicatorSet) -> Seq<PriceData> {
    source_entries(v, ind, EventSource::Binance) + source_entries(v, ind, EventSource::Bybit)
        + source_entries(v, ind, EventSource::Coinbase)
}

/// Exclusive owner of the per-source candle aggregation. Exactly one task
/// may hold it mutably; queries read it through [`Self::process_request`]
/// and never mutate it.
pub struct PriceStateEngine {
    timeframe: u64,
    binance: CandleSeries,
    bybit: CandleSeries,
    coinbase: CandleSeries,
    folded: Ghost<Seq<Trade>>,
}

impl View for PriceStateEngine {
    type V = EngineStateView;

    closed spec fn view(&self) -> EngineStateView {
        EngineStateView { binance: self.binance@, bybit: self.bybit@, coinbase: self.coinbase@ }
    }
}

impl PriceStateEngine {
    /// The trade events delivered so far, in delivery order, the dropped
    /// ones included.
    pub closed spec fn log(&self) -> Seq<Trade> {
        self.folded@
    }

    /// The candle timeframe every series buckets by, in milliseconds.
    pub closed spec fn spec_timeframe(&self) -> u64 {
        self.timeframe
    }

    /// Well-formedness: positive timeframe, and the state is exactly the
    /// fold of the delivered trades over the empty engine.
    pub closed spec fn wf(&self) -> bool {
        &&& self.timeframe > 0
        &&& self.binance@.timeframe == self.timeframe
        &&& self.bybit@.timeframe == self.timeframe
        &&& self.coinbase@.timeframe == self.timeframe
        &&& self@ == engine_fold(empty_engine(self.timeframe), self.folded@)
    }

    /// A fresh engine bucketing each source's trades by `timeframe`
    /// milliseconds.
    pub fn new(timeframe: u64) -> (r: Self)
        requires
            timeframe > 0,
        ensures
            r.wf(),
            r.log() == Seq::<Trade>::empty(),
            r.spec_timeframe() == timeframe,
            r@ == empty_engine(timeframe),
    {
        let r = PriceStateEngine {
            timeframe,
            binance: CandleSeries::new(timeframe),
            bybit: CandleSeries::new(timeframe),
            coinbase: CandleSeries::new(timeframe),
            folded: Ghost(Seq::empty()),
        };
        r
    }

    /// The engine's name, used as a metrics and logging label.
    pub fn name(&self) -> (r: &'static str)
        ensures
            r@ == "price_state_engine"@,
    {
        "price_state_engine"
    }

    /// One-time initialization before the event loop starts. This engine
    /// needs no upstream state, so it always succeeds and changes nothing.
    pub fn sync_state(&mut self) -> (r: Result<(), StateUpdateError>)
        ensures
            r is Ok,
            *final(self) == *old(self),
    {
        Ok(())
    }

    /// Folds one trade into the series its source routes to, exactly as
    /// [`engine_step`] says; a stale trade is dropped and the state stays
    /// what it was. The delivery is appended to the log either way.
    pub fn add_trade(&mut self, trade: Trade) -> (r: Result<(), StateUpdateError>)
        requires
            old(self).wf(),
        ensures
            final(self).wf(),
            final(self).spec_timeframe() == old(self).spec_timeframe(),
            final(self).log() == old(self).log().push(trade),
            final(self)@ == engine_step(old(self)@, trade),
            r is Ok <==> spec_push(
                engine_series(old(self)@, trade.source),
                trade.price,
                trade.size,
                trade.timestamp,
            ) is Some,
    {
        proof {
            lemma_fold_chunking(
                empty_engine(self.timeframe),
                self.folded@,
                seq![trade],
            );
            let s1 = seq![trade];
            assert(s1.len() == 1 && s1[0] == trade);
            assert(s1.skip(1) =~= Seq::<Trade>::empty());
            assert(engine_fold(old(self)@, s1) == engine_fold(
                engine_step(old(self)@, trade),
                Seq::<Trade>::empty(),
            ));
            assert(engine_fold(engine_step(old(self)@, trade), Seq::<Trade>::empty())
                == engine_step(old(self)@, trade));
        }
        let result = match trade.source {
            EventSource::Binance => self.binance.push(trade.price, trade.size, trade.timestamp),
            EventSource::Bybit => self.bybit.push(trade.price, trade.size, trade.timestamp),
            EventSource::Coinbase => self.coinbase.push(trade.price, trade.size, trade.timestamp),
        };
        proof {
            self.folded@ = self.folded@.push(trade);
            assert(self.folded@ =~= old(self).folded@ + seq![trade]);
        }
        match result {
            Ok(()) => Ok(()),
            Err(_) => Err(StateUpdateError::Stale),
        }
    }

    /// Folds one domain event: a trade goes to its series; an upstream
    /// `Error` is surfaced as a state-update failure and folds nothing; an
    /// `Unsupported` message is ignored. A failed fold never changes state
    /// and never stops the loop.
    pub fn process_event(&mut self, event: InternalEvent) -> (r: Result<(), StateUpdateError>)
        requires
            old(self).wf(),
        ensures
            final(self).wf(),
            final(self).spec_timeframe() == old(self).spec_timeframe(),
            match event {
                InternalEvent::Trade(t) => {
                    &&& final(self).log() == old(self).log().push(t)
                    &&& final(self)@ == engine_step(old(self)@, t)
                    &&& (r is Ok <==> spec_push(
                        engine_series(old(self)@, t.source),
                        t.price,
                        t.size,
                        t.timestamp,
                    ) is Some)
                },
                InternalEvent::Error(m) => r == Err::<(), StateUpdateError>(
                    StateUpdateError::Upstream(m),
                ) && *final(self) == *old(self),
                InternalEvent::Unsupported(_) => r is Ok && *final(self) == *old(self),
            },
    {
        match event {
            InternalEvent::Trade(t) => self.add_trade(t),
            InternalEvent::Error(m) => Err(StateUpdateError::Upstream(m)),
            InternalEvent::Unsupported(_) => Ok(()),
        }
    }

    /// Computes the read-only snapshot a query is answered with: one entry
    /// per source that has a price, carrying the indicator outputs the
    /// caller gathered from the analytics collaborator. Never mutates
    /// state; a source without data is simply absent, and unavailable
    /// indicators are reported, not treated as errors.
    pub fn process_request(&self, indicators: &IndicatorSet) -> (r: StateOutput)
        ensures
            r matches StateOutput::Prices(ps) && ps@ == spec_snapshot(self@, *indicators),
    {
        let mut ps: Vec<PriceData> = Vec::new();
        let ghost ind = *indicators;
        if let Some(p) = self.binance.latest_price() {
            ps.push(
                PriceData {
                    source: EventSource::Binance,
                    price: p,
                    rsi: indicators.binance.rsi,
                    natr: indicators.binance.natr,
                },
            );
        }
        assert(ps@ =~= source_entries(self@, ind, EventSource::Binance));
        let ghost ps1 = ps@;
        if let Some(p) = self.bybit.latest_price() {
            ps.push(
                PriceData {
                    source: EventSource::Bybit,
                    price: p,
                    rsi: indicators.bybit.rsi,
                    natr: indicators.bybit.natr,
                },
            );
        }
        assert(ps@ =~= ps1 + source_entries(self@, ind, EventSource::Bybit));
        let ghost ps2 = ps@;
        if let Some(p) = self.coinbase.latest_price() {
            ps.push(
                PriceData {
                    source: EventSource::Coinbase,
                    price: p,
                    rsi: indicators.coinbase.rsi,
                    natr: indicators.coinbase.natr,
                },
            );
        }
        assert(ps@ =~= ps2 + source_entries(self@, ind, EventSource::Coinbase));
        assert(ps@ =~= spec_snapshot(self@, ind));
        StateOutput::Prices(ps)
    }

    /// The final-state report the shutdown hook logs: how many buckets,
    /// the in-progress one included, each source's series holds. Reads
    /// state, never mutates it.
    pub fn on_shutdown(&self) -> (r: Vec<(EventSource, usize)>)
        ensures
            r@ == seq![
                (EventSource::Binance, capped_series_len(self@.binance)),
                (EventSource::Bybit, capped_series_len(self@.bybit)),
                (EventSource::Coinbase, capped_series_len(self@.coinbase)),
            ],
    {
        let mut r: Vec<(EventSource, usize)> = Vec::new();
        r.push((EventSource::Binance, self.binance.len()));
        r.push((EventSource::Bybit, self.bybit.len()));
        r.push((EventSource::Coinbase, self.coinbase.len()));
        proof {
            assert(r@ =~= seq![
                (EventSource::Binance, capped_series_len(self@.binance)),
                (EventSource::Bybit, capped_series_len(self@.bybit)),
                (EventSource::Coinbase, capped_series_len(self@.coinbase)),
            ]);
        }
        r
    }

    /// Read access to one source's series, for inspection and for the
    /// analytics collaborator's read-only view of engine state.
    pub fn series(&self, source: EventSource) -> (r: &CandleSeries)
        ensures
            r@ == engine_series(self@, source),
    {
        match source {
            EventSource::Binance => &self.binance,
            EventSource::Bybit => &self.bybit,
            EventSource::Coinbase => &self.coinbase,
        }
    }
}

/// Law: a query's answer is a function of exactly the trades folded
/// before it. Two engines that have folded the same deliveries over the
/// same timeframe answer every query alike; in particular, events
/// delivered after a query cannot reach back into it.
pub proof fn lemma_query_reflects_folded_prefix(
    a: &PriceStateEngine,
    b: &PriceStateEngine,
    ind: IndicatorSet,
)
    requires
        a.wf(),
        b.wf(),
        a.spec_timeframe() == b.spec_timeframe(),
        a.log() == b.log(),
    ensures
        spec_snapshot(a@, ind) == spec_snapshot(b@, ind),
{
}

} // verus!
