//! The candle series and the state engine: fold semantics, stale
//! rejection, query snapshots, and the concrete in-progress-bucket
//! scenario.

use shiden::candle::CandleSeries;
use shiden::engine::PriceStateEngine;
use shiden::errors::StateUpdateError;
use shiden::event::{EventSource, InternalEvent, Trade, PRICE_SCALE};
use shiden::output::{IndicatorReport, IndicatorSet, PriceData, StateOutput};

fn trade(source: EventSource, price_units: u64, size_units: u64, ts: u64) -> Trade {
    Trade {
        source,
        price: price_units * PRICE_SCALE,
        size: size_units * PRICE_SCALE,
        timestamp: ts,
    }
}

#[test]
fn series_buckets_by_timeframe() {
    let mut s = CandleSeries::new(1000);
    s.push(100, 1, 0).unwrap();
    s.push(110, 1, 500).unwrap();
    let c = s.current().unwrap();
    assert_eq!(c.start, 0);
    assert_eq!(c.open, 100);
    assert_eq!(c.high, 110);
    assert_eq!(c.low, 100);
    assert_eq!(c.close, 110);
    assert_eq!(c.volume, 2);
    assert_eq!(s.history_len(), 0);
    assert_eq!(s.len(), 1);

    // A trade in a later bucket closes the first one.
    s.push(120, 1, 1500).unwrap();
    assert_eq!(s.history_len(), 1);
    let closed = s.history_at(0);
    assert_eq!(closed.start, 0);
    assert_eq!(closed.close, 110);
    assert_eq!(s.current().unwrap().start, 1000);
    assert_eq!(s.len(), 2);
}

#[test]
fn series_rejects_stale_trade() {
    let mut s = CandleSeries::new(1000);
    s.push(100, 1, 1500).unwrap();
    let before = s.current();
    assert_eq!(s.push(90, 1, 200), Err(StateUpdateError::Stale));
    // The rejected trade left no mark.
    assert_eq!(s.current(), before);
    assert_eq!(s.history_len(), 0);
}

#[test]
fn series_latest_price_follows_last_trade() {
    let mut s = CandleSeries::new(1000);
    assert_eq!(s.latest_price(), None);
    s.push(100, 1, 0).unwrap();
    assert_eq!(s.latest_price(), Some(100));
    s.push(95, 1, 700).unwrap();
    assert_eq!(s.latest_price(), Some(95));
}

#[test]
fn fold_is_deterministic_across_deliveries() {
    // The same event sequence, delivered to two engines in different
    // chunks, leaves identical state.
    let events = vec![
        trade(EventSource::Binance, 100, 1, 0),
        trade(EventSource::Binance, 110, 1, 500),
        trade(EventSource::Bybit, 50, 2, 100),
        trade(EventSource::Binance, 120, 1, 1500),
    ];
    let mut a = PriceStateEngine::new(1000);
    for t in &events {
        a.add_trade(*t).unwrap();
    }
    let mut b = PriceStateEngine::new(1000);
    // First chunk.
    b.add_trade(events[0]).unwrap();
    // Second chunk.
    for t in &events[1..] {
        b.add_trade(*t).unwrap();
    }
    let ind = IndicatorSet::unavailable();
    assert_eq!(a.process_request(&ind), b.process_request(&ind));
    for src in EventSource::get_all() {
        assert_eq!(a.series(src).history_len(), b.series(src).history_len());
        assert_eq!(a.series(src).current(), b.series(src).current());
    }
}

#[test]
fn query_reflects_folded_events_and_none_later() {
    let ind = IndicatorSet::unavailable();
    let mut a = PriceStateEngine::new(1000);
    a.add_trade(trade(EventSource::Binance, 100, 1, 0)).unwrap();
    a.add_trade(trade(EventSource::Binance, 110, 1, 500)).unwrap();
    let answer_after_two = a.process_request(&ind);

    // An engine that has folded only those two events answers alike ...
    let mut b = PriceStateEngine::new(1000);
    b.add_trade(trade(EventSource::Binance, 100, 1, 0)).unwrap();
    b.add_trade(trade(EventSource::Binance, 110, 1, 500)).unwrap();
    assert_eq!(b.process_request(&ind), answer_after_two);

    // ... and folding a later event changes later answers, not the one
    // already taken.
    a.add_trade(trade(EventSource::Binance, 200, 1, 600)).unwrap();
    let StateOutput::Prices(ps) = answer_after_two;
    assert_eq!(ps[0].price, 110 * PRICE_SCALE);
}

#[test]
fn process_event_error_variants() {
    let mut e = PriceStateEngine::new(1000);
    // An upstream error event fails the fold, counted but non-fatal.
    let r = e.process_event(InternalEvent::Error("bad frame".to_string()));
    assert_eq!(r, Err(StateUpdateError::Upstream("bad frame".to_string())));
    // An unsupported message folds nothing and succeeds.
    assert_eq!(
        e.process_event(InternalEvent::Unsupported("x".to_string())),
        Ok(())
    );
    // A stale trade is dropped: state before == state after.
    e.add_trade(trade(EventSource::Bybit, 10, 1, 5000)).unwrap();
    let before = e.series(EventSource::Bybit).current();
    let r = e.process_event(InternalEvent::Trade(trade(EventSource::Bybit, 9, 1, 100)));
    assert_eq!(r, Err(StateUpdateError::Stale));
    assert_eq!(e.series(EventSource::Bybit).current(), before);
}

#[test]
fn in_progress_bucket_scenario() {
    // Timeframe 1000 ms; two trades inside the first bucket.
    let mut e = PriceStateEngine::new(1000);
    e.process_event(InternalEvent::Trade(trade(EventSource::Binance, 100, 1, 0)))
        .unwrap();
    e.process_event(InternalEvent::Trade(trade(EventSource::Binance, 110, 1, 500)))
        .unwrap();

    // A query at this point must report the in-progress aggregate's
    // latest price and unavailable indicators — not an error.
    let ind = IndicatorSet::unavailable();
    let StateOutput::Prices(ps) = e.process_request(&ind);
    assert_eq!(
        ps,
        vec![PriceData {
            source: EventSource::Binance,
            price: 110 * PRICE_SCALE,
            rsi: None,
            natr: None,
        }]
    );

    // The bucket closes once a trade of the next bucket arrives; a query
    // afterwards reflects the closed first bucket in history.
    e.process_event(InternalEvent::Trade(trade(EventSource::Binance, 120, 1, 1500)))
        .unwrap();
    let series = e.series(EventSource::Binance);
    assert_eq!(series.history_len(), 1);
    let closed = series.history_at(0);
    assert_eq!(closed.start, 0);
    assert_eq!(closed.open, 100 * PRICE_SCALE);
    assert_eq!(closed.high, 110 * PRICE_SCALE);
    assert_eq!(closed.low, 100 * PRICE_SCALE);
    assert_eq!(closed.close, 110 * PRICE_SCALE);
    assert_eq!(closed.volume, 2 * PRICE_SCALE);
    let StateOutput::Prices(ps) = e.process_request(&ind);
    assert_eq!(ps[0].price, 120 * PRICE_SCALE);
}

#[test]
fn snapshot_carries_given_indicators() {
    let mut e = PriceStateEngine::new(1000);
    e.add_trade(trade(EventSource::Coinbase, 7, 1, 0)).unwrap();
    let ind = IndicatorSet {
        binance: IndicatorReport::unavailable(),
        bybit: IndicatorReport::unavailable(),
        coinbase: IndicatorReport {
            rsi: Some(55 * PRICE_SCALE),
            natr: Some(2 * PRICE_SCALE),
        },
    };
    let StateOutput::Prices(ps) = e.process_request(&ind);
    assert_eq!(ps.len(), 1);
    assert_eq!(ps[0].source, EventSource::Coinbase);
    assert_eq!(ps[0].rsi, Some(55 * PRICE_SCALE));
    assert_eq!(ps[0].natr, Some(2 * PRICE_SCALE));
}

#[test]
fn snapshot_orders_sources_and_skips_empty_ones() {
    let mut e = PriceStateEngine::new(1000);
    e.add_trade(trade(EventSource::Coinbase, 3, 1, 0)).unwrap();
    e.add_trade(trade(EventSource::Binance, 1, 1, 0)).unwrap();
    let StateOutput::Prices(ps) = e.process_request(&IndicatorSet::unavailable());
    let sources: Vec<EventSource> = ps.iter().map(|p| p.source).collect();
    assert_eq!(sources, vec![EventSource::Binance, EventSource::Coinbase]);
}

#[test]
fn shutdown_report_counts_buckets() {
    let mut e = PriceStateEngine::new(1000);
    e.add_trade(trade(EventSource::Binance, 1, 1, 0)).unwrap();
    e.add_trade(trade(EventSource::Binance, 2, 1, 1500)).unwrap();
    e.add_trade(trade(EventSource::Bybit, 5, 1, 0)).unwrap();
    let report = e.on_shutdown();
    assert_eq!(
        report,
        vec![
            (EventSource::Binance, 2),
            (EventSource::Bybit, 1),
            (EventSource::Coinbase, 0),
        ]
    );
}

#[test]
fn try_new_requires_only_the_price() {
    // An entry exists exactly when the source has a price; unavailable
    // indicators never suppress it.
    assert_eq!(
        PriceData::try_new(EventSource::Binance, Some(5), None, None),
        Some(PriceData {
            source: EventSource::Binance,
            price: 5,
            rsi: None,
            natr: None
        })
    );
    assert_eq!(
        PriceData::try_new(EventSource::Binance, None, Some(1), Some(2)),
        None
    );
}
