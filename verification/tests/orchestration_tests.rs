//! The orchestrator core: routing, the all-or-nothing tick, executor
//! fan-out, the engine task lifecycle under cancellation, and metrics.

use shiden::collectors::{BinanceCollector, BybitCollector, CoinbaseCollector};
use shiden::engine::PriceStateEngine;
use shiden::event::{EventSource, InternalEvent, Trade, PRICE_SCALE};
use shiden::executor::{fan_out, EchoExecutor, FailingExecutor, PipelineExecutor};
use shiden::metrics::{BotMetrics, DurationRecorder};
use shiden::orchestrator::{
    all_terminated, collector_step, run_tick, CollectorAction, EngineTask, EngineWake,
    RoutingTable, StepEffect,
};
use shiden::output::{IndicatorSet, PriceData, StateOutput};
use shiden::strategy::{EchoInputBuilder, EchoStrategy, InputBuilder};

fn trade(source: EventSource, price_units: u64, ts: u64) -> Trade {
    Trade {
        source,
        price: price_units * PRICE_SCALE,
        size: PRICE_SCALE,
        timestamp: ts,
    }
}

fn price_entry(source: EventSource, price_units: u64) -> PriceData {
    PriceData {
        source,
        price: price_units * PRICE_SCALE,
        rsi: None,
        natr: None,
    }
}

#[test]
fn routing_is_exact_and_ordered() {
    let table = RoutingTable::new(vec![
        vec![EventSource::Binance],
        vec![EventSource::Binance, EventSource::Bybit],
        vec![],
    ]);
    assert_eq!(table.route(EventSource::Binance), vec![0, 1]);
    assert_eq!(table.route(EventSource::Bybit), vec![1]);
    assert_eq!(table.route(EventSource::Coinbase), Vec::<usize>::new());
}

#[test]
fn tick_with_missing_response_yields_no_actions() {
    // One registered engine, its query failed or timed out.
    let actions = run_tick(&EchoStrategy, vec![None]);
    assert_eq!(actions, Vec::<PriceData>::new());
    // One answered, one absent: still all-or-nothing.
    let some = StateOutput::Prices(vec![price_entry(EventSource::Binance, 100)]);
    let actions = run_tick(&EchoStrategy, vec![Some(some), None]);
    assert_eq!(actions, Vec::<PriceData>::new());
}

#[test]
fn tick_with_no_registered_responses_yields_no_actions() {
    // Nothing inserted: the builder is incomplete and build() fails.
    let actions = run_tick(&EchoStrategy, vec![]);
    assert_eq!(actions, Vec::<PriceData>::new());
}

#[test]
fn tick_with_complete_input_echoes_prices_in_order() {
    let prices = vec![
        price_entry(EventSource::Binance, 100),
        price_entry(EventSource::Coinbase, 7),
    ];
    let actions = run_tick(&EchoStrategy, vec![Some(StateOutput::Prices(prices.clone()))]);
    assert_eq!(actions, prices);
}

#[test]
fn builder_is_all_or_nothing() {
    // An empty builder refuses to build; a filed response completes it,
    // and the latest filing within a tick wins.
    let empty = EchoInputBuilder::empty();
    assert!(empty.build().is_err());
    let mut b = EchoInputBuilder::empty();
    b.insert(StateOutput::Prices(vec![price_entry(EventSource::Binance, 1)]));
    b.insert(StateOutput::Prices(vec![price_entry(EventSource::Bybit, 2)]));
    let input = b.build().unwrap();
    assert_eq!(input.prices, vec![price_entry(EventSource::Bybit, 2)]);
}

#[test]
fn tick_with_two_responses_evaluates_the_latest() {
    let first = StateOutput::Prices(vec![price_entry(EventSource::Binance, 1)]);
    let second = StateOutput::Prices(vec![price_entry(EventSource::Coinbase, 9)]);
    let actions = run_tick(&EchoStrategy, vec![Some(first), Some(second)]);
    assert_eq!(actions, vec![price_entry(EventSource::Coinbase, 9)]);
}

#[test]
fn fan_out_reaches_every_executor_exactly_once() {
    // One executor always fails, one always succeeds: both receive every
    // dispatched action exactly once, in order.
    let actions = vec![
        price_entry(EventSource::Binance, 100),
        price_entry(EventSource::Bybit, 50),
    ];
    let mut executors = vec![
        PipelineExecutor::Echo(EchoExecutor::new()),
        PipelineExecutor::Failing(FailingExecutor::new()),
    ];
    let failures = fan_out(&actions, &mut executors);
    match &executors[0] {
        PipelineExecutor::Echo(e) => assert_eq!(e.log, actions),
        _ => unreachable!(),
    }
    match &executors[1] {
        PipelineExecutor::Failing(e) => assert_eq!(e.log, actions),
        _ => unreachable!(),
    }
    // The failing executor failed once per action; nobody else did.
    assert_eq!(failures, vec![(0, 1), (1, 1)]);
}

#[test]
fn fan_out_with_no_actions_touches_nobody() {
    let mut executors = vec![PipelineExecutor::Echo(EchoExecutor::new())];
    let no_actions: Vec<PriceData> = Vec::new();
    let failures = fan_out(&no_actions, &mut executors);
    assert!(failures.is_empty());
    match &executors[0] {
        PipelineExecutor::Echo(e) => assert!(e.log.is_empty()),
        _ => unreachable!(),
    }
}

#[test]
fn collector_stops_on_cancellation() {
    // A cancelled collector pulls nothing further, whatever is pending.
    let pending = InternalEvent::Unsupported("x".to_string());
    assert!(matches!(
        collector_step(true, Some(pending)),
        CollectorAction::Stop
    ));
    assert!(matches!(collector_step(true, None), CollectorAction::Stop));
    // Without cancellation it forwards events and stops on stream end.
    let ev = InternalEvent::Trade(trade(EventSource::Binance, 1, 0));
    assert!(matches!(
        collector_step(false, Some(ev)),
        CollectorAction::Forward(InternalEvent::Trade(_))
    ));
    assert!(matches!(collector_step(false, None), CollectorAction::Stop));
}

#[test]
fn task_lifecycle_under_cancellation() {
    let mut task = EngineTask::new(PriceStateEngine::new(1000));
    task.start().unwrap();

    // Running: events fold, queries answer, nothing terminates.
    let eff = task.step(EngineWake::Event(InternalEvent::Trade(trade(
        EventSource::Binance,
        100,
        0,
    ))));
    assert!(matches!(eff, StepEffect::Idle));
    assert_eq!(task.error_count(), 0);
    let eff = task.step(EngineWake::Event(InternalEvent::Error("bad frame".to_string())));
    assert!(matches!(eff, StepEffect::Idle));
    assert_eq!(task.error_count(), 1);
    let eff = task.step(EngineWake::Query(IndicatorSet::unavailable()));
    match eff {
        StepEffect::Respond(StateOutput::Prices(ps)) => {
            assert_eq!(ps.len(), 1);
            assert_eq!(ps[0].price, 100 * PRICE_SCALE);
        }
        _ => panic!("expected a response to the query"),
    }
    assert!(!task.is_terminated());

    // One cancellation signal drains the task; finishing runs the
    // shutdown hook exactly once and terminates.
    let eff = task.step(EngineWake::Cancelled);
    assert!(matches!(eff, StepEffect::Idle));
    assert!(!task.is_terminated());
    let report = task.finish();
    assert!(task.is_terminated());
    assert_eq!(report[0], (EventSource::Binance, 1));
    assert_eq!(report[1], (EventSource::Bybit, 0));
    assert_eq!(report[2], (EventSource::Coinbase, 0));
}

#[test]
fn join_completes_when_every_task_terminated() {
    let mut tasks = vec![
        EngineTask::new(PriceStateEngine::new(1000)),
        EngineTask::new(PriceStateEngine::new(2000)),
    ];
    for t in tasks.iter_mut() {
        t.start().unwrap();
    }
    assert!(!all_terminated(&tasks));
    // One signal per task, no second one needed.
    for t in tasks.iter_mut() {
        t.step(EngineWake::Cancelled);
        t.finish();
    }
    assert!(all_terminated(&tasks));
}

#[test]
fn metrics_are_append_only() {
    let mut m = BotMetrics::new();
    m.record_event_processing("price_state_engine", "Trade", 1_200);
    m.record_event_processing("price_state_engine", "Error", 300);
    m.record_candle_series_size("price_state_engine", 4);
    m.record_error("bybit_collector");

    let events = m.event_records();
    assert_eq!(events.len(), 2);
    assert_eq!(events[0].engine, "price_state_engine");
    assert_eq!(events[0].event_kind, "Trade");
    assert_eq!(events[0].duration_ns, 1_200);
    assert_eq!(events[1].event_kind, "Error");
    let sizes = m.size_records();
    assert_eq!(sizes.len(), 1);
    assert_eq!(sizes[0].size, 4);
    assert_eq!(m.error_records(), &vec!["bybit_collector".to_string()]);
}

#[test]
fn duration_recorder_measures_something() {
    let rec = DurationRecorder::start();
    let mut spin = 0u64;
    for i in 0..1000u64 {
        spin = spin.wrapping_add(i);
    }
    let elapsed = rec.end();
    // The clock is monotonic; the measured span exists and is finite.
    assert!(spin > 0);
    assert!(elapsed < u64::MAX);
}

#[test]
fn collector_names_identify_sources() {
    assert_eq!(BinanceCollector.name(), "binance_collector");
    assert_eq!(BybitCollector.name(), "bybit_collector");
    assert_eq!(CoinbaseCollector.name(), "coinbase_collector");
    assert_eq!(PriceStateEngine::new(1).name(), "price_state_engine");
}
