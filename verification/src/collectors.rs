//! The collectors: adapters that turn one upstream feed into the lazy,
//! unbounded sequence of domain events its state engines consume. The
//! streaming client owns the connection and hands decoded messages to the
//! hosting program's collector tasks; every rule for turning a stream item
//! into domain events stands here, verified. A transient upstream failure
//! becomes an `Error` event inside the sequence — a single malformed
//! message never ends the stream.

use vstd::prelude::*;

use crate::errors::TradeParseError;
use crate::event::{InternalEvent, Trade};
use crate::msg::{
    spec_trade_from_binance, spec_trade_from_bybit, spec_trade_from_coinbase, BinanceMsg,
    BybitMsg, CoinbaseMsg,
};

verus! {

/// Adapter for the first exchange's trade feed.
pub struct BinanceCollector;

impl BinanceCollector {
    /// The source name, for logging and metrics.
    pub fn name(&self) -> (r: &'static str)
        ensures
            r@ == "binance_collector"@,
    {
        "binance_collector"
    }
}

/// Adapter for the second exchange's trade feed.
pub struct BybitCollector;

impl BybitCollector {
    /// The source name, for logging and metrics.
    pub fn name(&self) -> (r: &'static str)
        ensures
            r@ == "bybit_collector"@,
    {
        "bybit_collector"
    }
}

/// Adapter for the third exchange's ticker feed.
pub struct CoinbaseCollector;

impl CoinbaseCollector {
    /// The source name, for logging and metrics.
    pub fn name(&self) -> (r: &'static str)
        ensures
            r@ == "coinbase_collector"@,
    {
        "coinbase_collector"
    }
}

/// The message a malformed trade is surfaced under, inside the stream.
pub open spec fn parse_error_text(e: TradeParseError) -> Seq<char> {
    match e {
        TradeParseError::BadNumber => "failed to parse trade price or size"@,
        TradeParseError::BadTimestamp => "failed to parse trade timestamp"@,
    }
}

fn parse_error_event(e: TradeParseError) -> (r: InternalEvent)
    ensures
        r matches InternalEvent::Error(m) && m@ == parse_error_text(e),
{
    match e {
        TradeParseError::BadNumber => InternalEvent::Error(
            "failed to parse trade price or size".to_owned(),
        ),
        TradeParseError::BadTimestamp => InternalEvent::Error(
            "failed to parse trade timestamp".to_owned(),
        ),
    }
}

/// Whether `ev` is the event a trade message normalizes to: the trade on
/// success, an `Error` event carrying the parse failure otherwise.
pub open spec fn is_trade_event_of(conv: Result<Trade, TradeParseError>, ev: InternalEvent) -> bool {
    match conv {
        Ok(t) => ev == InternalEvent::Trade(t),
        Err(e) => ev matches InternalEvent::Error(m) && m@ == parse_error_text(e),
    }
}

/// Turns one first-exchange stream item into a domain event: a parsed
/// trade, an `Error` for a malformed or failed message, `Unsupported` for
/// message kinds the pipeline does not translate.
pub fn binance_result_to_internal_event(result: Result<BinanceMsg, String>) -> (r: InternalEvent)
    ensures
        match result {
            Ok(BinanceMsg::Trade(m)) => is_trade_event_of(spec_trade_from_binance(m), r),
            Ok(BinanceMsg::Other) => r matches InternalEvent::Unsupported(m) && m@
                == "Not supported"@,
            Err(e) => r == InternalEvent::Error(e),
        },
{
    match result {
        Ok(BinanceMsg::Trade(m)) => match m.to_trade() {
            Ok(t) => InternalEvent::Trade(t),
            Err(e) => parse_error_event(e),
        },
        Ok(BinanceMsg::Other) => InternalEvent::Unsupported("Not supported".to_owned()),
        Err(e) => InternalEvent::Error(e),
    }
}

/// Turns one second-exchange stream item into domain events: one per trade
/// in the batch — a malformed entry becomes an `Error` event in its place,
/// without suppressing its neighbours — or a single `Error` or
/// `Unsupported` event for the whole item.
pub fn bybit_result_to_internal_event(result: Result<BybitMsg, String>) -> (r: Vec<InternalEvent>)
    ensures
        match result {
            Ok(BybitMsg::Trade(ms)) => r@.len() == ms@.len() && forall|i: int|
                0 <= i < ms@.len() ==> is_trade_event_of(
                    spec_trade_from_bybit(ms@[i]),
                    #[trigger] r@[i],
                ),
            Ok(BybitMsg::Other) => r@.len() == 1 && (r@[0] matches InternalEvent::Unsupported(m)
                && m@ == "Not supported"@),
            Err(e) => r@ =~= seq![InternalEvent::Error(e)],
        },
{
    match result {
        Ok(BybitMsg::Trade(ms)) => {
            let mut events: Vec<InternalEvent> = Vec::new();
            let mut i: usize = 0;
            while i < ms.len()
                invariant
                    0 <= i <= ms@.len(),
                    events@.len() == i,
                    forall|k: int|
                        0 <= k < i ==> is_trade_event_of(
                            spec_trade_from_bybit(ms@[k]),
                            #[trigger] events@[k],
                        ),
                decreases ms@.len() - i,
            {
                let ev = match ms[i].to_trade() {
                    Ok(t) => InternalEvent::Trade(t),
                    Err(e) => parse_error_event(e),
                };
                events.push(ev);
                i += 1;
            }
            events
        },
        Ok(BybitMsg::Other) => {
            let mut events: Vec<InternalEvent> = Vec::new();
            events.push(InternalEvent::Unsupported("Not supported".to_owned()));
            events
        },
        Err(e) => {
            let mut events: Vec<InternalEvent> = Vec::new();
            events.push(InternalEvent::Error(e));
            events
        },
    }
}

/// Turns one third-exchange stream item into a domain event.
pub fn coinbase_result_to_internal_event(result: Result<CoinbaseMsg, String>) -> (r: InternalEvent)
    ensures
        match result {
            Ok(CoinbaseMsg::Ticker(m)) => is_trade_event_of(spec_trade_from_coinbase(m), r),
            Ok(CoinbaseMsg::Other) => r matches InternalEvent::Unsupported(m) && m@
                == "Not supported"@,
            Err(e) => r == InternalEvent::Error(e),
        },
{
    match result {
        Ok(CoinbaseMsg::Ticker(m)) => match m.to_trade() {
            Ok(t) => InternalEvent::Trade(t),
            Err(e) => parse_error_event(e),
        },
        Ok(CoinbaseMsg::Other) => InternalEvent::Unsupported("Not supported".to_owned()),
        Err(e) => InternalEvent::Error(e),
    }
}

} // verus!
