//! The domain event model: source identifiers, trades, and the closed set of
//! event variants that collectors produce and state engines consume.

use vstd::prelude::*;

verus! {

/// Number of fixed-point units per whole unit of price or size.
///
/// Upstream feeds quote prices and sizes as decimal strings; the pipeline
/// holds them as integers scaled by this constant (four decimal places).
pub const PRICE_SCALE: u64 = 10_000;

/// Identifier of one upstream feed. A fixed, enumerable set, used as the
/// routing key between collectors and state engines.
#[derive(Clone, Copy, Debug, PartialEq, Eq, Hash, Structural)]
pub enum EventSource {
    Binance,
    Bybit,
    Coinbase,
}

impl EventSource {
    /// Every source, in a fixed order. Routing tables and per-source state
    /// are built from this set at construction time.
    pub fn get_all() -> (r: Vec<EventSource>)
        ensures
            r@ == seq![EventSource::Binance, EventSource::Bybit, EventSource::Coinbase],
    {
        let mut v: Vec<EventSource> = Vec::new();
        v.push(EventSource::Binance);
        v.push(EventSource::Bybit);
        v.push(EventSource::Coinbase);
        proof {
            assert(v@ =~= seq![
                EventSource::Binance,
                EventSource::Bybit,
                EventSource::Coinbase,
            ]);
        }
        v
    }
}

/// One executed trade, normalized from an upstream message.
///
/// `price` and `size` are fixed-point values scaled by [`PRICE_SCALE`];
/// `timestamp` is milliseconds since the epoch. Immutable once created.
#[derive(Clone, Copy, Debug, PartialEq, Eq, Structural)]
pub struct Trade {
    pub source: EventSource,
    pub price: u64,
    pub size: u64,
    pub timestamp: u64,
}

/// The closed set of domain event variants.
///
/// `Trade` carries a normalized trade; `Error` carries a transient upstream
/// failure surfaced inside the stream; `Unsupported` marks a message kind the
/// collector recognizes but does not translate.
#[derive(Clone, Debug)]
pub enum InternalEvent {
    Trade(Trade),
    Error(String),
    Unsupported(String),
}

/// The label a metrics sink files an event under, as a sequence of
/// characters: the variant's own name.
pub open spec fn spec_event_type(e: InternalEvent) -> Seq<char> {
    match e {
        InternalEvent::Trade(_) => "Trade"@,
        InternalEvent::Error(_) => "Error"@,
        InternalEvent::Unsupported(_) => "Unsupported"@,
    }
}

impl InternalEvent {
    /// The variant's name, used as a metrics label.
    pub fn event_type(&self) -> (r: String)
        ensures
            r@ == spec_event_type(*self),
    {
        match self {
            InternalEvent::Trade(_) => "Trade".to_owned(),
            InternalEvent::Error(_) => "Error".to_owned(),
            InternalEvent::Unsupported(_) => "Unsupported".to_owned(),
        }
    }
}

} // verus!
