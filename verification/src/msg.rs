//! Normalization of upstream feed messages into domain events. The wire
//! client owns connections and decoding; what reaches this module is the
//! decoded payload as plain values — numeric fields still as the decimal
//! byte strings the exchanges quote them in — and every rule for turning
//! them into [`InternalEvent`]s lives here. A malformed message becomes an
//! `Error` event inside the stream, never the end of it.

use vstd::prelude::*;

use crate::decimal::{parse_fixed_point, spec_parse_fixed};
use crate::errors::TradeParseError;
use crate::event::{EventSource, Trade};

verus! {

/// One trade as the first exchange's feed reports it.
pub struct BinanceTradeMsg {
    pub price: Vec<u8>,
    pub quantity: Vec<u8>,
    pub trade_time: u64,
}

/// A decoded message from the first exchange's feed.
pub enum BinanceMsg {
    Trade(BinanceTradeMsg),
    Other,
}

/// One trade as the second exchange's feed reports it.
pub struct BybitTradeMsg {
    pub price: Vec<u8>,
    pub size: Vec<u8>,
    pub timestamp: u64,
}

/// A decoded message from the second exchange's feed; one message may
/// carry a batch of trades.
pub enum BybitMsg {
    Trade(Vec<BybitTradeMsg>),
    Other,
}

/// One ticker update as the third exchange's feed reports it; its
/// timestamp is an RFC 3339 text field.
pub struct CoinbaseTickerMsg {
    pub price: Vec<u8>,
    pub last_size: Vec<u8>,
    pub time: Vec<u8>,
}

/// A decoded message from the third exchange's feed.
pub enum CoinbaseMsg {
    Ticker(CoinbaseTickerMsg),
    Other,
}

/// The milliseconds since the epoch encoded by an RFC 3339 byte string,
/// or nothing if the bytes are not one. A function of the bytes alone.
pub uninterp spec fn rfc3339_millis(s: Seq<u8>) -> Option<i64>;

/// Relies on chrono's `DateTime::parse_from_rfc3339` and
/// `DateTime::timestamp_millis`: the parsed instant's millisecond
/// timestamp, a function of the input bytes alone; `None` for bytes that
/// are not a valid RFC 3339 date-time.
#[verifier::external_body]
fn parse_rfc3339_millis(s: &[u8]) -> (r: Option<i64>)
    ensures
        r == rfc3339_millis(s@),
{
    match core::str::from_utf8(s) {
        Ok(text) => match chrono::DateTime::parse_from_rfc3339(text) {
            Ok(dt) => Some(dt.timestamp_millis()),
            Err(_) => None,
        },
        Err(_) => None,
    }
}

/// An RFC 3339 timestamp as unsigned epoch milliseconds: exactly the
/// instants the calendar parser accepts that do not lie before the epoch.
pub fn parse_iso8601_to_timestamp(time: &[u8]) -> (r: Result<u64, TradeParseError>)
    ensures
        match rfc3339_millis(time@) {
            Some(ms) => if ms >= 0 {
                r == Ok::<u64, TradeParseError>(ms as u64)
            } else {
                r == Err::<u64, TradeParseError>(TradeParseError::BadTimestamp)
            },
            None => r == Err::<u64, TradeParseError>(TradeParseError::BadTimestamp),
        },
{
    match parse_rfc3339_millis(time) {
        Some(ms) => {
            if ms >= 0 {
                Ok(ms as u64)
            } else {
                Err(TradeParseError::BadTimestamp)
            }
        },
        None => Err(TradeParseError::BadTimestamp),
    }
}

/// What normalizing a first-exchange trade yields: a trade exactly when
/// both decimal fields parse.
pub open spec fn spec_trade_from_binance(m: BinanceTradeMsg) -> Result<Trade, TradeParseError> {
    match (spec_parse_fixed(m.price@), spec_parse_fixed(m.quantity@)) {
        (Some(p), Some(q)) => Ok(
            Trade { source: EventSource::Binance, price: p, size: q, timestamp: m.trade_time },
        ),
        _ => Err(TradeParseError::BadNumber),
    }
}

impl BinanceTradeMsg {
    /// Normalizes the message into a trade; see [`spec_trade_from_binance`].
    pub fn to_trade(&self) -> (r: Result<Trade, TradeParseError>)
        ensures
            r == spec_trade_from_binance(*self),
    {
        match (parse_fixed_point(self.price.as_slice()), parse_fixed_point(
            self.quantity.as_slice(),
        )) {
            (Some(p), Some(q)) => Ok(
                Trade {
                    source: EventSource::Binance,
                    price: p,
                    size: q,
                    timestamp: self.trade_time,
                },
            ),
            _ => Err(TradeParseError::BadNumber),
        }
    }
}

/// What normalizing a second-exchange trade yields.
pub open spec fn spec_trade_from_bybit(m: BybitTradeMsg) -> Result<Trade, TradeParseError> {
    match (spec_parse_fixed(m.price@), spec_parse_fixed(m.size@)) {
        (Some(p), Some(q)) => Ok(
            Trade { source: EventSource::Bybit, price: p, size: q, timestamp: m.timestamp },
        ),
        _ => Err(TradeParseError::BadNumber),
    }
}

impl BybitTradeMsg {
    /// Normalizes the message into a trade; see [`spec_trade_from_bybit`].
    pub fn to_trade(&self) -> (r: Result<Trade, TradeParseError>)
        ensures
            r == spec_trade_from_bybit(*self),
    {
        match (parse_fixed_point(self.price.as_slice()), parse_fixed_point(self.size.as_slice())) {
            (Some(p), Some(q)) => Ok(
                Trade { source: EventSource::Bybit, price: p, size: q, timestamp: self.timestamp },
            ),
            _ => Err(TradeParseError::BadNumber),
        }
    }
}

/// What normalizing a third-exchange ticker yields: both decimal fields
/// must parse, and the time field must be an RFC 3339 instant at or after
/// the epoch.
pub open spec fn spec_trade_from_coinbase(m: CoinbaseTickerMsg) -> Result<Trade, TradeParseError> {
    match (spec_parse_fixed(m.price@), spec_parse_fixed(m.last_size@)) {
        (Some(p), Some(q)) => match rfc3339_millis(m.time@) {
            Some(ms) => if ms >= 0 {
                Ok(Trade { source: EventSource::Coinbase, price: p, size: q, timestamp: ms as u64 })
            } else {
                Err(TradeParseError::BadTimestamp)
            },
            None => Err(TradeParseError::BadTimestamp),
        },
        _ => Err(TradeParseError::BadNumber),
    }
}

impl CoinbaseTickerMsg {
    /// Normalizes the message into a trade; see [`spec_trade_from_coinbase`].
    pub fn to_trade(&self) -> (r: Result<Trade, TradeParseError>)
        ensures
            r == spec_trade_from_coinbase(*self),
    {
        match (parse_fixed_point(self.price.as_slice()), parse_fixed_point(
            self.last_size.as_slice(),
        )) {
            (Some(p), Some(q)) => match parse_iso8601_to_timestamp(self.time.as_slice()) {
                Ok(ts) => Ok(
                    Trade { source: EventSource::Coinbase, price: p, size: q, timestamp: ts },
                ),
                Err(e) => Err(e),
            },
            _ => Err(TradeParseError::BadNumber),
        }
    }
}

} // verus!
