//! Parsing and normalization: decimal fixed-point values, RFC 3339
//! timestamps, and upstream message conversion.

use shiden::collectors::{
    binance_result_to_internal_event, bybit_result_to_internal_event,
    coinbase_result_to_internal_event,
};
use shiden::decimal::parse_fixed_point;
use shiden::errors::TradeParseError;
use shiden::event::{EventSource, InternalEvent, PRICE_SCALE};
use shiden::msg::{
    parse_iso8601_to_timestamp, BinanceMsg, BinanceTradeMsg, BybitMsg, BybitTradeMsg, CoinbaseMsg,
    CoinbaseTickerMsg,
};

#[test]
fn parse_whole_number() {
    assert_eq!(parse_fixed_point(b"100"), Some(100 * PRICE_SCALE));
    assert_eq!(parse_fixed_point(b"0"), Some(0));
    assert_eq!(parse_fixed_point(b"00042"), Some(42 * PRICE_SCALE));
}

#[test]
fn parse_fraction() {
    assert_eq!(parse_fixed_point(b"110.25"), Some(1_102_500));
    assert_eq!(parse_fixed_point(b".5"), Some(5_000));
    assert_eq!(parse_fixed_point(b"1."), Some(10_000));
    // Fraction digits beyond the scale are truncated.
    assert_eq!(parse_fixed_point(b"1.23456789"), Some(12_345));
}

#[test]
fn parse_rejects_malformed() {
    assert_eq!(parse_fixed_point(b""), None);
    assert_eq!(parse_fixed_point(b"."), None);
    assert_eq!(parse_fixed_point(b"1.2.3"), None);
    assert_eq!(parse_fixed_point(b"12a"), None);
    assert_eq!(parse_fixed_point(b"-5"), None);
    assert_eq!(parse_fixed_point(b"1e3"), None);
}

#[test]
fn parse_at_and_over_the_range_edge() {
    // The largest representable fixed-point value, exactly.
    assert_eq!(
        parse_fixed_point(b"1844674407370955.1615"),
        Some(u64::MAX)
    );
    assert_eq!(parse_fixed_point(b"1844674407370955.1616"), None);
    assert_eq!(parse_fixed_point(b"18446744073709551615"), None);
}

#[test]
fn rfc3339_timestamp_exact() {
    assert_eq!(
        parse_iso8601_to_timestamp(b"2009-02-13T23:31:30Z"),
        Ok(1_234_567_890_000)
    );
    assert_eq!(
        parse_iso8601_to_timestamp(b"2009-02-13T23:31:30.555Z"),
        Ok(1_234_567_890_555)
    );
}

#[test]
fn rfc3339_timestamp_rejected() {
    assert_eq!(
        parse_iso8601_to_timestamp(b"not a time"),
        Err(TradeParseError::BadTimestamp)
    );
    // An instant before the epoch has no unsigned millisecond form.
    assert_eq!(
        parse_iso8601_to_timestamp(b"1969-12-31T23:59:59Z"),
        Err(TradeParseError::BadTimestamp)
    );
}

#[test]
fn binance_trade_normalizes() {
    let msg = BinanceTradeMsg {
        price: b"100.5".to_vec(),
        quantity: b"2".to_vec(),
        trade_time: 42,
    };
    let t = msg.to_trade().unwrap();
    assert_eq!(t.source, EventSource::Binance);
    assert_eq!(t.price, 1_005_000);
    assert_eq!(t.size, 2 * PRICE_SCALE);
    assert_eq!(t.timestamp, 42);
}

#[test]
fn binance_trade_bad_number() {
    let msg = BinanceTradeMsg {
        price: b"oops".to_vec(),
        quantity: b"2".to_vec(),
        trade_time: 42,
    };
    assert_eq!(msg.to_trade(), Err(TradeParseError::BadNumber));
}

#[test]
fn coinbase_ticker_normalizes_through_calendar() {
    let msg = CoinbaseTickerMsg {
        price: b"100.5".to_vec(),
        last_size: b"0.25".to_vec(),
        time: b"2009-02-13T23:31:30Z".to_vec(),
    };
    let t = msg.to_trade().unwrap();
    assert_eq!(t.source, EventSource::Coinbase);
    assert_eq!(t.price, 1_005_000);
    assert_eq!(t.size, 2_500);
    assert_eq!(t.timestamp, 1_234_567_890_000);
}

#[test]
fn coinbase_ticker_bad_timestamp() {
    let msg = CoinbaseTickerMsg {
        price: b"100.5".to_vec(),
        last_size: b"0.25".to_vec(),
        time: b"yesterday".to_vec(),
    };
    assert_eq!(msg.to_trade(), Err(TradeParseError::BadTimestamp));
}

#[test]
fn binance_stream_item_to_event() {
    let ev = binance_result_to_internal_event(Ok(BinanceMsg::Trade(BinanceTradeMsg {
        price: b"7".to_vec(),
        quantity: b"1".to_vec(),
        trade_time: 5,
    })));
    match ev {
        InternalEvent::Trade(t) => {
            assert_eq!(t.price, 7 * PRICE_SCALE);
            assert_eq!(t.timestamp, 5);
        }
        other => panic!("expected a trade event, got {:?}", other),
    }
    let ev = binance_result_to_internal_event(Ok(BinanceMsg::Other));
    assert!(matches!(ev, InternalEvent::Unsupported(m) if m == "Not supported"));
    let ev = binance_result_to_internal_event(Err("connection reset".to_string()));
    assert!(matches!(ev, InternalEvent::Error(m) if m == "connection reset"));
}

#[test]
fn bybit_batch_keeps_good_entries_beside_bad_ones() {
    let batch = vec![
        BybitTradeMsg {
            price: b"10".to_vec(),
            size: b"1".to_vec(),
            timestamp: 1,
        },
        BybitTradeMsg {
            price: b"bad".to_vec(),
            size: b"1".to_vec(),
            timestamp: 2,
        },
        BybitTradeMsg {
            price: b"11".to_vec(),
            size: b"1".to_vec(),
            timestamp: 3,
        },
    ];
    let evs = bybit_result_to_internal_event(Ok(BybitMsg::Trade(batch)));
    assert_eq!(evs.len(), 3);
    assert!(matches!(&evs[0], InternalEvent::Trade(t) if t.price == 10 * PRICE_SCALE));
    assert!(matches!(&evs[1], InternalEvent::Error(_)));
    assert!(matches!(&evs[2], InternalEvent::Trade(t) if t.price == 11 * PRICE_SCALE));

    let evs = bybit_result_to_internal_event(Err("socket closed".to_string()));
    assert_eq!(evs.len(), 1);
    assert!(matches!(&evs[0], InternalEvent::Error(m) if m == "socket closed"));

    let evs = bybit_result_to_internal_event(Ok(BybitMsg::Other));
    assert_eq!(evs.len(), 1);
    assert!(matches!(&evs[0], InternalEvent::Unsupported(_)));
}

#[test]
fn coinbase_stream_item_to_event() {
    let ev = coinbase_result_to_internal_event(Ok(CoinbaseMsg::Other));
    assert!(matches!(ev, InternalEvent::Unsupported(m) if m == "Not supported"));
    let ev = coinbase_result_to_internal_event(Err("timeout".to_string()));
    assert!(matches!(ev, InternalEvent::Error(m) if m == "timeout"));
}

#[test]
fn event_type_names_the_variant() {
    let trade = InternalEvent::Trade(shiden::event::Trade {
        source: EventSource::Binance,
        price: 1,
        size: 1,
        timestamp: 0,
    });
    assert_eq!(trade.event_type(), "Trade");
    assert_eq!(
        InternalEvent::Error("x".to_string()).event_type(),
        "Error"
    );
    assert_eq!(
        InternalEvent::Unsupported("x".to_string()).event_type(),
        "Unsupported"
    );
}

#[test]
fn get_all_lists_every_source_once() {
    let all = EventSource::get_all();
    assert_eq!(
        all,
        vec![
            EventSource::Binance,
            EventSource::Bybit,
            EventSource::Coinbase
        ]
    );
}
