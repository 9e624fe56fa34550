use astra_flash::network::adapters::{BinanceAdapter, DeribitAdapter, ExchangeAdapter, OandaAdapter};
use astra_flash::types::{Exchange, FlashError, MarketData, MarketEventType, Side};
use rust_decimal::Decimal;
use std::str::FromStr;

const NOW: i64 = 1_700_000_000_000_001;

fn dec(t: &str) -> Decimal {
    Decimal::from_str(t).unwrap()
}

#[test]
fn binance_raw_depth_update() {
    let adapter = BinanceAdapter::default();
    let raw = r#"{"e":"depthUpdate","E":1700000000000,"s":"BTCUSDT","u":42,"b":[["100.5","2"]],"a":[["101","3"],["102","0"]]}"#;
    assert!(adapter.can_decode(raw));
    let events = adapter.parse_message(raw, NOW).unwrap();
    assert_eq!(events.len(), 1);
    let e = &events[0];
    assert_eq!(e.event_type, MarketEventType::Delta);
    assert_eq!(e.instrument.exchange, Exchange::Binance);
    assert_eq!(e.instrument.base, "BTC");
    assert_eq!(e.instrument.quote, "USDT");
    assert_eq!(e.timestamp, 1_700_000_000_000_000);
    assert_eq!(e.sequence, Some(42));
    match &e.data {
        MarketData::Book { bids, asks } => {
            assert_eq!(bids[0].price, dec("100.5"));
            assert_eq!(asks.len(), 2);
        }
        other => panic!("expected a book, got {other:?}"),
    }
}

#[test]
fn binance_raw_combined_stream_trade() {
    let adapter = BinanceAdapter::default();
    let raw = r#"{"stream":"ethbtc@trade","data":{"e":"trade","E":1700000000123,"s":"ETHBTC","p":"0.05","q":"1.5","m":true,"t":12345}}"#;
    let events = adapter.parse_message(raw, NOW).unwrap();
    assert_eq!(events.len(), 1);
    assert_eq!(events[0].timestamp, 1_700_000_000_123_000);
    match &events[0].data {
        MarketData::Trade { price, quantity, side, trade_id } => {
            assert_eq!(*price, dec("0.05"));
            assert_eq!(*quantity, dec("1.5"));
            assert_eq!(*side, Side::Ask);
            assert_eq!(trade_id.as_deref(), Some("12345"));
        }
        other => panic!("expected a trade, got {other:?}"),
    }
}

#[test]
fn binance_raw_error_reply_and_bad_text() {
    let adapter = BinanceAdapter::default();
    let raw = r#"{"error":{"code":-1003,"msg":"too many"}}"#;
    let expected = FlashError::RateLimited { exchange: "binance".to_string(), retry_after_ms: 1000 };
    assert_eq!(adapter.parse_message(raw, NOW).unwrap_err(), expected);
    assert_eq!(adapter.parse_error(raw), Some(expected));
    assert!(matches!(adapter.parse_message("{not json", NOW), Err(FlashError::ParseError(_))));
    assert_eq!(adapter.parse_error("{not json"), None);
}

#[test]
fn binance_try_parse_refuses_symbols_split_inside_a_character() {
    let adapter = BinanceAdapter::default();
    let raw = r#"{"e":"trade","s":"ÄUSDT","p":"1","q":"1"}"#;
    let ok = adapter.try_parse_message(raw, NOW);
    assert!(matches!(ok, Some(Ok(_))));
    let raw = r#"{"e":"trade","s":"AÄAAA","p":"1","q":"1"}"#;
    assert!(!adapter.can_decode(raw));
    assert!(adapter.try_parse_message(raw, NOW).is_none());
}

#[test]
fn deribit_raw_book_snapshot() {
    let adapter = DeribitAdapter::default();
    let raw = r#"{"jsonrpc":"2.0","method":"subscription","params":{"channel":"book.BTC-PERPETUAL.100ms","data":{"type":"snapshot","timestamp":1700000000000,"instrument_name":"BTC-PERPETUAL","change_id":5,"bids":[[100,1.5]],"asks":[[101,2]]}}}"#;
    let events = adapter.parse_message(raw, NOW).unwrap();
    assert_eq!(events.len(), 1);
    let e = &events[0];
    assert_eq!(e.event_type, MarketEventType::Snapshot);
    assert_eq!(e.instrument.base, "BTC");
    assert_eq!(e.sequence, Some(5));
    match &e.data {
        MarketData::Book { bids, asks } => {
            assert_eq!(bids[0].price, dec("100"));
            assert_eq!(bids[0].quantity, dec("1.5"));
            assert_eq!(asks[0].quantity, dec("2"));
        }
        other => panic!("expected a book, got {other:?}"),
    }
}

#[test]
fn deribit_raw_heartbeat_error_and_bad_text() {
    let adapter = DeribitAdapter::default();
    let hb = r#"{"jsonrpc":"2.0","method":"heartbeat","params":{"type":"test_request"}}"#;
    assert!(adapter.parse_message(hb, NOW).unwrap().is_empty());
    let raw = r#"{"error":{"code":13009,"message":"bad key"}}"#;
    let expected = FlashError::AuthenticationFailed { exchange: "deribit".to_string(), reason: "bad key".to_string() };
    assert_eq!(adapter.parse_message(raw, NOW).unwrap_err(), expected);
    assert_eq!(adapter.parse_error(raw), Some(expected));
    assert!(matches!(adapter.parse_message("[1,", NOW), Err(FlashError::ParseError(_))));
    assert_eq!(adapter.parse_error("[1,"), None);
}

#[test]
fn oanda_raw_price_and_error() {
    let adapter = OandaAdapter::new("acct");
    let raw = r#"{"type":"PRICE","time":"2023-12-29T00:00:00.000000Z","instrument":"EUR_USD","bids":[{"price":"1.08505","liquidity":1000000}],"asks":[{"price":"1.08520","liquidity":500000}]}"#;
    let events = adapter.parse_message(raw, NOW).unwrap();
    assert_eq!(events.len(), 1);
    assert_eq!(events[0].timestamp, 1_703_808_000_000_000);
    match &events[0].data {
        MarketData::Book { bids, asks } => {
            assert_eq!(bids[0].price, dec("1.08505"));
            assert_eq!(bids[0].quantity, dec("1000000"));
            assert_eq!(asks[0].quantity, dec("500000"));
        }
        other => panic!("expected a book, got {other:?}"),
    }
    let hb = r#"{"type":"HEARTBEAT","time":"2023-12-29T00:00:01Z"}"#;
    assert!(adapter.parse_message(hb, NOW).unwrap().is_empty());
    let raw = r#"{"errorMessage":"Invalid value specified for 'accountID'"}"#;
    let expected = FlashError::ExchangeError {
        exchange: "oanda".to_string(),
        code: 0,
        message: "Invalid value specified for 'accountID'".to_string(),
    };
    assert_eq!(adapter.parse_message(raw, NOW).unwrap_err(), expected);
    assert_eq!(adapter.parse_error(raw), Some(expected));
    assert!(matches!(adapter.parse_message("oops", NOW), Err(FlashError::ParseError(_))));
}
