use astra_flash::json::Json;
use astra_flash::network::adapters::common::{iso_timestamp_result, json_array_of, parse_iso_timestamp};
use astra_flash::network::adapters::{BinanceAdapter, DeribitAdapter, ExchangeAdapter, OandaAdapter, UpdateInterval};
use astra_flash::types::{Exchange, FlashError, Instrument, MarketData, MarketEventType, Side};
use rust_decimal::Decimal;
use std::str::FromStr;

fn s(t: &str) -> Json {
    Json::Str(t.to_string())
}

fn n(t: &str) -> Json {
    Json::Number(t.to_string())
}

fn obj(members: Vec<(&str, Json)>) -> Json {
    Json::Object(members.into_iter().map(|(k, v)| (k.to_string(), v)).collect())
}

fn arr(items: Vec<Json>) -> Json {
    Json::Array(items)
}

fn dec(t: &str) -> Decimal {
    Decimal::from_str(t).unwrap()
}

const NOW: i64 = 1_700_000_000_000_001;

// ----------------------------------------------------------------------------
// Binance
// ----------------------------------------------------------------------------

fn binance_depth() -> Json {
    obj(vec![
        ("e", s("depthUpdate")),
        ("E", n("1700000000000")),
        ("s", s("BTCUSDT")),
        ("u", n("42")),
        ("b", arr(vec![arr(vec![s("100.5"), s("2")])])),
        ("a", arr(vec![arr(vec![s("101"), s("3")]), arr(vec![s("102"), s("0")])])),
    ])
}

fn binance_trade() -> Json {
    obj(vec![
        ("e", s("trade")),
        ("E", n("1700000000123")),
        ("s", s("ETHBTC")),
        ("p", s("0.05")),
        ("q", s("1.5")),
        ("m", Json::Bool(true)),
        ("t", n("12345")),
    ])
}

#[test]
fn binance_decodes_depth_update() {
    let adapter = BinanceAdapter::default();
    let events = adapter.parse_decoded("{}", &Ok(binance_depth()), NOW).unwrap();
    assert_eq!(events.len(), 1);
    let e = &events[0];
    assert_eq!(e.event_type, MarketEventType::Delta);
    assert_eq!(e.instrument.base, "BTC");
    assert_eq!(e.instrument.quote, "USDT");
    assert_eq!(e.instrument.exchange, Exchange::Binance);
    assert_eq!(e.timestamp, 1_700_000_000_000_000);
    assert_eq!(e.local_timestamp, NOW);
    assert_eq!(e.sequence, Some(42));
    match &e.data {
        MarketData::Book { bids, asks } => {
            assert_eq!(bids.len(), 1);
            assert_eq!(bids[0].price, dec("100.5"));
            assert_eq!(bids[0].quantity, dec("2"));
            assert_eq!(bids[0].timestamp, 1_700_000_000_000_000);
            assert_eq!(asks.len(), 2);
            assert_eq!(asks[1].price, dec("102"));
        }
        other => panic!("expected a book, got {other:?}"),
    }
}

#[test]
fn binance_decodes_trade_with_maker_side() {
    let adapter = BinanceAdapter::default();
    let events = adapter.parse_decoded("{}", &Ok(binance_trade()), NOW).unwrap();
    assert_eq!(events.len(), 1);
    let e = &events[0];
    assert_eq!(e.event_type, MarketEventType::Trade);
    assert_eq!(e.instrument.base, "ETH");
    assert_eq!(e.instrument.quote, "BTC");
    assert_eq!(e.timestamp, 1_700_000_000_123_000);
    assert_eq!(e.sequence, None);
    match &e.data {
        MarketData::Trade { price, quantity, side, trade_id } => {
            assert_eq!(*price, dec("0.05"));
            assert_eq!(*quantity, dec("1.5"));
            assert_eq!(*side, Side::Ask);
            assert_eq!(trade_id.as_deref(), Some("12345"));
        }
        other => panic!("expected a trade, got {other:?}"),
    }
}

#[test]
fn binance_trade_defaults_when_fields_missing() {
    let adapter = BinanceAdapter::default();
    let msg = obj(vec![("e", s("trade")), ("s", s("SOLEUR")), ("p", s("not a price"))]);
    let events = adapter.parse_decoded("{}", &Ok(msg), NOW).unwrap();
    let e = &events[0];
    assert_eq!(e.timestamp, NOW);
    assert_eq!(e.instrument.base, "SO");
    assert_eq!(e.instrument.quote, "LEUR");
    match &e.data {
        MarketData::Trade { price, quantity, side, trade_id } => {
            assert_eq!(*price, Decimal::ZERO);
            assert_eq!(*quantity, Decimal::ZERO);
            assert_eq!(*side, Side::Bid);
            assert!(trade_id.is_none());
        }
        other => panic!("expected a trade, got {other:?}"),
    }
}

#[test]
fn binance_unwraps_combined_stream() {
    let adapter = BinanceAdapter::default();
    let wrapped = obj(vec![("stream", s("ethbtc@trade")), ("data", binance_trade())]);
    let events = adapter.parse_decoded("{}", &Ok(wrapped), NOW).unwrap();
    assert_eq!(events.len(), 1);
    assert_eq!(events[0].event_type, MarketEventType::Trade);
    assert_eq!(events[0].instrument.raw_symbol, "ETHBTC");
}

#[test]
fn binance_partial_depth_is_a_snapshot_now() {
    let adapter = BinanceAdapter::default();
    let msg = obj(vec![
        ("lastUpdateId", n("7")),
        ("bids", arr(vec![arr(vec![s("1"), s("2")])])),
        ("asks", arr(vec![])),
    ]);
    let events = adapter.parse_decoded("{}", &Ok(msg), NOW).unwrap();
    let e = &events[0];
    assert_eq!(e.event_type, MarketEventType::Snapshot);
    assert_eq!(e.instrument.raw_symbol, "UNKNOWN");
    assert_eq!(e.instrument.quote, "USDT");
    assert_eq!(e.timestamp, NOW);
    assert_eq!(e.sequence, Some(7));
}

#[test]
fn binance_unknown_event_gives_nothing() {
    let adapter = BinanceAdapter::default();
    let msg = obj(vec![("e", s("kline"))]);
    assert!(adapter.parse_decoded("{}", &Ok(msg), NOW).unwrap().is_empty());
    let msg = obj(vec![("bids", arr(vec![]))]);
    assert!(adapter.parse_decoded("{}", &Ok(msg), NOW).unwrap().is_empty());
}

#[test]
fn binance_error_reply_and_parse_error() {
    let adapter = BinanceAdapter::default();
    let reply = obj(vec![("error", obj(vec![("code", n("-1003")), ("msg", s("too many"))]))]);
    let raw = r#"{"error":{"code":-1003,"msg":"too many"}}"#;
    assert_eq!(
        adapter.parse_decoded(raw, &Ok(reply), NOW).unwrap_err(),
        FlashError::RateLimited { exchange: "binance".to_string(), retry_after_ms: 1000 }
    );
    let reply = obj(vec![("error", obj(vec![("code", n("-1121"))]))]);
    let raw = r#"{"error":{"code":-1121}}"#;
    assert_eq!(
        adapter.parse_decoded(raw, &Ok(reply), NOW).unwrap_err(),
        FlashError::ExchangeError { exchange: "binance".to_string(), code: -1121, message: "Unknown error".to_string() }
    );
    assert_eq!(
        adapter.parse_decoded("{", &Err("EOF while parsing".to_string()), NOW).unwrap_err(),
        FlashError::ParseError("EOF while parsing".to_string())
    );
}

#[test]
fn binance_bad_level_is_reported() {
    let adapter = BinanceAdapter::default();
    let msg = obj(vec![
        ("e", s("depthUpdate")),
        ("s", s("BTCUSDT")),
        ("b", arr(vec![arr(vec![s("1")])])),
    ]);
    assert!(matches!(adapter.parse_decoded("{}", &Ok(msg), NOW), Err(FlashError::ParseError(_))));
}

// ----------------------------------------------------------------------------
// Deribit
// ----------------------------------------------------------------------------

fn deribit_subscription(channel: &str, data: Json) -> Json {
    obj(vec![
        ("jsonrpc", s("2.0")),
        ("method", s("subscription")),
        ("params", obj(vec![("channel", s(channel)), ("data", data)])),
    ])
}

#[test]
fn deribit_decodes_book_snapshot() {
    let adapter = DeribitAdapter::default();
    let data = obj(vec![
        ("type", s("snapshot")),
        ("timestamp", n("1700000000000")),
        ("instrument_name", s("BTC-PERPETUAL")),
        ("change_id", n("5")),
        ("bids", arr(vec![arr(vec![n("100"), n("1.5")])])),
        ("asks", arr(vec![arr(vec![n("101"), n("2")])])),
    ]);
    let msg = deribit_subscription("book.BTC-PERPETUAL.100ms", data);
    let events = adapter.parse_decoded("{}", &Ok(msg), NOW).unwrap();
    assert_eq!(events.len(), 1);
    let e = &events[0];
    assert_eq!(e.event_type, MarketEventType::Snapshot);
    assert_eq!(e.instrument.base, "BTC");
    assert_eq!(e.instrument.quote, "USD");
    assert_eq!(e.timestamp, 1_700_000_000_000_000);
    assert_eq!(e.sequence, Some(5));
    match &e.data {
        MarketData::Book { bids, asks } => {
            assert_eq!(bids[0].price, dec("100"));
            assert_eq!(bids[0].quantity, dec("1.5"));
            assert_eq!(asks[0].quantity, dec("2"));
        }
        other => panic!("expected a book, got {other:?}"),
    }
}

#[test]
fn deribit_book_change_uses_channel_instrument() {
    let adapter = DeribitAdapter::default();
    let data = obj(vec![("type", s("change")), ("bids", arr(vec![]))]);
    let msg = deribit_subscription("book.ETH-PERPETUAL.raw", data);
    let events = adapter.parse_decoded("{}", &Ok(msg), NOW).unwrap();
    let e = &events[0];
    assert_eq!(e.event_type, MarketEventType::Delta);
    assert_eq!(e.instrument.raw_symbol, "ETH-PERPETUAL");
    assert_eq!(e.instrument.base, "ETH");
    assert_eq!(e.timestamp, NOW);
    assert_eq!(e.sequence, None);
}

#[test]
fn deribit_decodes_trades() {
    let adapter = DeribitAdapter::default();
    let trades = arr(vec![
        obj(vec![
            ("instrument_name", s("BTC-PERPETUAL")),
            ("timestamp", n("1000")),
            ("price", n("50000.5")),
            ("amount", n("10")),
            ("direction", s("buy")),
            ("trade_id", s("T-1")),
        ]),
        obj(vec![("direction", s("sell")), ("trade_id", n("77"))]),
    ]);
    let msg = deribit_subscription("trades.BTC-PERPETUAL.raw", trades);
    let events = adapter.parse_decoded("{}", &Ok(msg), NOW).unwrap();
    assert_eq!(events.len(), 2);
    assert_eq!(events[0].timestamp, 1_000_000);
    match &events[0].data {
        MarketData::Trade { price, quantity, side, trade_id } => {
            assert_eq!(*price, dec("50000.5"));
            assert_eq!(*quantity, dec("10"));
            assert_eq!(*side, Side::Bid);
            assert_eq!(trade_id.as_deref(), Some("T-1"));
        }
        other => panic!("expected a trade, got {other:?}"),
    }
    assert_eq!(events[1].instrument.raw_symbol, "BTC-PERPETUAL");
    assert_eq!(events[1].timestamp, NOW);
    match &events[1].data {
        MarketData::Trade { price, side, trade_id, .. } => {
            assert_eq!(*price, Decimal::ZERO);
            assert_eq!(*side, Side::Ask);
            assert_eq!(trade_id.as_deref(), Some("77"));
        }
        other => panic!("expected a trade, got {other:?}"),
    }
}

#[test]
fn deribit_format_errors_and_quiet_cases() {
    let adapter = DeribitAdapter::default();
    let msg = deribit_subscription("trades.BTC-PERPETUAL.raw", obj(vec![]));
    assert_eq!(
        adapter.parse_decoded("{}", &Ok(msg), NOW).unwrap_err(),
        FlashError::UnknownMessageFormat("Expected trades array".to_string())
    );
    let msg = obj(vec![("method", s("subscription"))]);
    assert_eq!(
        adapter.parse_decoded("{}", &Ok(msg), NOW).unwrap_err(),
        FlashError::UnknownMessageFormat("Missing params".to_string())
    );
    let msg = obj(vec![("method", s("subscription")), ("params", obj(vec![("channel", s("book.X"))]))]);
    assert_eq!(
        adapter.parse_decoded("{}", &Ok(msg), NOW).unwrap_err(),
        FlashError::UnknownMessageFormat("Missing data in params".to_string())
    );
    let hb = r#"{"jsonrpc":"2.0","method":"heartbeat","params":{"type":"test_request"}}"#;
    assert!(adapter.parse_decoded(hb, &Err("ignored".to_string()), NOW).unwrap().is_empty());
    let msg = obj(vec![("id", n("1")), ("result", arr(vec![]))]);
    assert!(adapter.parse_decoded("{}", &Ok(msg), NOW).unwrap().is_empty());
    let msg = deribit_subscription("ticker.BTC-PERPETUAL.100ms", obj(vec![]));
    assert!(adapter.parse_decoded("{}", &Ok(msg), NOW).unwrap().is_empty());
}

#[test]
fn deribit_error_replies() {
    let adapter = DeribitAdapter::default();
    let reply = obj(vec![("error", obj(vec![("code", n("13009")), ("message", s("bad key"))]))]);
    let raw = r#"{"error":{"code":13009,"message":"bad key"}}"#;
    assert_eq!(
        adapter.parse_decoded(raw, &Ok(reply), NOW).unwrap_err(),
        FlashError::AuthenticationFailed { exchange: "deribit".to_string(), reason: "bad key".to_string() }
    );
    let reply = obj(vec![("error", obj(vec![("code", n("10020"))]))]);
    assert_eq!(
        adapter.decoded_error(&Ok(reply)),
        Some(FlashError::RateLimited { exchange: "deribit".to_string(), retry_after_ms: 1000 })
    );
    assert_eq!(adapter.decoded_error(&Err("x".to_string())), None);
}

// ----------------------------------------------------------------------------
// OANDA
// ----------------------------------------------------------------------------

#[test]
fn oanda_decodes_price_message() {
    let adapter = OandaAdapter::new("acct");
    let msg = obj(vec![
        ("type", s("PRICE")),
        ("time", s("2023-12-29T00:00:00.000000Z")),
        ("instrument", s("EUR_USD")),
        ("bids", arr(vec![obj(vec![("price", s("1.08505")), ("liquidity", n("1000000"))])])),
        ("asks", arr(vec![obj(vec![("price", s("1.08520"))])])),
    ]);
    let events = adapter.parse_decoded("{}", &Ok(msg), NOW).unwrap();
    assert_eq!(events.len(), 1);
    let e = &events[0];
    assert_eq!(e.event_type, MarketEventType::Snapshot);
    assert_eq!(e.instrument.base, "EUR");
    assert_eq!(e.instrument.quote, "USD");
    assert_eq!(e.timestamp, 1_703_808_000_000_000);
    assert_eq!(e.local_timestamp, NOW);
    match &e.data {
        MarketData::Book { bids, asks } => {
            assert_eq!(bids[0].price, dec("1.08505"));
            assert_eq!(bids[0].quantity, dec("1000000"));
            assert_eq!(asks[0].price, dec("1.08520"));
            assert_eq!(asks[0].quantity, Decimal::ZERO);
        }
        other => panic!("expected a book, got {other:?}"),
    }
}

#[test]
fn oanda_unreadable_time_falls_back_to_now() {
    let adapter = OandaAdapter::new("acct");
    let msg = obj(vec![("type", s("PRICE")), ("time", s("yesterday")), ("instrument", s("XAU"))]);
    let events = adapter.parse_decoded("{}", &Ok(msg), NOW).unwrap();
    assert_eq!(events[0].timestamp, NOW);
    assert_eq!(events[0].instrument.base, "XAU");
    assert_eq!(events[0].instrument.quote, "");
}

#[test]
fn oanda_heartbeat_and_errors() {
    let adapter = OandaAdapter::new("acct");
    let hb = obj(vec![("type", s("HEARTBEAT")), ("time", s("2023-12-29T00:00:01Z"))]);
    assert!(adapter.parse_decoded("{}", &Ok(hb), NOW).unwrap().is_empty());
    let hb = obj(vec![("type", s("HEARTBEAT")), ("time", s("2023-12-29T00:00:01Z"))]);
    let e = adapter.parse_heartbeat_message(&hb, NOW).unwrap();
    assert_eq!(e.event_type, MarketEventType::Heartbeat);
    assert_eq!(e.timestamp, 1_703_808_001_000_000);
    assert!(matches!(e.data, MarketData::Heartbeat { exchange_time: 1_703_808_001_000_000 }));

    let reply = obj(vec![("errorMessage", s("Invalid value specified for 'accountID'"))]);
    let raw = r#"{"errorMessage":"Invalid value specified for 'accountID'"}"#;
    assert_eq!(
        adapter.parse_decoded(raw, &Ok(reply), NOW).unwrap_err(),
        FlashError::ExchangeError {
            exchange: "oanda".to_string(),
            code: 0,
            message: "Invalid value specified for 'accountID'".to_string()
        }
    );
    assert_eq!(
        adapter.parse_decoded("oops", &Err("expected value".to_string()), NOW).unwrap_err(),
        FlashError::ParseError("expected value".to_string())
    );
}

#[test]
fn iso_timestamps() {
    assert_eq!(parse_iso_timestamp("2023-12-29T00:00:00Z").unwrap(), 1_703_808_000_000_000);
    assert_eq!(parse_iso_timestamp("1970-01-01T00:00:01.5+00:00").unwrap(), 1_500_000);
    assert_eq!(parse_iso_timestamp("2023-12-29T01:00:00+01:00").unwrap(), 1_703_808_000_000_000);
    assert_eq!(parse_iso_timestamp("not a time"), Err(FlashError::ParseError("invalid timestamp".to_string())));
    assert_eq!(iso_timestamp_result(Some(1), Some(2)), Ok(1));
    assert_eq!(iso_timestamp_result(None, Some(2)), Ok(2));
    assert_eq!(iso_timestamp_result(None, None), Err(FlashError::ParseError("invalid timestamp".to_string())));
}

// ----------------------------------------------------------------------------
// Requests
// ----------------------------------------------------------------------------

fn rpc_value(id: u64, method: &str, params: serde_json::Value) -> String {
    let mut m = serde_json::Map::new();
    m.insert("jsonrpc".to_string(), serde_json::Value::String("2.0".to_string()));
    m.insert("id".to_string(), serde_json::Value::from(id));
    m.insert("method".to_string(), serde_json::Value::String(method.to_string()));
    m.insert("params".to_string(), params);
    serde_json::Value::Object(m).to_string()
}

#[test]
fn json_strings_escape_as_serde_json() {
    let text = "a\"b\\c\n\t\r\u{8}\u{c}\u{1}/é".to_string();
    let items = vec![text.clone(), "x".to_string()];
    assert_eq!(json_array_of(&items), serde_json::to_string(&items).unwrap());
    assert_eq!(json_array_of(&items), "[\"a\\\"b\\\\c\\n\\t\\r\\b\\f\\u0001/é\",\"x\"]");
    assert_eq!(json_array_of(&[]), "[]");
}

#[test]
fn binance_subscription_requests() {
    let adapter = BinanceAdapter::default();
    assert!(adapter.build_subscribe(&[]).is_empty());
    let instruments = vec![
        Instrument::new("BTC", "USDT", Exchange::Binance, "BTCUSDT"),
        Instrument::new("ETH", "BTC", Exchange::Binance, "ETHBTC"),
    ];
    let msgs = adapter.build_subscribe(&instruments);
    assert_eq!(msgs, vec![r#"{"id":1,"method":"SUBSCRIBE","params":["btcusdt@depth","ethbtc@depth"]}"#.to_string()]);
    let msgs = adapter.build_unsubscribe(&instruments[..1]);
    assert_eq!(msgs, vec![r#"{"id":2,"method":"UNSUBSCRIBE","params":["btcusdt@depth"]}"#.to_string()]);
    let fast = BinanceAdapter::with_interval(UpdateInterval::Ms100);
    assert_eq!(
        fast.stream_request("SUBSCRIBE", &instruments[1..], 9),
        r#"{"id":9,"method":"SUBSCRIBE","params":["ethbtc@depth@100ms"]}"#
    );
}

#[test]
fn deribit_subscription_requests() {
    let adapter = DeribitAdapter::default();
    assert!(adapter.build_unsubscribe(&[]).is_empty());
    let instruments = vec![Instrument::new("BTC", "USD", Exchange::Deribit, "BTC-PERPETUAL")];
    let msgs = adapter.build_subscribe(&instruments);
    let mut params = serde_json::Map::new();
    params.insert(
        "channels".to_string(),
        serde_json::Value::Array(vec![serde_json::Value::String("book.BTC-PERPETUAL.100ms".to_string())]),
    );
    assert_eq!(msgs, vec![rpc_value(1, "public/subscribe", serde_json::Value::Object(params.clone()))]);
    assert_eq!(
        msgs[0],
        r#"{"id":1,"jsonrpc":"2.0","method":"public/subscribe","params":{"channels":["book.BTC-PERPETUAL.100ms"]}}"#
    );
    let msgs = adapter.build_unsubscribe(&instruments);
    assert_eq!(msgs, vec![rpc_value(2, "public/unsubscribe", serde_json::Value::Object(params))]);
}

#[test]
fn deribit_ping_and_auth_requests() {
    let adapter = DeribitAdapter::default();
    let hb = br#"{"jsonrpc":"2.0","method":"heartbeat","params":{"type":"test_request"}}"#;
    let reply = adapter.handle_ping(hb).unwrap();
    assert_eq!(String::from_utf8(reply).unwrap(), r#"{"id":1,"jsonrpc":"2.0","method":"public/test","params":{}}"#);
    assert!(adapter.handle_ping(b"hello").is_none());
    assert!(adapter.handle_ping(&[0xff, 0xfe]).is_none());
    let auth = adapter.build_auth("key", "se\"cret", -5).unwrap();
    let mut params = serde_json::Map::new();
    params.insert("grant_type".to_string(), serde_json::Value::String("client_credentials".to_string()));
    params.insert("client_id".to_string(), serde_json::Value::String("key".to_string()));
    params.insert("client_secret".to_string(), serde_json::Value::String("se\"cret".to_string()));
    params.insert("timestamp".to_string(), serde_json::Value::from(-5i64));
    assert_eq!(auth, rpc_value(2, "public/auth", serde_json::Value::Object(params)));
}
