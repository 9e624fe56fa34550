use astra_flash::network::adapters::common::contains_field;
use astra_flash::network::adapters::{
    create_adapter, BinanceAdapter, BookInterval, DeribitAdapter, ExchangeAdapter, OandaAdapter, OandaLevel,
    OandaPrice, RateLimit, UpdateInterval,
};
use astra_flash::types::{Exchange, FlashError, Instrument};

// ----------------------------------------------------------------------------
// Binance
// ----------------------------------------------------------------------------

#[test]
fn binance_test_default() {
    let adapter = BinanceAdapter::default();
    assert_eq!(adapter.exchange(), Exchange::Binance);
    assert_eq!(adapter.interval, UpdateInterval::Ms1000);
}

#[test]
fn binance_test_with_interval() {
    let adapter = BinanceAdapter::with_interval(UpdateInterval::Ms100);
    assert_eq!(adapter.interval, UpdateInterval::Ms100);
}

#[test]
fn test_build_stream() {
    let adapter = BinanceAdapter::default();
    let instrument = Instrument::new("BTC", "USDT", Exchange::Binance, "BTCUSDT");
    let stream = adapter.build_stream(&instrument);
    assert_eq!(stream, "btcusdt@depth");
}

#[test]
fn test_build_stream_100ms() {
    let adapter = BinanceAdapter::with_interval(UpdateInterval::Ms100);
    let instrument = Instrument::new("BTC", "USDT", Exchange::Binance, "BTCUSDT");
    let stream = adapter.build_stream(&instrument);
    assert_eq!(stream, "btcusdt@depth@100ms");
}

#[test]
fn binance_test_parse_instrument() {
    let adapter = BinanceAdapter::default();

    let inst = adapter.parse_instrument("BTCUSDT");
    assert_eq!(inst.base, "BTC");
    assert_eq!(inst.quote, "USDT");

    let inst = adapter.parse_instrument("ETHBTC");
    assert_eq!(inst.base, "ETH");
    assert_eq!(inst.quote, "BTC");
}

#[test]
fn binance_test_request_id_increment() {
    let adapter = BinanceAdapter::default();
    let id1 = adapter.next_request_id();
    let id2 = adapter.next_request_id();
    assert_eq!(id2, id1 + 1);
}

#[test]
fn binance_test_is_subscription_response() {
    let adapter = BinanceAdapter::default();
    assert!(adapter.is_subscription_response(r#"{"result":null,"id":1}"#));
    assert!(!adapter.is_subscription_response(r#"{"e":"depthUpdate"}"#));
}

#[test]
fn test_handle_ping_returns_none() {
    let adapter = BinanceAdapter::default();
    assert!(adapter.handle_ping(b"ping").is_none());
}

#[test]
fn binance_parse_instrument_fallback_and_quotes() {
    let adapter = BinanceAdapter::default();
    let inst = adapter.parse_instrument("BNBBUSD");
    assert_eq!(inst.base, "BNB");
    assert_eq!(inst.quote, "BUSD");
    let inst = adapter.parse_instrument("SOLEUR");
    assert_eq!(inst.base, "SO");
    assert_eq!(inst.quote, "LEUR");
    assert_eq!(inst.raw_symbol, "SOLEUR");
}

#[test]
fn binance_classify_error_codes() {
    let adapter = BinanceAdapter::default();
    match adapter.classify_error(-1003, "too many") {
        FlashError::RateLimited { exchange, retry_after_ms } => {
            assert_eq!(exchange, "binance");
            assert_eq!(retry_after_ms, 1000);
        },
        other => panic!("unexpected {:?}", other),
    }
    match adapter.classify_error(-1121, "bad symbol") {
        FlashError::ExchangeError { exchange, code, message } => {
            assert_eq!(exchange, "binance");
            assert_eq!(code, -1121);
            assert_eq!(message, "bad symbol");
        },
        other => panic!("unexpected {:?}", other),
    }
}

// ----------------------------------------------------------------------------
// Common
// ----------------------------------------------------------------------------

#[test]
fn test_contains_field() {
    assert!(contains_field(r#"{"method":"heartbeat"}"#, "heartbeat"));
    assert!(!contains_field(r#"{"method":"data"}"#, "heartbeat"));
}

#[test]
fn contains_field_empty_needle_always_found() {
    assert!(contains_field("", ""));
    assert!(contains_field("abc", ""));
    assert!(!contains_field("", "a"));
}

// ----------------------------------------------------------------------------
// Deribit
// ----------------------------------------------------------------------------

#[test]
fn deribit_test_default() {
    let adapter = DeribitAdapter::default();
    assert_eq!(adapter.exchange(), Exchange::Deribit);
    assert_eq!(adapter.interval, BookInterval::Ms100);
}

#[test]
fn deribit_test_with_interval() {
    let adapter = DeribitAdapter::with_interval(BookInterval::Raw);
    assert_eq!(adapter.interval, BookInterval::Raw);
}

#[test]
fn test_build_channel() {
    let adapter = DeribitAdapter::default();
    let instrument = Instrument::new("BTC", "USD", Exchange::Deribit, "BTC-PERPETUAL");
    let channel = adapter.build_channel(&instrument);
    assert_eq!(channel, "book.BTC-PERPETUAL.100ms");
}

#[test]
fn deribit_test_parse_instrument() {
    let adapter = DeribitAdapter::default();
    let instrument = adapter.parse_instrument("BTC-PERPETUAL");
    assert_eq!(instrument.base, "BTC");
    assert_eq!(instrument.quote, "USD");
    assert_eq!(instrument.raw_symbol, "BTC-PERPETUAL");
}

#[test]
fn deribit_test_request_id_increment() {
    let adapter = DeribitAdapter::default();
    let id1 = adapter.next_request_id();
    let id2 = adapter.next_request_id();
    assert_eq!(id2, id1 + 1);
}

#[test]
fn deribit_test_is_heartbeat() {
    let adapter = DeribitAdapter::default();
    assert!(adapter.is_heartbeat(r#"{"jsonrpc":"2.0","method":"heartbeat"}"#));
    assert!(!adapter.is_heartbeat(r#"{"jsonrpc":"2.0","method":"subscription"}"#));
}

#[test]
fn deribit_test_is_subscription_response() {
    let adapter = DeribitAdapter::default();
    assert!(adapter.is_subscription_response(r#"{"jsonrpc":"2.0","id":1,"result":[]}"#));
    assert!(!adapter.is_subscription_response(r#"{"jsonrpc":"2.0","method":"subscription"}"#));
}

#[test]
fn deribit_channel_snapshot_only_and_symbol_without_dash() {
    let adapter = DeribitAdapter::with_interval(BookInterval::SnapshotOnly);
    let instrument = Instrument::new("ETH", "USD", Exchange::Deribit, "ETH-29DEC23");
    assert_eq!(adapter.build_channel(&instrument), "book.ETH-29DEC23.none");
    let inst = adapter.parse_instrument("SOLUSD");
    assert_eq!(inst.base, "SOLUSD");
    assert_eq!(inst.quote, "USD");
}

#[test]
fn deribit_ping_request_detection() {
    let adapter = DeribitAdapter::default();
    assert!(adapter.is_ping_request(r#"{"method":"heartbeat","params":{"type":"test_request"}}"#));
    assert!(adapter.is_ping_request("test_request"));
    assert!(!adapter.is_ping_request(r#"{"method":"subscription"}"#));
}

#[test]
fn deribit_classify_error_codes() {
    let adapter = DeribitAdapter::default();
    match adapter.classify_error(10020, "slow down") {
        FlashError::RateLimited { exchange, retry_after_ms } => {
            assert_eq!(exchange, "deribit");
            assert_eq!(retry_after_ms, 1000);
        },
        other => panic!("unexpected {:?}", other),
    }
    match adapter.classify_error(13009, "unauthorized") {
        FlashError::AuthenticationFailed { exchange, reason } => {
            assert_eq!(exchange, "deribit");
            assert_eq!(reason, "unauthorized");
        },
        other => panic!("unexpected {:?}", other),
    }
    match adapter.classify_error(11050, "bad request") {
        FlashError::ExchangeError { exchange, code, message } => {
            assert_eq!(exchange, "deribit");
            assert_eq!(code, 11050);
            assert_eq!(message, "bad request");
        },
        other => panic!("unexpected {:?}", other),
    }
}

// ----------------------------------------------------------------------------
// Factory
// ----------------------------------------------------------------------------

#[test]
fn test_create_adapter_deribit() {
    let adapter = create_adapter(Exchange::Deribit);
    assert_eq!(adapter.exchange(), Exchange::Deribit);
}

#[test]
fn test_create_adapter_binance() {
    let adapter = create_adapter(Exchange::Binance);
    assert_eq!(adapter.exchange(), Exchange::Binance);
}

#[test]
fn test_create_adapter_oanda() {
    let adapter = create_adapter(Exchange::Oanda);
    assert_eq!(adapter.exchange(), Exchange::Oanda);
}

fn takes_send_sync(_: impl Send + Sync) {}

#[test]
fn test_boxed_adapter_is_send_sync() {
    let adapter: Box<dyn ExchangeAdapter> = create_adapter(Exchange::Deribit);
    takes_send_sync(adapter);
}

// ----------------------------------------------------------------------------
// OANDA
// ----------------------------------------------------------------------------

#[test]
fn test_new() {
    let adapter = OandaAdapter::new("test_account");
    assert_eq!(adapter.exchange(), Exchange::Oanda);
    assert_eq!(adapter.account_id, "test_account");
    assert!(adapter.access_token.is_none());
}

#[test]
fn test_with_token() {
    let adapter = OandaAdapter::with_token("test_account", "test_token");
    assert!(adapter.access_token.is_some());
    assert_eq!(adapter.access_token.as_ref().unwrap(), "test_token");
}

#[test]
fn test_with_live() {
    let adapter = OandaAdapter::new("test").with_live(true);
    assert!(adapter.use_live);
    assert!(adapter.websocket_url().contains("fxtrade"));
}

#[test]
fn oanda_test_parse_instrument() {
    let adapter = OandaAdapter::new("test");

    let inst = adapter.parse_instrument("EUR_USD");
    assert_eq!(inst.base, "EUR");
    assert_eq!(inst.quote, "USD");
    assert_eq!(inst.raw_symbol, "EUR_USD");
}

#[test]
fn test_build_streaming_url() {
    let adapter = OandaAdapter::new("test_account");
    let instruments = vec![
        Instrument::new("EUR", "USD", Exchange::Oanda, "EUR_USD"),
        Instrument::new("GBP", "USD", Exchange::Oanda, "GBP_USD"),
    ];

    let url = adapter.build_streaming_url(&instruments);
    assert!(url.contains("test_account"));
    assert!(url.contains("EUR_USD"));
    assert!(url.contains("GBP_USD"));
}

#[test]
fn oanda_test_is_heartbeat() {
    let adapter = OandaAdapter::new("test");
    assert!(adapter.is_heartbeat(r#"{"type":"HEARTBEAT","time":"2023-12-29T00:00:00Z"}"#));
    assert!(!adapter.is_heartbeat(r#"{"type":"PRICE"}"#));
}

#[test]
fn test_build_subscribe_empty() {
    let adapter = OandaAdapter::new("test");
    let instruments = vec![Instrument::new("EUR", "USD", Exchange::Oanda, "EUR_USD")];
    let messages = adapter.build_subscribe(&instruments);
    assert!(messages.is_empty());
}

#[test]
fn test_build_auth() {
    let adapter = OandaAdapter::with_token("test", "my_token");
    let auth = adapter.build_auth("", "", 0);
    assert!(auth.is_some());
    assert!(auth.unwrap().contains("Bearer my_token"));
}

#[test]
fn test_oanda_level_new() {
    let level = OandaLevel::new("1.08505", 1000000);
    assert_eq!(level.price, "1.08505");
    assert_eq!(level.liquidity, 1000000);
}

#[test]
fn oanda_streaming_url_exact_and_practice_url() {
    let adapter = OandaAdapter::new("acc");
    let instruments = vec![
        Instrument::new("EUR", "USD", Exchange::Oanda, "EUR_USD"),
        Instrument::new("GBP", "USD", Exchange::Oanda, "GBP_USD"),
    ];
    assert_eq!(
        adapter.build_streaming_url(&instruments),
        "wss://stream-fxpractice.oanda.com/v3/accounts/acc/pricing/stream?instruments=EUR_USD,GBP_USD"
    );
    assert_eq!(
        adapter.build_streaming_url(&[]),
        "wss://stream-fxpractice.oanda.com/v3/accounts/acc/pricing/stream?instruments="
    );
    assert!(adapter.websocket_url().contains("fxpractice"));
}

#[test]
fn oanda_parse_instrument_without_underscore() {
    let adapter = OandaAdapter::new("test");
    let inst = adapter.parse_instrument("XAUUSD");
    assert_eq!(inst.base, "XAUUSD");
    assert_eq!(inst.quote, "");
    let inst = adapter.parse_instrument("A_B_C");
    assert_eq!(inst.base, "A_B_C");
    assert_eq!(inst.quote, "");
}

#[test]
fn oanda_auth_without_token_and_error() {
    let adapter = OandaAdapter::new("test");
    assert!(adapter.build_auth("k", "s", 1).is_none());
    assert!(adapter.handle_ping(b"ping").is_none());
    assert!(adapter.build_unsubscribe(&[]).is_empty());
    assert!(!adapter.is_subscription_response(r#"{"result":1}"#));
    match adapter.classify_error("Invalid value") {
        FlashError::ExchangeError { exchange, code, message } => {
            assert_eq!(exchange, "oanda");
            assert_eq!(code, 0);
            assert_eq!(message, "Invalid value");
        },
        other => panic!("unexpected {:?}", other),
    }
}

#[test]
fn oanda_price_validity_and_liquidity() {
    let price = OandaPrice {
        msg_type: "PRICE".to_string(),
        time: "2023-12-29T00:00:00Z".to_string(),
        instrument: "EUR_USD".to_string(),
        bids: vec![OandaLevel::new("1.08505", 1000000), OandaLevel::new("1.08500", 500000)],
        asks: vec![OandaLevel::new("1.08520", 750000), OandaLevel::new("1.08525", 250000)],
    };
    assert!(price.is_valid());
    assert_eq!(price.total_bid_liquidity(), 1500000);
    assert_eq!(price.total_ask_liquidity(), 1000000);

    let no_levels = OandaPrice { bids: vec![], asks: vec![], ..price.clone() };
    assert!(no_levels.is_valid());
    let no_instrument = OandaPrice { instrument: String::new(), ..price.clone() };
    assert!(!no_instrument.is_valid());
    let wrong_type = OandaPrice { msg_type: "HEARTBEAT".to_string(), ..price };
    assert!(!wrong_type.is_valid());
}

// ----------------------------------------------------------------------------
// Rate limits
// ----------------------------------------------------------------------------

#[test]
fn test_rate_limit_deribit() {
    let limit = RateLimit::deribit();
    assert_eq!(limit.ws_messages_per_second, 100);
    assert_eq!(limit.min_interval_ms, 10);
    assert_eq!(limit.max_subscriptions, 200);
}

#[test]
fn test_rate_limit_binance() {
    let limit = RateLimit::binance();
    assert_eq!(limit.ws_messages_per_second, 5);
    assert_eq!(limit.min_interval_ms, 200);
    assert_eq!(limit.max_subscriptions, 1024);
}

#[test]
fn test_rate_limit_oanda() {
    let limit = RateLimit::oanda();
    assert_eq!(limit.ws_messages_per_second, 120);
    assert_eq!(limit.min_interval_ms, 8);
    assert_eq!(limit.max_subscriptions, 100);
}

#[test]
fn test_rate_limit_default() {
    let limit = RateLimit::default();
    assert!(limit.ws_messages_per_second > 0);
    assert!(limit.max_subscriptions > 0);
}

#[test]
fn adapters_report_their_rate_limits() {
    assert_eq!(DeribitAdapter::default().rate_limit(), RateLimit::deribit());
    assert_eq!(BinanceAdapter::default().rate_limit(), RateLimit::binance());
    assert_eq!(OandaAdapter::new("x").rate_limit(), RateLimit::oanda());
}
