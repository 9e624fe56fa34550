use astra_flash::publisher::stream::TopicType;
use astra_flash::publisher::topics::{
    RouterConfig, RouterConfigBuilder, RoutingAction, RoutingCounts, RoutingError, RoutingFilter, RoutingFilterBuilder,
    RoutingRuleBuilder, RuleId, TopicPattern, TopicRouter, TopicRouterBuilder, TopicTemplate,
};
use astra_flash::types::{Exchange, Instrument, MarketData, MarketEvent, MarketEventType, Side};
use rust_decimal::Decimal;

fn test_instrument() -> Instrument {
    Instrument::new("BTC", "USD", Exchange::Deribit, "BTC-PERPETUAL")
}

fn test_book_event() -> MarketEvent {
    MarketEvent {
        event_type: MarketEventType::Snapshot,
        instrument: test_instrument(),
        timestamp: 1234567890,
        local_timestamp: 1234567890,
        sequence: Some(1),
        data: MarketData::Book { bids: vec![], asks: vec![] },
    }
}

fn test_trade_event() -> MarketEvent {
    MarketEvent {
        event_type: MarketEventType::Delta,
        instrument: test_instrument(),
        timestamp: 1234567890,
        local_timestamp: 1234567890,
        sequence: Some(2),
        data: MarketData::Trade {
            price: Decimal::from(50000),
            quantity: Decimal::new(10, 1),
            side: Side::Bid,
            trade_id: Some("trade123".to_string()),
        },
    }
}

fn event_on(exchange: Exchange, base: &str, quote: &str) -> MarketEvent {
    MarketEvent {
        instrument: Instrument::new(base, quote, exchange, "SYM"),
        ..test_book_event()
    }
}

// ----------------------------------------------------------------------------
// Patterns
// ----------------------------------------------------------------------------

#[test]
fn test_pattern_exact() {
    let pattern = TopicPattern::parse("market_data.deribit.btc_usd.book").unwrap();
    assert!(pattern.matches("market_data.deribit.btc_usd.book"));
    assert!(!pattern.matches("market_data.binance.btc_usd.book"));
}

#[test]
fn test_pattern_wildcard() {
    let pattern = TopicPattern::parse("market_data.*.btc_usd.book").unwrap();
    assert!(pattern.matches("market_data.deribit.btc_usd.book"));
    assert!(pattern.matches("market_data.binance.btc_usd.book"));
}

#[test]
fn test_pattern_multi_wildcard() {
    let pattern = TopicPattern::parse("market_data.#").unwrap();
    assert!(pattern.matches("market_data.deribit.btc_usd.book"));
    assert!(pattern.matches("market_data"));
}

#[test]
fn pattern_doc_examples() {
    let pattern = TopicPattern::parse("market_data.*.btc_usd.book").unwrap();
    assert!(!pattern.matches("market_data.deribit.eth_usd.book"));
    let pattern = TopicPattern::parse("market_data.deribit.*").unwrap();
    assert!(pattern.matches("market_data.deribit.btc_usd"));
    assert!(!pattern.matches("market_data.deribit.btc.usd"));
    let pattern = TopicPattern::parse("market_data.#").unwrap();
    assert!(pattern.matches("market_data.anything.here"));
}

#[test]
fn pattern_edges() {
    match TopicPattern::parse("") {
        Err(RoutingError::InvalidPattern { pattern, reason }) => {
            assert_eq!(pattern, "");
            assert_eq!(reason, "Pattern cannot be empty");
        },
        _ => panic!("empty pattern accepted"),
    }
    let hash = TopicPattern::parse("#").unwrap();
    assert!(hash.matches(""));
    assert!(hash.matches("a.b.c"));
    let star = TopicPattern::parse("*").unwrap();
    assert!(star.matches("x"));
    assert!(!star.matches("x.y"));
    let mid = TopicPattern::parse("a.#.z").unwrap();
    assert!(mid.matches("a.z"));
    assert!(mid.matches("a.b.c.z"));
    assert!(!mid.matches("a.b.c"));
    let upper = TopicPattern::parse("Market_Data.BOOK").unwrap();
    assert!(upper.matches("MARKET_DATA.book"));
    assert_eq!(upper.as_str(), "Market_Data.BOOK");
    assert_eq!(upper.to_string(), "Market_Data.BOOK");
}

// ----------------------------------------------------------------------------
// Templates
// ----------------------------------------------------------------------------

#[test]
fn test_template_expand() {
    let template = TopicTemplate::parse("market_data.{exchange}.{base}_{quote}.book").unwrap();
    let event = test_book_event();
    let result = template.expand(&event);
    assert_eq!(result, "market_data.deribit.btc_usd.book");
}

#[test]
fn template_errors() {
    let reason = |t: &str| match TopicTemplate::parse(t) {
        Err(RoutingError::InvalidTemplate { template, reason }) => {
            assert_eq!(template, t);
            reason
        },
        _ => panic!("template {} accepted", t),
    };
    assert_eq!(reason("a.{exch{ange}"), "Nested placeholders not allowed");
    assert_eq!(reason("a.}b"), "Unexpected closing brace");
    assert_eq!(reason("a.{Symbol}"), "Unknown placeholder: {symbol}");
    assert_eq!(reason("a.{type"), "Unclosed placeholder");
}

#[test]
fn template_placeholders_and_literals() {
    let template = TopicTemplate::parse("{PREFIX}.{Exchange}.{type}-x").unwrap();
    let trade = test_trade_event();
    assert_eq!(template.expand(&trade), "market_data.deribit.trade-x");
    assert_eq!(template.expand_with_prefix(&trade, "p", TopicType::Ticker), "p.deribit.ticker-x");
    assert_eq!(template.as_str(), "{PREFIX}.{Exchange}.{type}-x");
    let plain = TopicTemplate::parse("just.text").unwrap();
    assert_eq!(plain.expand(&trade), "just.text");
    let empty = TopicTemplate::parse("").unwrap();
    assert_eq!(empty.expand(&trade), "");
    let heartbeat = MarketEvent { data: MarketData::Heartbeat { exchange_time: 5 }, ..test_book_event() };
    assert_eq!(TopicTemplate::detect_topic_type(&heartbeat), TopicType::Event);
}

// ----------------------------------------------------------------------------
// Filters
// ----------------------------------------------------------------------------

#[test]
fn test_filter_empty_matches_all() {
    let filter = RoutingFilter::default();
    assert!(filter.matches(&test_book_event()));
    assert!(filter.matches(&test_trade_event()));
}

#[test]
fn test_filter_exchange() {
    let filter = RoutingFilterBuilder::new().exchange(Exchange::Deribit).build();
    assert!(filter.matches(&test_book_event()));
}

#[test]
fn filter_criteria_are_anded() {
    let filter = RoutingFilterBuilder::new()
        .exchanges(vec![Exchange::Deribit, Exchange::Binance])
        .topic_type(TopicType::Book)
        .base_asset("BTC")
        .build();
    assert!(filter.matches(&test_book_event()));
    assert!(!filter.matches(&test_trade_event()));
    assert!(!filter.matches(&event_on(Exchange::Oanda, "BTC", "USD")));
    assert!(!filter.matches(&event_on(Exchange::Binance, "btc", "USD")));

    let ci = RoutingFilterBuilder::new().base_asset("btc").quote_asset("usd").case_insensitive(true).build();
    assert!(ci.matches(&event_on(Exchange::Binance, "BTC", "USD")));
    assert!(!ci.matches(&event_on(Exchange::Binance, "BTC", "EUR")));
}

// ----------------------------------------------------------------------------
// Router
// ----------------------------------------------------------------------------

#[test]
fn test_router_route() {
    let router = TopicRouterBuilder::new()
        .add_rule(
            RoutingRuleBuilder::new("test", RuleId::from_value(1))
                .target_template("market_data.{exchange}.{base}_{quote}.{type}")
                .build()
                .unwrap(),
        )
        .build();

    let result = router.route(&test_book_event());
    assert!(!result.topics.is_empty());
    assert!(result.topics[0].contains("deribit"));
}

#[test]
fn test_router_default_topic() {
    let router = TopicRouter::new(RouterConfig::default());
    let result = router.route(&test_book_event());
    assert!(!result.topics.is_empty());
}

#[test]
fn test_router_drop_action() {
    let router = TopicRouterBuilder::new()
        .add_rule(RoutingRuleBuilder::new("drop", RuleId::from_value(1)).action(RoutingAction::Drop).build().unwrap())
        .build();

    let result = router.route(&test_book_event());
    assert!(result.dropped);
    assert!(result.topics.is_empty());
}

#[test]
fn router_applies_rules_by_priority_and_deduplicates() {
    let router = TopicRouterBuilder::new()
        .add_rule(
            RoutingRuleBuilder::new("late", RuleId::from_value(3))
                .priority(50)
                .target_template("b.{exchange}")
                .build()
                .unwrap(),
        )
        .add_rule(
            RoutingRuleBuilder::new("early", RuleId::from_value(7))
                .priority(1)
                .target_template("a.{base}")
                .target_template("b.{exchange}")
                .build()
                .unwrap(),
        )
        .build();
    let result = router.route(&test_book_event());
    assert_eq!(result.topics, vec!["a.btc".to_string(), "b.deribit".to_string()]);
    assert_eq!(result.matched_rules, vec![RuleId::from_value(7), RuleId::from_value(3)]);
    assert!(!result.dropped);
    assert_eq!(result.latency_us, 0);
}

#[test]
fn router_route_and_stop_and_limits() {
    let config = RouterConfigBuilder::new().max_topics_per_event(1).build();
    let router = TopicRouterBuilder::new()
        .config(config)
        .add_rule(
            RoutingRuleBuilder::new("two", RuleId::from_value(1))
                .priority(1)
                .target_template("x")
                .target_template("y")
                .build()
                .unwrap(),
        )
        .add_rule(RoutingRuleBuilder::new("later", RuleId::from_value(2)).priority(2).target_template("z").build().unwrap())
        .build();
    let result = router.route(&test_book_event());
    assert_eq!(result.topics, vec!["x".to_string()]);
    assert_eq!(result.matched_rules, vec![RuleId::from_value(1)]);

    let router = TopicRouterBuilder::new()
        .add_rule(
            RoutingRuleBuilder::new("stop", RuleId::from_value(1))
                .action(RoutingAction::RouteAndStop)
                .target_template("s")
                .build()
                .unwrap(),
        )
        .add_rule(RoutingRuleBuilder::new("never", RuleId::from_value(2)).priority(200).target_template("n").build().unwrap())
        .build();
    let result = router.route(&test_book_event());
    assert_eq!(result.topics, vec!["s".to_string()]);
}

#[test]
fn router_strict_mode_and_disabled_rules() {
    let strict = TopicRouter::new(RouterConfigBuilder::new().strict_mode(true).build());
    assert!(strict.route(&test_book_event()).topics.is_empty());

    let mut router = TopicRouter::with_defaults();
    router.add_rule(
        RoutingRuleBuilder::new("off", RuleId::from_value(9)).enabled(false).target_template("off").build().unwrap(),
    );
    let result = router.route(&test_trade_event());
    assert_eq!(result.topics, vec!["market_data.deribit.btc_usd.trade".to_string()]);
    assert!(result.matched_rules.is_empty());
}

#[test]
fn router_rule_management() {
    let mut router = TopicRouter::with_defaults();
    router.add_rule(RoutingRuleBuilder::new("a", RuleId::from_value(1)).priority(5).build().unwrap());
    router.add_rule(RoutingRuleBuilder::new("b", RuleId::from_value(2)).priority(1).build().unwrap());
    router.add_rule(RoutingRuleBuilder::new("c", RuleId::from_value(3)).priority(5).build().unwrap());
    assert_eq!(router.rule_count(), 3);
    assert_eq!(router.get_rule(RuleId::from_value(3)).unwrap().name, "c");
    assert!(router.get_rule(RuleId::from_value(4)).is_none());
    assert!(router.remove_rule(RuleId::from_value(2)));
    assert!(!router.remove_rule(RuleId::from_value(2)));
    assert_eq!(router.rule_count(), 2);
    assert_eq!(router.config().max_topics_per_event, 10);
    // Default target when none was given.
    let rule = router.get_rule(RuleId::from_value(1)).unwrap();
    assert_eq!(rule.targets.len(), 1);
    assert_eq!(rule.targets[0].as_str(), "{prefix}.{exchange}.{base}_{quote}.{type}");
}

#[test]
fn router_config_validation() {
    assert!(RouterConfig::default().validate().is_ok());
    match RouterConfigBuilder::new().default_prefix("").build().validate() {
        Err(RoutingError::ConfigError(m)) => assert_eq!(m, "default_prefix cannot be empty"),
        _ => panic!("empty prefix accepted"),
    }
    match RouterConfigBuilder::new().max_topics_per_event(0).build().validate() {
        Err(RoutingError::ConfigError(m)) => assert_eq!(m, "max_topics_per_event must be > 0"),
        _ => panic!("zero topics accepted"),
    }
}

#[test]
fn rule_builder_ignores_bad_pattern_and_template() {
    let rule = RoutingRuleBuilder::new("r", RuleId::from_value(5))
        .pattern("")
        .target_template("{nope}")
        .pattern("market_data.#")
        .build()
        .unwrap();
    assert!(rule.pattern.as_ref().unwrap().matches("market_data.x"));
    assert_eq!(rule.targets.len(), 1);
    assert_eq!(rule.id.value(), 5);
}

#[test]
fn rule_id_from_and_text() {
    let id = RuleId::from(7u64);
    assert_eq!(id.value(), 7);
    assert_eq!(id, RuleId::from_value(7));
    assert_eq!(id.to_string(), "rule-7");
    assert_eq!(RuleId::from(u64::MAX).to_string(), format!("rule-{}", u64::MAX));
}

#[test]
fn router_topics_unique_and_route_and_stop_passes_limit() {
    let config = RouterConfigBuilder::new().max_topics_per_event(2).build();
    let router = TopicRouterBuilder::new()
        .config(config.clone())
        .add_rule(
            RoutingRuleBuilder::new("dup", RuleId::from_value(1))
                .target_template("a")
                .target_template("a")
                .target_template("b")
                .target_template("c")
                .build()
                .unwrap(),
        )
        .build();
    let result = router.route(&test_book_event());
    assert_eq!(result.topics, vec!["a".to_string(), "b".to_string()]);

    let router = TopicRouterBuilder::new()
        .config(config)
        .add_rule(
            RoutingRuleBuilder::new("stop", RuleId::from_value(1))
                .action(RoutingAction::RouteAndStop)
                .target_template("a")
                .target_template("b")
                .target_template("a")
                .target_template("c")
                .build()
                .unwrap(),
        )
        .build();
    let result = router.route(&test_book_event());
    assert_eq!(result.topics, vec!["a".to_string(), "b".to_string(), "c".to_string()]);
}

#[test]
fn rule_without_targets_gets_default_target_text() {
    let rule = RoutingRuleBuilder::new("plain", RuleId::from_value(4)).build().unwrap();
    assert_eq!(rule.targets.len(), 1);
    assert_eq!(rule.targets[0].as_str(), "{prefix}.{exchange}.{base}_{quote}.{type}");
}

#[test]
fn routing_counts_record_outcomes() {
    let mut counts = RoutingCounts::new();
    let router = TopicRouter::with_defaults();
    let result = router.route(&test_book_event());
    counts.record(&result);
    assert_eq!(counts.events_routed, 1);
    assert_eq!(counts.events_unmatched, 1);
    assert_eq!(counts.events_matched, 0);
    assert_eq!(counts.topics_generated, 1);
    let router = TopicRouterBuilder::new()
        .add_rule(RoutingRuleBuilder::new("drop", RuleId::from_value(1)).action(RoutingAction::Drop).build().unwrap())
        .build();
    let result = router.route(&test_book_event());
    counts.record(&result);
    assert_eq!(counts.events_routed, 2);
    assert_eq!(counts.events_matched, 1);
    assert_eq!(counts.events_dropped, 1);
    assert_eq!(counts.topics_generated, 1);
}
