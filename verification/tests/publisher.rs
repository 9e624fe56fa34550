use astra_flash::publisher::backpressure::{BackpressureMetrics, BackpressurePolicy};
use astra_flash::publisher::batch::{
    BackpressureStatus, BatchAccumulator, BatchMessage, DropReason, FlushTrigger, MessageBatch, OverflowAction,
};
use astra_flash::publisher::buffer::{SerializationBuffer, DEFAULT_BUFFER_CAPACITY, MAX_BUFFER_CAPACITY};
use astra_flash::publisher::dual::{dual_outputs, dual_xadd_command, DualOutputs, DualStats, KeyLayout, DEFAULT_ORDERBOOK_PREFIX, FUSION_TOPIC_PREFIX};
use astra_flash::publisher::pool::{
    HealthCheckCounters, PoolConfig, PoolError, PoolEvent, PoolHealthStatus, PoolStats, RedisPoolBuilder,
    RedisServerInfo,
};
use astra_flash::publisher::stream::{
    CommandArg, PublishResult, SerializationFormat, StreamError, StreamPublisherBuilder, StreamPublisherConfig,
    TopicBuilder, TopicType,
};
use astra_flash::types::{now_micros, Exchange, Instrument};

fn text_args(args: &[CommandArg]) -> Vec<String> {
    args.iter()
        .map(|a| match a {
            CommandArg::Text(s) => s.clone(),
            CommandArg::Bytes(b) => format!("<{} bytes>", b.len()),
        })
        .collect()
}

// ----------------------------------------------------------------------------
// Backpressure
// ----------------------------------------------------------------------------

#[test]
fn test_policy_default() {
    assert_eq!(BackpressurePolicy::default(), BackpressurePolicy::DropNewest);
}

#[test]
fn test_metrics_basic() {
    let metrics = BackpressureMetrics::new();
    metrics.increment_sent();
    metrics.increment_dropped();
    assert_eq!(metrics.total_frames(), 2);
}

#[test]
fn metrics_reset_and_names() {
    let metrics = BackpressureMetrics::default();
    metrics.increment_sent();
    metrics.increment_sent();
    metrics.increment_dropped();
    assert_eq!(metrics.sent_frames(), 2);
    assert_eq!(metrics.dropped_frames(), 1);
    metrics.reset();
    assert_eq!(metrics.total_frames(), 0);
    assert_eq!(BackpressurePolicy::WarnAndContinue.to_string(), "WarnAndContinue");
}

// ----------------------------------------------------------------------------
// Batching
// ----------------------------------------------------------------------------

fn message(topic: &str, data: Vec<u8>) -> BatchMessage {
    BatchMessage {
        topic: topic.to_string(),
        data,
        format: SerializationFormat::Bincode,
        enqueued_at: now_micros(),
        priority: 0,
    }
}

#[test]
fn test_overflow_action_default() {
    assert_eq!(OverflowAction::default(), OverflowAction::Block);
}

#[test]
fn test_backpressure_status_default() {
    assert_eq!(BackpressureStatus::default(), BackpressureStatus::Normal);
}

#[test]
fn test_message_batch_add() {
    let mut batch = MessageBatch::new();
    batch.add(message("test", vec![1, 2, 3]));
    assert_eq!(batch.len(), 1);
    assert_eq!(batch.total_bytes, 3);
}

#[test]
fn test_message_batch_clear() {
    let mut batch = MessageBatch::new();
    batch.add(message("test", vec![1, 2, 3]));
    batch.clear();
    assert!(batch.is_empty());
    assert_eq!(batch.total_bytes, 0);
}

#[test]
fn test_batch_accumulator_ready() {
    let mut acc = BatchAccumulator::new(3);
    for i in 0..3 {
        acc.add(message("test", vec![i as u8]));
    }
    assert!(acc.is_ready());
}

#[test]
fn test_batch_accumulator_take() {
    let mut acc = BatchAccumulator::new(10);
    acc.add(message("test", vec![1, 2, 3]));
    let batch = acc.take();
    assert_eq!(batch.len(), 1);
    assert!(acc.is_empty());
}

#[test]
fn test_flush_trigger_display() {
    assert_eq!(FlushTrigger::BatchFull.to_string(), "BatchFull");
    assert_eq!(FlushTrigger::Timeout.to_string(), "Timeout");
}

#[test]
fn test_drop_reason_display() {
    assert_eq!(DropReason::QueueFull.to_string(), "QueueFull");
    assert_eq!(DropReason::Evicted.to_string(), "Evicted");
}

#[test]
fn accumulator_latency_and_minimum() {
    let mut acc = BatchAccumulator::with_limits(5, 2);
    assert_eq!(acc.latency_at(1_000), None);
    assert!(acc.latency_us().is_none());
    let mut m = message("a", vec![1, 2]);
    m.enqueued_at = 400;
    acc.add(m);
    let mut m2 = message("b", vec![3]);
    m2.enqueued_at = 900;
    acc.add(m2);
    assert_eq!(acc.latency_at(1_000), Some(600));
    assert_eq!(acc.latency_at(100), Some(0));
    assert_eq!(acc.latency_at(i64::MAX), Some((i64::MAX - 400) as u64));
    assert!(acc.meets_minimum());
    assert!(!acc.is_ready());
    assert_eq!(acc.total_bytes(), 3);
    assert_eq!(acc.len(), 2);
    let batch = acc.take();
    assert_eq!(batch.message_count, 2);
    assert_eq!(batch.messages[0].topic, "a");
    assert_eq!(acc.latency_at(1_000), None);
    assert!(!acc.meets_minimum());
}

#[test]
fn accumulator_latency_from_very_old_first_message() {
    let mut acc = BatchAccumulator::new(1);
    let mut m = message("x", vec![]);
    m.enqueued_at = i64::MIN;
    acc.add(m);
    assert_eq!(acc.latency_at(i64::MAX), Some(u64::MAX));
}

#[test]
fn vocabulary_names() {
    assert_eq!(OverflowAction::DropOldest.to_string(), "DropOldest");
    assert_eq!(BackpressureStatus::Critical.to_string(), "Critical");
    assert_eq!(FlushTrigger::Shutdown.to_string(), "Shutdown");
    assert_eq!(DropReason::MessageTooLarge.to_string(), "MessageTooLarge");
}

// ----------------------------------------------------------------------------
// Buffer
// ----------------------------------------------------------------------------

#[test]
fn test_buffer_new() {
    let buffer = SerializationBuffer::new();
    assert_eq!(buffer.capacity(), DEFAULT_BUFFER_CAPACITY);
    assert!(buffer.is_empty());
}

#[test]
fn test_buffer_with_capacity() {
    let buffer = SerializationBuffer::with_capacity(4096);
    assert_eq!(buffer.capacity(), 4096);
}

#[test]
fn test_buffer_capacity_capped() {
    let buffer = SerializationBuffer::with_capacity(MAX_BUFFER_CAPACITY * 2);
    assert_eq!(buffer.capacity(), MAX_BUFFER_CAPACITY);
}

#[test]
fn test_reserve() {
    let mut buffer = SerializationBuffer::with_capacity(100);
    let initial_cap = buffer.capacity();
    buffer.reserve(1000);
    assert!(buffer.capacity() >= 1000, "Capacity {} should be >= 1000", buffer.capacity());
    assert!(buffer.capacity() >= initial_cap, "Capacity should not shrink");
}

#[test]
fn buffer_reuse_and_peak_counting() {
    let mut buffer = SerializationBuffer::new();
    for i in 0..10u8 {
        let payload = vec![i; (i as usize) + 1];
        buffer.write_bytes(&payload);
        assert_eq!(buffer.as_slice(), payload.as_slice());
    }
    let stats = buffer.stats();
    assert_eq!(stats.reuse_count, 9);
    assert_eq!(stats.peak_size, 10);
    assert_eq!(stats.current_len, 10);
    assert_eq!(stats.growth_count, 0);
    buffer.clear();
    assert!(buffer.is_empty());
    assert_eq!(buffer.stats().reuse_count, 10);
    assert_eq!(buffer.stats().peak_size, 10);
}

#[test]
fn buffer_growth_counted_once() {
    let mut buffer = SerializationBuffer::with_capacity(16);
    buffer.write_bytes(&vec![7u8; DEFAULT_BUFFER_CAPACITY + 1]);
    buffer.write_bytes(&vec![7u8; DEFAULT_BUFFER_CAPACITY * 3]);
    assert_eq!(buffer.stats().growth_count, 1);
    assert_eq!(buffer.len(), DEFAULT_BUFFER_CAPACITY * 3);
}

// ----------------------------------------------------------------------------
// Dual output
// ----------------------------------------------------------------------------

#[test]
fn dual_test_stats_default() {
    let stats = DualStats::default();
    assert_eq!(stats.orderbook_published, 0);
    assert_eq!(stats.signals_published, 0);
}

#[test]
fn dual_keys_production_and_shadow() {
    let instrument = Instrument::new("EUR", "USD", Exchange::Oanda, "EUR_USD");
    let mut layout = KeyLayout {
        orderbook_key_prefix: DEFAULT_ORDERBOOK_PREFIX.to_string(),
        signal_key_prefix: FUSION_TOPIC_PREFIX.to_string(),
        shadow_mode_enabled: false,
        shadow_mode_namespace: "rust".to_string(),
    };
    assert_eq!(layout.orderbook_key(&instrument), "market:orderbook:EUR_USD");
    assert_eq!(layout.signal_key(&instrument), "astra:signals:flash:oanda:EUR_USD");
    layout.shadow_mode_enabled = true;
    assert_eq!(layout.orderbook_key(&instrument), "market:orderbook:rust:EUR_USD");
    assert_eq!(layout.signal_key(&instrument), "astra:signals:flash:rust:oanda:EUR_USD");
}

#[test]
fn dual_stats_record_and_reset() {
    let mut stats = DualStats::default();
    stats.record_publish(true, false, 120);
    stats.record_publish(true, true, 30);
    assert_eq!(stats.orderbook_published, 2);
    assert_eq!(stats.signals_published, 1);
    assert_eq!(stats.publish_count, 2);
    assert_eq!(stats.total_latency_us, 150);
    stats.reset();
    assert_eq!(stats, DualStats::default());
}

#[test]
fn dual_xadd_arguments() {
    let args = dual_xadd_command("market:orderbook:EUR_USD", "{}", 100_000, SerializationFormat::Json);
    assert_eq!(
        text_args(&args),
        vec!["market:orderbook:EUR_USD", "MAXLEN", "~", "100000", "*", "data", "{}", "format", "json"]
    );
    let args = dual_xadd_command("k", "x", 0, SerializationFormat::Bincode);
    assert_eq!(text_args(&args), vec!["k", "*", "data", "x", "format", "bincode"]);
}

// ----------------------------------------------------------------------------
// Pool
// ----------------------------------------------------------------------------

#[test]
fn test_pool_config_default() {
    let config = PoolConfig::default();
    assert_eq!(config.max_size, 10);
    assert_eq!(config.database, 0);
    assert!(config.auto_reconnect);
}

#[test]
fn test_pool_config_validation() {
    let mut config = PoolConfig::default();

    assert!(config.validate().is_ok());

    config.url = String::new();
    assert!(config.validate().is_err());

    config.url = "redis://localhost".to_string();
    config.max_size = 0;
    assert!(config.validate().is_err());

    config.max_size = 10;
    config.database = 20;
    assert!(config.validate().is_err());
}

#[test]
fn test_pool_stats_default() {
    let stats = PoolStats::default();
    assert_eq!(stats.connections_created, 0);
    assert_eq!(stats.peak_in_use, 0);
}

#[test]
fn test_pool_builder() {
    let builder = RedisPoolBuilder::new("redis://test:6379").max_size(20).min_idle(5).database(1);

    let config = builder.config();
    assert_eq!(config.url, "redis://test:6379");
    assert_eq!(config.max_size, 20);
    assert_eq!(config.min_idle, Some(5));
    assert_eq!(config.database, 1);
}

#[test]
fn test_server_info_clone() {
    let info = RedisServerInfo {
        version: "7.0.0".to_string(),
        connected_clients: 5,
        used_memory_bytes: 1024,
        uptime_seconds: 3600,
    };
    let cloned = info.clone();
    assert_eq!(info.version, cloned.version);
}

#[test]
fn test_pool_error_display() {
    let error = PoolError::ConnectionTimeout { timeout_ms: 5000 };
    assert!(error.to_string().contains("5000"));

    let error = PoolError::PoolExhausted { waiting: 10 };
    assert!(error.to_string().contains("10"));
}

#[test]
fn test_pool_event_variants() {
    let event = PoolEvent::Created { size: 10 };
    if let PoolEvent::Created { size } = event {
        assert_eq!(size, 10);
    }

    let event = PoolEvent::HealthCheckCompleted { status: PoolHealthStatus::Healthy, latency_us: 500 };
    if let PoolEvent::HealthCheckCompleted { status, latency_us } = event {
        assert_eq!(status, PoolHealthStatus::Healthy);
        assert_eq!(latency_us, 500);
    }
}

#[test]
fn pool_error_messages_exact() {
    assert_eq!(PoolError::ConnectionTimeout { timeout_ms: 5000 }.to_string(), "Connection timeout after 5000ms");
    assert_eq!(PoolError::PoolExhausted { waiting: 10 }.to_string(), "Pool exhausted, 10 requests waiting");
    assert_eq!(PoolError::PoolClosed.to_string(), "Pool is closed");
    assert_eq!(PoolError::ConnectionTimeout { timeout_ms: 0 }.to_string(), "Connection timeout after 0ms");
}

#[test]
fn pool_validation_messages() {
    let mut config = PoolConfig::default();
    config.min_idle = Some(11);
    match config.validate() {
        Err(PoolError::InvalidConfig(m)) => assert_eq!(m, "min_idle cannot exceed max_size"),
        other => panic!("unexpected {:?}", other.is_ok()),
    }
    config.min_idle = Some(10);
    assert!(config.validate().is_ok());
}

#[test]
fn pool_stats_track_peak_usage() {
    let mut stats = PoolStats::default();
    stats.idle_connections = 1;
    stats.record_acquired();
    stats.record_acquired();
    assert_eq!(stats.in_use_connections, 2);
    assert_eq!(stats.idle_connections, 0);
    assert_eq!(stats.peak_in_use, 2);
    stats.record_released();
    assert_eq!(stats.in_use_connections, 1);
    assert_eq!(stats.peak_in_use, 2);
    assert_eq!(stats.connections_recycled, 1);
}

#[test]
fn health_counters_transitions() {
    let mut c = HealthCheckCounters::new();
    assert_eq!(c.status, PoolHealthStatus::Unknown);
    c.record_failure();
    assert_eq!(c.status, PoolHealthStatus::Degraded);
    for _ in 0..4 {
        c.record_failure();
    }
    assert_eq!(c.status, PoolHealthStatus::Unhealthy);
    c.record_success();
    assert_eq!(c.consecutive_failures, 0);
    c.reset();
    assert_eq!(c, HealthCheckCounters::new());
}

// ----------------------------------------------------------------------------
// Stream
// ----------------------------------------------------------------------------

#[test]
fn test_serialization_format_default() {
    let format = SerializationFormat::default();
    assert_eq!(format, SerializationFormat::Bincode);
}

#[test]
fn test_serialization_format_as_str() {
    assert_eq!(SerializationFormat::Json.as_str(), "json");
    assert_eq!(SerializationFormat::Bincode.as_str(), "bincode");
    assert_eq!(SerializationFormat::Rkyv.as_str(), "rkyv");
}

#[test]
fn test_topic_type_as_str() {
    assert_eq!(TopicType::Book.as_str(), "book");
    assert_eq!(TopicType::Trade.as_str(), "trade");
    assert_eq!(TopicType::Ticker.as_str(), "ticker");
    assert_eq!(TopicType::Event.as_str(), "event");
}

#[test]
fn test_topic_builder_market_data() {
    let builder = TopicBuilder::new("market_data");
    let topic = builder.market_data(Exchange::Deribit, "BTC", "USD", TopicType::Book);
    assert_eq!(topic, "market_data.deribit.btc_usd.book");
}

#[test]
fn test_topic_builder_system() {
    let builder = TopicBuilder::new("market_data");
    let topic = builder.system("health");
    assert_eq!(topic, "system.flash.health");
}

#[test]
fn stream_test_config_default() {
    let config = StreamPublisherConfig::default();
    assert_eq!(config.format, SerializationFormat::Bincode);
    assert_eq!(config.max_stream_length, 100_000);
    assert!(config.approximate_trimming);
}

#[test]
fn stream_test_config_validation() {
    let config = StreamPublisherConfig::default();
    assert!(config.validate().is_ok());

    let invalid = StreamPublisherConfig { topic_prefix: String::new(), ..StreamPublisherConfig::default() };
    assert!(invalid.validate().is_err());
}

#[test]
fn stream_test_builder_chain() {
    let builder = StreamPublisherBuilder::default()
        .format(SerializationFormat::Json)
        .max_stream_length(50_000)
        .topic_prefix("test");

    let config = builder.config();
    assert_eq!(config.format, SerializationFormat::Json);
    assert_eq!(config.max_stream_length, 50_000);
    assert_eq!(config.topic_prefix, "test");
}

#[test]
fn test_publish_result_clone() {
    let result = PublishResult {
        message_id: "123-0".to_string(),
        topic: "test".to_string(),
        data_size: 100,
        latency_us: 50,
    };
    let cloned = result.clone();
    assert_eq!(result.message_id, cloned.message_id);
}

#[test]
fn test_error_display() {
    let error = StreamError::InvalidTopic("test".to_string());
    assert!(error.to_string().contains("Invalid topic"));
}

#[test]
fn stream_error_messages_exact() {
    assert_eq!(
        StreamError::SerializationFailed { format: SerializationFormat::Json, reason: "bad".to_string() }.to_string(),
        "Serialization failed for format Json: bad"
    );
    assert_eq!(
        StreamError::PoolError(PoolError::PoolClosed).to_string(),
        "Pool error: Pool is closed"
    );
    assert_eq!(StreamError::NoConnection.to_string(), "No connection available");
}

#[test]
fn topic_builder_lowercases_and_names() {
    let builder = TopicBuilder::new("Market_DATA");
    let instrument = Instrument::new("ETH", "Usdt", Exchange::Binance, "ETHUSDT");
    assert_eq!(builder.for_instrument(&instrument, TopicType::Trade), "market_data.binance.eth_usdt.trade");
    assert_eq!(TopicBuilder::default().system("Status"), "system.flash.status");
    assert_eq!(SerializationFormat::Rkyv.to_string(), "rkyv");
    assert_eq!(TopicType::Ticker.to_string(), "ticker");
}

#[test]
fn xadd_arguments_follow_configuration() {
    let config = StreamPublisherConfig::default();
    let args = config.xadd_command("market_data.deribit.btc_usd.book", &[1, 2, 3], SerializationFormat::Bincode, -42);
    assert_eq!(
        text_args(&args),
        vec![
            "market_data.deribit.btc_usd.book",
            "MAXLEN",
            "~",
            "100000",
            "*",
            "timestamp",
            "-42",
            "format",
            "bincode",
            "data",
            "<3 bytes>",
        ]
    );
    let plain = StreamPublisherBuilder::default()
        .max_stream_length(0)
        .include_timestamp(false)
        .config()
        .clone();
    let args = plain.xadd_command("t", &[], SerializationFormat::Json, 7);
    assert_eq!(text_args(&args), vec!["t", "*", "format", "json", "data", "<0 bytes>"]);
    let exact = StreamPublisherBuilder::default().approximate_trimming(false).config().clone();
    let args = exact.xadd_command("t", &[9], SerializationFormat::Json, i64::MIN);
    assert_eq!(
        text_args(&args),
        vec!["t", "MAXLEN", "100000", "*", "timestamp", "-9223372036854775808", "format", "json", "data", "<1 bytes>"]
    );
}

#[test]
fn server_info_reads_last_fields_and_trims() {
    let info = "# Server\r\nredis_version:7.2.4\r\nconnected_clients:+12\r\nused_memory:1048576\r\nused_memory_human:1.00M\r\nuptime_in_seconds:abc\r\n";
    let si = astra_flash::publisher::pool::parse_server_info(info);
    assert_eq!(si.version, "7.2.4");
    assert_eq!(si.connected_clients, 12);
    assert_eq!(si.used_memory_bytes, 1_048_576);
    assert_eq!(si.uptime_seconds, 0);

    let si = astra_flash::publisher::pool::parse_server_info("connected_clients:5\nconnected_clients:x\nuptime_in_seconds: 99 \u{a0}\n");
    assert_eq!(si.connected_clients, 0);
    assert_eq!(si.uptime_seconds, 99);
    assert_eq!(si.version, "");

    let si = astra_flash::publisher::pool::parse_server_info("connected_clients:4294967296\nused_memory:18446744073709551615");
    assert_eq!(si.connected_clients, 0);
    assert_eq!(si.used_memory_bytes, u64::MAX);
}

#[test]
fn pool_builder_takes_durations_in_milliseconds() {
    let b = RedisPoolBuilder::new("redis://localhost:6379")
        .connect_timeout(std::time::Duration::from_secs(5))
        .wait_timeout(std::time::Duration::from_millis(1500))
        .health_check_interval(std::time::Duration::from_micros(2_500_999));
    assert_eq!(b.config().connect_timeout_ms, 5000);
    assert_eq!(b.config().wait_timeout_ms, 1500);
    assert_eq!(b.config().health_check_interval_ms, 2500);
}

#[test]
fn accumulator_take_keeps_byte_total_and_resets() {
    let mut acc = BatchAccumulator::new(10);
    acc.add(message("a", vec![1, 2, 3]));
    acc.add(message("b", vec![4, 5]));
    assert_eq!(acc.total_bytes(), 5);
    let batch = acc.take();
    assert_eq!(batch.total_bytes, 5);
    assert_eq!(batch.message_count, 2);
    assert_eq!(batch.messages.len(), 2);
    assert_eq!(acc.total_bytes(), 0);
    assert_eq!(acc.len(), 0);
    assert_eq!(acc.latency_us(), None);
}

#[test]
fn accumulator_ready_after_max_adds_and_take_keeps_order() {
    let mut acc = BatchAccumulator::new(3);
    acc.add(message("a", vec![1]));
    acc.add(message("b", vec![2, 2]));
    assert!(!acc.is_ready());
    acc.add(message("c", vec![3, 3, 3]));
    assert!(acc.is_ready());
    let batch = acc.take();
    let topics: Vec<&str> = batch.messages.iter().map(|m| m.topic.as_str()).collect();
    assert_eq!(topics, vec!["a", "b", "c"]);
    assert_eq!(batch.total_bytes, 6);
    assert!(!acc.is_ready());
    assert!(acc.is_empty());
}

#[test]
fn dual_outputs_follow_the_enabled_streams() {
    assert_eq!(dual_outputs(false, false), None);
    assert_eq!(dual_outputs(true, false), Some(DualOutputs { orderbook: true, signal: false }));
    assert_eq!(dual_outputs(false, true), Some(DualOutputs { orderbook: false, signal: true }));
    assert_eq!(dual_outputs(true, true), Some(DualOutputs { orderbook: true, signal: true }));
}
