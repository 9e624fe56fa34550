use astra_flash::network::connector::{
    begin_connect, connection_step, ConnectionState, ConnectionStats, ConnectionTable, ConnectorEvent, HandshakeOutcome,
    LinkInput, LinkReply, RawMessage,
};
use astra_flash::network::heartbeat::{
    next_status_on_missed, validate_heartbeat_timing, HealthStatus, HealthTracker, StatusChange,
};
use astra_flash::network::reconnect::{validate_reconnect_delays, ReconnectionState, ReconnectionStatus, SequenceGap};
use astra_flash::types::{Exchange, FlashError};

// ----------------------------------------------------------------------------
// Connector
// ----------------------------------------------------------------------------

#[test]
fn test_connection_state_display_values() {
    assert_eq!(ConnectionState::Disconnected.to_string(), "disconnected");
    assert_eq!(ConnectionState::Connecting.to_string(), "connecting");
    assert_eq!(ConnectionState::Connected.to_string(), "connected");
    assert_eq!(ConnectionState::Disconnecting.to_string(), "disconnecting");
}

#[test]
fn test_connection_state_is_connected_values() {
    assert!(!ConnectionState::Disconnected.is_connected());
    assert!(!ConnectionState::Connecting.is_connected());
    assert!(ConnectionState::Connected.is_connected());
    assert!(!ConnectionState::Disconnecting.is_connected());
}

#[test]
fn test_connection_stats_default_values() {
    let stats = ConnectionStats::default();
    assert_eq!(stats.state, ConnectionState::Disconnected);
    assert!(stats.connected_since.is_none());
    assert_eq!(stats.messages_received, 0);
    assert_eq!(stats.messages_sent, 0);
    assert!(stats.url.is_empty());
}

#[test]
fn test_raw_message_fields() {
    let msg = RawMessage { exchange: Exchange::Deribit, payload: "test".to_string(), received_at: 12345 };
    assert_eq!(msg.exchange, Exchange::Deribit);
    assert_eq!(msg.payload, "test");
    assert_eq!(msg.received_at, 12345);
}

#[test]
fn connection_table_tracks_each_exchange() {
    let mut table = ConnectionTable::new();
    assert_eq!(table.state(Exchange::Deribit), ConnectionState::Disconnected);
    assert!(!table.is_connected(Exchange::Binance));

    table.set_connected(Exchange::Deribit, "wss://deribit");
    table.set_connected(Exchange::Oanda, "wss://oanda");
    assert!(table.is_connected(Exchange::Deribit));
    assert!(table.is_connected(Exchange::Oanda));
    assert!(!table.is_connected(Exchange::Binance));

    // Connecting again keeps one entry.
    table.set_connected(Exchange::Deribit, "wss://deribit-2");
    assert_eq!(table.connected_exchanges(), vec![Exchange::Deribit, Exchange::Oanda]);

    assert!(table.remove(Exchange::Deribit));
    assert!(!table.remove(Exchange::Deribit));
    assert!(!table.is_connected(Exchange::Deribit));
    assert_eq!(table.connected_exchanges(), vec![Exchange::Oanda]);
}

// ----------------------------------------------------------------------------
// Heartbeat
// ----------------------------------------------------------------------------

#[test]
fn test_health_status_display_values() {
    assert_eq!(HealthStatus::Healthy.to_string(), "healthy");
    assert_eq!(HealthStatus::Degraded.to_string(), "degraded");
    assert_eq!(HealthStatus::Unhealthy.to_string(), "unhealthy");
    assert_eq!(HealthStatus::Unknown.to_string(), "unknown");
}

#[test]
fn test_health_status_is_methods() {
    assert!(HealthStatus::Healthy.is_healthy());
    assert!(!HealthStatus::Degraded.is_healthy());

    assert!(HealthStatus::Degraded.is_degraded());
    assert!(!HealthStatus::Healthy.is_degraded());

    assert!(HealthStatus::Unhealthy.is_unhealthy());
    assert!(!HealthStatus::Healthy.is_unhealthy());
}

#[test]
fn test_health_status_default() {
    assert_eq!(HealthStatus::default(), HealthStatus::Unknown);
}

#[test]
fn health_status_codes() {
    assert_eq!(HealthStatus::Unknown.as_u8(), 0);
    assert_eq!(HealthStatus::Healthy.as_u8(), 1);
    assert_eq!(HealthStatus::Degraded.as_u8(), 2);
    assert_eq!(HealthStatus::Unhealthy.as_u8(), 3);
}

#[test]
fn missed_pongs_degrade_then_fail_and_pong_recovers() {
    let mut t = HealthTracker::new();
    assert!(t.start_monitoring());
    assert!(!t.start_monitoring());
    t.record_ping();
    assert_eq!(
        t.record_pong(1500),
        Some(StatusChange { old_status: HealthStatus::Unknown, new_status: HealthStatus::Healthy })
    );
    assert_eq!(t.last_latency_us, 1500);
    assert_eq!(t.record_pong(0), None);
    assert_eq!(t.last_latency_us, 1500);

    let (missed, change) = t.record_missed_pong(1, 3);
    assert_eq!(missed, 1);
    assert_eq!(change, Some(StatusChange { old_status: HealthStatus::Healthy, new_status: HealthStatus::Degraded }));
    let (missed, change) = t.record_missed_pong(1, 3);
    assert_eq!(missed, 2);
    assert_eq!(change, None);
    let (missed, change) = t.record_missed_pong(1, 3);
    assert_eq!(missed, 3);
    assert_eq!(change, Some(StatusChange { old_status: HealthStatus::Degraded, new_status: HealthStatus::Unhealthy }));

    assert_eq!(
        t.record_pong(10),
        Some(StatusChange { old_status: HealthStatus::Unhealthy, new_status: HealthStatus::Healthy })
    );
    assert_eq!(t.missed_pongs, 0);
    assert_eq!(t.total_pongs, 3);
    assert_eq!(t.total_pings, 1);
    assert!(t.stop_monitoring());
    assert!(!t.stop_monitoring());
}

#[test]
fn status_on_missed_thresholds() {
    assert_eq!(next_status_on_missed(HealthStatus::Unknown, 0, 1, 3), HealthStatus::Unknown);
    assert_eq!(next_status_on_missed(HealthStatus::Healthy, 1, 1, 3), HealthStatus::Degraded);
    assert_eq!(next_status_on_missed(HealthStatus::Healthy, 5, 1, 3), HealthStatus::Unhealthy);
    assert_eq!(next_status_on_missed(HealthStatus::Healthy, 2, 3, 5), HealthStatus::Healthy);
}

#[test]
fn heartbeat_timing_checks() {
    assert!(validate_heartbeat_timing(30_000, 10_000, 1, 3).is_ok());
    assert_eq!(
        validate_heartbeat_timing(30_000, 35_000, 1, 3),
        Err("pong_timeout_ms must be less than ping_interval_ms".to_string())
    );
    assert_eq!(
        validate_heartbeat_timing(30_000, 10_000, 5, 3),
        Err("unhealthy_threshold must be >= degraded_threshold".to_string())
    );
}

// ----------------------------------------------------------------------------
// Reconnection
// ----------------------------------------------------------------------------

#[test]
fn test_reconnection_status_display() {
    assert_eq!(ReconnectionStatus::Idle.to_string(), "idle");
    assert_eq!(ReconnectionStatus::Reconnecting.to_string(), "reconnecting");
    assert_eq!(ReconnectionStatus::Waiting.to_string(), "waiting");
    assert_eq!(ReconnectionStatus::RestoringSubscriptions.to_string(), "restoring_subscriptions");
    assert_eq!(ReconnectionStatus::Failed.to_string(), "failed");
    assert_eq!(ReconnectionStatus::Disabled.to_string(), "disabled");
}

#[test]
fn test_reconnection_status_methods() {
    assert!(ReconnectionStatus::Idle.is_idle());
    assert!(ReconnectionStatus::Reconnecting.is_reconnecting());
    assert!(ReconnectionStatus::Reconnecting.is_active());
    assert!(ReconnectionStatus::Failed.is_failed());
    assert!(ReconnectionStatus::Disabled.is_disabled());
}

#[test]
fn test_sequence_gap() {
    let gap = SequenceGap { expected: 100, received: 110 };
    assert_eq!(gap.gap_size(), 10);
}

#[test]
fn sequence_gap_not_past_expected_is_zero() {
    assert_eq!(SequenceGap { expected: 100, received: 100 }.gap_size(), 0);
    assert_eq!(SequenceGap { expected: 100, received: 7 }.gap_size(), 0);
}

#[test]
fn record_sequence_reports_skips_only() {
    let mut s = ReconnectionState::new();
    assert_eq!(s.record_sequence(10), None);
    assert_eq!(s.record_sequence(11), None);
    assert_eq!(s.record_sequence(11), None);
    assert_eq!(s.record_sequence(15), Some(SequenceGap { expected: 12, received: 15 }));
    assert_eq!(s.last_sequence, 15);
    assert_eq!(s.record_sequence(3), None);
    assert_eq!(s.last_sequence, 3);
    s.reset();
    assert_eq!(s.record_sequence(100), None);
}

#[test]
fn reconnection_enable_disable_and_subscriptions() {
    let mut s = ReconnectionState::new();
    assert_eq!(s.status, ReconnectionStatus::Disabled);
    s.enable("wss://example");
    assert_eq!(s.status, ReconnectionStatus::Idle);
    assert_eq!(s.url, "wss://example");
    s.register_subscription("a".to_string());
    s.register_subscription("b".to_string());
    assert_eq!(s.subscriptions, vec!["a".to_string(), "b".to_string()]);
    s.disable();
    assert_eq!(s.status, ReconnectionStatus::Disabled);
    assert!(!s.enabled);
    s.clear_subscriptions();
    assert!(s.subscriptions.is_empty());
}

#[test]
fn reconnect_delay_check() {
    assert!(validate_reconnect_delays(1_000, 30_000).is_ok());
    assert!(validate_reconnect_delays(1_000, 1_000).is_ok());
    assert_eq!(validate_reconnect_delays(5_000, 1_000), Err("max_delay_ms must be >= initial_delay_ms".to_string()));
}

#[test]
fn consecutive_missed_pongs_escalate_by_thresholds() {
    let mut t = HealthTracker::new();
    t.record_pong(0);
    let mut seen = Vec::new();
    for _ in 0..4 {
        let (missed, _) = t.record_missed_pong(2, 3);
        seen.push((missed, t.status));
    }
    assert_eq!(
        seen,
        vec![
            (1, HealthStatus::Healthy),
            (2, HealthStatus::Degraded),
            (3, HealthStatus::Unhealthy),
            (4, HealthStatus::Unhealthy)
        ]
    );
    let change = t.record_pong(250);
    assert_eq!(change, Some(StatusChange { old_status: HealthStatus::Unhealthy, new_status: HealthStatus::Healthy }));
    assert_eq!(t.missed_pongs, 0);
    assert_eq!(t.last_latency_us, 250);
}

#[test]
fn connect_begins_and_checks_the_url() {
    let (events, dial) = begin_connect(Exchange::Deribit, "wss://www.deribit.com/ws/api/v2");
    assert_eq!(events.len(), 1);
    assert!(matches!(
        events[0],
        ConnectorEvent::StateChanged {
            exchange: Exchange::Deribit,
            old_state: ConnectionState::Disconnected,
            new_state: ConnectionState::Connecting
        }
    ));
    assert_eq!(dial.unwrap(), "wss://www.deribit.com/ws/api/v2");
    let (_, dial) = begin_connect(Exchange::Binance, "not a url");
    assert_eq!(
        dial.unwrap_err(),
        FlashError::ConnectionFailed("Invalid URL: relative URL without a base".to_string())
    );
}

#[test]
fn connection_table_lifecycle() {
    let mut table = ConnectionTable::new();
    assert_eq!(
        table.check_send(Exchange::Oanda),
        Err(FlashError::Disconnected { reason: "Not connected to oanda".to_string(), will_retry: false })
    );
    let (events, r) = table.finish_connect(Exchange::Oanda, "wss://o", HandshakeOutcome::Failed("refused".to_string()), 10);
    assert_eq!(r, Err(FlashError::ConnectionFailed("refused".to_string())));
    assert!(matches!(&events[0], ConnectorEvent::ConnectionFailed { error, attempt: 1, .. } if error == "refused"));
    assert_eq!(table.state(Exchange::Oanda), ConnectionState::Disconnected);
    let (_, r) = table.finish_connect(Exchange::Oanda, "wss://o", HandshakeOutcome::TimedOut, 10);
    assert_eq!(r, Err(FlashError::ConnectionTimeout { timeout_ms: 10 }));
    let (events, r) = table.finish_connect(Exchange::Oanda, "wss://o", HandshakeOutcome::Connected, 10);
    assert_eq!(r, Ok(()));
    assert!(matches!(&events[0], ConnectorEvent::Connected { url, .. } if url == "wss://o"));
    assert!(table.is_connected(Exchange::Oanda));
    assert_eq!(table.check_send(Exchange::Oanda), Ok(()));
    assert_eq!(table.connected_exchanges(), vec![Exchange::Oanda]);
    let event = table.disconnect(Exchange::Oanda);
    assert!(matches!(
        event,
        Some(ConnectorEvent::Disconnected { exchange: Exchange::Oanda, ref reason, will_reconnect: false }) if reason == "user requested"
    ));
    assert!(table.disconnect(Exchange::Oanda).is_none());
    assert_eq!(table.state(Exchange::Oanda), ConnectionState::Disconnected);
}

#[test]
fn connection_loop_steps() {
    let s = connection_step(Exchange::Binance, LinkInput::Text("héllo".to_string()), 42, 30_000);
    assert!(s.count_received && !s.stop && !s.count_sent);
    assert!(matches!(s.event, Some(ConnectorEvent::MessageReceived { size_bytes: 6, .. })));
    let m = s.forward.unwrap();
    assert_eq!((m.payload.as_str(), m.received_at), ("héllo", 42));
    let s = connection_step(Exchange::Binance, LinkInput::ReadTimeout, 42, 30_000);
    assert!(s.stop);
    assert!(matches!(
        s.event,
        Some(ConnectorEvent::Disconnected { ref reason, will_reconnect: true, .. }) if reason == "read timeout: no data for 30000ms"
    ));
    let s = connection_step(Exchange::Binance, LinkInput::Ping(vec![1, 2]), 42, 30_000);
    assert!(matches!(s.reply, Some(LinkReply::Pong(ref p)) if p == &vec![1, 2]));
    let s = connection_step(Exchange::Binance, LinkInput::Outgoing("sub".to_string()), 42, 30_000);
    assert!(s.count_sent && matches!(s.reply, Some(LinkReply::Text(ref t)) if t == "sub"));
    let s = connection_step(Exchange::Binance, LinkInput::Binary(vec![0xff, 0xfe]), 42, 30_000);
    assert!(s.count_received && s.forward.is_none() && s.event.is_none());
    let s = connection_step(Exchange::Binance, LinkInput::Binary("{\"a\":1}".as_bytes().to_vec()), 42, 30_000);
    assert!(s.count_received && s.event.is_none());
    assert!(matches!(s.forward, Some(ref m) if m.payload == "{\"a\":1}" && m.received_at == 42));
    let s = connection_step(Exchange::Binance, LinkInput::Close, 42, 30_000);
    assert!(s.stop && matches!(s.event, Some(ConnectorEvent::Disconnected { ref reason, will_reconnect: false, .. }) if reason == "server closed connection"));
    let s = connection_step(Exchange::Binance, LinkInput::Shutdown, 42, 30_000);
    assert!(s.stop && matches!(s.reply, Some(LinkReply::Close)) && s.event.is_none());
}

#[test]
fn consecutive_missed_pongs_escalate_from_last_pong() {
    let mut t = HealthTracker::new();
    t.record_pong(10);
    let expected = [HealthStatus::Healthy, HealthStatus::Degraded, HealthStatus::Degraded, HealthStatus::Unhealthy];
    for (k, status) in expected.iter().enumerate() {
        let (missed, _) = t.record_missed_pong(2, 4);
        assert_eq!(missed, k as u64 + 1);
        assert_eq!(t.status, *status);
    }
    t.record_pong(0);
    assert_eq!(t.missed_pongs, 0);
    let (missed, _) = t.record_missed_pong(2, 4);
    assert_eq!(missed, 1);
    assert_eq!(t.status, HealthStatus::Healthy);
}

#[test]
fn sequence_gaps_compare_each_number_with_the_one_before() {
    let mut s = ReconnectionState::new();
    let received = [5u64, 6, 9, 9, 3, 5];
    let mut gaps = Vec::new();
    for seq in received {
        gaps.push(s.record_sequence(seq));
    }
    assert_eq!(
        gaps,
        vec![None, None, Some(SequenceGap { expected: 7, received: 9 }), None, None, Some(SequenceGap { expected: 4, received: 5 })]
    );
    s.reset();
    assert_eq!(s.record_sequence(100), None);
    assert_eq!(s.record_sequence(102), Some(SequenceGap { expected: 101, received: 102 }));
}
