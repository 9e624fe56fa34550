use astra_flash::order::{
    CancelReason, ModifyRequest, OrderId, OrderManager, OrderManagerConfig, OrderRequest, OrderSide, OrderStatus,
    TimeInForce,
};
use astra_flash::types::{now_micros, Exchange, Instrument};
use rust_decimal::Decimal;

fn test_instrument() -> Instrument {
    Instrument::new("BTC", "USD", Exchange::Deribit, "BTC-PERPETUAL")
}

fn dec(units: i64, scale: u32) -> Decimal {
    Decimal::new(units, scale)
}

#[test]
fn test_order_manager_new() {
    let manager = OrderManager::new(OrderManagerConfig::default());
    assert_eq!(manager.pending_count(), 0);
    assert_eq!(manager.config().max_pending_orders, 1000);
}

#[test]
fn test_order_manager_config() {
    let config = OrderManagerConfig::with_max_pending(500);
    assert_eq!(config.max_pending_orders, 500);
}

#[test]
fn test_submit_market_order() {
    let mut manager = OrderManager::new(OrderManagerConfig::default());
    let order = OrderRequest::market(test_instrument(), OrderSide::Buy, dec(10, 1), now_micros());

    let id = manager.submit_order(order);
    assert_eq!(id.as_u64(), 1);
    assert_eq!(manager.pending_count(), 1);
    assert!(manager.is_pending(id));
}

#[test]
fn test_submit_limit_order() {
    let mut manager = OrderManager::new(OrderManagerConfig::default());
    let order = OrderRequest::limit(
        test_instrument(),
        OrderSide::Sell,
        Decimal::from(50000),
        dec(20, 1),
        TimeInForce::GTC,
        now_micros(),
    );

    let id = manager.submit_order(order);
    assert_eq!(id.as_u64(), 1);
    assert_eq!(manager.pending_count(), 1);
}

#[test]
fn test_submit_multiple_orders() {
    let mut manager = OrderManager::new(OrderManagerConfig::default());

    let id1 = manager.submit_order(OrderRequest::market(test_instrument(), OrderSide::Buy, dec(10, 1), now_micros()));
    let id2 = manager.submit_order(OrderRequest::market(test_instrument(), OrderSide::Sell, dec(20, 1), now_micros()));
    let id3 = manager.submit_order(OrderRequest::limit(
        test_instrument(),
        OrderSide::Buy,
        Decimal::from(48000),
        dec(5, 1),
        TimeInForce::GTC,
        now_micros(),
    ));

    assert_eq!(id1.as_u64(), 1);
    assert_eq!(id2.as_u64(), 2);
    assert_eq!(id3.as_u64(), 3);
    assert_eq!(manager.pending_count(), 3);
}

#[test]
fn test_submit_order_stats() {
    let mut manager = OrderManager::new(OrderManagerConfig::default());

    manager.submit_order(OrderRequest::market(test_instrument(), OrderSide::Buy, dec(10, 1), now_micros()));

    let stats = manager.stats();
    assert_eq!(stats.orders_submitted, 1);
    assert_eq!(stats.pending_count, 1);
}

#[test]
fn test_cancel_order() {
    let mut manager = OrderManager::new(OrderManagerConfig::default());
    let order = OrderRequest::limit(
        test_instrument(),
        OrderSide::Buy,
        Decimal::from(50000),
        dec(10, 1),
        TimeInForce::GTC,
        now_micros(),
    );

    let id = manager.submit_order(order);
    assert_eq!(manager.pending_count(), 1);

    let cancelled = manager.cancel_order(id, CancelReason::UserRequested, now_micros());
    assert!(cancelled);
    assert_eq!(manager.pending_count(), 0);
    assert!(!manager.is_pending(id));
}

#[test]
fn test_cancel_nonexistent_order() {
    let mut manager = OrderManager::new(OrderManagerConfig::default());

    let cancelled = manager.cancel_order(OrderId::new(9999), CancelReason::UserRequested, now_micros());
    assert!(!cancelled);
}

#[test]
fn test_cancel_order_stats() {
    let mut manager = OrderManager::new(OrderManagerConfig::default());
    let order = OrderRequest::market(test_instrument(), OrderSide::Buy, dec(10, 1), now_micros());

    let id = manager.submit_order(order);
    manager.cancel_order(id, CancelReason::UserRequested, now_micros());

    let stats = manager.stats();
    assert_eq!(stats.orders_cancelled, 1);
    assert_eq!(stats.pending_count, 0);
}

#[test]
fn test_modify_order_price() {
    let mut manager = OrderManager::new(OrderManagerConfig::default());
    let order = OrderRequest::limit(
        test_instrument(),
        OrderSide::Buy,
        Decimal::from(50000),
        dec(10, 1),
        TimeInForce::GTC,
        now_micros(),
    );

    let id = manager.submit_order(order);
    let modified = manager.modify_order(id, ModifyRequest::price(Decimal::from(51000), now_micros()));

    assert!(modified);
    assert_eq!(manager.stats().orders_modified, 1);
}

#[test]
fn test_modify_order_quantity() {
    let mut manager = OrderManager::new(OrderManagerConfig::default());
    let order = OrderRequest::limit(
        test_instrument(),
        OrderSide::Sell,
        Decimal::from(50000),
        dec(10, 1),
        TimeInForce::GTC,
        now_micros(),
    );

    let id = manager.submit_order(order);
    let modified = manager.modify_order(id, ModifyRequest::quantity(dec(20, 1), now_micros()));

    assert!(modified);
}

#[test]
fn test_modify_nonexistent_order() {
    let mut manager = OrderManager::new(OrderManagerConfig::default());

    let modified = manager.modify_order(OrderId::new(9999), ModifyRequest::price(Decimal::from(51000), now_micros()));
    assert!(!modified);
}

#[test]
fn test_update_status_open() {
    let mut manager = OrderManager::new(OrderManagerConfig::default());
    let order = OrderRequest::limit(
        test_instrument(),
        OrderSide::Buy,
        Decimal::from(50000),
        dec(10, 1),
        TimeInForce::GTC,
        now_micros(),
    );

    let id = manager.submit_order(order);
    manager.update_status(id, OrderStatus::Open, now_micros());

    assert_eq!(manager.get_status(id), Some(OrderStatus::Open));
    assert_eq!(manager.pending_count(), 1);
}

#[test]
fn test_update_status_filled() {
    let mut manager = OrderManager::new(OrderManagerConfig::default());
    let order = OrderRequest::market(test_instrument(), OrderSide::Buy, dec(10, 1), now_micros());

    let id = manager.submit_order(order);
    manager.update_status(id, OrderStatus::Filled, now_micros());

    assert_eq!(manager.pending_count(), 0);
    assert!(!manager.is_pending(id));
    assert_eq!(manager.stats().orders_filled, 1);
}

#[test]
fn test_update_status_rejected() {
    let mut manager = OrderManager::new(OrderManagerConfig::default());
    let order = OrderRequest::market(test_instrument(), OrderSide::Buy, dec(10, 1), now_micros());

    let id = manager.submit_order(order);
    manager.update_status(id, OrderStatus::Rejected, now_micros());

    assert_eq!(manager.pending_count(), 0);
    assert_eq!(manager.stats().orders_rejected, 1);
}

#[test]
fn test_pending_order_ids() {
    let mut manager = OrderManager::new(OrderManagerConfig::default());

    let id1 = manager.submit_order(OrderRequest::market(test_instrument(), OrderSide::Buy, dec(10, 1), now_micros()));
    let id2 = manager.submit_order(OrderRequest::market(test_instrument(), OrderSide::Sell, dec(10, 1), now_micros()));

    let ids = manager.pending_order_ids();
    assert_eq!(ids.len(), 2);
    assert!(ids.contains(&id1));
    assert!(ids.contains(&id2));
}

#[test]
fn test_clear() {
    let mut manager = OrderManager::new(OrderManagerConfig::default());

    manager.submit_order(OrderRequest::market(test_instrument(), OrderSide::Buy, dec(10, 1), now_micros()));
    manager.submit_order(OrderRequest::market(test_instrument(), OrderSide::Sell, dec(10, 1), now_micros()));

    assert_eq!(manager.pending_count(), 2);
    manager.clear();
    assert_eq!(manager.pending_count(), 0);
}

#[test]
fn test_order_manager_debug() {
    let manager = OrderManager::new(OrderManagerConfig::default());
    let debug_str = format!("{:?}", manager);
    assert!(debug_str.contains("OrderManager"));
    assert!(debug_str.contains("pending_count"));
}

#[test]
fn pending_order_cannot_be_cancelled_after_fill_and_ids_keep_growing() {
    let mut manager = OrderManager::new(OrderManagerConfig::default());
    let a = manager.submit_order(OrderRequest::market(test_instrument(), OrderSide::Buy, dec(1, 0), 1));
    let b = manager.submit_order(OrderRequest::market(test_instrument(), OrderSide::Buy, dec(1, 0), 2));
    manager.update_status(a, OrderStatus::Filled, 3);
    assert!(!manager.cancel_order(a, CancelReason::UserRequested, 4));
    // A cleared manager still hands out fresh ids.
    manager.clear();
    let c = manager.submit_order(OrderRequest::market(test_instrument(), OrderSide::Buy, dec(1, 0), 5));
    assert_eq!((a.as_u64(), b.as_u64(), c.as_u64()), (1, 2, 3));
    assert_eq!(manager.pending_order_ids(), vec![c]);
}

#[test]
fn modify_keeps_status_and_terminal_orders_are_not_modified() {
    let mut manager = OrderManager::new(OrderManagerConfig::default());
    let id = manager.submit_order(OrderRequest::market(test_instrument(), OrderSide::Buy, dec(1, 0), 1));
    manager.update_status(id, OrderStatus::PartiallyFilled, 2);
    assert!(manager.modify_order(id, ModifyRequest::quantity(dec(3, 0), 3)));
    assert_eq!(manager.get_status(id), Some(OrderStatus::PartiallyFilled));
    assert!(manager.cancel_order(id, CancelReason::RiskLimit, 4));
    assert_eq!(manager.get_status(id), None);
    assert!(!manager.modify_order(id, ModifyRequest::quantity(dec(4, 0), 5)));
    let stats = manager.stats();
    assert_eq!((stats.orders_submitted, stats.orders_modified, stats.orders_cancelled), (1, 1, 1));
}

#[test]
fn order_status_predicates() {
    for s in [OrderStatus::Filled, OrderStatus::Cancelled, OrderStatus::Rejected, OrderStatus::Expired] {
        assert!(s.is_terminal());
        assert!(!s.is_cancellable());
    }
    for s in [OrderStatus::Open, OrderStatus::PartiallyFilled] {
        assert!(!s.is_terminal());
        assert!(s.is_cancellable());
    }
    assert!(!OrderStatus::Pending.is_terminal());
    assert!(!OrderStatus::Pending.is_cancellable());
}
