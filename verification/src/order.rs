//! Order lifecycle tracking: submitting, cancelling, modifying and status updates
//! of pending orders, with counters of each operation.

use crate::types::{Instrument, Timestamp};
use rust_decimal::Decimal;
use std::collections::HashMap;
use vstd::prelude::*;

verus! {

broadcast use vstd::std_specs::hash::group_hash_axioms;

/// Identifier of an order, unique within one manager.
#[derive(Debug, Clone, Copy, PartialEq, Eq, Hash, Structural)]
pub struct OrderId(pub u64);

impl OrderId {
    /// Wrap a raw identifier.
    pub fn new(id: u64) -> (o: OrderId)
        ensures
            o.0 == id,
    {
        OrderId(id)
    }

    /// The raw identifier.
    pub fn as_u64(&self) -> (id: u64)
        ensures
            id == self.0,
    {
        self.0
    }
}

/// Direction of an order.
#[derive(Debug, Clone, Copy, PartialEq, Eq, Hash, Structural)]
pub enum OrderSide {
    /// Buy.
    Buy,
    /// Sell.
    Sell,
}

/// Kind of order.
#[derive(Debug, Clone, Copy, PartialEq, Eq, Hash, Structural)]
pub enum OrderType {
    /// Execute at the market.
    Market,
    /// Execute at a limit price or better.
    Limit,
}

/// How long an order stays active.
#[derive(Debug, Clone, Copy, PartialEq, Eq, Hash, Structural)]
pub enum TimeInForce {
    /// Good till cancelled.
    GTC,
    /// Immediate or cancel.
    IOC,
    /// Fill or kill.
    FOK,
}

/// Why an order is cancelled.
#[derive(Debug, Clone, Copy, PartialEq, Eq, Hash, Structural)]
pub enum CancelReason {
    /// The user asked for it.
    UserRequested,
    /// A risk limit required it.
    RiskLimit,
    /// The system is shutting down.
    Shutdown,
}

/// Lifecycle status of an order.
#[derive(Debug, Clone, Copy, PartialEq, Eq, Hash, Structural)]
pub enum OrderStatus {
    /// Submitted, not yet acknowledged.
    Pending,
    /// Acknowledged and resting.
    Open,
    /// Partly filled.
    PartiallyFilled,
    /// Completely filled.
    Filled,
    /// Cancelled.
    Cancelled,
    /// Rejected by the exchange.
    Rejected,
    /// Expired.
    Expired,
}

/// Terminal statuses: Filled, Cancelled, Rejected, Expired.
pub open spec fn status_is_terminal(s: OrderStatus) -> bool {
    s == OrderStatus::Filled || s == OrderStatus::Cancelled || s == OrderStatus::Rejected
        || s == OrderStatus::Expired
}

/// Statuses a cancel request applies to once acknowledged: Open, PartiallyFilled.
pub open spec fn status_is_cancellable(s: OrderStatus) -> bool {
    s == OrderStatus::Open || s == OrderStatus::PartiallyFilled
}

impl OrderStatus {
    /// Whether no further change can happen to the order.
    pub fn is_terminal(&self) -> (b: bool)
        ensures
            b == status_is_terminal(*self),
    {
        match self {
            OrderStatus::Filled | OrderStatus::Cancelled | OrderStatus::Rejected | OrderStatus::Expired => true,
            _ => false,
        }
    }

    /// Whether an acknowledged order in this status can be cancelled.
    pub fn is_cancellable(&self) -> (b: bool)
        ensures
            b == status_is_cancellable(*self),
    {
        match self {
            OrderStatus::Open | OrderStatus::PartiallyFilled => true,
            _ => false,
        }
    }
}

/// A request to place an order.
#[derive(Debug, Clone)]
pub struct OrderRequest {
    /// Instrument to trade.
    pub instrument: Instrument,
    /// Buy or sell.
    pub side: OrderSide,
    /// Market or limit.
    pub order_type: OrderType,
    /// Limit price (None for market orders).
    pub price: Option<Decimal>,
    /// Quantity.
    pub quantity: Decimal,
    /// Time in force.
    pub time_in_force: TimeInForce,
    /// Creation time (microseconds).
    pub created_at: Timestamp,
}

impl OrderRequest {
    /// A market order, immediate-or-cancel.
    pub fn market(instrument: Instrument, side: OrderSide, quantity: Decimal, created_at: Timestamp) -> (r: OrderRequest)
        ensures
            r.instrument == instrument,
            r.side == side,
            r.order_type == OrderType::Market,
            r.price is None,
            r.quantity == quantity,
            r.time_in_force == TimeInForce::IOC,
            r.created_at == created_at,
    {
        OrderRequest { instrument, side, order_type: OrderType::Market, price: None, quantity, time_in_force: TimeInForce::IOC, created_at }
    }

    /// A limit order at `price`.
    pub fn limit(
        instrument: Instrument,
        side: OrderSide,
        price: Decimal,
        quantity: Decimal,
        time_in_force: TimeInForce,
        created_at: Timestamp,
    ) -> (r: OrderRequest)
        ensures
            r.instrument == instrument,
            r.side == side,
            r.order_type == OrderType::Limit,
            r.price == Some(price),
            r.quantity == quantity,
            r.time_in_force == time_in_force,
            r.created_at == created_at,
    {
        OrderRequest { instrument, side, order_type: OrderType::Limit, price: Some(price), quantity, time_in_force, created_at }
    }
}

/// A request to change a resting order's price and/or quantity.
#[derive(Debug, Clone)]
pub struct ModifyRequest {
    /// New price, if it changes.
    pub new_price: Option<Decimal>,
    /// New quantity, if it changes.
    pub new_quantity: Option<Decimal>,
    /// Time of the request (microseconds).
    pub timestamp: Timestamp,
}

impl ModifyRequest {
    /// Change the price only.
    pub fn price(price: Decimal, timestamp: Timestamp) -> (m: ModifyRequest)
        ensures
            m.new_price == Some(price),
            m.new_quantity is None,
            m.timestamp == timestamp,
    {
        ModifyRequest { new_price: Some(price), new_quantity: None, timestamp }
    }

    /// Change the quantity only.
    pub fn quantity(quantity: Decimal, timestamp: Timestamp) -> (m: ModifyRequest)
        ensures
            m.new_price is None,
            m.new_quantity == Some(quantity),
            m.timestamp == timestamp,
    {
        ModifyRequest { new_price: None, new_quantity: Some(quantity), timestamp }
    }
}

/// Configuration of an order manager.
#[derive(Debug, Clone)]
pub struct OrderManagerConfig {
    /// Maximum number of pending orders to track.
    pub max_pending_orders: usize,
    /// Whether to keep order history.
    pub track_history: bool,
}

impl Default for OrderManagerConfig {
    fn default() -> (c: OrderManagerConfig)
        ensures
            c.max_pending_orders == 1000,
            !c.track_history,
    {
        OrderManagerConfig { max_pending_orders: 1000, track_history: false }
    }
}

impl OrderManagerConfig {
    /// The default configuration with another maximum of pending orders.
    pub fn with_max_pending(max_pending: usize) -> (c: OrderManagerConfig)
        ensures
            c.max_pending_orders == max_pending,
            !c.track_history,
    {
        OrderManagerConfig { max_pending_orders: max_pending, track_history: false }
    }
}

/// Counters of order operations.
#[derive(Debug, Clone, Copy, PartialEq, Eq, Structural)]
pub struct OrderManagerStats {
    /// Orders submitted.
    pub orders_submitted: u64,
    /// Orders cancelled.
    pub orders_cancelled: u64,
    /// Orders modified.
    pub orders_modified: u64,
    /// Orders filled.
    pub orders_filled: u64,
    /// Orders rejected.
    pub orders_rejected: u64,
    /// Pending orders now.
    pub pending_count: usize,
}

impl Default for OrderManagerStats {
    fn default() -> (s: OrderManagerStats)
        ensures
            s == (OrderManagerStats { orders_submitted: 0, orders_cancelled: 0, orders_modified: 0,
                orders_filled: 0, orders_rejected: 0, pending_count: 0 }),
    {
        OrderManagerStats {
            orders_submitted: 0,
            orders_cancelled: 0,
            orders_modified: 0,
            orders_filled: 0,
            orders_rejected: 0,
            pending_count: 0,
        }
    }
}

/// What the manager keeps about one pending order.
#[derive(Debug, Clone)]
pub struct OrderState {
    /// The request, with modifications applied.
    pub request: OrderRequest,
    /// Current status.
    pub status: OrderStatus,
    /// Time of the last change (microseconds).
    pub last_update: Timestamp,
}

/// Tracker of pending orders.
#[derive(Debug)]
pub struct OrderManager {
    /// Configuration.
    config: OrderManagerConfig,
    /// Pending orders by id.
    pending: HashMap<u64, OrderState>,
    /// Id the next submitted order gets.
    next_id: u64,
    /// Operation counters.
    stats: OrderManagerStats,
}

impl OrderManager {
    /// The pending orders, by id.
    pub closed spec fn orders(&self) -> Map<u64, OrderState> {
        self.pending@
    }

    /// Id the next submitted order gets.
    pub closed spec fn next_order_id(&self) -> u64 {
        self.next_id
    }

    /// Operation counters.
    pub closed spec fn counters(&self) -> OrderManagerStats {
        self.stats
    }

    /// The configuration.
    pub closed spec fn spec_config(&self) -> OrderManagerConfig {
        self.config
    }

    /// Well-formedness: every pending id is below the next id, and the
    /// pending count matches the pending orders.
    pub closed spec fn wf(&self) -> bool {
        &&& forall|k: u64| #[trigger] self.pending@.contains_key(k) ==> k < self.next_id
        &&& self.stats.pending_count == self.pending@.len()
        &&& self.next_id >= 1
    }

    /// The state of order `id`, if it is pending.
    pub open spec fn order(&self, id: u64) -> Option<OrderState> {
        if self.orders().contains_key(id) {
            Some(self.orders()[id])
        } else {
            None
        }
    }

    /// A manager with no orders; the first order gets id 1.
    pub fn new(config: OrderManagerConfig) -> (m: OrderManager)
        ensures
            m.wf(),
            m.orders() == Map::<u64, OrderState>::empty(),
            m.next_order_id() == 1,
            m.counters() == (OrderManagerStats { orders_submitted: 0, orders_cancelled: 0, orders_modified: 0,
                orders_filled: 0, orders_rejected: 0, pending_count: 0 }),
            m.spec_config().max_pending_orders == config.max_pending_orders,
            m.spec_config().track_history == config.track_history,
    {
        let m = OrderManager { config, pending: HashMap::new(), next_id: 1, stats: OrderManagerStats::default() };
        assert(m.pending@.len() == 0);
        m
    }

    /// Submit an order: it gets the next id and is pending.
    pub fn submit_order(&mut self, request: OrderRequest) -> (id: OrderId)
        requires
            old(self).wf(),
            old(self).next_order_id() < u64::MAX,
            old(self).counters().orders_submitted < u64::MAX,
        ensures
            final(self).wf(),
            id.0 == old(self).next_order_id(),
            final(self).next_order_id() == old(self).next_order_id() + 1,
            old(self).order(id.0) is None,
            final(self).orders() == old(self).orders().insert(id.0,
                OrderState { request, status: OrderStatus::Pending, last_update: request.created_at }),
            final(self).orders().len() == old(self).orders().len() + 1,
            final(self).counters() == (OrderManagerStats {
                orders_submitted: (old(self).counters().orders_submitted + 1) as u64,
                pending_count: final(self).orders().len() as usize,
                ..old(self).counters()
            }),
            final(self).spec_config() == old(self).spec_config(),
    {
        let id = OrderId::new(self.next_id);
        let timestamp = request.created_at;
        assert(!self.pending@.contains_key(id.0));
        self.pending.insert(id.0, OrderState { request, status: OrderStatus::Pending, last_update: timestamp });
        self.next_id = self.next_id + 1;
        self.stats.orders_submitted = self.stats.orders_submitted + 1;
        self.stats.pending_count = self.pending.len();
        id
    }

    /// Cancel a pending order that is still Pending or cancellable (Open,
    /// PartiallyFilled); returns whether it was cancelled and removed.
    pub fn cancel_order(&mut self, order_id: OrderId, reason: CancelReason, timestamp: Timestamp) -> (cancelled: bool)
        requires
            old(self).wf(),
            old(self).counters().orders_cancelled < u64::MAX,
        ensures
            final(self).wf(),
            cancelled == (old(self).order(order_id.0) is Some && (status_is_cancellable(old(self).order(order_id.0)->0.status)
                || old(self).order(order_id.0)->0.status == OrderStatus::Pending)),
            cancelled ==> final(self).orders() == old(self).orders().remove(order_id.0),
            !cancelled ==> final(self).orders() == old(self).orders(),
            final(self).next_order_id() == old(self).next_order_id(),
            final(self).counters() == (OrderManagerStats {
                orders_cancelled: if cancelled { (old(self).counters().orders_cancelled + 1) as u64 } else { old(self).counters().orders_cancelled },
                pending_count: final(self).orders().len() as usize,
                ..old(self).counters()
            }),
            final(self).spec_config() == old(self).spec_config(),
    {
        let status = match self.pending.get(&order_id.0) {
            Some(st) => st.status,
            None => return false,
        };
        if !status.is_cancellable() && status != OrderStatus::Pending {
            return false;
        }
        self.pending.remove(&order_id.0);
        self.stats.orders_cancelled = self.stats.orders_cancelled + 1;
        self.stats.pending_count = self.pending.len();
        true
    }

    /// Apply a modification to a pending order that is not terminal; returns whether it was applied.
    pub fn modify_order(&mut self, order_id: OrderId, modification: ModifyRequest) -> (modified: bool)
        requires
            old(self).wf(),
            old(self).counters().orders_modified < u64::MAX,
        ensures
            final(self).wf(),
            modified == (old(self).order(order_id.0) is Some && !status_is_terminal(old(self).order(order_id.0)->0.status)),
            modified ==> {
                let before = old(self).order(order_id.0)->0;
                let after = final(self).order(order_id.0)->0;
                &&& final(self).order(order_id.0) is Some
                &&& after.status == before.status
                &&& after.last_update == modification.timestamp
                &&& after.request.price == (match modification.new_price { Some(p) => Some(p), None => before.request.price })
                &&& after.request.quantity == (match modification.new_quantity { Some(q) => q, None => before.request.quantity })
                &&& after.request.instrument == before.request.instrument
                &&& after.request.side == before.request.side
                &&& after.request.order_type == before.request.order_type
                &&& after.request.time_in_force == before.request.time_in_force
                &&& after.request.created_at == before.request.created_at
            },
            !modified ==> final(self).orders() == old(self).orders(),
            forall|o: u64| o != order_id.0 ==> #[trigger] final(self).order(o) == old(self).order(o),
            final(self).orders().dom() == old(self).orders().dom(),
            final(self).next_order_id() == old(self).next_order_id(),
            final(self).counters() == (OrderManagerStats {
                orders_modified: if modified { (old(self).counters().orders_modified + 1) as u64 } else { old(self).counters().orders_modified },
                ..old(self).counters()
            }),
            final(self).spec_config() == old(self).spec_config(),
    {
        match self.pending.get(&order_id.0) {
            Some(st) => {
                if st.status.is_terminal() {
                    return false;
                }
            },
            None => return false,
        }
        let ghost before = self.pending@;
        let mut state = match self.pending.remove(&order_id.0) {
            Some(st) => st,
            None => return false,
        };
        match modification.new_price {
            Some(p) => {
                state.request.price = Some(p);
            },
            None => {},
        }
        match modification.new_quantity {
            Some(q) => {
                state.request.quantity = q;
            },
            None => {},
        }
        state.last_update = modification.timestamp;
        self.pending.insert(order_id.0, state);
        assert(self.pending@.dom() =~= before.dom());
        self.stats.orders_modified = self.stats.orders_modified + 1;
        true
    }

    /// Apply a status reported by the exchange to a pending order. Filled and
    /// Rejected orders leave the pending set and are counted; Cancelled and
    /// Expired orders leave it; other statuses are recorded.
    pub fn update_status(&mut self, order_id: OrderId, new_status: OrderStatus, timestamp: Timestamp)
        requires
            old(self).wf(),
            old(self).counters().orders_filled < u64::MAX,
            old(self).counters().orders_rejected < u64::MAX,
        ensures
            final(self).wf(),
            old(self).order(order_id.0) is None ==> final(self).orders() == old(self).orders()
                && final(self).counters() == old(self).counters(),
            old(self).order(order_id.0) is Some && status_is_terminal(new_status)
                ==> final(self).orders() == old(self).orders().remove(order_id.0),
            old(self).order(order_id.0) is Some && !status_is_terminal(new_status) ==> {
                let before = old(self).order(order_id.0)->0;
                &&& final(self).orders() == old(self).orders().insert(order_id.0,
                    OrderState { status: new_status, last_update: timestamp, ..before })
            },
            final(self).next_order_id() == old(self).next_order_id(),
            final(self).counters() == (OrderManagerStats {
                orders_filled: if old(self).order(order_id.0) is Some && new_status == OrderStatus::Filled {
                    (old(self).counters().orders_filled + 1) as u64
                } else {
                    old(self).counters().orders_filled
                },
                orders_rejected: if old(self).order(order_id.0) is Some && new_status == OrderStatus::Rejected {
                    (old(self).counters().orders_rejected + 1) as u64
                } else {
                    old(self).counters().orders_rejected
                },
                pending_count: final(self).orders().len() as usize,
                ..old(self).counters()
            }),
            final(self).spec_config() == old(self).spec_config(),
    {
        if !self.pending.contains_key(&order_id.0) {
            return;
        }
        if new_status.is_terminal() {
            self.pending.remove(&order_id.0);
            match new_status {
                OrderStatus::Filled => {
                    self.stats.orders_filled = self.stats.orders_filled + 1;
                },
                OrderStatus::Rejected => {
                    self.stats.orders_rejected = self.stats.orders_rejected + 1;
                },
                _ => {},
            }
            self.stats.pending_count = self.pending.len();
        } else {
            let ghost before = self.pending@;
            let mut state = match self.pending.remove(&order_id.0) {
                Some(st) => st,
                None => return,
            };
            state.status = new_status;
            state.last_update = timestamp;
            self.pending.insert(order_id.0, state);
            assert(self.pending@.dom() =~= before.dom());
        }
    }

    /// Number of pending orders.
    pub fn pending_count(&self) -> (n: usize)
        requires
            self.wf(),
        ensures
            n == self.orders().len(),
    {
        self.pending.len()
    }

    /// The operation counters.
    pub fn stats(&self) -> (s: OrderManagerStats)
        ensures
            s == self.counters(),
    {
        self.stats
    }

    /// The configuration.
    pub fn config(&self) -> (c: &OrderManagerConfig)
        ensures
            *c == self.spec_config(),
    {
        &self.config
    }

    /// Whether an order is pending.
    pub fn is_pending(&self, order_id: OrderId) -> (b: bool)
        requires
            self.wf(),
        ensures
            b == (self.order(order_id.0) is Some),
    {
        self.pending.contains_key(&order_id.0)
    }

    /// Status of a pending order.
    pub fn get_status(&self, order_id: OrderId) -> (s: Option<OrderStatus>)
        requires
            self.wf(),
        ensures
            match self.order(order_id.0) {
                Some(st) => s == Some(st.status),
                None => s is None,
            },
    {
        match self.pending.get(&order_id.0) {
            Some(st) => Some(st.status),
            None => None,
        }
    }

    /// Ids of all pending orders, each once, in the map's order.
    pub fn pending_order_ids(&self) -> (ids: Vec<OrderId>)
        requires
            self.wf(),
        ensures
            ids@.len() == self.orders().len(),
            forall|i: int, j: int| 0 <= i < ids@.len() && 0 <= j < ids@.len() && i != j ==> ids@[i] != ids@[j],
            forall|i: int| 0 <= i < ids@.len() ==> self.orders().contains_key(#[trigger] ids@[i].0),
            forall|k: u64| self.orders().contains_key(k) ==> exists|i: int| 0 <= i < ids@.len() && #[trigger] ids@[i].0 == k,
    {
        let ghost keys = vstd::std_specs::iter::IteratorSpec::remaining(&vstd::std_specs::hash::spec_keys_iter(&self.pending));
        let mut ids: Vec<OrderId> = Vec::new();
        for k in it: self.pending.keys()
            invariant
                it.seq() == keys,
                keys.unref().to_set() == self.pending@.dom(),
                keys.no_duplicates(),
                keys.len() == self.pending@.dom().len(),
                ids@.len() == it.index(),
                forall|j: int| 0 <= j < it.index() ==> (#[trigger] ids@[j]).0 == *keys[j],
        {
            ids.push(OrderId::new(*k));
        }
        proof {
            assert(ids@.len() == keys.len());
            assert forall|i: int| 0 <= i < ids@.len() implies self.orders().contains_key(#[trigger] ids@[i].0) by {
                assert(keys.unref()[i] == *keys[i]);
                assert(keys.unref().contains(keys.unref()[i]));
            }
            assert forall|i: int, j: int| 0 <= i < ids@.len() && 0 <= j < ids@.len() && i != j implies ids@[i] != ids@[j] by {
                assert(ids@[i].0 == *keys[i] && ids@[j].0 == *keys[j]);
            }
            assert forall|k: u64| self.orders().contains_key(k) implies exists|i: int| 0 <= i < ids@.len() && #[trigger] ids@[i].0 == k by {
                assert(keys.unref().to_set().contains(k));
                let i = keys.unref().index_of(k);
                assert(keys.unref()[i] == k);
                assert(ids@[i].0 == *keys[i]);
            }
        }
        ids
    }

    /// Forget all pending orders; counters other than the pending count are kept.
    pub fn clear(&mut self)
        requires
            old(self).wf(),
        ensures
            final(self).wf(),
            final(self).orders() == Map::<u64, OrderState>::empty(),
            final(self).next_order_id() == old(self).next_order_id(),
            final(self).counters() == (OrderManagerStats { pending_count: 0, ..old(self).counters() }),
            final(self).spec_config() == old(self).spec_config(),
    {
        self.pending.clear();
        self.stats.pending_count = 0;
    }
}

/// Order ids are unique: the id the next submitted order gets belongs to no
/// pending order, and every pending order's id is below it, so ids handed out
/// later are never those of earlier orders.
pub proof fn law_next_order_id_is_fresh(m: OrderManager)
    requires
        m.wf(),
    ensures
        m.order(m.next_order_id()) is None,
        forall|k: u64| #[trigger] m.orders().contains_key(k) ==> k < m.next_order_id(),
{
}

} // verus!
