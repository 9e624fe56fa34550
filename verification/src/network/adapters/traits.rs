//! The adapter interface shared by all exchanges, and per-exchange rate limits.

use crate::types::{Exchange, FlashError, Instrument, MarketEvent, Timestamp};
use vstd::prelude::*;

verus! {

/// Rate limiting configuration for an exchange.
#[derive(Debug, Clone, Copy, PartialEq, Eq, Structural)]
pub struct RateLimit {
    /// Maximum WebSocket messages per second.
    pub ws_messages_per_second: u32,
    /// Minimum interval between messages in milliseconds.
    pub min_interval_ms: u64,
    /// Maximum subscriptions per connection.
    pub max_subscriptions: u32,
}

/// Published rate limits of Deribit.
pub open spec fn deribit_rate_limit() -> RateLimit {
    RateLimit { ws_messages_per_second: 100, min_interval_ms: 10, max_subscriptions: 200 }
}

/// Published rate limits of Binance.
pub open spec fn binance_rate_limit() -> RateLimit {
    RateLimit { ws_messages_per_second: 5, min_interval_ms: 200, max_subscriptions: 1024 }
}

/// Published rate limits of OANDA.
pub open spec fn oanda_rate_limit() -> RateLimit {
    RateLimit { ws_messages_per_second: 120, min_interval_ms: 8, max_subscriptions: 100 }
}

impl RateLimit {
    /// Deribit allows up to 100 messages per second.
    pub fn deribit() -> (r: RateLimit)
        ensures
            r == deribit_rate_limit(),
    {
        RateLimit { ws_messages_per_second: 100, min_interval_ms: 10, max_subscriptions: 200 }
    }

    /// Binance allows 5 outgoing messages per second.
    pub fn binance() -> (r: RateLimit)
        ensures
            r == binance_rate_limit(),
    {
        RateLimit { ws_messages_per_second: 5, min_interval_ms: 200, max_subscriptions: 1024 }
    }

    /// OANDA allows up to 120 requests per second.
    pub fn oanda() -> (r: RateLimit)
        ensures
            r == oanda_rate_limit(),
    {
        RateLimit { ws_messages_per_second: 120, min_interval_ms: 8, max_subscriptions: 100 }
    }
}

impl Default for RateLimit {
    fn default() -> (r: RateLimit)
        ensures
            r.ws_messages_per_second == 10,
            r.min_interval_ms == 100,
            r.max_subscriptions == 100,
    {
        RateLimit { ws_messages_per_second: 10, min_interval_ms: 100, max_subscriptions: 100 }
    }
}

/// What every exchange adapter provides: decoding its messages, building
/// its requests and answering its pings.
pub trait ExchangeAdapter: Send + Sync {
    /// The exchange this adapter handles, as a value for contracts.
    spec fn spec_exchange(&self) -> Exchange;

    /// Whether `parse_message` can take this raw message (every adapter but
    /// Binance takes them all; see `BinanceAdapter`).
    spec fn decodable(&self, raw: Seq<char>) -> bool;

    /// The exchange this adapter handles.
    fn exchange(&self) -> (e: Exchange)
        ensures
            e == self.spec_exchange(),
    ;

    /// Whether `parse_message` can take this raw message.
    fn can_decode(&self, raw: &str) -> (b: bool)
        ensures
            b == self.decodable(raw@),
    ;

    /// The events of a raw message, given the local time.
    fn parse_message(&self, raw: &str, now: Timestamp) -> Result<Vec<MarketEvent>, FlashError>
        requires
            self.decodable(raw@),
    ;

    /// The error a raw reply reports, if any.
    fn parse_error(&self, raw: &str) -> Option<FlashError>;

    /// The messages that subscribe to the instruments.
    fn build_subscribe(&self, instruments: &[Instrument]) -> Vec<String>;

    /// The messages that unsubscribe from the instruments.
    fn build_unsubscribe(&self, instruments: &[Instrument]) -> Vec<String>;

    /// The application-level answer to a ping payload, if any.
    fn handle_ping(&self, payload: &[u8]) -> Option<Vec<u8>>;

    /// Whether a raw message is an application-level heartbeat.
    fn is_heartbeat(&self, raw: &str) -> bool;

    /// Whether a raw message confirms a subscription.
    fn is_subscription_response(&self, raw: &str) -> bool;

    /// The authentication message, if the exchange takes one.
    fn build_auth(&self, api_key: &str, api_secret: &str, timestamp: i64) -> Option<String>;

    /// The WebSocket endpoint of this exchange.
    fn websocket_url(&self) -> &str;

    /// The exchange's rate limits.
    fn rate_limit(&self) -> RateLimit;
}

} // verus!
