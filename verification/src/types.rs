//! Core market-data types shared by adapters, routing and order tracking.

use vstd::prelude::*;
use rust_decimal::Decimal;

verus! {

/// A fixed-point decimal number, carried through the library unchanged.
#[verifier::external_type_specification]
#[verifier::external_body]
pub struct ExDecimal(rust_decimal::Decimal);

/// `Decimal` is `Copy` (`#[derive(Clone, Copy)]` in rust_decimal), so its clone
/// hands back the same value.
pub assume_specification[ <rust_decimal::Decimal as core::clone::Clone>::clone ](
    d: &rust_decimal::Decimal,
) -> (r: rust_decimal::Decimal)
    ensures
        r == *d,
;

/// Timestamp in microseconds since the Unix epoch.
pub type Timestamp = i64;

/// Supported exchanges.
#[derive(Debug, Clone, Copy, PartialEq, Eq, Hash, Structural)]
pub enum Exchange {
    /// Deribit crypto derivatives.
    Deribit,
    /// Binance crypto spot.
    Binance,
    /// OANDA forex.
    Oanda,
}

/// Lower-case name of an exchange, as used in topics and keys.
pub open spec fn exchange_name(e: Exchange) -> Seq<char> {
    match e {
        Exchange::Deribit => "deribit"@,
        Exchange::Binance => "binance"@,
        Exchange::Oanda => "oanda"@,
    }
}

impl Exchange {
    /// Lower-case exchange name.
    pub fn as_str(&self) -> (s: &'static str)
        ensures
            s@ == exchange_name(*self),
    {
        match self {
            Exchange::Deribit => "deribit",
            Exchange::Binance => "binance",
            Exchange::Oanda => "oanda",
        }
    }

    /// The exchange name as an owned string.
    pub fn to_string(&self) -> (s: String)
        ensures
            s@ == exchange_name(*self),
    {
        String::from_str(self.as_str())
    }

    /// The exchange an instrument trades on.
    pub fn from_instrument(instrument: &Instrument) -> (e: Exchange)
        ensures
            e == instrument.exchange,
    {
        instrument.exchange
    }
}

/// A tradable instrument.
#[derive(Debug, Clone)]
pub struct Instrument {
    /// Base asset (e.g. "BTC").
    pub base: String,
    /// Quote asset (e.g. "USD").
    pub quote: String,
    /// Exchange the instrument trades on.
    pub exchange: Exchange,
    /// Exchange-native symbol (e.g. "BTC-PERPETUAL").
    pub raw_symbol: String,
}

impl Instrument {
    /// Create an instrument from its parts.
    pub fn new(base: &str, quote: &str, exchange: Exchange, raw_symbol: &str) -> (i: Instrument)
        ensures
            i.base@ == base@,
            i.quote@ == quote@,
            i.exchange == exchange,
            i.raw_symbol@ == raw_symbol@,
    {
        Instrument {
            base: String::from_str(base),
            quote: String::from_str(quote),
            exchange,
            raw_symbol: String::from_str(raw_symbol),
        }
    }

    /// The exchange of this instrument.
    pub fn exchange(&self) -> (e: Exchange)
        ensures
            e == self.exchange,
    {
        self.exchange
    }
}

/// Side of the book or of a trade's taker.
#[derive(Debug, Clone, Copy, PartialEq, Eq, Hash, Structural)]
pub enum Side {
    /// Buy side.
    Bid,
    /// Sell side.
    Ask,
}

/// Kind of market event.
#[derive(Debug, Clone, Copy, PartialEq, Eq, Hash, Structural)]
pub enum MarketEventType {
    /// Full book snapshot.
    Snapshot,
    /// Incremental book update.
    Delta,
    /// Trade print.
    Trade,
    /// Keep-alive.
    Heartbeat,
}

/// One price level of a book.
#[derive(Debug, Clone)]
pub struct PriceLevel {
    /// Price of the level.
    pub price: Decimal,
    /// Quantity available at the level.
    pub quantity: Decimal,
    /// Time of the level.
    pub timestamp: Timestamp,
}

impl PriceLevel {
    /// Create a price level.
    pub fn new(price: Decimal, quantity: Decimal, timestamp: Timestamp) -> (l: PriceLevel)
        ensures
            l.price == price,
            l.quantity == quantity,
            l.timestamp == timestamp,
    {
        PriceLevel { price, quantity, timestamp }
    }
}

/// Payload of a market event.
#[derive(Debug, Clone)]
pub enum MarketData {
    /// Order book levels.
    Book { bids: Vec<PriceLevel>, asks: Vec<PriceLevel> },
    /// A trade.
    Trade { price: Decimal, quantity: Decimal, side: Side, trade_id: Option<String> },
    /// A heartbeat carrying the exchange's clock.
    Heartbeat { exchange_time: Timestamp },
}

/// A normalized market event.
#[derive(Debug, Clone)]
pub struct MarketEvent {
    /// Kind of event.
    pub event_type: MarketEventType,
    /// Instrument the event is about.
    pub instrument: Instrument,
    /// Exchange time (microseconds).
    pub timestamp: Timestamp,
    /// Local receive time (microseconds).
    pub local_timestamp: Timestamp,
    /// Exchange sequence number, where the feed has one.
    pub sequence: Option<u64>,
    /// Payload.
    pub data: MarketData,
}

/// Errors raised by the adapters and managers.
#[derive(Debug, Clone, PartialEq, Eq)]
pub enum FlashError {
    /// A configuration value is invalid.
    ConfigError(String),
    /// The exchange reported an error.
    ExchangeError { exchange: String, code: i32, message: String },
    /// The exchange rate-limited us.
    RateLimited { exchange: String, retry_after_ms: u64 },
    /// Authentication was refused.
    AuthenticationFailed { exchange: String, reason: String },
    /// A message had an unexpected shape.
    UnknownMessageFormat(String),
    /// A message could not be parsed.
    ParseError(String),
    /// A value could not be serialized.
    SerializationError(String),
    /// A price could not be parsed.
    InvalidPrice { reason: String },
    /// A quantity could not be parsed.
    InvalidQuantity { quantity: String, reason: String },
    /// The connection is not available.
    Disconnected { reason: String, will_retry: bool },
    /// A channel was closed.
    ChannelClosed { channel_name: String },
    /// The connection attempt failed.
    ConnectionFailed(String),
    /// The connection attempt timed out.
    ConnectionTimeout { timeout_ms: u64 },
}

/// Current wall-clock time in microseconds since the Unix epoch.
///
/// Calls `chrono::Utc::now().timestamp_micros()`; the result depends on the
/// machine's clock, so the contract states nothing about it.
#[verifier::external_body]
pub fn now_micros() -> (t: Timestamp) {
    chrono::Utc::now().timestamp_micros()
}


/// What `Decimal::from_str` makes of a text: the decimal, or the error's message.
pub uninterp spec fn decimal_parse(s: Seq<char>) -> Result<Decimal, Seq<char>>;

/// Parse a decimal number.
///
/// Calls `<Decimal as FromStr>::from_str` (plain or scientific notation) and
/// hands back the decimal or the error's message; the contract names that
/// outcome `decimal_parse` of the text.
#[verifier::external_body]
pub(crate) fn parse_decimal(s: &str) -> (r: Result<Decimal, String>)
    ensures
        match r {
            Ok(d) => decimal_parse(s@) == Ok::<Decimal, Seq<char>>(d),
            Err(e) => decimal_parse(s@) == Err::<Decimal, Seq<char>>(e@),
        },
{
    match <Decimal as std::str::FromStr>::from_str(s) {
        Ok(d) => Ok(d),
        Err(e) => Err(e.to_string()),
    }
}

/// The decimal `Decimal::from` makes of an unsigned integer.
pub uninterp spec fn decimal_of_u64(n: u64) -> Decimal;

/// An unsigned integer as a decimal.
///
/// Calls `<Decimal as From<u64>>::from`, exact for every `u64`; the contract
/// names the result `decimal_of_u64` of the integer.
#[verifier::external_body]
pub(crate) fn decimal_from_u64(n: u64) -> (d: Decimal)
    ensures
        d == decimal_of_u64(n),
{
    Decimal::from(n)
}

/// Payload of a market event as a value.
pub enum DataModel {
    /// Book levels.
    Book { bids: Seq<PriceLevel>, asks: Seq<PriceLevel> },
    /// A trade.
    Trade { price: Decimal, quantity: Decimal, side: Side, trade_id: Option<Seq<char>> },
    /// A heartbeat.
    Heartbeat { exchange_time: Timestamp },
}

/// A market event as a value.
pub struct EventModel {
    /// Kind of event.
    pub event_type: MarketEventType,
    /// Base asset.
    pub base: Seq<char>,
    /// Quote asset.
    pub quote: Seq<char>,
    /// Exchange.
    pub exchange: Exchange,
    /// Exchange-native symbol.
    pub raw_symbol: Seq<char>,
    /// Exchange time.
    pub timestamp: Timestamp,
    /// Local receive time.
    pub local_timestamp: Timestamp,
    /// Sequence number.
    pub sequence: Option<u64>,
    /// Payload.
    pub data: DataModel,
}

/// The model of an event payload.
pub open spec fn data_model(d: MarketData) -> DataModel {
    match d {
        MarketData::Book { bids, asks } => DataModel::Book { bids: bids@, asks: asks@ },
        MarketData::Trade { price, quantity, side, trade_id } => DataModel::Trade {
            price,
            quantity,
            side,
            trade_id: match trade_id {
                Some(t) => Some(t@),
                None => None,
            },
        },
        MarketData::Heartbeat { exchange_time } => DataModel::Heartbeat { exchange_time },
    }
}

/// The model of a market event.
pub open spec fn event_model(e: MarketEvent) -> EventModel {
    EventModel {
        event_type: e.event_type,
        base: e.instrument.base@,
        quote: e.instrument.quote@,
        exchange: e.instrument.exchange,
        raw_symbol: e.instrument.raw_symbol@,
        timestamp: e.timestamp,
        local_timestamp: e.local_timestamp,
        sequence: e.sequence,
        data: data_model(e.data),
    }
}

/// The models of a sequence of events.
pub open spec fn events_model(es: Seq<MarketEvent>) -> Seq<EventModel> {
    es.map_values(|e: MarketEvent| event_model(e))
}

} // verus!
