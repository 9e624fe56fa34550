//! Deribit adapter: instrument naming, JSON-RPC requests, and decoding of book, trade and error messages.

use super::common::{
    json_array_of, json_quoted, json_string, json_string_array, contains_field, error_is, levels_member, parse_levels_member, parse_price, parse_quantity, price_of, quantity_of,
    timestamp_or, timestamp_or_else, DecodeFault,
};
use crate::json::{decode_json, get_str, json_decode, parsed_model, str_member, Json};
use crate::text::{decimal_digits, decimal_text, i64_decimal, starts_with_seq, str_eq, str_starts_with, u64_decimal, utf8_text};
use vstd::string::StrSliceExecFns;
use vstd::utf8::{decode_utf8, encode_utf8, valid_utf8};
use crate::types::{
    decimal_from_u64, decimal_of_u64, event_model, events_model, DataModel, EventModel, MarketData, MarketEvent,
    MarketEventType, Side, Timestamp,
};
use super::traits::{deribit_rate_limit, ExchangeAdapter, RateLimit};
use crate::text::{chars_of, contains_seq, split_chars, split_seq, string_of};
use crate::types::{FlashError, Exchange, Instrument};
use std::sync::atomic::{AtomicU64, Ordering};
use std::sync::Arc;
use vstd::prelude::*;

verus! {

/// Order book update interval for Deribit.
#[derive(Debug, Clone, Copy, PartialEq, Eq, Structural)]
pub enum BookInterval {
    /// Raw updates (every change).
    Raw,
    /// 100ms grouped updates (default).
    Ms100,
    /// Snapshot only (no updates).
    SnapshotOnly,
}

/// Channel suffix of a book interval.
pub open spec fn book_interval_suffix(i: BookInterval) -> Seq<char> {
    match i {
        BookInterval::Raw => "raw"@,
        BookInterval::Ms100 => "100ms"@,
        BookInterval::SnapshotOnly => "none"@,
    }
}

impl Default for BookInterval {
    fn default() -> (i: BookInterval)
        ensures
            i == BookInterval::Ms100,
    {
        BookInterval::Ms100
    }
}

impl BookInterval {
    /// Deribit channel suffix for this interval.
    pub fn as_str(&self) -> (s: &'static str)
        ensures
            s@ == book_interval_suffix(*self),
    {
        match self {
            BookInterval::Raw => "raw",
            BookInterval::Ms100 => "100ms",
            BookInterval::SnapshotOnly => "none",
        }
    }
}

/// WebSocket URL for Deribit.
pub const DERIBIT_WS_URL: &'static str = "wss://www.deribit.com/ws/api/v2";

/// The JSON-RPC heartbeat marker Deribit puts in its heartbeat messages.
pub const DERIBIT_HEARTBEAT_MARKER: &'static str = "\"method\":\"heartbeat\"";

/// Deribit exchange adapter.
#[derive(Debug, Clone)]
pub struct DeribitAdapter {
    /// Next request ID for JSON-RPC messages, shared by clones.
    pub next_id: Arc<AtomicU64>,
    /// Order book update interval.
    pub interval: BookInterval,
}

impl Default for DeribitAdapter {
    fn default() -> (a: DeribitAdapter)
        ensures
            a.interval == BookInterval::Ms100,
    {
        DeribitAdapter { next_id: Arc::new(AtomicU64::new(1)), interval: BookInterval::Ms100 }
    }
}

impl DeribitAdapter {
    /// Create an adapter with the given book interval.
    pub fn with_interval(interval: BookInterval) -> (a: DeribitAdapter)
        ensures
            a.interval == interval,
    {
        DeribitAdapter { next_id: Arc::new(AtomicU64::new(1)), interval }
    }

    /// The configured book interval.
    pub fn book_interval(&self) -> (i: BookInterval)
        ensures
            i == self.interval,
    {
        self.interval
    }

    /// Take the next request ID from the counter shared by all clones.
    ///
    /// The counter is atomic and shared, so the value depends on other callers.
    pub fn next_request_id(&self) -> u64 {
        self.next_id.fetch_add(1, Ordering::Relaxed)
    }

    /// Instrument of a Deribit symbol: the base is the text before the first
    /// '-' (the whole symbol if there is none), the quote is "USD".
    pub fn parse_instrument(&self, symbol: &str) -> (inst: Instrument)
        ensures
            inst.base@ == split_seq(symbol@, '-')[0],
            inst.quote@ == "USD"@,
            inst.exchange == Exchange::Deribit,
            inst.raw_symbol@ == symbol@,
    {
        let sv = chars_of(symbol);
        let parts = split_chars(sv.as_slice(), '-');
        proof {
            crate::text::lemma_split_nonempty(symbol@, '-');
        }
        let base = string_of(parts[0].as_slice());
        Instrument::new(base.as_str(), "USD", Exchange::Deribit, symbol)
    }

    /// Book channel of an instrument: "book.", the raw symbol, ".", the interval.
    pub fn build_channel(&self, instrument: &Instrument) -> (s: String)
        ensures
            s@ == "book."@ + instrument.raw_symbol@ + "."@ + book_interval_suffix(self.interval),
    {
        let mut s = String::from_str("book.");
        s.append(instrument.raw_symbol.as_str());
        s.append(".");
        s.append(self.interval.as_str());
        s
    }

    /// Deribit answers pings itself only through JSON-RPC; this tells whether a
    /// payload asks for such an answer (a heartbeat or a test request).
    pub fn is_ping_request(&self, payload: &str) -> (b: bool)
        ensures
            b == (contains_seq(payload@, DERIBIT_HEARTBEAT_MARKER@) || contains_seq(payload@, "test_request"@)),
    {
        contains_field(payload, DERIBIT_HEARTBEAT_MARKER) || contains_field(payload, "test_request")
    }

    /// The error a Deribit error reply denotes: code 10020 is rate limiting
    /// (retry after 1000 ms), 13009 an authentication failure carrying the
    /// message, any other code an exchange error with code and message.
    pub fn classify_error(&self, code: i64, message: &str) -> (e: FlashError)
        ensures
            code == 10020 ==> (e matches FlashError::RateLimited { exchange, retry_after_ms }
                && exchange@ == "deribit"@ && retry_after_ms == 1000),
            code == 13009 ==> (e matches FlashError::AuthenticationFailed { exchange, reason }
                && exchange@ == "deribit"@ && reason@ == message@),
            code != 10020 && code != 13009 ==> (e matches FlashError::ExchangeError { exchange, code: c, message: m }
                && exchange@ == "deribit"@ && c == code as i32 && m@ == message@),
    {
        if code == 10020 {
            FlashError::RateLimited { exchange: String::from_str("deribit"), retry_after_ms: 1000 }
        } else if code == 13009 {
            FlashError::AuthenticationFailed { exchange: String::from_str("deribit"), reason: String::from_str(message) }
        } else {
            FlashError::ExchangeError { exchange: String::from_str("deribit"), code: code as i32, message: String::from_str(message) }
        }
    }
}

/// The book channel of an instrument at a book interval.
pub open spec fn deribit_channel(i: Instrument, interval: BookInterval) -> Seq<char> {
    "book."@ + i.raw_symbol@ + "."@ + book_interval_suffix(interval)
}

/// The book channels of instruments, in order.
pub open spec fn deribit_channels(instruments: Seq<Instrument>, interval: BookInterval) -> Seq<Seq<char>> {
    instruments.map_values(|i: Instrument| deribit_channel(i, interval))
}

/// The text of a JSON-RPC request: id, version "2.0", method and the
/// parameters' text, keys in the order serde_json writes them.
pub open spec fn deribit_rpc_text(id: u64, method: Seq<char>, params: Seq<char>) -> Seq<char> {
    "{\"id\":"@ + decimal_digits(id as nat) + ",\"jsonrpc\":\"2.0\",\"method\":"@ + json_quoted(method)
        + ",\"params\":"@ + params + "}"@
}

/// The parameters of a (un)subscription: the channels.
pub open spec fn deribit_channels_params(channels: Seq<Seq<char>>) -> Seq<char> {
    "{\"channels\":"@ + json_string_array(channels) + "}"@
}

/// The parameters of a client-credentials authentication.
pub open spec fn deribit_auth_params(key: Seq<char>, secret: Seq<char>, timestamp: i64) -> Seq<char> {
    "{\"client_id\":"@ + json_quoted(key) + ",\"client_secret\":"@ + json_quoted(secret)
        + ",\"grant_type\":\"client_credentials\",\"timestamp\":"@ + decimal_text(timestamp as int) + "}"@
}

/// Whether a text asks for a test reply: a heartbeat or a test request.
pub open spec fn deribit_ping_request(text: Seq<char>) -> bool {
    contains_seq(text, DERIBIT_HEARTBEAT_MARKER@) || contains_seq(text, "test_request"@)
}

impl DeribitAdapter {
    /// A JSON-RPC request text.
    pub fn rpc_request(id: u64, method: &str, params: &str) -> (s: String)
        ensures
            s@ == deribit_rpc_text(id, method@, params@),
    {
        let mut s = String::from_str("{\"id\":");
        let digits = u64_decimal(id);
        s.append(digits.as_str());
        s.append(",\"jsonrpc\":\"2.0\",\"method\":");
        let m = json_string(method);
        s.append(m.as_str());
        s.append(",\"params\":");
        s.append(params);
        s.append("}");
        s
    }

    /// The parameters naming the book channels of instruments.
    pub fn channels_params(&self, instruments: &[Instrument]) -> (s: String)
        ensures
            s@ == deribit_channels_params(deribit_channels(instruments@, self.interval)),
    {
        let mut channels: Vec<String> = Vec::new();
        let mut i: usize = 0;
        while i < instruments.len()
            invariant
                i <= instruments@.len(),
                channels@.map_values(|t: String| t@) == deribit_channels(instruments@.take(i as int), self.interval),
            decreases instruments@.len() - i,
        {
            let channel = self.build_channel(&instruments[i]);
            let ghost before = channels@;
            channels.push(channel);
            proof {
                assert(channels@.map_values(|t: String| t@) =~= before.map_values(|t: String| t@).push(channel@));
                assert(deribit_channels(instruments@.take(i as int + 1), self.interval)
                    =~= deribit_channels(instruments@.take(i as int), self.interval).push(deribit_channel(instruments@[i as int], self.interval)));
            }
            i = i + 1;
        }
        assert(instruments@.take(instruments@.len() as int) =~= instruments@);
        let mut s = String::from_str("{\"channels\":");
        let a = json_array_of(channels.as_slice());
        s.append(a.as_str());
        s.append("}");
        s
    }

    /// One request `method` for the channels of the instruments, with the
    /// next request id; none for no instruments.
    fn channel_requests(&self, method: &str, instruments: &[Instrument]) -> (msgs: Vec<String>)
        ensures
            instruments@.len() == 0 ==> msgs@.len() == 0,
            instruments@.len() > 0 ==> msgs@.len() == 1 && exists|id: u64| #[trigger] deribit_rpc_text(id, method@,
                deribit_channels_params(deribit_channels(instruments@, self.interval))) == msgs@[0]@,
    {
        let mut msgs: Vec<String> = Vec::new();
        if instruments.len() == 0 {
            return msgs;
        }
        let params = self.channels_params(instruments);
        let id = self.next_request_id();
        let m = DeribitAdapter::rpc_request(id, method, params.as_str());
        msgs.push(m);
        assert(deribit_rpc_text(id, method@, params@) == msgs@[0]@);
        msgs
    }




}



// =============================================================================
// DECODING
// =============================================================================

/// The error a Deribit error reply denotes, by code and message.
pub open spec fn deribit_error_fault(code: i64, message: Seq<char>) -> DecodeFault {
    if code == 10020 {
        DecodeFault::RateLimited("deribit"@, 1000)
    } else if code == 13009 {
        DecodeFault::Auth("deribit"@, message)
    } else {
        DecodeFault::Exchange("deribit"@, code as i32, message)
    }
}

/// The error a decoded Deribit reply reports: one with an `error` object
/// whose `code` is an integer; the message defaults to "Unknown error".
pub open spec fn deribit_reply_error(parsed: Result<Json, Seq<char>>) -> Option<DecodeFault> {
    match parsed {
        Ok(json) => match json.spec_get("error"@) {
            Some(err) => match err.spec_get("code"@) {
                Some(c) => match c.spec_as_i64() {
                    Some(code) => Some(deribit_error_fault(code, match err.spec_get("message"@) {
                        Some(m) => match m.spec_as_str() {
                            Some(t) => t,
                            None => "Unknown error"@,
                        },
                        None => "Unknown error"@,
                    })),
                    None => None,
                },
                None => None,
            },
            None => None,
        },
        Err(_) => None,
    }
}

/// The instrument part of a channel name ("book.BTC-PERPETUAL.100ms" gives
/// "BTC-PERPETUAL"), or "UNKNOWN".
pub open spec fn channel_instrument(channel: Seq<char>) -> Seq<char> {
    if split_seq(channel, '.').len() > 1 {
        split_seq(channel, '.')[1]
    } else {
        "UNKNOWN"@
    }
}

/// The base asset of a Deribit symbol: the text before the first '-'.
pub open spec fn deribit_base(symbol: Seq<char>) -> Seq<char> {
    split_seq(symbol, '-')[0]
}

/// The base asset of a Deribit symbol is the text before its first '-':
/// the symbol starts with it, it holds no '-', and it is followed by '-'
/// unless it is the whole symbol ("BTC-PERPETUAL" gives "BTC").
pub proof fn law_deribit_base_is_text_before_first_dash(symbol: Seq<char>)
    ensures
        deribit_base(symbol).len() <= symbol.len(),
        symbol.subrange(0, deribit_base(symbol).len() as int) == deribit_base(symbol),
        forall|i: int| 0 <= i < deribit_base(symbol).len() ==> #[trigger] deribit_base(symbol)[i] != '-',
        deribit_base(symbol).len() < symbol.len() ==> symbol[deribit_base(symbol).len() as int] == '-',
{
    crate::text::lemma_split_first_piece(symbol, '-');
}

/// The name of the instrument a book message is about: its
/// `instrument_name` when that is a string, else the channel's.
pub open spec fn book_instrument_name(data: Json, channel: Seq<char>) -> Seq<char> {
    match data.spec_get("instrument_name"@) {
        Some(v) => match v.spec_as_str() {
            Some(s) => s,
            None => channel_instrument(channel),
        },
        None => channel_instrument(channel),
    }
}

/// The decimal zero, as `Decimal::default()` gives it.
pub open spec fn zero() -> rust_decimal::Decimal {
    decimal_of_u64(0)
}

/// The book event a Deribit book message gives, at local time `now`: time
/// from `timestamp` (ms, else `now`), levels from `bids`/`asks`, a snapshot
/// when `type` is "snapshot" and a delta otherwise, sequence from `change_id`.
pub open spec fn deribit_book_event(data: Json, channel: Seq<char>, now: Timestamp) -> Result<EventModel, DecodeFault> {
    let name = book_instrument_name(data, channel);
    let ts = timestamp_or(data.spec_get("timestamp"@), true, now);
    match levels_member(data.spec_get("bids"@), ts) {
        Err(f) => Err(f),
        Ok(bids) => match levels_member(data.spec_get("asks"@), ts) {
            Err(f) => Err(f),
            Ok(asks) => Ok(EventModel {
                event_type: if str_member(data, "type"@) == "snapshot"@ {
                    MarketEventType::Snapshot
                } else {
                    MarketEventType::Delta
                },
                base: deribit_base(name),
                quote: "USD"@,
                exchange: Exchange::Deribit,
                raw_symbol: name,
                timestamp: ts,
                local_timestamp: now,
                sequence: match data.spec_get("change_id"@) {
                    Some(c) => c.spec_as_u64(),
                    None => None,
                },
                data: DataModel::Book { bids, asks },
            }),
        },
    }
}

/// A decoded Deribit book message is a snapshot exactly when its "type" is
/// "snapshot" (else a delta), with bids from "bids", asks from "asks", the
/// time in "timestamp" (milliseconds, else the local time) and the sequence
/// from "change_id".
pub proof fn law_deribit_book_fields(data: Json, channel: Seq<char>, now: Timestamp)
    requires
        deribit_book_event(data, channel, now) is Ok,
    ensures
        ({
            let e = deribit_book_event(data, channel, now)->Ok_0;
            let ts = timestamp_or(data.spec_get("timestamp"@), true, now);
            &&& (e.event_type == MarketEventType::Snapshot <==> str_member(data, "type"@) == "snapshot"@)
            &&& (e.event_type == MarketEventType::Snapshot || e.event_type == MarketEventType::Delta)
            &&& e.timestamp == ts
            &&& e.sequence == match data.spec_get("change_id"@) {
                Some(Json::Number(t)) => crate::json::u64_of_text(t@),
                _ => None::<u64>,
            }
            &&& e.data == DataModel::Book {
                bids: levels_member(data.spec_get("bids"@), ts)->Ok_0,
                asks: levels_member(data.spec_get("asks"@), ts)->Ok_0,
            }
        }),
{
}

/// Every Deribit book event carries the instrument `parse_instrument` gives
/// for its instrument name: the quote is "USD" and the base is the text of
/// the name before its first '-'.
pub proof fn law_deribit_book_instrument(data: Json, channel: Seq<char>, now: Timestamp)
    requires
        deribit_book_event(data, channel, now) is Ok,
    ensures
        ({
            let e = deribit_book_event(data, channel, now)->Ok_0;
            &&& e.base == deribit_base(e.raw_symbol)
            &&& e.quote == "USD"@
            &&& e.base.len() <= e.raw_symbol.len()
            &&& e.raw_symbol.subrange(0, e.base.len() as int) == e.base
            &&& forall|i: int| 0 <= i < e.base.len() ==> #[trigger] e.base[i] != '-'
            &&& e.base.len() < e.raw_symbol.len() ==> e.raw_symbol[e.base.len() as int] == '-'
        }),
{
    law_deribit_base_is_text_before_first_dash(book_instrument_name(data, channel));
}

/// The trade id of a trade: its `trade_id` as a string, or as a number's digits.
pub open spec fn trade_id_of(v: Option<Json>) -> Option<Seq<char>> {
    match v {
        Some(j) => match j.spec_as_str() {
            Some(s) => Some(s),
            None => match j.spec_as_u64() {
                Some(n) => Some(decimal_digits(n as nat)),
                None => None,
            },
        },
        None => None,
    }
}

/// The trade event one element of a Deribit trades array gives: instrument
/// from `instrument_name` (else the channel's), time from `timestamp` (ms,
/// else `now`), price from `price` and quantity from `amount` (zero when
/// missing or unreadable), bid side when `direction` is "buy".
pub open spec fn deribit_trade_event(trade: Json, channel: Seq<char>, now: Timestamp) -> EventModel {
    let given = str_member(trade, "instrument_name"@);
    let name = if given.len() == 0 { channel_instrument(channel) } else { given };
    EventModel {
        event_type: MarketEventType::Trade,
        base: deribit_base(name),
        quote: "USD"@,
        exchange: Exchange::Deribit,
        raw_symbol: name,
        timestamp: timestamp_or(trade.spec_get("timestamp"@), true, now),
        local_timestamp: now,
        sequence: None,
        data: DataModel::Trade {
            price: match trade.spec_get("price"@) {
                Some(p) => match price_of(p) {
                    Ok(d) => d,
                    Err(_) => zero(),
                },
                None => zero(),
            },
            quantity: match trade.spec_get("amount"@) {
                Some(q) => match quantity_of(q) {
                    Ok(d) => d,
                    Err(_) => zero(),
                },
                None => zero(),
            },
            side: if str_member(trade, "direction"@) == "buy"@ { Side::Bid } else { Side::Ask },
            trade_id: trade_id_of(trade.spec_get("trade_id"@)),
        },
    }
}

/// Every Deribit trade event carries the instrument `parse_instrument` gives
/// for its instrument name (the trade's `instrument_name`, else the
/// channel's): the quote is "USD" and the base is the text of the name
/// before its first '-' ("BTC-PERPETUAL" gives "BTC").
pub proof fn law_deribit_trade_instrument(trade: Json, channel: Seq<char>, now: Timestamp)
    ensures
        ({
            let e = deribit_trade_event(trade, channel, now);
            &&& e.base == deribit_base(e.raw_symbol)
            &&& e.quote == "USD"@
            &&& e.base.len() <= e.raw_symbol.len()
            &&& e.raw_symbol.subrange(0, e.base.len() as int) == e.base
            &&& forall|i: int| 0 <= i < e.base.len() ==> #[trigger] e.base[i] != '-'
            &&& e.base.len() < e.raw_symbol.len() ==> e.raw_symbol[e.base.len() as int] == '-'
        }),
{
    let e = deribit_trade_event(trade, channel, now);
    law_deribit_base_is_text_before_first_dash(e.raw_symbol);
}

/// A decoded Deribit trade is on the bid side exactly when its "direction"
/// is "buy", with its price from "price" and its quantity from "amount"
/// (zero when missing or unreadable), at the time in "timestamp"
/// (milliseconds, else the local time).
pub proof fn law_deribit_trade_fields(trade: Json, channel: Seq<char>, now: Timestamp)
    ensures
        ({
            let e = deribit_trade_event(trade, channel, now);
            &&& e.event_type == MarketEventType::Trade
            &&& e.timestamp == timestamp_or(trade.spec_get("timestamp"@), true, now)
            &&& e.data matches DataModel::Trade { price, quantity, side, .. }
                && (side == Side::Bid <==> str_member(trade, "direction"@) == "buy"@)
                && (forall|p: Json| trade.spec_get("price"@) == Some(p) && price_of(p) is Ok ==> price == price_of(p)->Ok_0)
                && (forall|q: Json| trade.spec_get("amount"@) == Some(q) && quantity_of(q) is Ok ==> quantity == quantity_of(q)->Ok_0)
        }),
{
}

/// The events a Deribit message gives, at local time `now`, from its raw text
/// and its decoding: none for heartbeats; the reported error when the text
/// mentions "error" and the reply carries an error code; a parse error for
/// undecodable text; none unless the method is "subscription"; then the
/// book event of a "book." channel or the trade events of a "trades." channel,
/// none for other channels.
pub open spec fn deribit_events(raw: Seq<char>, parsed: Result<Json, Seq<char>>, now: Timestamp) -> Result<Seq<EventModel>, DecodeFault> {
    if contains_seq(raw, DERIBIT_HEARTBEAT_MARKER@) {
        Ok(Seq::empty())
    } else if contains_seq(raw, "\"error\""@) && deribit_reply_error(parsed) is Some {
        Err(deribit_reply_error(parsed)->0)
    } else {
        match parsed {
            Err(e) => Err(DecodeFault::Parse(e)),
            Ok(json) => if str_member(json, "method"@) != "subscription"@ {
                Ok(Seq::empty())
            } else {
                match json.spec_get("params"@) {
                    None => Err(DecodeFault::Format("Missing params"@)),
                    Some(params) => {
                        let channel = str_member(params, "channel"@);
                        match params.spec_get("data"@) {
                            None => Err(DecodeFault::Format("Missing data in params"@)),
                            Some(data) => if starts_with_seq(channel, "book."@) {
                                match deribit_book_event(data, channel, now) {
                                    Ok(e) => Ok(seq![e]),
                                    Err(f) => Err(f),
                                }
                            } else if starts_with_seq(channel, "trades."@) {
                                match data {
                                    Json::Array(trades) => Ok(trades@.map_values(|t: Json| deribit_trade_event(t, channel, now))),
                                    _ => Err(DecodeFault::Format("Expected trades array"@)),
                                }
                            } else {
                                Ok(Seq::empty())
                            },
                        }
                    },
                }
            },
        }
    }
}


impl DeribitAdapter {

    /// The instrument of a channel name, or "UNKNOWN".
    fn channel_instrument_name(channel: &str) -> (s: String)
        ensures
            s@ == channel_instrument(channel@),
    {
        let cv = chars_of(channel);
        let parts = split_chars(cv.as_slice(), '.');
        if parts.len() > 1 {
            string_of(parts[1].as_slice())
        } else {
            String::from_str("UNKNOWN")
        }
    }

    /// Decode a book message.
    pub fn parse_book_message(&self, data: &Json, channel: &str, now: Timestamp) -> (r: Result<MarketEvent, FlashError>)
        ensures
            match deribit_book_event(*data, channel@, now) {
                Ok(m) => r matches Ok(e) && event_model(e) == m,
                Err(f) => r matches Err(e) && error_is(e, f),
            },
    {
        let name: String = match data.get("instrument_name") {
            Some(v) => match v.as_str() {
                Some(s) => String::from_str(s),
                None => DeribitAdapter::channel_instrument_name(channel),
            },
            None => DeribitAdapter::channel_instrument_name(channel),
        };
        let timestamp = timestamp_or_else(data.get("timestamp"), true, now);
        let bids = match parse_levels_member(data.get("bids"), timestamp) {
            Ok(b) => b,
            Err(e) => return Err(e),
        };
        let asks = match parse_levels_member(data.get("asks"), timestamp) {
            Ok(a) => a,
            Err(e) => return Err(e),
        };
        let kind = get_str(data, "type");
        let event_type = if str_eq(kind, "snapshot") { MarketEventType::Snapshot } else { MarketEventType::Delta };
        let sequence = match data.get("change_id") {
            Some(c) => c.as_u64(),
            None => None,
        };
        let instrument = self.parse_instrument(name.as_str());
        Ok(MarketEvent {
            event_type,
            instrument,
            timestamp,
            local_timestamp: now,
            sequence,
            data: MarketData::Book { bids, asks },
        })
    }

    /// Decode one element of a trades array.
    fn parse_trade(&self, trade: &Json, channel: &str, now: Timestamp) -> (e: MarketEvent)
        ensures
            event_model(e) == deribit_trade_event(*trade, channel@, now),
    {
        let given = get_str(trade, "instrument_name");
        let instrument = if given.is_empty() {
            let name = DeribitAdapter::channel_instrument_name(channel);
            self.parse_instrument(name.as_str())
        } else {
            self.parse_instrument(given)
        };
        let timestamp = timestamp_or_else(trade.get("timestamp"), true, now);
        let price = match trade.get("price") {
            Some(p) => match parse_price(p) {
                Ok(d) => d,
                Err(_) => decimal_from_u64(0),
            },
            None => decimal_from_u64(0),
        };
        let quantity = match trade.get("amount") {
            Some(q) => match parse_quantity(q) {
                Ok(d) => d,
                Err(_) => decimal_from_u64(0),
            },
            None => decimal_from_u64(0),
        };
        let direction = get_str(trade, "direction");
        let side = if str_eq(direction, "buy") { Side::Bid } else { Side::Ask };
        let trade_id: Option<String> = match trade.get("trade_id") {
            Some(v) => match v.as_str() {
                Some(s) => Some(String::from_str(s)),
                None => match v.as_u64() {
                    Some(n) => Some(u64_decimal(n)),
                    None => None,
                },
            },
            None => None,
        };
        MarketEvent {
            event_type: MarketEventType::Trade,
            instrument,
            timestamp,
            local_timestamp: now,
            sequence: None,
            data: MarketData::Trade { price, quantity, side, trade_id },
        }
    }

    /// Decode a trades message: one trade event per element of the array.
    pub fn parse_trade_message(&self, data: &Json, channel: &str, now: Timestamp) -> (r: Result<Vec<MarketEvent>, FlashError>)
        ensures
            match *data {
                Json::Array(trades) => r matches Ok(v)
                    && events_model(v@) == trades@.map_values(|t: Json| deribit_trade_event(t, channel@, now)),
                _ => r matches Err(e) && error_is(e, DecodeFault::Format("Expected trades array"@)),
            },
    {
        let trades = match data {
            Json::Array(t) => t,
            _ => return Err(FlashError::UnknownMessageFormat(String::from_str("Expected trades array"))),
        };
        let mut events: Vec<MarketEvent> = Vec::new();
        let mut i: usize = 0;
        while i < trades.len()
            invariant
                *data == Json::Array(*trades),
                i <= trades@.len(),
                events_model(events@) == trades@.take(i as int).map_values(|t: Json| deribit_trade_event(t, channel@, now)),
            decreases trades@.len() - i,
        {
            let e = self.parse_trade(&trades[i], channel, now);
            let ghost before = events@;
            events.push(e);
            proof {
                assert(events@ =~= before.push(e));
                assert(events_model(events@) =~= events_model(before).push(event_model(e)));
                assert(trades@.take(i as int + 1).map_values(|t: Json| deribit_trade_event(t, channel@, now))
                    =~= trades@.take(i as int).map_values(|t: Json| deribit_trade_event(t, channel@, now))
                        .push(deribit_trade_event(trades@[i as int], channel@, now)));
            }
            i = i + 1;
        }
        assert(trades@.take(trades@.len() as int) =~= trades@);
        Ok(events)
    }

}
impl DeribitAdapter {
    /// Decode a Deribit message given its raw text, its JSON decoding and the
    /// local time.
    pub fn parse_decoded(&self, raw: &str, parsed: &Result<Json, String>, now: Timestamp) -> (r: Result<Vec<MarketEvent>, FlashError>)
        ensures
            match deribit_events(raw@, parsed_model(*parsed), now) {
                Ok(es) => r matches Ok(v) && events_model(v@) == es,
                Err(f) => r matches Err(e) && error_is(e, f),
            },
    {
        if contains_field(raw, DERIBIT_HEARTBEAT_MARKER) {
            let v: Vec<MarketEvent> = Vec::new();
            assert(events_model(v@) =~= Seq::<EventModel>::empty());
            return Ok(v);
        }
        if contains_field(raw, "\"error\"") {
            match self.decoded_error(parsed) {
                Some(e) => return Err(e),
                None => {},
            }
        }
        let json = match parsed {
            Ok(j) => j,
            Err(e) => return Err(FlashError::ParseError(e.clone())),
        };
        let method = get_str(json, "method");
        if !str_eq(method, "subscription") {
            let v: Vec<MarketEvent> = Vec::new();
            assert(events_model(v@) =~= Seq::<EventModel>::empty());
            return Ok(v);
        }
        let params = match json.get("params") {
            Some(p) => p,
            None => return Err(FlashError::UnknownMessageFormat(String::from_str("Missing params"))),
        };
        let channel = get_str(params, "channel");
        let data = match params.get("data") {
            Some(d) => d,
            None => return Err(FlashError::UnknownMessageFormat(String::from_str("Missing data in params"))),
        };
        if str_starts_with(channel, "book.") {
            match self.parse_book_message(data, channel, now) {
                Ok(e) => {
                    let mut v: Vec<MarketEvent> = Vec::new();
                    v.push(e);
                    assert(events_model(v@) =~= seq![event_model(e)]);
                    Ok(v)
                },
                Err(e) => Err(e),
            }
        } else if str_starts_with(channel, "trades.") {
            self.parse_trade_message(data, channel, now)
        } else {
            let v: Vec<MarketEvent> = Vec::new();
            assert(events_model(v@) =~= Seq::<EventModel>::empty());
            Ok(v)
        }
    }

    /// The error a decoded reply reports, if any.
    pub fn decoded_error(&self, parsed: &Result<Json, String>) -> (r: Option<FlashError>)
        ensures
            match deribit_reply_error(parsed_model(*parsed)) {
                Some(f) => r matches Some(e) && error_is(e, f),
                None => r is None,
            },
    {
        let json = match parsed {
            Ok(j) => j,
            Err(_) => return None,
        };
        let err = match json.get("error") {
            Some(e) => e,
            None => return None,
        };
        let code = match err.get("code") {
            Some(c) => match c.as_i64() {
                Some(code) => code,
                None => return None,
            },
            None => return None,
        };
        let message = match err.get("message") {
            Some(m) => match m.as_str() {
                Some(t) => t,
                None => "Unknown error",
            },
            None => "Unknown error",
        };
        Some(self.classify_error(code, message))
    }
}

impl ExchangeAdapter for DeribitAdapter {
    open spec fn spec_exchange(&self) -> Exchange {
        Exchange::Deribit
    }

    open spec fn decodable(&self, raw: Seq<char>) -> bool {
        true
    }

    /// Every message can be taken.
    fn can_decode(&self, raw: &str) -> (b: bool) {
        true
    }

    /// Decode a raw message with serde_json, then read its events.
    fn parse_message(&self, raw: &str, now: Timestamp) -> (r: Result<Vec<MarketEvent>, FlashError>)
        ensures
            match deribit_events(raw@, json_decode(raw@), now) {
                Ok(es) => r matches Ok(v) && events_model(v@) == es,
                Err(f) => r matches Err(e) && error_is(e, f),
            },
    {
        let parsed = decode_json(raw);
        self.parse_decoded(raw, &parsed, now)
    }

    /// Decode a raw reply with serde_json, then read the error it reports.
    fn parse_error(&self, raw: &str) -> (r: Option<FlashError>)
        ensures
            match deribit_reply_error(json_decode(raw@)) {
                Some(f) => r matches Some(e) && error_is(e, f),
                None => r is None,
            },
    {
        let parsed = decode_json(raw);
        self.decoded_error(&parsed)
    }

    fn exchange(&self) -> (e: Exchange) {
        Exchange::Deribit
    }

    /// A heartbeat carries the JSON-RPC method "heartbeat".
    fn is_heartbeat(&self, raw: &str) -> (b: bool)
        ensures
            b == contains_seq(raw@, DERIBIT_HEARTBEAT_MARKER@),
    {
        contains_field(raw, DERIBIT_HEARTBEAT_MARKER)
    }

    /// A subscription reply carries a "result" and no "method".
    fn is_subscription_response(&self, raw: &str) -> (b: bool)
        ensures
            b == (contains_seq(raw@, "\"result\""@) && !contains_seq(raw@, "\"method\""@)),
    {
        contains_field(raw, "\"result\"") && !contains_field(raw, "\"method\"")
    }

    fn websocket_url(&self) -> (u: &str)
        ensures
            u@ == DERIBIT_WS_URL@,
    {
        DERIBIT_WS_URL
    }

    fn rate_limit(&self) -> (r: RateLimit)
        ensures
            r == deribit_rate_limit(),
    {
        RateLimit::deribit()
    }



    /// The subscription request for the book channels of the instruments
    /// (none for no instruments); it takes the next request id.
    fn build_subscribe(&self, instruments: &[Instrument]) -> (msgs: Vec<String>)
        ensures
            instruments@.len() == 0 ==> msgs@.len() == 0,
            instruments@.len() > 0 ==> msgs@.len() == 1 && exists|id: u64| #[trigger] deribit_rpc_text(id, "public/subscribe"@,
                deribit_channels_params(deribit_channels(instruments@, self.interval))) == msgs@[0]@,
    {
        self.channel_requests("public/subscribe", instruments)
    }

    /// The unsubscription request for the book channels of the instruments
    /// (none for no instruments); it takes the next request id.
    fn build_unsubscribe(&self, instruments: &[Instrument]) -> (msgs: Vec<String>)
        ensures
            instruments@.len() == 0 ==> msgs@.len() == 0,
            instruments@.len() > 0 ==> msgs@.len() == 1 && exists|id: u64| #[trigger] deribit_rpc_text(id, "public/unsubscribe"@,
                deribit_channels_params(deribit_channels(instruments@, self.interval))) == msgs@[0]@,
    {
        self.channel_requests("public/unsubscribe", instruments)
    }

    /// The reply to a ping payload: a `public/test` request (with the next
    /// request id) when the payload is UTF-8 text asking for one, else none.
    fn handle_ping(&self, payload: &[u8]) -> (r: Option<Vec<u8>>)
        ensures
            r is Some <==> (valid_utf8(payload@) && deribit_ping_request(decode_utf8(payload@))),
            r matches Some(b) ==> exists|id: u64| #[trigger] encode_utf8(deribit_rpc_text(id, "public/test"@, "{}"@)) == b@,
    {
        let text = match utf8_text(payload) {
            Some(t) => t,
            None => return None,
        };
        proof {
            vstd::utf8::encode_utf8_decode_utf8(text@);
        }
        if !self.is_ping_request(text.as_str()) {
            return None;
        }
        let id = self.next_request_id();
        let reply = DeribitAdapter::rpc_request(id, "public/test", "{}");
        let bytes = reply.as_str().as_bytes_vec();
        assert(encode_utf8(deribit_rpc_text(id, "public/test"@, "{}"@)) == bytes@);
        Some(bytes)
    }

    /// The client-credentials authentication request (with the next request id).
    fn build_auth(&self, api_key: &str, api_secret: &str, timestamp: i64) -> (r: Option<String>)
        ensures
            r matches Some(s) && exists|id: u64| #[trigger] deribit_rpc_text(id, "public/auth"@,
                deribit_auth_params(api_key@, api_secret@, timestamp)) == s@,
    {
        let mut params = String::from_str("{\"client_id\":");
        let k = json_string(api_key);
        params.append(k.as_str());
        params.append(",\"client_secret\":");
        let sec = json_string(api_secret);
        params.append(sec.as_str());
        params.append(",\"grant_type\":\"client_credentials\",\"timestamp\":");
        let t = i64_decimal(timestamp);
        params.append(t.as_str());
        params.append("}");
        let id = self.next_request_id();
        let s = DeribitAdapter::rpc_request(id, "public/auth", params.as_str());
        assert(deribit_rpc_text(id, "public/auth"@, deribit_auth_params(api_key@, api_secret@, timestamp)) == s@);
        Some(s)
    }
}

} // verus!
