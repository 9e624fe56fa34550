//! Binance adapter: symbol splitting, stream requests, and decoding of depth, trade and error messages.

use super::common::{
    json_array_of, json_quoted, json_string, json_string_array, contains_field, error_is, levels_member, parse_levels_member, parse_price, parse_quantity, price_of, quantity_of,
    timestamp_or, timestamp_or_else, DecodeFault,
};
use super::deribit::zero;
use crate::json::{decode_json, get_str, json_decode, lemma_member_smaller, parsed_model, str_member, Json};
use crate::text::{decimal_digits, str_eq, u64_decimal};
use crate::types::{
    decimal_from_u64, event_model, events_model, DataModel, EventModel, MarketData, MarketEvent, MarketEventType, Side,
    Timestamp,
};
use super::traits::{binance_rate_limit, ExchangeAdapter, RateLimit};
use crate::text::{chars_of, contains_seq, ends_with_seq, lowercase, occurs_at_chars, string_of, to_lowercase};
use crate::types::{FlashError, Exchange, Instrument};
use std::sync::atomic::{AtomicU64, Ordering};
use std::sync::Arc;
use vstd::prelude::*;
use vstd::string::StringSliceAdditionalSpecFns;
use vstd::utf8::{decode_utf8, encode_utf8, is_char_boundary};

verus! {

/// Depth update interval for Binance.
#[derive(Debug, Clone, Copy, PartialEq, Eq, Structural)]
pub enum UpdateInterval {
    /// 1000ms updates (default).
    Ms1000,
    /// 100ms updates.
    Ms100,
}

/// Stream-name suffix of an update interval.
pub open spec fn update_interval_suffix(i: UpdateInterval) -> Seq<char> {
    match i {
        UpdateInterval::Ms1000 => ""@,
        UpdateInterval::Ms100 => "@100ms"@,
    }
}

impl Default for UpdateInterval {
    fn default() -> (i: UpdateInterval)
        ensures
            i == UpdateInterval::Ms1000,
    {
        UpdateInterval::Ms1000
    }
}

impl UpdateInterval {
    /// Binance stream suffix for this interval.
    pub fn as_str(&self) -> (s: &'static str)
        ensures
            s@ == update_interval_suffix(*self),
    {
        match self {
            UpdateInterval::Ms1000 => "",
            UpdateInterval::Ms100 => "@100ms",
        }
    }
}

/// WebSocket URL for Binance.
pub const BINANCE_WS_URL: &'static str = "wss://stream.binance.com:9443/ws";

/// Quote currencies tried, in order, when splitting a Binance symbol.
pub open spec fn binance_quotes() -> Seq<Seq<char>> {
    seq!["USDT"@, "BUSD"@, "BTC"@, "ETH"@, "BNB"@, "USD"@]
}

/// Index of the first quote currency in `binance_quotes()`, from position `i` on, that ends `symbol`.
pub open spec fn quote_match_from(symbol: Seq<char>, i: int) -> Option<int>
    decreases 6 - i,
{
    if i < 0 || i >= 6 {
        None
    } else if ends_with_seq(symbol, binance_quotes()[i]) {
        Some(i)
    } else {
        quote_match_from(symbol, i + 1)
    }
}

/// Index of the first quote currency in `binance_quotes()` that ends `symbol`.
pub open spec fn first_quote_match(symbol: Seq<char>) -> Option<int> {
    quote_match_from(symbol, 0)
}

/// Whether splitting a symbol stays on character boundaries: a symbol that
/// ends in none of the known quotes and is longer than four bytes is cut four
/// bytes from its end, which must fall between two characters.
pub open spec fn binance_symbol_ok(symbol: Seq<char>) -> bool {
    first_quote_match(symbol) is None && encode_utf8(symbol).len() > 4
        ==> is_char_boundary(encode_utf8(symbol), encode_utf8(symbol).len() - 4)
}

/// The base asset of a Binance symbol: the symbol without its known quote,
/// else all but its last four bytes when it is longer than four bytes, else
/// the whole symbol.
pub open spec fn binance_base(symbol: Seq<char>) -> Seq<char> {
    match first_quote_match(symbol) {
        Some(k) => symbol.subrange(0, symbol.len() - binance_quotes()[k].len()),
        None => if encode_utf8(symbol).len() > 4 {
            decode_utf8(encode_utf8(symbol).subrange(0, encode_utf8(symbol).len() - 4))
        } else {
            symbol
        },
    }
}

/// The quote asset of a Binance symbol: its known quote, else its last four
/// bytes when it is longer than four bytes, else "USDT".
pub open spec fn binance_quote_of(symbol: Seq<char>) -> Seq<char> {
    match first_quote_match(symbol) {
        Some(k) => binance_quotes()[k],
        None => if encode_utf8(symbol).len() > 4 {
            decode_utf8(encode_utf8(symbol).subrange(encode_utf8(symbol).len() - 4, encode_utf8(symbol).len() as int))
        } else {
            "USDT"@
        },
    }
}

/// A symbol whose last character differs from a quote's does not end with it.
proof fn lemma_not_suffix_by_last(s: Seq<char>, p: Seq<char>)
    requires
        p.len() > 0,
        s.len() > 0,
        s.last() != p.last(),
    ensures
        !ends_with_seq(s, p),
{
    if ends_with_seq(s, p) {
        assert(s.subrange(s.len() - p.len(), s.len() as int)[p.len() - 1] == s.last());
    }
}

/// The six quote currencies Binance symbols are split on are USDT, BUSD,
/// BTC, ETH, BNB and USD: a symbol made of a base followed by one of them
/// splits into exactly that base and that quote (for instance "ADABNB" into
/// "ADA" and "BNB"). The one exception is a base ending in "B" before "USD",
/// where the symbol ends with "BUSD", which is tried first.
pub proof fn law_binance_known_quotes_split(b: Seq<char>, q: Seq<char>)
    requires
        q == "USDT"@ || q == "BUSD"@ || q == "BTC"@ || q == "ETH"@ || q == "BNB"@ || q == "USD"@,
        q == "USD"@ ==> (b.len() == 0 || b.last() != 'B'),
    ensures
        binance_base(b + q) == b,
        binance_quote_of(b + q) == q,
{
    reveal_strlit("USDT");
    reveal_strlit("BUSD");
    reveal_strlit("BTC");
    reveal_strlit("ETH");
    reveal_strlit("BNB");
    reveal_strlit("USD");
    reveal_with_fuel(quote_match_from, 7);
    let s = b + q;
    let qs = binance_quotes();
    assert(s.subrange(s.len() - q.len(), s.len() as int) =~= q);
    assert(s.subrange(0, s.len() - q.len()) =~= b);
    assert(ends_with_seq(s, q));
    assert(s.last() == q.last());
    if q == "USDT"@ {
        assert(first_quote_match(s) == Some(0int));
    } else if q == "BUSD"@ {
        lemma_not_suffix_by_last(s, qs[0]);
        assert(first_quote_match(s) == Some(1int));
    } else if q == "BTC"@ {
        lemma_not_suffix_by_last(s, qs[0]);
        lemma_not_suffix_by_last(s, qs[1]);
        assert(first_quote_match(s) == Some(2int));
    } else if q == "ETH"@ {
        lemma_not_suffix_by_last(s, qs[0]);
        lemma_not_suffix_by_last(s, qs[1]);
        lemma_not_suffix_by_last(s, qs[2]);
        assert(first_quote_match(s) == Some(3int));
    } else if q == "BNB"@ {
        lemma_not_suffix_by_last(s, qs[0]);
        lemma_not_suffix_by_last(s, qs[1]);
        lemma_not_suffix_by_last(s, qs[2]);
        lemma_not_suffix_by_last(s, qs[3]);
        assert(first_quote_match(s) == Some(4int));
    } else {
        lemma_not_suffix_by_last(s, qs[0]);
        if ends_with_seq(s, qs[1]) {
            assert(s.subrange(s.len() - 4, s.len() as int)[0] == s[s.len() - 4]);
            assert(s[s.len() - 4] == b[b.len() - 1]);
        }
        lemma_not_suffix_by_last(s, qs[2]);
        lemma_not_suffix_by_last(s, qs[3]);
        lemma_not_suffix_by_last(s, qs[4]);
        assert(first_quote_match(s) == Some(5int));
    }
}

/// The `k`-th quote currency tried when splitting a Binance symbol.
pub fn binance_quote(k: usize) -> (q: &'static str)
    requires
        k < 6,
    ensures
        q@ == binance_quotes()[k as int],
{
    match k {
        0 => "USDT",
        1 => "BUSD",
        2 => "BTC",
        3 => "ETH",
        4 => "BNB",
        _ => "USD",
    }
}

/// Binance exchange adapter.
#[derive(Debug, Clone)]
pub struct BinanceAdapter {
    /// Next request ID for subscriptions, shared by clones.
    pub next_id: Arc<AtomicU64>,
    /// Update interval for depth streams.
    pub interval: UpdateInterval,
}

impl Default for BinanceAdapter {
    fn default() -> (a: BinanceAdapter)
        ensures
            a.interval == UpdateInterval::Ms1000,
    {
        BinanceAdapter { next_id: Arc::new(AtomicU64::new(1)), interval: UpdateInterval::Ms1000 }
    }
}

impl BinanceAdapter {
    /// Create an adapter with the given update interval.
    pub fn with_interval(interval: UpdateInterval) -> (a: BinanceAdapter)
        ensures
            a.interval == interval,
    {
        BinanceAdapter { next_id: Arc::new(AtomicU64::new(1)), interval }
    }

    /// The configured update interval.
    pub fn update_interval(&self) -> (i: UpdateInterval)
        ensures
            i == self.interval,
    {
        self.interval
    }

    /// Take the next request ID from the counter shared by all clones.
    ///
    /// The counter is atomic and shared, so the value depends on other callers.
    pub fn next_request_id(&self) -> u64 {
        self.next_id.fetch_add(1, Ordering::Relaxed)
    }

    /// Position in the quote list of the first quote currency that ends `symbol`.
    pub fn quote_index(symbol: &str) -> (r: Option<usize>)
        ensures
            match first_quote_match(symbol@) {
                Some(k) => r == Some(k as usize) && 0 <= k < 6 && ends_with_seq(symbol@, binance_quotes()[k]),
                None => r is None,
            },
    {
        let sv = chars_of(symbol);
        let mut k: usize = 0;
        while k < 6
            invariant
                k <= 6,
                sv@ == symbol@,
                first_quote_match(symbol@) == quote_match_from(symbol@, k as int),
            decreases 6 - k,
        {
            let quote = binance_quote(k);
            let qv = chars_of(quote);
            if qv.len() <= sv.len() {
                let start = sv.len() - qv.len();
                if occurs_at_chars(sv.as_slice(), qv.as_slice(), start) {
                    proof {
                        assert(ends_with_seq(symbol@, binance_quotes()[k as int]));
                    }
                    return Some(k);
                }
            }
            k = k + 1;
        }
        None
    }

    /// Whether splitting `symbol` stays on character boundaries (see `binance_symbol_ok`).
    pub fn symbol_splits_cleanly(symbol: &str) -> (b: bool)
        ensures
            b == binance_symbol_ok(symbol@),
    {
        match BinanceAdapter::quote_index(symbol) {
            Some(_) => true,
            None => {
                let n = symbol.as_bytes().len();
                n <= 4 || symbol.is_char_boundary(n - 4)
            },
        }
    }

    /// Split a Binance symbol such as "BTCUSDT" into base and quote.
    ///
    /// The first of USDT, BUSD, BTC, ETH, BNB, USD that ends the symbol is the
    /// quote; otherwise a symbol of more than four bytes keeps its last four
    /// bytes as the quote, and a shorter one is quoted in USDT.
    pub fn parse_instrument(&self, symbol: &str) -> (inst: Instrument)
        requires
            binance_symbol_ok(symbol@),
        ensures
            inst.exchange == Exchange::Binance,
            inst.raw_symbol@ == symbol@,
            inst.base@ == binance_base(symbol@),
            inst.quote@ == binance_quote_of(symbol@),
    {
        match BinanceAdapter::quote_index(symbol) {
            Some(k) => {
                let quote = binance_quote(k);
                let sv = chars_of(symbol);
                let qv = chars_of(quote);
                let start = sv.len() - qv.len();
                let (prefix, _) = sv.as_slice().split_at(start);
                let base = string_of(prefix);
                return Instrument::new(base.as_str(), quote, Exchange::Binance, symbol);
            },
            None => {},
        }
        assert(first_quote_match(symbol@) is None);
        let n = symbol.as_bytes().len();
        if n > 4 {
            let (base, quote) = symbol.split_at(n - 4);
            proof {
                vstd::utf8::encode_utf8_decode_utf8(base@);
                vstd::utf8::encode_utf8_decode_utf8(quote@);
            }
            Instrument::new(base, quote, Exchange::Binance, symbol)
        } else {
            Instrument::new(symbol, "USDT", Exchange::Binance, symbol)
        }
    }

    /// Depth stream name for an instrument: lower-cased symbol, "@depth", interval suffix.
    pub fn build_stream(&self, instrument: &Instrument) -> (s: String)
        ensures
            s@ == lowercase(instrument.raw_symbol@) + "@depth"@ + update_interval_suffix(self.interval),
    {
        let mut s = to_lowercase(instrument.raw_symbol.as_str());
        s.append("@depth");
        s.append(self.interval.as_str());
        s
    }
}

/// The depth stream of an instrument at an update interval.
pub open spec fn binance_stream(i: Instrument, interval: UpdateInterval) -> Seq<char> {
    lowercase(i.raw_symbol@) + "@depth"@ + update_interval_suffix(interval)
}

/// The depth streams of instruments, in order.
pub open spec fn binance_streams(instruments: Seq<Instrument>, interval: UpdateInterval) -> Seq<Seq<char>> {
    instruments.map_values(|i: Instrument| binance_stream(i, interval))
}

/// The text of a Binance stream request: an object with the request id,
/// the method and the streams, keys in the order serde_json writes them.
pub open spec fn binance_request_text(method: Seq<char>, streams: Seq<Seq<char>>, id: u64) -> Seq<char> {
    "{\"id\":"@ + decimal_digits(id as nat) + ",\"method\":"@ + json_quoted(method) + ",\"params\":"@
        + json_string_array(streams) + "}"@
}

impl BinanceAdapter {
    /// The request `method` for the depth streams of `instruments`, with request id `id`.
    pub fn stream_request(&self, method: &str, instruments: &[Instrument], id: u64) -> (s: String)
        ensures
            s@ == binance_request_text(method@, binance_streams(instruments@, self.interval), id),
    {
        let mut streams: Vec<String> = Vec::new();
        let mut i: usize = 0;
        while i < instruments.len()
            invariant
                i <= instruments@.len(),
                streams@.map_values(|t: String| t@) == binance_streams(instruments@.take(i as int), self.interval),
            decreases instruments@.len() - i,
        {
            let stream = self.build_stream(&instruments[i]);
            let ghost before = streams@;
            streams.push(stream);
            proof {
                assert(streams@.map_values(|t: String| t@) =~= before.map_values(|t: String| t@).push(stream@));
                assert(binance_streams(instruments@.take(i as int + 1), self.interval)
                    =~= binance_streams(instruments@.take(i as int), self.interval).push(binance_stream(instruments@[i as int], self.interval)));
            }
            i = i + 1;
        }
        assert(instruments@.take(instruments@.len() as int) =~= instruments@);
        let mut s = String::from_str("{\"id\":");
        let digits = u64_decimal(id);
        s.append(digits.as_str());
        s.append(",\"method\":");
        let m = json_string(method);
        s.append(m.as_str());
        s.append(",\"params\":");
        let p = json_array_of(streams.as_slice());
        s.append(p.as_str());
        s.append("}");
        s
    }

    /// One request, with the next request id, for a list of instruments; none for no instruments.
    fn stream_requests(&self, method: &str, instruments: &[Instrument]) -> (msgs: Vec<String>)
        ensures
            instruments@.len() == 0 ==> msgs@.len() == 0,
            instruments@.len() > 0 ==> msgs@.len() == 1 && exists|id: u64| #[trigger] binance_request_text(method@,
                binance_streams(instruments@, self.interval), id) == msgs@[0]@,
    {
        let mut msgs: Vec<String> = Vec::new();
        if instruments.len() == 0 {
            return msgs;
        }
        let id = self.next_request_id();
        let m = self.stream_request(method, instruments, id);
        msgs.push(m);
        assert(binance_request_text(method@, binance_streams(instruments@, self.interval), id) == msgs@[0]@);
        msgs
    }


}


impl BinanceAdapter {

    /// The error a Binance error reply denotes: code -1003 is rate limiting
    /// (retry after 1000 ms), any other code an exchange error with code and message.
    pub fn classify_error(&self, code: i64, message: &str) -> (e: FlashError)
        ensures
            code == -1003 ==> (e matches FlashError::RateLimited { exchange, retry_after_ms }
                && exchange@ == "binance"@ && retry_after_ms == 1000),
            code != -1003 ==> (e matches FlashError::ExchangeError { exchange, code: c, message: m }
                && exchange@ == "binance"@ && c == code as i32 && m@ == message@),
    {
        if code == -1003 {
            FlashError::RateLimited { exchange: String::from_str("binance"), retry_after_ms: 1000 }
        } else {
            FlashError::ExchangeError { exchange: String::from_str("binance"), code: code as i32, message: String::from_str(message) }
        }
    }

}


// =============================================================================
// DECODING
// =============================================================================

/// The error a Binance error code denotes: -1003 is rate limiting (retry
/// after 1000 ms), any other code an exchange error with code and message.
pub open spec fn binance_error_fault(code: i64, message: Seq<char>) -> DecodeFault {
    if code == -1003 {
        DecodeFault::RateLimited("binance"@, 1000)
    } else {
        DecodeFault::Exchange("binance"@, code as i32, message)
    }
}

/// The error a decoded Binance reply reports: one with an `error` object
/// whose `code` is an integer; the message is its `msg`, else "Unknown error".
pub open spec fn binance_json_error(json: Json) -> Option<DecodeFault> {
    match json.spec_get("error"@) {
        Some(err) => match err.spec_get("code"@) {
            Some(c) => match c.spec_as_i64() {
                Some(code) => Some(binance_error_fault(code, match err.spec_get("msg"@) {
                    Some(m) => match m.spec_as_str() {
                        Some(t) => t,
                        None => "Unknown error"@,
                    },
                    None => "Unknown error"@,
                })),
                None => None,
            },
            None => None,
        },
        None => None,
    }
}

/// The sequence number a member gives, when it is a `u64`.
pub open spec fn sequence_of(v: Option<Json>) -> Option<u64> {
    match v {
        Some(j) => j.spec_as_u64(),
        None => None,
    }
}

/// The depth-update event a message gives at local time `now`: instrument
/// from `s`, time from `E` (ms, else `now`), levels from `b` and `a`,
/// sequence from `u`.
pub open spec fn binance_depth_event(json: Json, now: Timestamp) -> Result<EventModel, DecodeFault> {
    let symbol = str_member(json, "s"@);
    let ts = timestamp_or(json.spec_get("E"@), true, now);
    match levels_member(json.spec_get("b"@), ts) {
        Err(f) => Err(f),
        Ok(bids) => match levels_member(json.spec_get("a"@), ts) {
            Err(f) => Err(f),
            Ok(asks) => Ok(EventModel {
                event_type: MarketEventType::Delta,
                base: binance_base(symbol),
                quote: binance_quote_of(symbol),
                exchange: Exchange::Binance,
                raw_symbol: symbol,
                timestamp: ts,
                local_timestamp: now,
                sequence: sequence_of(json.spec_get("u"@)),
                data: DataModel::Book { bids, asks },
            }),
        },
    }
}

/// The sequence of a decoded depth update is the final update id: the
/// unsigned number in its "u" member, none when "u" is missing or not such a
/// number, whatever else (such as the first update id "U") the message holds.
pub proof fn law_binance_depth_sequence_is_final_update_id(json: Json, now: Timestamp)
    requires
        binance_depth_event(json, now) is Ok,
    ensures
        binance_depth_event(json, now)->Ok_0.sequence == match json.spec_get("u"@) {
            Some(Json::Number(t)) => crate::json::u64_of_text(t@),
            _ => None::<u64>,
        },
{
}

/// The snapshot event a partial-depth message gives at local time `now`: the
/// instrument is unknown (it comes from the stream name), the time is `now`,
/// levels from `bids` and `asks`, sequence from `lastUpdateId`.
pub open spec fn binance_partial_depth_event(json: Json, now: Timestamp) -> Result<EventModel, DecodeFault> {
    match levels_member(json.spec_get("bids"@), now) {
        Err(f) => Err(f),
        Ok(bids) => match levels_member(json.spec_get("asks"@), now) {
            Err(f) => Err(f),
            Ok(asks) => Ok(EventModel {
                event_type: MarketEventType::Snapshot,
                base: "UNKNOWN"@,
                quote: "USDT"@,
                exchange: Exchange::Binance,
                raw_symbol: "UNKNOWN"@,
                timestamp: now,
                local_timestamp: now,
                sequence: sequence_of(json.spec_get("lastUpdateId"@)),
                data: DataModel::Book { bids, asks },
            }),
        },
    }
}

/// The trade event a trade message gives at local time `now`: instrument
/// from `s`, time from `E` (ms, else `now`), price from `p` and quantity
/// from `q` (zero when missing or unreadable), the ask side when the buyer
/// is the maker (`m` is true), trade id from the digits of `t`.
pub open spec fn binance_trade_event(json: Json, now: Timestamp) -> EventModel {
    let symbol = str_member(json, "s"@);
    EventModel {
        event_type: MarketEventType::Trade,
        base: binance_base(symbol),
        quote: binance_quote_of(symbol),
        exchange: Exchange::Binance,
        raw_symbol: symbol,
        timestamp: timestamp_or(json.spec_get("E"@), true, now),
        local_timestamp: now,
        sequence: None,
        data: DataModel::Trade {
            price: match json.spec_get("p"@) {
                Some(p) => match price_of(p) {
                    Ok(d) => d,
                    Err(_) => zero(),
                },
                None => zero(),
            },
            quantity: match json.spec_get("q"@) {
                Some(q) => match quantity_of(q) {
                    Ok(d) => d,
                    Err(_) => zero(),
                },
                None => zero(),
            },
            side: if json.spec_get("m"@) == Some(Json::Bool(true)) { Side::Ask } else { Side::Bid },
            trade_id: match sequence_of(json.spec_get("t"@)) {
                Some(n) => Some(decimal_digits(n as nat)),
                None => None,
            },
        },
    }
}

/// A decoded depth update is a delta whose bids are read from "b" and asks
/// from "a", at the time in "E" (milliseconds, else the local time), for the
/// instrument named in "s".
pub proof fn law_binance_depth_fields(json: Json, now: Timestamp)
    requires
        binance_depth_event(json, now) is Ok,
    ensures
        ({
            let e = binance_depth_event(json, now)->Ok_0;
            let ts = timestamp_or(json.spec_get("E"@), true, now);
            &&& e.event_type == MarketEventType::Delta
            &&& e.timestamp == ts
            &&& e.local_timestamp == now
            &&& e.raw_symbol == str_member(json, "s"@)
            &&& e.data == DataModel::Book {
                bids: levels_member(json.spec_get("b"@), ts)->Ok_0,
                asks: levels_member(json.spec_get("a"@), ts)->Ok_0,
            }
        }),
{
}

/// A decoded trade has its price from "p", its quantity from "q" (zero
/// when missing or unreadable), the ask side exactly when the buyer is the
/// maker ("m" is true), and the time in "E" (milliseconds, else the local time).
pub proof fn law_binance_trade_fields(json: Json, now: Timestamp)
    ensures
        ({
            let e = binance_trade_event(json, now);
            &&& e.event_type == MarketEventType::Trade
            &&& e.timestamp == timestamp_or(json.spec_get("E"@), true, now)
            &&& e.raw_symbol == str_member(json, "s"@)
            &&& e.data matches DataModel::Trade { price, quantity, side, .. }
                && (side == Side::Ask <==> json.spec_get("m"@) == Some(Json::Bool(true)))
                && (forall|p: Json| json.spec_get("p"@) == Some(p) && price_of(p) is Ok ==> price == price_of(p)->Ok_0)
                && (forall|q: Json| json.spec_get("q"@) == Some(q) && quantity_of(q) is Ok ==> quantity == quantity_of(q)->Ok_0)
        }),
{
}

/// The events one decoded message gives by its event type `e`: a depth
/// update, a trade, a partial-depth snapshot when `e` is missing and both
/// `bids` and `asks` are there, and nothing otherwise.
pub open spec fn binance_event_events(json: Json, now: Timestamp) -> Result<Seq<EventModel>, DecodeFault> {
    let e = str_member(json, "e"@);
    if e == "depthUpdate"@ {
        match binance_depth_event(json, now) {
            Ok(ev) => Ok(seq![ev]),
            Err(f) => Err(f),
        }
    } else if e == "trade"@ {
        Ok(seq![binance_trade_event(json, now)])
    } else if e.len() == 0 && json.spec_get("bids"@) is Some && json.spec_get("asks"@) is Some {
        match binance_partial_depth_event(json, now) {
            Ok(ev) => Ok(seq![ev]),
            Err(f) => Err(f),
        }
    } else {
        Ok(Seq::empty())
    }
}

/// The events a decoded message gives: a combined-stream wrapper
/// `{"stream": .., "data": ..}` is decoded as its `data` (an error reply
/// there is reported), anything else by its event type.
pub open spec fn binance_body_events(json: Json, now: Timestamp) -> Result<Seq<EventModel>, DecodeFault>
    decreases json,
{
    match json.spec_get("data"@) {
        Some(data) => {
            proof {
                lemma_member_smaller(json, "data"@);
            }
            if binance_json_error(data) is Some {
                Err(binance_json_error(data)->0)
            } else {
                binance_body_events(data, now)
            }
        },
        None => binance_event_events(json, now),
    }
}

/// The events a Binance message gives, at local time `now`, from its raw text
/// and its decoding: the reported error when the text mentions "error" and
/// the reply carries an error code; a parse error for undecodable text; else
/// the events of the decoded message.
pub open spec fn binance_events(raw: Seq<char>, parsed: Result<Json, Seq<char>>, now: Timestamp) -> Result<Seq<EventModel>, DecodeFault> {
    match parsed {
        Err(e) => Err(DecodeFault::Parse(e)),
        Ok(json) => if contains_seq(raw, "\"error\""@) && binance_json_error(json) is Some {
            Err(binance_json_error(json)->0)
        } else {
            binance_body_events(json, now)
        },
    }
}

/// Whether every symbol the decoding of a message splits stays on character
/// boundaries (see `binance_symbol_ok`).
pub open spec fn binance_body_ok(json: Json) -> bool
    decreases json,
{
    match json.spec_get("data"@) {
        Some(data) => {
            proof {
                lemma_member_smaller(json, "data"@);
            }
            binance_json_error(data) is Some || binance_body_ok(data)
        },
        None => {
            let e = str_member(json, "e"@);
            e == "depthUpdate"@ || e == "trade"@ ==> binance_symbol_ok(str_member(json, "s"@))
        },
    }
}

impl BinanceAdapter {
    /// The error a decoded reply reports, if any.
    pub fn json_error(&self, json: &Json) -> (r: Option<FlashError>)
        ensures
            match binance_json_error(*json) {
                Some(f) => r matches Some(e) && error_is(e, f),
                None => r is None,
            },
    {
        let err = match json.get("error") {
            Some(e) => e,
            None => return None,
        };
        let code = match err.get("code") {
            Some(c) => match c.as_i64() {
                Some(code) => code,
                None => return None,
            },
            None => return None,
        };
        let message = match err.get("msg") {
            Some(m) => match m.as_str() {
                Some(t) => t,
                None => "Unknown error",
            },
            None => "Unknown error",
        };
        Some(self.classify_error(code, message))
    }


    /// Decode a depth-update message.
    pub fn parse_depth_update(&self, json: &Json, now: Timestamp) -> (r: Result<MarketEvent, FlashError>)
        requires
            binance_symbol_ok(str_member(*json, "s"@)),
        ensures
            match binance_depth_event(*json, now) {
                Ok(m) => r matches Ok(e) && event_model(e) == m,
                Err(f) => r matches Err(e) && error_is(e, f),
            },
    {
        let symbol = get_str(json, "s");
        let instrument = self.parse_instrument(symbol);
        let timestamp = timestamp_or_else(json.get("E"), true, now);
        let bids = match parse_levels_member(json.get("b"), timestamp) {
            Ok(b) => b,
            Err(e) => return Err(e),
        };
        let asks = match parse_levels_member(json.get("a"), timestamp) {
            Ok(a) => a,
            Err(e) => return Err(e),
        };
        let sequence = match json.get("u") {
            Some(u) => u.as_u64(),
            None => None,
        };
        Ok(MarketEvent {
            event_type: MarketEventType::Delta,
            instrument,
            timestamp,
            local_timestamp: now,
            sequence,
            data: MarketData::Book { bids, asks },
        })
    }

    /// Decode a partial-depth snapshot message.
    pub fn parse_partial_depth(&self, json: &Json, now: Timestamp) -> (r: Result<MarketEvent, FlashError>)
        ensures
            match binance_partial_depth_event(*json, now) {
                Ok(m) => r matches Ok(e) && event_model(e) == m,
                Err(f) => r matches Err(e) && error_is(e, f),
            },
    {
        let instrument = Instrument::new("UNKNOWN", "USDT", Exchange::Binance, "UNKNOWN");
        let bids = match parse_levels_member(json.get("bids"), now) {
            Ok(b) => b,
            Err(e) => return Err(e),
        };
        let asks = match parse_levels_member(json.get("asks"), now) {
            Ok(a) => a,
            Err(e) => return Err(e),
        };
        let sequence = match json.get("lastUpdateId") {
            Some(u) => u.as_u64(),
            None => None,
        };
        proof {
            reveal_strlit("UNKNOWN");
            reveal_strlit("USDT");
        }
        Ok(MarketEvent {
            event_type: MarketEventType::Snapshot,
            instrument,
            timestamp: now,
            local_timestamp: now,
            sequence,
            data: MarketData::Book { bids, asks },
        })
    }

    /// Decode a trade message.
    pub fn parse_trade_message(&self, json: &Json, now: Timestamp) -> (e: MarketEvent)
        requires
            binance_symbol_ok(str_member(*json, "s"@)),
        ensures
            event_model(e) == binance_trade_event(*json, now),
    {
        let symbol = get_str(json, "s");
        let instrument = self.parse_instrument(symbol);
        let timestamp = timestamp_or_else(json.get("E"), true, now);
        let price = match json.get("p") {
            Some(p) => match parse_price(p) {
                Ok(d) => d,
                Err(_) => decimal_from_u64(0),
            },
            None => decimal_from_u64(0),
        };
        let quantity = match json.get("q") {
            Some(q) => match parse_quantity(q) {
                Ok(d) => d,
                Err(_) => decimal_from_u64(0),
            },
            None => decimal_from_u64(0),
        };
        let is_buyer_maker = match json.get("m") {
            Some(m) => match m.as_bool() {
                Some(b) => b,
                None => false,
            },
            None => false,
        };
        let side = if is_buyer_maker { Side::Ask } else { Side::Bid };
        let trade_id: Option<String> = match json.get("t") {
            Some(t) => match t.as_u64() {
                Some(n) => Some(u64_decimal(n)),
                None => None,
            },
            None => None,
        };
        MarketEvent {
            event_type: MarketEventType::Trade,
            instrument,
            timestamp,
            local_timestamp: now,
            sequence: None,
            data: MarketData::Trade { price, quantity, side, trade_id },
        }
    }

    /// Decode a message by its event type.
    fn parse_event(&self, json: &Json, now: Timestamp) -> (r: Result<Vec<MarketEvent>, FlashError>)
        requires
            json.spec_get("data"@) is None,
            binance_body_ok(*json),
        ensures
            match binance_event_events(*json, now) {
                Ok(es) => r matches Ok(v) && events_model(v@) == es,
                Err(f) => r matches Err(e) && error_is(e, f),
            },
    {
        let event_type = get_str(json, "e");
        if str_eq(event_type, "depthUpdate") {
            match self.parse_depth_update(json, now) {
                Ok(e) => {
                    let mut v: Vec<MarketEvent> = Vec::new();
                    v.push(e);
                    assert(events_model(v@) =~= seq![event_model(e)]);
                    Ok(v)
                },
                Err(e) => Err(e),
            }
        } else if str_eq(event_type, "trade") {
            let e = self.parse_trade_message(json, now);
            let mut v: Vec<MarketEvent> = Vec::new();
            v.push(e);
            assert(events_model(v@) =~= seq![event_model(e)]);
            Ok(v)
        } else if event_type.is_empty() && json.get("bids").is_some() && json.get("asks").is_some() {
            match self.parse_partial_depth(json, now) {
                Ok(e) => {
                    let mut v: Vec<MarketEvent> = Vec::new();
                    v.push(e);
                    assert(events_model(v@) =~= seq![event_model(e)]);
                    Ok(v)
                },
                Err(e) => Err(e),
            }
        } else {
            let v: Vec<MarketEvent> = Vec::new();
            assert(events_model(v@) =~= Seq::<EventModel>::empty());
            Ok(v)
        }
    }

    /// Decode a decoded message, unwrapping combined-stream wrappers.
    fn parse_body(&self, json: &Json, now: Timestamp) -> (r: Result<Vec<MarketEvent>, FlashError>)
        requires
            binance_body_ok(*json),
        ensures
            match binance_body_events(*json, now) {
                Ok(es) => r matches Ok(v) && events_model(v@) == es,
                Err(f) => r matches Err(e) && error_is(e, f),
            },
        decreases *json,
    {
        match json.get("data") {
            Some(data) => {
                proof {
                    lemma_member_smaller(*json, "data"@);
                }
                match self.json_error(data) {
                    Some(e) => Err(e),
                    None => self.parse_body(data, now),
                }
            },
            None => self.parse_event(json, now),
        }
    }

    /// Whether decoding a decoded message splits every symbol it reads on
    /// character boundaries.
    fn body_splits_cleanly(&self, json: &Json) -> (b: bool)
        ensures
            b == binance_body_ok(*json),
        decreases *json,
    {
        match json.get("data") {
            Some(data) => {
                proof {
                    lemma_member_smaller(*json, "data"@);
                }
                self.json_error(data).is_some() || self.body_splits_cleanly(data)
            },
            None => {
                let e = get_str(json, "e");
                if str_eq(e, "depthUpdate") || str_eq(e, "trade") {
                    BinanceAdapter::symbol_splits_cleanly(get_str(json, "s"))
                } else {
                    true
                }
            },
        }
    }


}

/// A combined-stream wrapper `{"stream": .., "data": ..}` decodes as the
/// message it carries, unless that message is an error reply.
pub proof fn law_combined_stream_is_transparent(json: Json, data: Json, now: Timestamp)
    requires
        json.spec_get("data"@) == Some(data),
        binance_json_error(data) is None,
    ensures
        binance_body_events(json, now) == binance_body_events(data, now),
{
}

/// Whether decoding a decoded message splits every symbol it reads on
/// character boundaries (always so when the text did not decode).
pub open spec fn binance_decoded_ok(parsed: Result<Json, Seq<char>>) -> bool {
    match parsed {
        Ok(json) => binance_body_ok(json),
        Err(_) => true,
    }
}

impl BinanceAdapter {
    /// Decode a raw message when every symbol its decoding reads splits on
    /// character boundaries; `None`, and nothing decoded, when one does not.
    pub fn try_parse_message(&self, raw: &str, now: Timestamp) -> (r: Option<Result<Vec<MarketEvent>, FlashError>>)
        ensures
            r is None <==> !binance_decoded_ok(json_decode(raw@)),
            r matches Some(res) ==> match binance_events(raw@, json_decode(raw@), now) {
                Ok(es) => res matches Ok(v) && events_model(v@) == es,
                Err(f) => res matches Err(e) && error_is(e, f),
            },
    {
        if self.can_decode(raw) {
            Some(self.parse_message(raw, now))
        } else {
            None
        }
    }

    /// Decode a Binance message given its raw text, its JSON decoding and the
    /// local time.
    pub fn parse_decoded(&self, raw: &str, parsed: &Result<Json, String>, now: Timestamp) -> (r: Result<Vec<MarketEvent>, FlashError>)
        requires
            binance_decoded_ok(parsed_model(*parsed)),
        ensures
            match binance_events(raw@, parsed_model(*parsed), now) {
                Ok(es) => r matches Ok(v) && events_model(v@) == es,
                Err(f) => r matches Err(e) && error_is(e, f),
            },
    {
        if contains_field(raw, "\"error\"") {
            match self.decoded_error(parsed) {
                Some(e) => return Err(e),
                None => {},
            }
        }
        match parsed {
            Ok(json) => self.parse_body(json, now),
            Err(e) => Err(FlashError::ParseError(e.clone())),
        }
    }

    /// The error a decoded reply reports; nothing when the text did not decode.
    pub fn decoded_error(&self, parsed: &Result<Json, String>) -> (r: Option<FlashError>)
        ensures
            match parsed_model(*parsed) {
                Ok(json) => match binance_json_error(json) {
                    Some(f) => r matches Some(e) && error_is(e, f),
                    None => r is None,
                },
                Err(_) => r is None,
            },
    {
        match parsed {
            Ok(json) => self.json_error(json),
            Err(_) => None,
        }
    }
}

impl ExchangeAdapter for BinanceAdapter {
    open spec fn spec_exchange(&self) -> Exchange {
        Exchange::Binance
    }

    /// A decoded message can be taken when every symbol its decoding splits
    /// splits on character boundaries.
    open spec fn decodable(&self, raw: Seq<char>) -> bool {
        binance_decoded_ok(json_decode(raw))
    }

    /// Decode a raw message with serde_json, then read its events.
    fn parse_message(&self, raw: &str, now: Timestamp) -> (r: Result<Vec<MarketEvent>, FlashError>)
        ensures
            match binance_events(raw@, json_decode(raw@), now) {
                Ok(es) => r matches Ok(v) && events_model(v@) == es,
                Err(f) => r matches Err(e) && error_is(e, f),
            },
    {
        let parsed = decode_json(raw);
        self.parse_decoded(raw, &parsed, now)
    }

    /// Decode a raw reply with serde_json, then read the error it reports;
    /// nothing when the text does not decode.
    fn parse_error(&self, raw: &str) -> (r: Option<FlashError>)
        ensures
            match json_decode(raw@) {
                Ok(json) => match binance_json_error(json) {
                    Some(f) => r matches Some(e) && error_is(e, f),
                    None => r is None,
                },
                Err(_) => r is None,
            },
    {
        let parsed = decode_json(raw);
        self.decoded_error(&parsed)
    }

    fn exchange(&self) -> (e: Exchange) {
        Exchange::Binance
    }

    /// Binance sends no application-level heartbeats.
    fn is_heartbeat(&self, raw: &str) -> (b: bool)
        ensures
            !b,
    {
        false
    }

    /// A subscription reply carries both a "result" and an "id" field.
    fn is_subscription_response(&self, raw: &str) -> (b: bool)
        ensures
            b == (contains_seq(raw@, "\"result\""@) && contains_seq(raw@, "\"id\""@)),
    {
        contains_field(raw, "\"result\"") && contains_field(raw, "\"id\"")
    }

    fn websocket_url(&self) -> (u: &str)
        ensures
            u@ == BINANCE_WS_URL@,
    {
        BINANCE_WS_URL
    }

    fn rate_limit(&self) -> (r: RateLimit)
        ensures
            r == binance_rate_limit(),
    {
        RateLimit::binance()
    }



    /// The SUBSCRIBE request for the depth streams of the instruments (none
    /// for no instruments); it takes the next request id.
    fn build_subscribe(&self, instruments: &[Instrument]) -> (msgs: Vec<String>)
        ensures
            instruments@.len() == 0 ==> msgs@.len() == 0,
            instruments@.len() > 0 ==> msgs@.len() == 1 && exists|id: u64| #[trigger] binance_request_text("SUBSCRIBE"@,
                binance_streams(instruments@, self.interval), id) == msgs@[0]@,
    {
        self.stream_requests("SUBSCRIBE", instruments)
    }

    /// The UNSUBSCRIBE request for the depth streams of the instruments (none
    /// for no instruments); it takes the next request id.
    fn build_unsubscribe(&self, instruments: &[Instrument]) -> (msgs: Vec<String>)
        ensures
            instruments@.len() == 0 ==> msgs@.len() == 0,
            instruments@.len() > 0 ==> msgs@.len() == 1 && exists|id: u64| #[trigger] binance_request_text("UNSUBSCRIBE"@,
                binance_streams(instruments@, self.interval), id) == msgs@[0]@,
    {
        self.stream_requests("UNSUBSCRIBE", instruments)
    }

    /// Binance answers pings at the WebSocket protocol level, so no application pong is sent.
    fn handle_ping(&self, payload: &[u8]) -> (r: Option<Vec<u8>>)
        ensures
            r is None,
    {
        None
    }

    /// Binance public streams need no authentication message.
    fn build_auth(&self, api_key: &str, api_secret: &str, timestamp: i64) -> (r: Option<String>)
        ensures
            r is None,
    {
        None
    }

    /// Whether `parse_message` can decode this message: every symbol it would
    /// split must split on character boundaries.
    fn can_decode(&self, raw: &str) -> (b: bool)
    {
        let parsed = decode_json(raw);
        match &parsed {
            Ok(json) => self.body_splits_cleanly(json),
            Err(_) => true,
        }
    }
}

} // verus!
