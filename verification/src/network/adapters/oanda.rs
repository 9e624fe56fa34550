//! OANDA adapter: price message records, instrument naming, streaming URLs, and decoding of price messages.

use super::common::{contains_field, error_is, iso_instant, parse_iso_timestamp, parse_price, price_of, DecodeFault};
use super::deribit::zero;
use crate::json::{decode_json, get_str, json_decode, parsed_model, str_member, Json};
use crate::text::{join_seq, str_eq};
use crate::types::{
    decimal_from_u64, decimal_of_u64, event_model, events_model, DataModel, EventModel, MarketData, MarketEvent,
    MarketEventType, PriceLevel, Timestamp,
};
use super::traits::{oanda_rate_limit, ExchangeAdapter, RateLimit};
use crate::text::{chars_of, contains_seq, split_chars, split_seq, string_of};
use crate::types::{Exchange, FlashError, Instrument};
use vstd::prelude::*;

verus! {

/// One OANDA price level: the price as text (for precision) and the units available.
#[derive(Debug, Clone, PartialEq, Eq)]
pub struct OandaLevel {
    /// Price as a string.
    pub price: String,
    /// Liquidity available at this price (units).
    pub liquidity: i64,
}

impl OandaLevel {
    /// Create a level.
    pub fn new(price: &str, liquidity: i64) -> (l: OandaLevel)
        ensures
            l.price@ == price@,
            l.liquidity == liquidity,
    {
        OandaLevel { price: String::from_str(price), liquidity }
    }
}

/// An OANDA PRICE message.
#[derive(Debug, Clone, PartialEq, Eq)]
pub struct OandaPrice {
    /// Message type ("PRICE" for price messages).
    pub msg_type: String,
    /// ISO-8601 timestamp.
    pub time: String,
    /// Instrument, e.g. "EUR_USD".
    pub instrument: String,
    /// Bid levels.
    pub bids: Vec<OandaLevel>,
    /// Ask levels.
    pub asks: Vec<OandaLevel>,
}

/// An OANDA HEARTBEAT message.
#[derive(Debug, Clone, PartialEq, Eq)]
pub struct OandaHeartbeat {
    /// Message type ("HEARTBEAT").
    pub msg_type: String,
    /// ISO-8601 timestamp.
    pub time: String,
}

/// Sum of the liquidity of the first `n` levels.
pub open spec fn liquidity_sum(levels: Seq<OandaLevel>, n: int) -> int
    decreases n,
{
    if n <= 0 || n > levels.len() {
        0
    } else {
        liquidity_sum(levels, n - 1) + levels[n - 1].liquidity
    }
}

/// Every running total of the levels' liquidity fits in an `i64`.
pub open spec fn liquidity_sums_fit(levels: Seq<OandaLevel>) -> bool {
    forall|n: int| 0 <= n <= levels.len() ==> i64::MIN <= #[trigger] liquidity_sum(levels, n) <= i64::MAX
}

/// Total liquidity of a list of levels.
pub fn total_liquidity(levels: &Vec<OandaLevel>) -> (t: i64)
    requires
        liquidity_sums_fit(levels@),
    ensures
        t == liquidity_sum(levels@, levels@.len() as int),
{
    let mut t: i64 = 0;
    let mut i: usize = 0;
    while i < levels.len()
        invariant
            i <= levels.len(),
            liquidity_sums_fit(levels@),
            t == liquidity_sum(levels@, i as int),
        decreases levels.len() - i,
    {
        assert(i64::MIN <= liquidity_sum(levels@, i as int + 1) <= i64::MAX);
        t = t + levels[i].liquidity;
        i = i + 1;
    }
    t
}

impl OandaPrice {
    /// A valid PRICE message has type "PRICE" and a non-empty instrument.
    pub fn is_valid(&self) -> (b: bool)
        ensures
            b == (self.msg_type@ == "PRICE"@ && self.instrument@.len() > 0),
    {
        let price = String::from_str("PRICE");
        self.msg_type == price && !self.instrument.as_str().is_empty()
    }

    /// Sum of the liquidity of all bid levels.
    pub fn total_bid_liquidity(&self) -> (t: i64)
        requires
            liquidity_sums_fit(self.bids@),
        ensures
            t == liquidity_sum(self.bids@, self.bids@.len() as int),
    {
        total_liquidity(&self.bids)
    }

    /// Sum of the liquidity of all ask levels.
    pub fn total_ask_liquidity(&self) -> (t: i64)
        requires
            liquidity_sums_fit(self.asks@),
        ensures
            t == liquidity_sum(self.asks@, self.asks@.len() as int),
    {
        total_liquidity(&self.asks)
    }
}

/// Base WebSocket URL for OANDA (practice/demo).
pub const OANDA_WS_URL_PRACTICE: &'static str = "wss://stream-fxpractice.oanda.com/v3/accounts";

/// Base WebSocket URL for OANDA (live).
pub const OANDA_WS_URL_LIVE: &'static str = "wss://stream-fxtrade.oanda.com/v3/accounts";

/// Base URL for an environment.
pub open spec fn oanda_base_url(use_live: bool) -> Seq<char> {
    if use_live {
        OANDA_WS_URL_LIVE@
    } else {
        OANDA_WS_URL_PRACTICE@
    }
}

/// The raw symbols of a list of instruments.
pub open spec fn raw_symbols(instruments: Seq<Instrument>) -> Seq<Seq<char>> {
    instruments.map_values(|i: Instrument| i.raw_symbol@)
}

/// OANDA exchange adapter.
#[derive(Debug, Clone)]
pub struct OandaAdapter {
    /// Account ID used in streaming URLs.
    pub account_id: String,
    /// Access token for the Authorization header.
    pub access_token: Option<String>,
    /// Use the live environment rather than practice.
    pub use_live: bool,
}

impl OandaAdapter {
    /// Create an adapter for an account, without a token, on the practice environment.
    pub fn new(account_id: &str) -> (a: OandaAdapter)
        ensures
            a.account_id@ == account_id@,
            a.access_token is None,
            !a.use_live,
    {
        OandaAdapter { account_id: String::from_str(account_id), access_token: None, use_live: false }
    }

    /// Create an adapter for an account with an access token, on the practice environment.
    pub fn with_token(account_id: &str, access_token: &str) -> (a: OandaAdapter)
        ensures
            a.account_id@ == account_id@,
            a.access_token is Some && a.access_token->0@ == access_token@,
            !a.use_live,
    {
        OandaAdapter {
            account_id: String::from_str(account_id),
            access_token: Some(String::from_str(access_token)),
            use_live: false,
        }
    }

    /// Select the live (true) or practice (false) environment.
    pub fn with_live(self, use_live: bool) -> (a: OandaAdapter)
        ensures
            a.account_id == self.account_id,
            a.access_token == self.access_token,
            a.use_live == use_live,
    {
        let mut a = self;
        a.use_live = use_live;
        a
    }

    /// Instrument of an OANDA symbol: "EUR_USD" splits into base "EUR" and
    /// quote "USD"; a symbol that does not split into exactly two parts on '_'
    /// becomes the base with an empty quote.
    pub fn parse_instrument(&self, symbol: &str) -> (inst: Instrument)
        ensures
            inst.exchange == Exchange::Oanda,
            inst.raw_symbol@ == symbol@,
            split_seq(symbol@, '_').len() == 2 ==> inst.base@ == split_seq(symbol@, '_')[0]
                && inst.quote@ == split_seq(symbol@, '_')[1],
            split_seq(symbol@, '_').len() != 2 ==> inst.base@ == symbol@ && inst.quote@ == Seq::<char>::empty(),
    {
        let sv = chars_of(symbol);
        let parts = split_chars(sv.as_slice(), '_');
        if parts.len() == 2 {
            let base = string_of(parts[0].as_slice());
            let quote = string_of(parts[1].as_slice());
            Instrument::new(base.as_str(), quote.as_str(), Exchange::Oanda, symbol)
        } else {
            proof {
                reveal_strlit("");
            }
            Instrument::new(symbol, "", Exchange::Oanda, symbol)
        }
    }

    /// Streaming URL: the environment's base, the account, and the raw symbols
    /// of the instruments joined by commas.
    pub fn build_streaming_url(&self, instruments: &[Instrument]) -> (url: String)
        ensures
            url@ == oanda_base_url(self.use_live) + "/"@ + self.account_id@
                + "/pricing/stream?instruments="@ + join_seq(raw_symbols(instruments@), ","@),
    {
        let mut url = String::from_str(if self.use_live { OANDA_WS_URL_LIVE } else { OANDA_WS_URL_PRACTICE });
        url.append("/");
        url.append(self.account_id.as_str());
        url.append("/pricing/stream?instruments=");
        let ghost prefix = url@;
        let mut i: usize = 0;
        while i < instruments.len()
            invariant
                i <= instruments.len(),
                url@ == prefix + join_seq(raw_symbols(instruments@.take(i as int)), ","@),
            decreases instruments.len() - i,
        {
            proof {
                let t = instruments@.take(i as int + 1);
                assert(raw_symbols(t).drop_last() =~= raw_symbols(instruments@.take(i as int)));
                assert(raw_symbols(t).last() == instruments@[i as int].raw_symbol@);
            }
            if i > 0 {
                url.append(",");
            }
            url.append(instruments[i].raw_symbol.as_str());
            proof {
                let t = instruments@.take(i as int + 1);
                if i == 0 {
                    assert(raw_symbols(t).len() == 1);
                    assert(join_seq(raw_symbols(instruments@.take(0)), ","@) =~= Seq::<char>::empty());
                }
                assert(url@ =~= prefix + join_seq(raw_symbols(t), ","@));
            }
            i = i + 1;
        }
        assert(instruments@.take(instruments.len() as int) =~= instruments@);
        url
    }




    /// The error an OANDA error reply denotes: an exchange error with code 0
    /// and the reply's message.
    pub fn classify_error(&self, message: &str) -> (e: FlashError)
        ensures
            e matches FlashError::ExchangeError { exchange, code, message: m }
                && exchange@ == "oanda"@ && code == 0 && m@ == message@,
    {
        FlashError::ExchangeError { exchange: String::from_str("oanda"), code: 0, message: String::from_str(message) }
    }

}



// =============================================================================
// DECODING
// =============================================================================

/// The time of a message: its `time` read as ISO-8601, else `now`.
pub open spec fn oanda_time(json: Json, now: Timestamp) -> Timestamp {
    match json.spec_get("time"@) {
        Some(v) => match v.spec_as_str() {
            Some(s) => match iso_instant(s) {
                Some(t) => t,
                None => now,
            },
            None => now,
        },
        None => now,
    }
}

/// The price level one OANDA level object gives: its `price` (zero when
/// missing or unreadable) and its `liquidity` as the quantity (zero when
/// missing or not a `u64`).
pub open spec fn oanda_level(item: Json, timestamp: Timestamp) -> PriceLevel {
    PriceLevel {
        price: match item.spec_get("price"@) {
            Some(p) => match price_of(p) {
                Ok(d) => d,
                Err(_) => zero(),
            },
            None => zero(),
        },
        quantity: decimal_of_u64(match item.spec_get("liquidity"@) {
            Some(l) => match l.spec_as_u64() {
                Some(n) => n,
                None => 0,
            },
            None => 0,
        }),
        timestamp,
    }
}

/// The levels a member of OANDA levels gives: one per element of an array,
/// none for anything else or a missing member.
pub open spec fn oanda_levels(v: Option<Json>, timestamp: Timestamp) -> Seq<PriceLevel> {
    match v {
        Some(Json::Array(items)) => items@.map_values(|item: Json| oanda_level(item, timestamp)),
        _ => Seq::empty(),
    }
}

/// An OANDA levels array decodes into one level per element, in order:
/// level `i` is read from element `i` alone, its price from that element's
/// "price" (zero when missing or unreadable), its quantity from its
/// "liquidity" (zero when missing or not an unsigned number), at the given time.
pub proof fn law_oanda_levels_follow_items(items: Vec<Json>, timestamp: Timestamp)
    ensures
        oanda_levels(Some(Json::Array(items)), timestamp).len() == items@.len(),
        forall|i: int| 0 <= i < items@.len() ==> {
            let level = #[trigger] oanda_levels(Some(Json::Array(items)), timestamp)[i];
            &&& level == oanda_level(items@[i], timestamp)
            &&& level.timestamp == timestamp
            &&& match items@[i].spec_get("price"@) {
                Some(p) => match price_of(p) {
                    Ok(d) => level.price == d,
                    Err(_) => level.price == zero(),
                },
                None => level.price == zero(),
            }
            &&& match items@[i].spec_get("liquidity"@) {
                Some(l) => match l.spec_as_u64() {
                    Some(n) => level.quantity == decimal_of_u64(n),
                    None => level.quantity == decimal_of_u64(0),
                },
                None => level.quantity == decimal_of_u64(0),
            }
        },
{
}

/// A PRICE message's book has one bid level per element of its "bids" array
/// and one ask level per element of its "asks" array, in order.
pub proof fn law_oanda_price_book_sizes(json: Json, now: Timestamp, bids: Vec<Json>, asks: Vec<Json>)
    requires
        json.spec_get("bids"@) == Some(Json::Array(bids)),
        json.spec_get("asks"@) == Some(Json::Array(asks)),
    ensures
        oanda_price_event(json, now).data matches DataModel::Book { bids: b, asks: a }
            && b.len() == bids@.len() && a.len() == asks@.len()
            && (forall|i: int| 0 <= i < bids@.len() ==> #[trigger] b[i] == oanda_level(bids@[i], oanda_time(json, now)))
            && (forall|i: int| 0 <= i < asks@.len() ==> #[trigger] a[i] == oanda_level(asks@[i], oanda_time(json, now))),
{
    law_oanda_levels_follow_items(bids, oanda_time(json, now));
    law_oanda_levels_follow_items(asks, oanda_time(json, now));
}

/// The snapshot event a PRICE message gives at local time `now`.
pub open spec fn oanda_price_event(json: Json, now: Timestamp) -> EventModel {
    let symbol = str_member(json, "instrument"@);
    let ts = oanda_time(json, now);
    EventModel {
        event_type: MarketEventType::Snapshot,
        base: oanda_base(symbol),
        quote: oanda_quote(symbol),
        exchange: Exchange::Oanda,
        raw_symbol: symbol,
        timestamp: ts,
        local_timestamp: now,
        sequence: None,
        data: DataModel::Book {
            bids: oanda_levels(json.spec_get("bids"@), ts),
            asks: oanda_levels(json.spec_get("asks"@), ts),
        },
    }
}

/// The base asset of an OANDA symbol.
pub open spec fn oanda_base(symbol: Seq<char>) -> Seq<char> {
    if split_seq(symbol, '_').len() == 2 {
        split_seq(symbol, '_')[0]
    } else {
        symbol
    }
}

/// The quote asset of an OANDA symbol.
pub open spec fn oanda_quote(symbol: Seq<char>) -> Seq<char> {
    if split_seq(symbol, '_').len() == 2 {
        split_seq(symbol, '_')[1]
    } else {
        Seq::empty()
    }
}

/// An OANDA symbol "BASE_QUOTE" whose two parts hold no '_' splits into
/// exactly that base and that quote ("EUR_USD" gives "EUR" and "USD").
pub proof fn law_oanda_symbol_splits_on_underscore(b: Seq<char>, q: Seq<char>)
    requires
        !b.contains('_'),
        !q.contains('_'),
    ensures
        oanda_base(b + seq!['_'] + q) == b,
        oanda_quote(b + seq!['_'] + q) == q,
{
    crate::text::lemma_split_two(b, q, '_');
}

/// The heartbeat event a HEARTBEAT message gives at local time `now`.
pub open spec fn oanda_heartbeat_event(json: Json, now: Timestamp) -> EventModel {
    EventModel {
        event_type: MarketEventType::Heartbeat,
        base: Seq::empty(),
        quote: Seq::empty(),
        exchange: Exchange::Oanda,
        raw_symbol: Seq::empty(),
        timestamp: oanda_time(json, now),
        local_timestamp: now,
        sequence: None,
        data: DataModel::Heartbeat { exchange_time: oanda_time(json, now) },
    }
}

/// The message of an OANDA error reply: its `errorMessage`, else "Unknown error".
pub open spec fn oanda_error_message(json: Json) -> Seq<char> {
    match json.spec_get("errorMessage"@) {
        Some(m) => match m.spec_as_str() {
            Some(t) => t,
            None => "Unknown error"@,
        },
        None => "Unknown error"@,
    }
}

/// The events an OANDA message gives, at local time `now`, from its raw text
/// and its decoding: a parse error for undecodable text; an exchange error
/// (code 0) when the text mentions "errorMessage"; the snapshot of a PRICE
/// message; nothing for heartbeats and other types.
pub open spec fn oanda_events(raw: Seq<char>, parsed: Result<Json, Seq<char>>, now: Timestamp) -> Result<Seq<EventModel>, DecodeFault> {
    match parsed {
        Err(e) => Err(DecodeFault::Parse(e)),
        Ok(json) => if contains_seq(raw, "\"errorMessage\""@) {
            Err(DecodeFault::Exchange("oanda"@, 0, oanda_error_message(json)))
        } else if str_member(json, "type"@) == "PRICE"@ {
            Ok(seq![oanda_price_event(json, now)])
        } else {
            Ok(Seq::empty())
        },
    }
}

impl OandaAdapter {
    /// The time of a message, `now` when it has none or it cannot be read.
    fn message_time(json: &Json, now: Timestamp) -> (t: Timestamp)
        ensures
            t == oanda_time(*json, now),
    {
        match json.get("time") {
            Some(v) => match v.as_str() {
                Some(s) => match parse_iso_timestamp(s) {
                    Ok(t) => t,
                    Err(_) => now,
                },
                None => now,
            },
            None => now,
        }
    }

    /// Read OANDA levels (`{"price": .., "liquidity": ..}` objects); anything
    /// but an array gives no levels.
    pub fn parse_liquidity_levels(&self, arr: &Json, timestamp: Timestamp) -> (r: Result<Vec<PriceLevel>, FlashError>)
        ensures
            r matches Ok(v) && v@ == oanda_levels(Some(*arr), timestamp),
    {
        let items = match arr {
            Json::Array(items) => items,
            _ => return Ok(Vec::new()),
        };
        let mut levels: Vec<PriceLevel> = Vec::new();
        let mut i: usize = 0;
        while i < items.len()
            invariant
                *arr == Json::Array(*items),
                i <= items@.len(),
                levels@ == items@.take(i as int).map_values(|item: Json| oanda_level(item, timestamp)),
            decreases items@.len() - i,
        {
            let item = &items[i];
            let price = match item.get("price") {
                Some(p) => match parse_price(p) {
                    Ok(d) => d,
                    Err(_) => decimal_from_u64(0),
                },
                None => decimal_from_u64(0),
            };
            let liquidity: u64 = match item.get("liquidity") {
                Some(l) => match l.as_u64() {
                    Some(n) => n,
                    None => 0,
                },
                None => 0,
            };
            let quantity = decimal_from_u64(liquidity);
            let level = PriceLevel::new(price, quantity, timestamp);
            let ghost before = levels@;
            levels.push(level);
            proof {
                assert(level == oanda_level(items@[i as int], timestamp));
                assert(items@.take(i as int + 1).map_values(|item: Json| oanda_level(item, timestamp))
                    =~= before.push(level));
            }
            i = i + 1;
        }
        assert(items@.take(items@.len() as int) =~= items@);
        Ok(levels)
    }

    /// Decode a PRICE message.
    pub fn parse_price_message(&self, json: &Json, now: Timestamp) -> (r: Result<MarketEvent, FlashError>)
        ensures
            r matches Ok(e) && event_model(e) == oanda_price_event(*json, now),
    {
        let symbol = get_str(json, "instrument");
        let instrument = self.parse_instrument(symbol);
        let timestamp = OandaAdapter::message_time(json, now);
        let bids = match json.get("bids") {
            Some(b) => match self.parse_liquidity_levels(b, timestamp) {
                Ok(v) => v,
                Err(e) => return Err(e),
            },
            None => Vec::new(),
        };
        let asks = match json.get("asks") {
            Some(a) => match self.parse_liquidity_levels(a, timestamp) {
                Ok(v) => v,
                Err(e) => return Err(e),
            },
            None => Vec::new(),
        };
        proof {
            if json.spec_get("bids"@) is None {
                assert(bids@ =~= oanda_levels(json.spec_get("bids"@), timestamp));
            }
            if json.spec_get("asks"@) is None {
                assert(asks@ =~= oanda_levels(json.spec_get("asks"@), timestamp));
            }
        }
        Ok(MarketEvent {
            event_type: MarketEventType::Snapshot,
            instrument,
            timestamp,
            local_timestamp: now,
            sequence: None,
            data: MarketData::Book { bids, asks },
        })
    }

    /// Decode a HEARTBEAT message.
    pub fn parse_heartbeat_message(&self, json: &Json, now: Timestamp) -> (r: Result<MarketEvent, FlashError>)
        ensures
            r matches Ok(e) && event_model(e) == oanda_heartbeat_event(*json, now),
    {
        let timestamp = OandaAdapter::message_time(json, now);
        proof {
            reveal_strlit("");
            assert(""@ =~= Seq::<char>::empty());
        }
        Ok(MarketEvent {
            event_type: MarketEventType::Heartbeat,
            instrument: Instrument::new("", "", Exchange::Oanda, ""),
            timestamp,
            local_timestamp: now,
            sequence: None,
            data: MarketData::Heartbeat { exchange_time: timestamp },
        })
    }


}

impl OandaAdapter {
    /// Decode an OANDA message given its raw text, its JSON decoding and the
    /// local time.
    pub fn parse_decoded(&self, raw: &str, parsed: &Result<Json, String>, now: Timestamp) -> (r: Result<Vec<MarketEvent>, FlashError>)
        ensures
            match oanda_events(raw@, parsed_model(*parsed), now) {
                Ok(es) => r matches Ok(v) && events_model(v@) == es,
                Err(f) => r matches Err(e) && error_is(e, f),
            },
    {
        if contains_field(raw, "\"errorMessage\"") {
            match self.decoded_error(parsed) {
                Some(e) => return Err(e),
                None => {},
            }
        }
        let json = match parsed {
            Ok(j) => j,
            Err(e) => return Err(FlashError::ParseError(e.clone())),
        };
        let msg_type = get_str(json, "type");
        if str_eq(msg_type, "PRICE") {
            match self.parse_price_message(json, now) {
                Ok(e) => {
                    let mut v: Vec<MarketEvent> = Vec::new();
                    v.push(e);
                    assert(events_model(v@) =~= seq![event_model(e)]);
                    Ok(v)
                },
                Err(e) => Err(e),
            }
        } else {
            let v: Vec<MarketEvent> = Vec::new();
            assert(events_model(v@) =~= Seq::<EventModel>::empty());
            Ok(v)
        }
    }

    /// The error a decoded reply reports: an exchange error with code 0 and
    /// its `errorMessage` (or "Unknown error"); nothing when the text did not decode.
    pub fn decoded_error(&self, parsed: &Result<Json, String>) -> (r: Option<FlashError>)
        ensures
            match parsed_model(*parsed) {
                Ok(json) => r matches Some(e) && error_is(e, DecodeFault::Exchange("oanda"@, 0, oanda_error_message(json))),
                Err(_) => r is None,
            },
    {
        match parsed {
            Ok(json) => {
                let message = match json.get("errorMessage") {
                    Some(m) => match m.as_str() {
                        Some(t) => t,
                        None => "Unknown error",
                    },
                    None => "Unknown error",
                };
                Some(self.classify_error(message))
            },
            Err(_) => None,
        }
    }
}

impl ExchangeAdapter for OandaAdapter {
    open spec fn spec_exchange(&self) -> Exchange {
        Exchange::Oanda
    }

    open spec fn decodable(&self, raw: Seq<char>) -> bool {
        true
    }

    /// Every message can be taken.
    fn can_decode(&self, raw: &str) -> (b: bool) {
        true
    }

    /// Decode a raw message with serde_json, then read its events.
    fn parse_message(&self, raw: &str, now: Timestamp) -> (r: Result<Vec<MarketEvent>, FlashError>)
        ensures
            match oanda_events(raw@, json_decode(raw@), now) {
                Ok(es) => r matches Ok(v) && events_model(v@) == es,
                Err(f) => r matches Err(e) && error_is(e, f),
            },
    {
        let parsed = decode_json(raw);
        self.parse_decoded(raw, &parsed, now)
    }

    /// Decode a raw reply with serde_json, then read the error it reports.
    fn parse_error(&self, raw: &str) -> (r: Option<FlashError>)
        ensures
            match json_decode(raw@) {
                Ok(json) => r matches Some(e) && error_is(e, DecodeFault::Exchange("oanda"@, 0, oanda_error_message(json))),
                Err(_) => r is None,
            },
    {
        let parsed = decode_json(raw);
        self.decoded_error(&parsed)
    }

    fn exchange(&self) -> (e: Exchange) {
        Exchange::Oanda
    }

    /// A heartbeat has type "HEARTBEAT".
    fn is_heartbeat(&self, raw: &str) -> (b: bool)
        ensures
            b == contains_seq(raw@, "\"type\":\"HEARTBEAT\""@),
    {
        contains_field(raw, "\"type\":\"HEARTBEAT\"")
    }

    /// OANDA sends no subscription replies: instruments are chosen in the URL.
    fn is_subscription_response(&self, raw: &str) -> (b: bool)
        ensures
            !b,
    {
        false
    }

    fn websocket_url(&self) -> (u: &str)
        ensures
            u@ == oanda_base_url(self.use_live),
    {
        if self.use_live {
            OANDA_WS_URL_LIVE
        } else {
            OANDA_WS_URL_PRACTICE
        }
    }

    fn rate_limit(&self) -> (r: RateLimit)
        ensures
            r == oanda_rate_limit(),
    {
        RateLimit::oanda()
    }



    /// OANDA subscribes through the streaming URL, so no message is sent.
    fn build_subscribe(&self, instruments: &[Instrument]) -> (msgs: Vec<String>)
        ensures
            msgs@.len() == 0,
    {
        Vec::new()
    }

    /// OANDA cannot unsubscribe; the connection is closed instead, so no message is sent.
    fn build_unsubscribe(&self, instruments: &[Instrument]) -> (msgs: Vec<String>)
        ensures
            msgs@.len() == 0,
    {
        Vec::new()
    }

    /// OANDA answers pings at the protocol level, so no application pong is sent.
    fn handle_ping(&self, payload: &[u8]) -> (r: Option<Vec<u8>>)
        ensures
            r is None,
    {
        None
    }

    /// The OANDA Authorization header for the stored token, if there is one.
    fn build_auth(&self, api_key: &str, api_secret: &str, timestamp: i64) -> (r: Option<String>)
        ensures
            match self.access_token {
                Some(t) => r is Some && r->0@ == "Authorization: Bearer "@ + t@,
                None => r is None,
            },
    {
        match &self.access_token {
            Some(token) => {
                let mut s = String::from_str("Authorization: Bearer ");
                s.append(token.as_str());
                Some(s)
            },
            None => None,
        }
    }
}

} // verus!
