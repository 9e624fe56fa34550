//! Helpers shared by the exchange adapters: fast substring checks on raw
//! messages; reading prices, quantities, timestamps (epoch and ISO-8601)
//! and price levels out of decoded JSON; and the JSON text of requests.

use crate::json::{i64_of_text, Json};
use crate::text::{contains_seq, join_seq, str_contains};
use crate::types::{decimal_parse, parse_decimal, FlashError, PriceLevel, Timestamp};
use rust_decimal::Decimal;
use vstd::prelude::*;

pub use crate::json::{get_i64, get_str, get_u64};

verus! {

/// Whether a raw message contains a substring: a fast check before decoding.
pub fn contains_field(raw: &str, field: &str) -> (b: bool)
    ensures
        b == contains_seq(raw@, field@),
{
    str_contains(raw, field)
}

/// Why a message could not be decoded.
pub enum DecodeFault {
    /// A price could not be read; the reason.
    Price(Seq<char>),
    /// A quantity could not be read; its text and the reason.
    Quantity(Seq<char>, Seq<char>),
    /// The structure is not what was expected; the message.
    Parse(Seq<char>),
    /// The message has an unexpected shape; the message.
    Format(Seq<char>),
    /// The exchange rate-limited us: exchange name and retry delay (ms).
    RateLimited(Seq<char>, u64),
    /// Authentication was refused: exchange name and reason.
    Auth(Seq<char>, Seq<char>),
    /// The exchange reported an error: exchange name, code and message.
    Exchange(Seq<char>, i32, Seq<char>),
}

/// Whether an error is the one a fault describes.
pub open spec fn error_is(e: FlashError, f: DecodeFault) -> bool {
    match f {
        DecodeFault::Price(r) => e matches FlashError::InvalidPrice { reason } && reason@ == r,
        DecodeFault::Quantity(q, r) => e matches FlashError::InvalidQuantity { quantity, reason }
            && quantity@ == q && reason@ == r,
        DecodeFault::Parse(m) => e matches FlashError::ParseError(x) && x@ == m,
        DecodeFault::Format(m) => e matches FlashError::UnknownMessageFormat(x) && x@ == m,
        DecodeFault::RateLimited(x, ms) => e matches FlashError::RateLimited { exchange, retry_after_ms }
            && exchange@ == x && retry_after_ms == ms,
        DecodeFault::Auth(x, r) => e matches FlashError::AuthenticationFailed { exchange, reason }
            && exchange@ == x && reason@ == r,
        DecodeFault::Exchange(x, c, m) => e matches FlashError::ExchangeError { exchange, code, message }
            && exchange@ == x && code == c && message@ == m,
    }
}

/// Short name of the kind of a JSON value that is neither string nor number.
pub open spec fn kind_name(v: Json) -> Seq<char> {
    match v {
        Json::Null => "Null"@,
        Json::Bool(b) => if b { "Bool(true)"@ } else { "Bool(false)"@ },
        Json::Number(_) => "Number"@,
        Json::Str(_) => "String"@,
        Json::Array(_) => "Array"@,
        Json::Object(_) => "Object"@,
    }
}

fn kind_text(v: &Json) -> (s: String)
    ensures
        s@ == kind_name(*v),
{
    match v {
        Json::Null => String::from_str("Null"),
        Json::Bool(b) => if *b { String::from_str("Bool(true)") } else { String::from_str("Bool(false)") },
        Json::Number(_) => String::from_str("Number"),
        Json::Str(_) => String::from_str("String"),
        Json::Array(_) => String::from_str("Array"),
        Json::Object(_) => String::from_str("Object"),
    }
}

/// The price a JSON value gives: a string or a number read as a decimal.
pub open spec fn price_of(v: Json) -> Result<Decimal, DecodeFault> {
    match v {
        Json::Str(s) => match decimal_parse(s@) {
            Ok(d) => Ok(d),
            Err(e) => Err(DecodeFault::Price("Failed to parse price string: "@ + e)),
        },
        Json::Number(t) => match decimal_parse(t@) {
            Ok(d) => Ok(d),
            Err(e) => Err(DecodeFault::Price("Number not representable as a decimal: "@ + e)),
        },
        _ => Err(DecodeFault::Price("Expected string or number, got "@ + kind_name(v))),
    }
}

/// The quantity a JSON value gives: a string or a number read as a decimal.
pub open spec fn quantity_of(v: Json) -> Result<Decimal, DecodeFault> {
    match v {
        Json::Str(s) => match decimal_parse(s@) {
            Ok(d) => Ok(d),
            Err(e) => Err(DecodeFault::Quantity(s@, "Failed to parse quantity: "@ + e)),
        },
        Json::Number(t) => match decimal_parse(t@) {
            Ok(d) => Ok(d),
            Err(e) => Err(DecodeFault::Quantity(t@, "Failed to parse quantity: "@ + e)),
        },
        _ => Err(DecodeFault::Quantity(kind_name(v), "Expected string or number"@)),
    }
}

/// Read a price.
pub fn parse_price(value: &Json) -> (r: Result<Decimal, FlashError>)
    ensures
        match price_of(*value) {
            Ok(d) => r == Ok::<Decimal, FlashError>(d),
            Err(f) => r matches Err(e) && error_is(e, f),
        },
{
    match value {
        Json::Str(s) => match parse_decimal(s.as_str()) {
            Ok(d) => Ok(d),
            Err(e) => {
                let mut reason = String::from_str("Failed to parse price string: ");
                reason.append(e.as_str());
                Err(FlashError::InvalidPrice { reason })
            },
        },
        Json::Number(t) => match parse_decimal(t.as_str()) {
            Ok(d) => Ok(d),
            Err(e) => {
                let mut reason = String::from_str("Number not representable as a decimal: ");
                reason.append(e.as_str());
                Err(FlashError::InvalidPrice { reason })
            },
        },
        _ => {
            let mut reason = String::from_str("Expected string or number, got ");
            let k = kind_text(value);
            reason.append(k.as_str());
            Err(FlashError::InvalidPrice { reason })
        },
    }
}

/// Read a quantity.
pub fn parse_quantity(value: &Json) -> (r: Result<Decimal, FlashError>)
    ensures
        match quantity_of(*value) {
            Ok(d) => r == Ok::<Decimal, FlashError>(d),
            Err(f) => r matches Err(e) && error_is(e, f),
        },
{
    match value {
        Json::Str(s) => match parse_decimal(s.as_str()) {
            Ok(d) => Ok(d),
            Err(e) => {
                let mut reason = String::from_str("Failed to parse quantity: ");
                reason.append(e.as_str());
                Err(FlashError::InvalidQuantity { quantity: s.clone(), reason })
            },
        },
        Json::Number(t) => match parse_decimal(t.as_str()) {
            Ok(d) => Ok(d),
            Err(e) => {
                let mut reason = String::from_str("Failed to parse quantity: ");
                reason.append(e.as_str());
                Err(FlashError::InvalidQuantity { quantity: t.clone(), reason })
            },
        },
        _ => Err(FlashError::InvalidQuantity { quantity: kind_text(value), reason: String::from_str("Expected string or number") }),
    }
}

/// The time a JSON value gives: an integer number or an integer string, in
/// milliseconds (scaled to microseconds) when `is_millis`, else microseconds.
/// Values whose microseconds do not fit an `i64` give none.
pub open spec fn timestamp_of(v: Json, is_millis: bool) -> Option<Timestamp> {
    let raw = match v {
        Json::Number(t) => i64_of_text(t@),
        Json::Str(s) => i64_of_text(s@),
        _ => None,
    };
    match raw {
        Some(ts) => if is_millis {
            if i64::MIN <= ts * 1000 <= i64::MAX { Some((ts * 1000) as i64) } else { None }
        } else {
            Some(ts)
        },
        None => None,
    }
}

/// A timestamp given in milliseconds is read as its number times 1000 (in
/// microseconds), and one given in microseconds as its number; a product
/// beyond `i64` is unreadable.
pub proof fn law_timestamp_units(v: Json, n: i64)
    requires
        v matches Json::Number(t) && i64_of_text(t@) == Some(n),
    ensures
        timestamp_of(v, false) == Some(n),
        i64::MIN <= n * 1000 <= i64::MAX ==> timestamp_of(v, true) == Some((n * 1000) as i64),
        !(i64::MIN <= n * 1000 <= i64::MAX) ==> timestamp_of(v, true) is None,
{
}

/// Read a timestamp; an unreadable value is a parse error.
pub fn parse_timestamp(value: &Json, is_millis: bool) -> (r: Result<Timestamp, FlashError>)
    ensures
        match timestamp_of(*value, is_millis) {
            Some(t) => r == Ok::<Timestamp, FlashError>(t),
            None => r matches Err(e) && error_is(e, DecodeFault::Parse("invalid timestamp"@)),
        },
{
    let raw = match value {
        Json::Number(t) => crate::json::parse_i64(t.as_str()),
        Json::Str(s) => crate::json::parse_i64(s.as_str()),
        _ => None,
    };
    match raw {
        Some(ts) => {
            if is_millis {
                match ts.checked_mul(1000) {
                    Some(us) => Ok(us),
                    None => Err(FlashError::ParseError(String::from_str("invalid timestamp"))),
                }
            } else {
                Ok(ts)
            }
        },
        None => Err(FlashError::ParseError(String::from_str("invalid timestamp"))),
    }
}

/// The time a member gives, or `fallback` when it is missing or unreadable.
pub open spec fn timestamp_or(v: Option<Json>, is_millis: bool, fallback: Timestamp) -> Timestamp {
    match v {
        Some(j) => match timestamp_of(j, is_millis) {
            Some(t) => t,
            None => fallback,
        },
        None => fallback,
    }
}

/// Read an optional timestamp member, with a fallback.
pub fn timestamp_or_else(v: Option<&Json>, is_millis: bool, fallback: Timestamp) -> (t: Timestamp)
    ensures
        t == timestamp_or(match v { Some(j) => Some(*j), None => None }, is_millis, fallback),
{
    match v {
        Some(j) => match parse_timestamp(j, is_millis) {
            Ok(t) => t,
            Err(_) => fallback,
        },
        None => fallback,
    }
}

/// The price level an array `[price, quantity, ...]` gives.
pub open spec fn level_of(items: Seq<Json>, timestamp: Timestamp) -> Result<PriceLevel, DecodeFault> {
    if items.len() < 2 {
        Err(DecodeFault::Parse("price level needs a price and a quantity"@))
    } else {
        match price_of(items[0]) {
            Err(f) => Err(f),
            Ok(p) => match quantity_of(items[1]) {
                Err(f) => Err(f),
                Ok(q) => Ok(PriceLevel { price: p, quantity: q, timestamp }),
            },
        }
    }
}

/// Read a price level from `[price, quantity, ...]`.
pub fn parse_level_array(items: &[Json], timestamp: Timestamp) -> (r: Result<PriceLevel, FlashError>)
    ensures
        match level_of(items@, timestamp) {
            Ok(l) => r matches Ok(x) && x == l,
            Err(f) => r matches Err(e) && error_is(e, f),
        },
{
    if items.len() < 2 {
        return Err(FlashError::ParseError(String::from_str("price level needs a price and a quantity")));
    }
    let price = match parse_price(&items[0]) {
        Ok(p) => p,
        Err(e) => return Err(e),
    };
    let quantity = match parse_quantity(&items[1]) {
        Ok(q) => q,
        Err(e) => return Err(e),
    };
    Ok(PriceLevel::new(price, quantity, timestamp))
}

/// The levels a sequence of entries gives: every entry that is an array is a
/// level, others are skipped; the first unreadable level is the error.
pub open spec fn levels_of(entries: Seq<Json>, timestamp: Timestamp) -> Result<Seq<PriceLevel>, DecodeFault>
    decreases entries.len(),
{
    if entries.len() == 0 {
        Ok(Seq::empty())
    } else {
        match levels_of(entries.drop_last(), timestamp) {
            Err(f) => Err(f),
            Ok(ls) => match entries.last() {
                Json::Array(items) => match level_of(items@, timestamp) {
                    Err(f) => Err(f),
                    Ok(l) => Ok(ls.push(l)),
                },
                _ => Ok(ls),
            },
        }
    }
}

/// A price level `[price, quantity, ...]` takes its price from the first
/// item and its quantity from the second, at the given time; it reads only
/// when both do, and needs at least two items.
pub proof fn law_level_reads_price_then_quantity(items: Seq<Json>, timestamp: Timestamp)
    ensures
        level_of(items, timestamp) is Ok <==> (items.len() >= 2 && price_of(items[0]) is Ok && quantity_of(items[1]) is Ok),
        level_of(items, timestamp) is Ok ==> level_of(items, timestamp)->Ok_0 == (PriceLevel {
            price: price_of(items[0])->Ok_0,
            quantity: quantity_of(items[1])->Ok_0,
            timestamp,
        }),
{
}

/// When every entry is an array and the levels read, there is one level per
/// entry, in order, level `i` read from entry `i`.
pub proof fn law_levels_follow_entries(entries: Seq<Json>, timestamp: Timestamp)
    requires
        forall|i: int| 0 <= i < entries.len() ==> (#[trigger] entries[i]) is Array,
        levels_of(entries, timestamp) is Ok,
    ensures
        levels_of(entries, timestamp)->Ok_0.len() == entries.len(),
        forall|i: int| 0 <= i < entries.len() ==> #[trigger] levels_of(entries, timestamp)->Ok_0[i]
            == level_of(entries[i]->Array_0@, timestamp)->Ok_0,
    decreases entries.len(),
{
    if entries.len() > 0 {
        let d = entries.drop_last();
        assert forall|i: int| 0 <= i < d.len() implies (#[trigger] d[i]) is Array by {
            assert(d[i] == entries[i]);
        }
        law_levels_follow_entries(d, timestamp);
        let ls = levels_of(entries, timestamp)->Ok_0;
        assert forall|i: int| 0 <= i < entries.len() implies #[trigger] ls[i]
            == level_of(entries[i]->Array_0@, timestamp)->Ok_0 by {
            if i < d.len() {
                assert(d[i] == entries[i]);
            }
        }
    }
}

/// The levels a JSON value gives: it must be an array of level arrays.
pub open spec fn levels_value(v: Json, timestamp: Timestamp) -> Result<Seq<PriceLevel>, DecodeFault> {
    match v {
        Json::Array(entries) => levels_of(entries@, timestamp),
        _ => Err(DecodeFault::Parse("expected an array of price levels"@)),
    }
}

/// Read the price levels of an array of `[price, quantity]` arrays.
pub fn parse_levels_array(value: &Json, timestamp: Timestamp) -> (r: Result<Vec<PriceLevel>, FlashError>)
    ensures
        match levels_value(*value, timestamp) {
            Ok(ls) => r matches Ok(v) && v@ == ls,
            Err(f) => r matches Err(e) && error_is(e, f),
        },
{
    let entries = match value {
        Json::Array(entries) => entries,
        _ => return Err(FlashError::ParseError(String::from_str("expected an array of price levels"))),
    };
    let mut levels: Vec<PriceLevel> = Vec::new();
    let mut i: usize = 0;
    while i < entries.len()
        invariant
            *value == Json::Array(*entries),
            i <= entries@.len(),
            levels_of(entries@.take(i as int), timestamp) == Ok::<Seq<PriceLevel>, DecodeFault>(levels@),
        decreases entries@.len() - i,
    {
        proof {
            let t = entries@.take(i as int + 1);
            assert(t.drop_last() =~= entries@.take(i as int));
            assert(t.last() == entries@[i as int]);
        }
        match &entries[i] {
            Json::Array(items) => {
                match parse_level_array(items.as_slice(), timestamp) {
                    Ok(l) => levels.push(l),
                    Err(e) => {
                        proof {
                            lemma_levels_error_sticks(entries@, i as int + 1, timestamp);
                        }
                        return Err(e);
                    },
                }
            },
            _ => {},
        }
        i = i + 1;
    }
    assert(entries@.take(entries@.len() as int) =~= entries@);
    Ok(levels)
}

/// Once a level cannot be read, the whole sequence fails the same way.
proof fn lemma_levels_error_sticks(entries: Seq<Json>, k: int, timestamp: Timestamp)
    requires
        0 <= k <= entries.len(),
        levels_of(entries.take(k), timestamp) is Err,
    ensures
        levels_of(entries, timestamp) == levels_of(entries.take(k), timestamp),
    decreases entries.len(),
{
    if k == entries.len() {
        assert(entries.take(k) =~= entries);
    } else {
        assert(entries.drop_last().take(k) =~= entries.take(k));
        lemma_levels_error_sticks(entries.drop_last(), k, timestamp);
    }
}

/// The levels a member gives, an absent member counting as no levels.
pub open spec fn levels_member(v: Option<Json>, timestamp: Timestamp) -> Result<Seq<PriceLevel>, DecodeFault> {
    match v {
        Some(j) => levels_value(j, timestamp),
        None => Ok(Seq::empty()),
    }
}

/// Read an optional member of levels; a missing one is no levels.
pub fn parse_levels_member(v: Option<&Json>, timestamp: Timestamp) -> (r: Result<Vec<PriceLevel>, FlashError>)
    ensures
        match levels_member(match v { Some(j) => Some(*j), None => None }, timestamp) {
            Ok(ls) => r matches Ok(x) && x@ == ls,
            Err(f) => r matches Err(e) && error_is(e, f),
        },
{
    match v {
        Some(j) => parse_levels_array(j, timestamp),
        None => Ok(Vec::new()),
    }
}


// =============================================================================
// ISO-8601 TIMESTAMPS
// =============================================================================

/// The instant an RFC 3339 text denotes, in microseconds since the Unix epoch,
/// as chrono reads it; `None` when chrono refuses the text.
pub uninterp spec fn rfc3339_instant(s: Seq<char>) -> Option<i64>;

/// The instant a text denotes under a chrono format string, in microseconds
/// since the Unix epoch; `None` when chrono refuses the text.
pub uninterp spec fn formatted_instant(s: Seq<char>, fmt: Seq<char>) -> Option<i64>;

/// Read an RFC 3339 date and time.
///
/// Calls `chrono::DateTime::parse_from_rfc3339` and takes the parsed instant
/// in UTC microseconds (`with_timezone(&Utc).timestamp_micros()`, which cannot
/// overflow for any date chrono accepts). The result depends on the text
/// alone; the contract names it `rfc3339_instant` of the text.
#[verifier::external_body]
fn rfc3339_micros(s: &str) -> (r: Option<i64>)
    ensures
        r == rfc3339_instant(s@),
{
    match chrono::DateTime::parse_from_rfc3339(s) {
        Ok(dt) => Some(dt.with_timezone(&chrono::Utc).timestamp_micros()),
        Err(_) => None,
    }
}

/// Read a date and time under a chrono format string.
///
/// Calls `chrono::DateTime::parse_from_str`, which needs an offset in the
/// text, and takes the parsed instant in UTC microseconds. The result depends
/// on the text and the format alone; the contract names it
/// `formatted_instant` of both.
#[verifier::external_body]
fn formatted_micros(s: &str, fmt: &str) -> (r: Option<i64>)
    ensures
        r == formatted_instant(s@, fmt@),
{
    match chrono::DateTime::parse_from_str(s, fmt) {
        Ok(dt) => Some(dt.with_timezone(&chrono::Utc).timestamp_micros()),
        Err(_) => None,
    }
}

/// The format tried when a text is not RFC 3339.
pub const ISO_FALLBACK_FORMAT: &'static str = "%Y-%m-%dT%H:%M:%S%.fZ";

/// The instant an ISO-8601 text denotes: as RFC 3339, else under the
/// fallback format.
pub open spec fn iso_instant(s: Seq<char>) -> Option<Timestamp> {
    match rfc3339_instant(s) {
        Some(t) => Some(t),
        None => formatted_instant(s, ISO_FALLBACK_FORMAT@),
    }
}

/// The outcome of reading an ISO-8601 text from the two readings tried: the
/// RFC 3339 one when it succeeded, else the fallback one, else an error.
pub fn iso_timestamp_result(rfc3339: Option<i64>, fallback: Option<i64>) -> (r: Result<Timestamp, FlashError>)
    ensures
        match rfc3339 {
            Some(t) => r == Ok::<Timestamp, FlashError>(t),
            None => match fallback {
                Some(t) => r == Ok::<Timestamp, FlashError>(t),
                None => r matches Err(e) && error_is(e, DecodeFault::Parse("invalid timestamp"@)),
            },
        },
{
    match rfc3339 {
        Some(t) => Ok(t),
        None => match fallback {
            Some(t) => Ok(t),
            None => Err(FlashError::ParseError(String::from_str("invalid timestamp"))),
        },
    }
}

/// Read an ISO-8601 timestamp (e.g. "2023-12-29T00:00:00.000000Z") as
/// microseconds since the Unix epoch.
pub fn parse_iso_timestamp(s: &str) -> (r: Result<Timestamp, FlashError>)
    ensures
        match iso_instant(s@) {
            Some(t) => r == Ok::<Timestamp, FlashError>(t),
            None => r matches Err(e) && error_is(e, DecodeFault::Parse("invalid timestamp"@)),
        },
{
    let first = rfc3339_micros(s);
    let second = match first {
        Some(_) => None,
        None => formatted_micros(s, ISO_FALLBACK_FORMAT),
    };
    iso_timestamp_result(first, second)
}


// =============================================================================
// JSON TEXT OF REQUESTS
// =============================================================================

/// A lower-case hexadecimal digit.
pub open spec fn hex_digit(n: nat) -> char {
    if n < 10 {
        (n + 48) as char
    } else {
        (n + 87) as char
    }
}

/// How serde_json writes one character inside a JSON string: quote and
/// backslash behind a backslash; backspace, tab, line feed, form feed and
/// carriage return by their short escapes; the other control characters
/// below U+0020 as `\u00XX` in lower-case hex; any other character as itself.
pub open spec fn json_escape_char(c: char) -> Seq<char> {
    if c == '"' {
        seq!['\\', '"']
    } else if c == '\\' {
        seq!['\\', '\\']
    } else if c == '\u{8}' {
        seq!['\\', 'b']
    } else if c == '\t' {
        seq!['\\', 't']
    } else if c == '\n' {
        seq!['\\', 'n']
    } else if c == '\u{c}' {
        seq!['\\', 'f']
    } else if c == '\r' {
        seq!['\\', 'r']
    } else if (c as u32) < 0x20 {
        seq!['\\', 'u', '0', '0', hex_digit(((c as u32) / 16) as nat), hex_digit(((c as u32) % 16) as nat)]
    } else {
        seq![c]
    }
}

/// The characters of a text, each written as inside a JSON string.
pub open spec fn json_escaped(s: Seq<char>) -> Seq<char>
    decreases s.len(),
{
    if s.len() == 0 {
        Seq::empty()
    } else {
        json_escaped(s.drop_last()) + json_escape_char(s.last())
    }
}

/// A text as a JSON string literal.
pub open spec fn json_quoted(s: Seq<char>) -> Seq<char> {
    seq!['"'] + json_escaped(s) + seq!['"']
}

/// Texts as a JSON array of strings.
pub open spec fn json_string_array(items: Seq<Seq<char>>) -> Seq<char> {
    seq!['['] + join_seq(items.map_values(|t: Seq<char>| json_quoted(t)), seq![',']) + seq![']']
}

/// A text as a JSON string literal.
///
/// Calls `serde_json::to_string` on the text. Serializing a `str` into memory
/// cannot fail; the contract restates serde_json's escaping (its `ESCAPE`
/// table and `format_escaped_str`).
#[verifier::external_body]
pub(crate) fn json_string(s: &str) -> (r: String)
    ensures
        r@ == json_quoted(s@),
{
    match serde_json::to_string(s) {
        Ok(t) => t,
        Err(_) => String::new(),
    }
}

/// Texts as a JSON array of strings, as serde_json writes it.
pub fn json_array_of(items: &[String]) -> (r: String)
    ensures
        r@ == json_string_array(items@.map_values(|s: String| s@)),
{
    let ghost texts = items@.map_values(|s: String| s@);
    let ghost quoted = texts.map_values(|t: Seq<char>| json_quoted(t));
    let mut r = String::from_str("[");
    proof {
        reveal_strlit("[");
        assert(join_seq(quoted.take(0), seq![',']) =~= Seq::<char>::empty());
        assert(r@ =~= seq!['['] + join_seq(quoted.take(0), seq![',']));
    }
    let mut i: usize = 0;
    while i < items.len()
        invariant
            i <= items@.len(),
            texts == items@.map_values(|s: String| s@),
            quoted == texts.map_values(|t: Seq<char>| json_quoted(t)),
            r@ == seq!['['] + join_seq(quoted.take(i as int), seq![',']),
        decreases items@.len() - i,
    {
        proof {
            reveal_strlit("[");
            reveal_strlit(",");
        }
        let q = json_string(items[i].as_str());
        if i > 0 {
            r.append(",");
        }
        r.append(q.as_str());
        proof {
            let t = quoted.take(i as int + 1);
            assert(t.drop_last() =~= quoted.take(i as int));
            assert(t.last() == json_quoted(items@[i as int]@));
            if i == 0 {
                assert(join_seq(quoted.take(0), seq![',']) =~= Seq::<char>::empty());
                assert(join_seq(t, seq![',']) == t[0]);
            }
            assert(r@ =~= seq!['['] + join_seq(t, seq![',']));
        }
        i = i + 1;
    }
    r.append("]");
    proof {
        reveal_strlit("]");
        assert(quoted.take(items@.len() as int) =~= quoted);
    }
    assert(r@ =~= json_string_array(texts));
    r
}

} // verus!
