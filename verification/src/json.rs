//! JSON values as plain data, their decoding from text (through
//! serde_json), the accessors the exchange adapters read messages through,
//! and decimal integer text.

use crate::text::{chars_of, str_eq};
use vstd::prelude::*;

verus! {

/// A JSON value.
#[derive(Debug)]
pub enum Json {
    /// `null`.
    Null,
    /// `true` or `false`.
    Bool(bool),
    /// A number, by its text.
    Number(String),
    /// A string.
    Str(String),
    /// An array.
    Array(Vec<Json>),
    /// An object: its members in order.
    Object(Vec<(String, Json)>),
}

/// Value of member `key`: the first member with that name.
pub open spec fn member(members: Seq<(String, Json)>, key: Seq<char>) -> Option<Json>
    decreases members.len(),
{
    if members.len() == 0 {
        None
    } else if members[0].0@ == key {
        Some(members[0].1)
    } else {
        member(members.drop_first(), key)
    }
}

/// Whether every character is a decimal digit.
pub open spec fn all_digits(s: Seq<char>) -> bool {
    forall|i: int| 0 <= i < s.len() ==> '0' <= #[trigger] s[i] && s[i] <= '9'
}

/// Value of a digit character.
pub open spec fn digit_value(c: char) -> int {
    (c as int) - ('0' as int)
}

/// Value of a sequence of decimal digits (0 for none).
pub open spec fn digits_value(s: Seq<char>) -> int
    decreases s.len(),
{
    if s.len() == 0 {
        0
    } else {
        digits_value(s.drop_last()) * 10 + digit_value(s.last())
    }
}

/// The integer a text denotes: an optional sign ('+' or '-') followed by at
/// least one decimal digit, nothing else.
pub open spec fn int_of_text(s: Seq<char>) -> Option<int> {
    if s.len() > 1 && s[0] == '-' && all_digits(s.drop_first()) {
        Some(-digits_value(s.drop_first()))
    } else if s.len() > 1 && s[0] == '+' && all_digits(s.drop_first()) {
        Some(digits_value(s.drop_first()))
    } else if s.len() > 0 && all_digits(s) {
        Some(digits_value(s))
    } else {
        None
    }
}

/// The integer a text denotes, when it fits an `i64`.
pub open spec fn i64_of_text(s: Seq<char>) -> Option<i64> {
    match int_of_text(s) {
        Some(v) => if i64::MIN <= v <= i64::MAX { Some(v as i64) } else { None },
        None => None,
    }
}

/// The natural number a text of digits alone denotes, when it fits a `u64`.
pub open spec fn u64_of_text(s: Seq<char>) -> Option<u64> {
    if s.len() > 0 && all_digits(s) && digits_value(s) <= u64::MAX {
        Some(digits_value(s) as u64)
    } else {
        None
    }
}

/// Digit values are never negative.
proof fn lemma_digits_nonneg(s: Seq<char>)
    requires
        all_digits(s),
    ensures
        digits_value(s) >= 0,
    decreases s.len(),
{
    if s.len() > 0 {
        assert(all_digits(s.drop_last())) by {
            assert forall|i: int| 0 <= i < s.drop_last().len() implies '0' <= #[trigger] s.drop_last()[i] && s.drop_last()[i] <= '9' by {
                assert(s.drop_last()[i] == s[i]);
            }
        }
        lemma_digits_nonneg(s.drop_last());
        assert('0' <= s[s.len() - 1]);
    }
}

/// A longer run of digits is worth at least as much as its prefix.
proof fn lemma_digits_monotone(s: Seq<char>, j: int, k: int)
    requires
        all_digits(s),
        0 <= j <= k <= s.len(),
    ensures
        digits_value(s.take(j)) <= digits_value(s.take(k)),
    decreases k - j,
{
    if j < k {
        let t = s.take(k);
        assert(t.drop_last() =~= s.take(k - 1));
        assert(all_digits(s.take(k - 1))) by {
            assert forall|i: int| 0 <= i < s.take(k - 1).len() implies '0' <= #[trigger] s.take(k - 1)[i] && s.take(k - 1)[i] <= '9' by {
                assert(s.take(k - 1)[i] == s[i]);
            }
        }
        lemma_digits_nonneg(s.take(k - 1));
        assert('0' <= s[k - 1]);
        lemma_digits_monotone(s, j, k - 1);
    }
}

/// Value of a run of decimal digits, when it is at most `limit`.
fn digits_at_most(d: &[char], limit: u64) -> (r: Option<u64>)
    ensures
        match r {
            Some(v) => d@.len() > 0 && all_digits(d@) && v == digits_value(d@) && v <= limit,
            None => !(d@.len() > 0 && all_digits(d@) && digits_value(d@) <= limit),
        },
{
    if d.len() == 0 {
        return None;
    }
    let mut acc: u64 = 0;
    let mut i: usize = 0;
    while i < d.len()
        invariant
            0 < d@.len(),
            i <= d@.len(),
            all_digits(d@.take(i as int)),
            acc == digits_value(d@.take(i as int)),
            acc <= limit,
        decreases d@.len() - i,
    {
        let c = d[i];
        let ghost t = d@.take(i as int + 1);
        proof {
            assert(t.drop_last() =~= d@.take(i as int));
            assert(t.last() == c);
        }
        if !('0' <= c && c <= '9') {
            proof {
                assert(!all_digits(d@)) by {
                    assert(d@[i as int] == c);
                }
            }
            return None;
        }
        let dv: u64 = (c as u32 - '0' as u32) as u64;
        assert(dv == digit_value(c));
        if dv > limit || acc > (limit - dv) / 10 {
            proof {
                assert(digits_value(t) > limit) by (nonlinear_arith)
                    requires
                        digits_value(t) == acc * 10 + dv,
                        dv > limit || acc > (limit - dv) / 10,
                        acc >= 0,
                        dv >= 0,
                ;
                if all_digits(d@) {
                    lemma_digits_monotone(d@, i as int + 1, d@.len() as int);
                    assert(d@.take(d@.len() as int) =~= d@);
                }
            }
            return None;
        }
        proof {
            assert(acc * 10 + dv <= limit) by (nonlinear_arith)
                requires
                    acc <= (limit - dv) / 10,
                    dv <= limit,
            ;
            assert(all_digits(t)) by {
                assert forall|k: int| 0 <= k < t.len() implies '0' <= #[trigger] t[k] && t[k] <= '9' by {
                    if k < i {
                        assert(t[k] == d@.take(i as int)[k]);
                    }
                }
            }
        }
        acc = acc * 10 + dv;
        i = i + 1;
    }
    assert(d@.take(d@.len() as int) =~= d@);
    Some(acc)
}

/// The `i64` a text denotes: an optional sign and decimal digits, in range.
pub fn parse_i64(s: &str) -> (r: Option<i64>)
    ensures
        r == i64_of_text(s@),
{
    let cs = chars_of(s);
    if cs.len() == 0 {
        return None;
    }
    let first = cs[0];
    if first == '-' || first == '+' {
        if cs.len() == 1 {
            return None;
        }
        let rest = cs.as_slice().split_at(1).1;
        assert(rest@ =~= s@.drop_first());
        let limit: u64 = if first == '-' { 9223372036854775808 } else { 9223372036854775807 };
        match digits_at_most(rest, limit) {
            Some(v) => {
                if first == '-' {
                    if v == 9223372036854775808 {
                        Some(i64::MIN)
                    } else {
                        Some(0 - (v as i64))
                    }
                } else {
                    Some(v as i64)
                }
            },
            None => {
                proof {
                    if all_digits(rest@) {
                        lemma_digits_nonneg(rest@);
                    }
                }
                None
            },
        }
    } else {
        match digits_at_most(cs.as_slice(), 9223372036854775807) {
            Some(v) => Some(v as i64),
            None => {
                proof {
                    if all_digits(s@) {
                        lemma_digits_nonneg(s@);
                    }
                }
                None
            },
        }
    }
}

/// The `u64` a text of digits alone denotes, in range.
pub fn parse_u64(s: &str) -> (r: Option<u64>)
    ensures
        r == u64_of_text(s@),
{
    let cs = chars_of(s);
    digits_at_most(cs.as_slice(), u64::MAX)
}

impl Json {
    /// The member `key` of an object.
    pub open spec fn spec_get(&self, key: Seq<char>) -> Option<Json> {
        match *self {
            Json::Object(m) => member(m@, key),
            _ => None,
        }
    }

    /// The text of a string.
    pub open spec fn spec_as_str(&self) -> Option<Seq<char>> {
        match *self {
            Json::Str(s) => Some(s@),
            _ => None,
        }
    }

    /// A number that is an integer within `i64`.
    pub open spec fn spec_as_i64(&self) -> Option<i64> {
        match *self {
            Json::Number(t) => i64_of_text(t@),
            _ => None,
        }
    }

    /// A number that is a non-negative integer within `u64`.
    pub open spec fn spec_as_u64(&self) -> Option<u64> {
        match *self {
            Json::Number(t) => u64_of_text(t@),
            _ => None,
        }
    }

    /// The member `key` of an object.
    pub fn get(&self, key: &str) -> (r: Option<&Json>)
        ensures
            match r {
                Some(v) => self.spec_get(key@) == Some(*v),
                None => self.spec_get(key@) is None,
            },
    {
        match self {
            Json::Object(members) => {
                let mut i: usize = 0;
                assert(members@.skip(0) =~= members@);
                while i < members.len()
                    invariant
                        i <= members@.len(),
                        self.spec_get(key@) == member(members@, key@),
                        member(members@, key@) == member(members@.skip(i as int), key@),
                    decreases members@.len() - i,
                {
                    let k = &members[i].0;
                    assert(members@.skip(i as int).drop_first() =~= members@.skip(i as int + 1));
                    assert(members@.skip(i as int)[0] == members@[i as int]);
                    if str_eq(k.as_str(), key) {
                        return Some(&members[i].1);
                    }
                    i = i + 1;
                }
                None
            },
            _ => None,
        }
    }

    /// The text of a string.
    pub fn as_str(&self) -> (r: Option<&str>)
        ensures
            match r {
                Some(s) => self.spec_as_str() == Some(s@),
                None => self.spec_as_str() is None,
            },
    {
        match self {
            Json::Str(s) => Some(s.as_str()),
            _ => None,
        }
    }

    /// The elements of an array.
    pub fn as_array(&self) -> (r: Option<&Vec<Json>>)
        ensures
            match r {
                Some(v) => *self == Json::Array(*v),
                None => !(self is Array),
            },
    {
        match self {
            Json::Array(v) => Some(v),
            _ => None,
        }
    }

    /// A boolean's value.
    pub fn as_bool(&self) -> (r: Option<bool>)
        ensures
            match r {
                Some(b) => *self == Json::Bool(b),
                None => !(self is Bool),
            },
    {
        match self {
            Json::Bool(b) => Some(*b),
            _ => None,
        }
    }

    /// A number that is an integer within `i64`.
    pub fn as_i64(&self) -> (r: Option<i64>)
        ensures
            r == self.spec_as_i64(),
    {
        match self {
            Json::Number(t) => parse_i64(t.as_str()),
            _ => None,
        }
    }

    /// A number that is a non-negative integer within `u64`.
    pub fn as_u64(&self) -> (r: Option<u64>)
        ensures
            r == self.spec_as_u64(),
    {
        match self {
            Json::Number(t) => parse_u64(t.as_str()),
            _ => None,
        }
    }
}

/// The text of member `key` when it is a string, else the empty text.
pub open spec fn str_member(json: Json, key: Seq<char>) -> Seq<char> {
    match json.spec_get(key) {
        Some(v) => match v.spec_as_str() {
            Some(s) => s,
            None => Seq::empty(),
        },
        None => Seq::empty(),
    }
}

/// The text of member `key` when it is a string, else "".
pub fn get_str<'a>(json: &'a Json, key: &str) -> (s: &'a str)
    ensures
        s@ == str_member(*json, key@),
{
    match json.get(key) {
        Some(v) => match v.as_str() {
            Some(s) => s,
            None => {
                proof { reveal_strlit(""); }
                ""
            },
        },
        None => {
            proof { reveal_strlit(""); }
            ""
        },
    }
}


/// The `i64` of member `key`, or 0 when it is missing or not such a number.
pub fn get_i64(json: &Json, key: &str) -> (n: i64)
    ensures
        n == match json.spec_get(key@) {
            Some(v) => match v.spec_as_i64() {
                Some(x) => x,
                None => 0,
            },
            None => 0,
        },
{
    match json.get(key) {
        Some(v) => match v.as_i64() {
            Some(x) => x,
            None => 0,
        },
        None => 0,
    }
}

/// The `u64` of member `key`, or 0 when it is missing or not such a number.
pub fn get_u64(json: &Json, key: &str) -> (n: u64)
    ensures
        n == match json.spec_get(key@) {
            Some(v) => match v.spec_as_u64() {
                Some(x) => x,
                None => 0,
            },
            None => 0,
        },
{
    match json.get(key) {
        Some(v) => match v.as_u64() {
            Some(x) => x,
            None => 0,
        },
        None => 0,
    }
}

/// A member found by name is one of the members.
proof fn lemma_member_is_element(members: Seq<(String, Json)>, key: Seq<char>)
    requires
        member(members, key) is Some,
    ensures
        exists|i: int| 0 <= i < members.len() && members[i].1 == member(members, key)->0,
    decreases members.len(),
{
    if members[0].0@ != key {
        lemma_member_is_element(members.drop_first(), key);
        let i = choose|i: int| 0 <= i < members.drop_first().len() && members.drop_first()[i].1 == member(members.drop_first(), key)->0;
        assert(members[i + 1] == members.drop_first()[i]);
    } else {
        assert(members[0].1 == member(members, key)->0);
    }
}

/// A member of an object is smaller than the object.
pub proof fn lemma_member_smaller(json: Json, key: Seq<char>)
    requires
        json.spec_get(key) is Some,
    ensures
        decreases_to!(json => json.spec_get(key)->0),
{
    match json {
        Json::Object(m) => {
            lemma_member_is_element(m@, key);
            let i = choose|i: int| 0 <= i < m@.len() && m@[i].1 == member(m@, key)->0;
            assert(decreases_to!(json => m));
            assert(decreases_to!(m => m@));
            assert(decreases_to!(m@ => m@[i]));
            assert(decreases_to!(m@[i] => m@[i].1));
        },
        _ => {},
    }
}


/// The natural number `str::parse` reads from a text for an unsigned type
/// whose largest value is `limit`: an optional '+' then at least one decimal
/// digit, nothing else, and no more than `limit`.
pub open spec fn unsigned_of_text(s: Seq<char>, limit: int) -> Option<int> {
    let d = if s.len() > 0 && s[0] == '+' { s.drop_first() } else { s };
    if d.len() > 0 && all_digits(d) && digits_value(d) <= limit {
        Some(digits_value(d))
    } else {
        None
    }
}

/// Read an unsigned number as `str::parse` does for a type whose largest
/// value is `limit`.
pub fn parse_unsigned(s: &[char], limit: u64) -> (r: Option<u64>)
    ensures
        match unsigned_of_text(s@, limit as int) {
            Some(v) => 0 <= v <= limit && r == Some(v as u64),
            None => r is None,
        },
{
    if s.len() > 0 && s[0] == '+' {
        let rest = s.split_at(1).1;
        assert(rest@ =~= s@.drop_first());
        digits_at_most(rest, limit)
    } else {
        digits_at_most(s, limit)
    }
}

/// A decoding result as a value: the JSON value, or the decoder's message.
pub open spec fn parsed_model(p: Result<Json, String>) -> Result<Json, Seq<char>> {
    match p {
        Ok(j) => Ok(j),
        Err(e) => Err(e@),
    }
}

/// What serde_json decodes a text into: the value (objects with their
/// members in serde_json's key order, numbers by the text serde_json writes
/// for them), or serde_json's error message.
pub uninterp spec fn json_decode(raw: Seq<char>) -> Result<Json, Seq<char>>;

/// A serde_json value, carried through to the conversion below.
#[verifier::external_type_specification]
#[verifier::external_body]
pub struct ExJsonValue(serde_json::Value);

/// One-for-one conversion of a serde_json value into a `Json`, one arm per
/// variant: numbers by their text, arrays and objects member by member in
/// serde_json's order. It is the conversion `decode_json` applies to what
/// `serde_json::from_str` returns, and has no contract of its own.
#[verifier::external_body]
pub(crate) fn json_from_value(v: &serde_json::Value) -> Json {
    match v {
        serde_json::Value::Null => Json::Null,
        serde_json::Value::Bool(b) => Json::Bool(*b),
        serde_json::Value::Number(n) => Json::Number(n.to_string()),
        serde_json::Value::String(t) => Json::Str(t.clone()),
        serde_json::Value::Array(a) => Json::Array(a.iter().map(json_from_value).collect()),
        serde_json::Value::Object(m) => Json::Object(m.iter().map(|(k, x)| (k.clone(), json_from_value(x))).collect()),
    }
}

/// Decode JSON text.
///
/// Calls `serde_json::from_str` into a `serde_json::Value`, converts the
/// value one for one into `Json`, and turns an error into its message. The
/// outcome depends on the text alone; it is given by the name `json_decode`.
#[verifier::external_body]
pub(crate) fn decode_json(raw: &str) -> (r: Result<Json, String>)
    ensures
        parsed_model(r) == json_decode(raw@),
{
    match serde_json::from_str::<serde_json::Value>(raw) {
        Ok(v) => Ok(json_from_value(&v)),
        Err(e) => Err(e.to_string()),
    }
}

} // verus!
