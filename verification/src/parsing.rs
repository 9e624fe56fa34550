//! Fast classification of OANDA stream messages from their raw bytes, before
//! any JSON decoding, and decoding of any JSON with simd-json.

use crate::json::{json_from_value, parsed_model, Json};
use crate::text::{contains_seq, occurs_at};
use crate::types::FlashError;
use vstd::prelude::*;
use vstd::string::StringSliceAdditionalSpecFns;

verus! {

/// Marker of a PRICE message.
pub const PRICE_MARKER: &'static str = "\"type\":\"PRICE\"";
/// Marker of a PRICE message written with a space after the colon.
pub const PRICE_MARKER_SPACED: &'static str = "\"type\": \"PRICE\"";
/// Marker of a HEARTBEAT message.
pub const HEARTBEAT_MARKER: &'static str = "\"type\":\"HEARTBEAT\"";
/// Marker of a HEARTBEAT message written with a space after the colon.
pub const HEARTBEAT_MARKER_SPACED: &'static str = "\"type\": \"HEARTBEAT\"";

/// Whether `needle` occurs in `haystack` at position `i`.
fn bytes_occur_at(haystack: &[u8], needle: &[u8], i: usize) -> (b: bool)
    ensures
        b == occurs_at(haystack@, needle@, i as int),
{
    if needle.len() > haystack.len() || i > haystack.len() - needle.len() {
        return false;
    }
    let mut k: usize = 0;
    while k < needle.len()
        invariant
            i + needle.len() <= haystack.len(),
            k <= needle.len(),
            forall|j: int| 0 <= j < k ==> haystack@[i + j] == needle@[j],
        decreases needle.len() - k,
    {
        if haystack[i + k] != needle[k] {
            assert(haystack@.subrange(i as int, i + needle.len())[k as int] != needle@[k as int]);
            return false;
        }
        k = k + 1;
    }
    assert(haystack@.subrange(i as int, i + needle.len()) =~= needle@);
    true
}

/// Whether a byte slice contains a (non-empty) pattern.
pub fn contains_bytes(haystack: &[u8], needle: &[u8]) -> (b: bool)
    requires
        needle.len() > 0,
    ensures
        b == contains_seq(haystack@, needle@),
{
    if needle.len() > haystack.len() {
        return false;
    }
    let last = haystack.len() - needle.len();
    let mut i: usize = 0;
    while i < last
        invariant
            last + needle.len() == haystack.len(),
            i <= last,
            forall|j: int| 0 <= j < i ==> !occurs_at(haystack@, needle@, j),
        decreases last - i,
    {
        if bytes_occur_at(haystack, needle, i) {
            return true;
        }
        i = i + 1;
    }
    if bytes_occur_at(haystack, needle, last) {
        return true;
    }
    assert forall|j: int| !occurs_at(haystack@, needle@, j) by {
        if 0 <= j && j + needle.len() <= haystack.len() {
            assert(j <= last);
        }
    }
    false
}

/// The message type a raw message announces: PRICE if either PRICE marker
/// occurs, otherwise HEARTBEAT if either HEARTBEAT marker occurs.
pub open spec fn detected_type(data: Seq<u8>) -> Option<Seq<char>> {
    if contains_seq(data, PRICE_MARKER.spec_bytes()) || contains_seq(data, PRICE_MARKER_SPACED.spec_bytes()) {
        Some("PRICE"@)
    } else if contains_seq(data, HEARTBEAT_MARKER.spec_bytes()) || contains_seq(data, HEARTBEAT_MARKER_SPACED.spec_bytes()) {
        Some("HEARTBEAT"@)
    } else {
        None
    }
}

/// Why a message could not be parsed.
#[derive(Debug, Clone, PartialEq, Eq)]
pub enum ParseErrorKind {
    /// The input is not valid JSON.
    InvalidJson,
    /// A required field is missing.
    MissingField(String),
    /// A field has the wrong type.
    InvalidFieldType(String),
    /// The input is empty.
    EmptyInput,
}

/// Classifier of raw OANDA messages; it holds no state.
#[derive(Debug, Clone, Copy)]
pub struct SimdParser {}

impl Default for SimdParser {
    fn default() -> (p: SimdParser) {
        SimdParser {}
    }
}

impl SimdParser {
    /// Create a parser.
    pub fn new() -> (p: SimdParser) {
        SimdParser {}
    }

    /// 1 for PRICE, 2 for HEARTBEAT, 0 for neither.
    fn detect_code(&self, data: &[u8]) -> (c: u8)
        ensures
            c == 1 <==> detected_type(data@) == Some("PRICE"@),
            c == 2 <==> detected_type(data@) == Some("HEARTBEAT"@),
            c == 0 <==> detected_type(data@) is None,
    {
        proof {
            reveal_strlit("PRICE");
            reveal_strlit("HEARTBEAT");
            assert("PRICE"@.len() != "HEARTBEAT"@.len());
            assert("PRICE"@ != "HEARTBEAT"@);
        }
        let p1 = PRICE_MARKER.as_bytes();
        let p2 = PRICE_MARKER_SPACED.as_bytes();
        let h1 = HEARTBEAT_MARKER.as_bytes();
        let h2 = HEARTBEAT_MARKER_SPACED.as_bytes();
        proof {
            reveal_strlit("\"type\":\"PRICE\"");
            reveal_strlit("\"type\": \"PRICE\"");
            reveal_strlit("\"type\":\"HEARTBEAT\"");
            reveal_strlit("\"type\": \"HEARTBEAT\"");
            vstd::string::is_ascii_spec_bytes(PRICE_MARKER);
            vstd::string::is_ascii_spec_bytes(PRICE_MARKER_SPACED);
            vstd::string::is_ascii_spec_bytes(HEARTBEAT_MARKER);
            vstd::string::is_ascii_spec_bytes(HEARTBEAT_MARKER_SPACED);
        }
        if contains_bytes(data, p1) || contains_bytes(data, p2) {
            1
        } else if contains_bytes(data, h1) || contains_bytes(data, h2) {
            2
        } else {
            0
        }
    }

    /// The type a raw message announces ("PRICE" or "HEARTBEAT"), found by
    /// searching for the type field rather than decoding the JSON.
    pub fn detect_message_type(&self, data: &[u8]) -> (t: Option<&'static str>)
        ensures
            match detected_type(data@) {
                Some(name) => t is Some && t->0@ == name,
                None => t is None,
            },
    {
        let c = self.detect_code(data);
        if c == 1 {
            Some("PRICE")
        } else if c == 2 {
            Some("HEARTBEAT")
        } else {
            None
        }
    }

    /// Whether a raw message announces a HEARTBEAT.
    pub fn is_heartbeat(&self, data: &[u8]) -> (b: bool)
        ensures
            b == (detected_type(data@) == Some("HEARTBEAT"@)),
    {
        self.detect_code(data) == 2
    }

    /// Whether a raw message announces a PRICE.
    pub fn is_price(&self, data: &[u8]) -> (b: bool)
        ensures
            b == (detected_type(data@) == Some("PRICE"@)),
    {
        self.detect_code(data) == 1
    }
}

/// simd-json's reading of the bytes, as the library's JSON value (objects
/// with their members in serde_json's key order, numbers by the text
/// serde_json writes for them), or simd-json's error text.
pub uninterp spec fn simd_json_decode(data: Seq<u8>) -> Result<Json, Seq<char>>;

/// Decode JSON bytes with simd-json.
///
/// Calls `simd_json::serde::from_slice` into a `serde_json::Value` (simd-json
/// parses in place and uses the bytes as scratch space), converts the value
/// one for one into `Json`, and turns an error into its text. The outcome
/// depends on the bytes alone; it is given by the name `simd_json_decode`.
/// What the bytes hold afterwards is not stated.
#[verifier::external_body]
fn simd_decode(data: &mut [u8]) -> (r: Result<Json, String>)
    ensures
        parsed_model(r) == simd_json_decode(old(data)@),
{
    match simd_json::serde::from_slice::<serde_json::Value>(data) {
        Ok(v) => Ok(json_from_value(&v)),
        Err(e) => Err(e.to_string()),
    }
}

impl SimdParser {
    /// Decode any JSON with simd-json, for messages whose type is not known
    /// yet: "empty input" for no bytes, else simd-json's value or its error.
    pub fn parse_value(&self, data: &mut [u8]) -> (r: Result<Json, FlashError>)
        ensures
            old(data)@.len() == 0 ==> (r matches Err(FlashError::ParseError(m)) && m@ == "empty input"@),
            old(data)@.len() > 0 ==> match simd_json_decode(old(data)@) {
                Ok(j) => r == Ok::<Json, FlashError>(j),
                Err(m) => (r matches Err(FlashError::ParseError(x)) && x@ == m),
            },
    {
        if data.len() == 0 {
            return Err(FlashError::ParseError(String::from_str("empty input")));
        }
        match simd_decode(data) {
            Ok(j) => Ok(j),
            Err(m) => Err(FlashError::ParseError(m)),
        }
    }
}

} // verus!
