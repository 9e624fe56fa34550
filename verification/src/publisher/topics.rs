//! Topic routing: wildcard topic patterns, placeholder templates for topic
//! names, event filters, routing rules and the router that applies them.

use crate::publisher::stream::{market_topic, topic_type_name, TopicBuilder, TopicType};
use crate::text::{
    ascii_lower, chars_of, eq_ignore_ascii_case_seq, lowercase, push_char, split_chars, split_seq,
    string_of, to_lowercase, decimal_digits, u64_decimal,
};
use crate::types::{exchange_name, Exchange, MarketData, MarketEvent};
use vstd::prelude::*;

verus! {

// =============================================================================
// RULE ID
// =============================================================================

/// Identifier of a routing rule.
#[derive(Debug, Clone, Copy, PartialEq, Eq, Hash, Structural)]
pub struct RuleId(pub u64);

impl RuleId {
    /// The raw value.
    pub fn value(&self) -> (v: u64)
        ensures
            v == self.0,
    {
        self.0
    }

    /// A rule id with the given value.
    pub fn from_value(value: u64) -> (r: RuleId)
        ensures
            r.0 == value,
    {
        RuleId(value)
    }

    /// The id as text: "rule-" and its value.
    pub fn to_string(&self) -> (s: String)
        ensures
            s@ == "rule-"@ + decimal_digits(self.0 as nat),
    {
        let mut s = String::from_str("rule-");
        let n = u64_decimal(self.0);
        s.append(n.as_str());
        s
    }
}

impl From<u64> for RuleId {
    fn from(value: u64) -> (r: RuleId) {
        RuleId(value)
    }
}

impl vstd::std_specs::convert::FromSpecImpl<u64> for RuleId {
    open spec fn obeys_from_spec() -> bool {
        true
    }

    open spec fn from_spec(value: u64) -> RuleId {
        RuleId(value)
    }
}

// =============================================================================
// ERRORS
// =============================================================================

/// Errors of routing.
#[derive(Debug, Clone, PartialEq, Eq)]
pub enum RoutingError {
    /// Invalid pattern.
    InvalidPattern { pattern: String, reason: String },
    /// Invalid template.
    InvalidTemplate { template: String, reason: String },
    /// Rule not found.
    RuleNotFound { id: RuleId },
    /// Duplicate rule id.
    DuplicateRule { id: RuleId },
    /// Too many topics.
    TooManyTopics { count: usize, max: usize },
    /// No rule matched in strict mode.
    NoMatchingRules { event_type: String },
    /// Configuration error.
    ConfigError(String),
}

// =============================================================================
// TOPIC PATTERN
// =============================================================================

/// One segment of a topic pattern.
#[derive(Debug, Clone, PartialEq, Eq)]
pub enum PatternSegment {
    /// Matches this text, ignoring ASCII case.
    Exact(String),
    /// `*`: exactly one segment.
    SingleWildcard,
    /// `#`: zero or more segments.
    MultiWildcard,
}

/// A pattern segment as a value.
pub enum SegmentModel {
    /// Exact text.
    Exact(Seq<char>),
    /// `*`.
    Single,
    /// `#`.
    Multi,
}

/// The model of a pattern segment.
pub open spec fn segment_model(s: PatternSegment) -> SegmentModel {
    match s {
        PatternSegment::Exact(t) => SegmentModel::Exact(t@),
        PatternSegment::SingleWildcard => SegmentModel::Single,
        PatternSegment::MultiWildcard => SegmentModel::Multi,
    }
}

/// The segment a piece of pattern text denotes: `*`, `#`, or the lower-cased text.
pub open spec fn parse_segment(piece: Seq<char>) -> SegmentModel {
    if piece == seq!['*'] {
        SegmentModel::Single
    } else if piece == seq!['#'] {
        SegmentModel::Multi
    } else {
        SegmentModel::Exact(lowercase(piece))
    }
}

/// Whether pattern segments `p` match topic segments `t`: `#` matches zero or
/// more segments, `*` exactly one, exact text one segment equal ignoring ASCII case.
pub open spec fn segments_match(p: Seq<SegmentModel>, t: Seq<Seq<char>>) -> bool
    decreases p.len() + t.len(),
{
    if p.len() == 0 {
        t.len() == 0
    } else {
        match p[0] {
            SegmentModel::Multi => {
                if t.len() == 0 {
                    segments_match(p.drop_first(), t)
                } else {
                    segments_match(p.drop_first(), t) || segments_match(p, t.drop_first())
                }
            },
            SegmentModel::Single => t.len() > 0 && segments_match(p.drop_first(), t.drop_first()),
            SegmentModel::Exact(s) => t.len() > 0 && eq_ignore_ascii_case_seq(s, t[0])
                && segments_match(p.drop_first(), t.drop_first()),
        }
    }
}

/// Pattern for matching dot-separated topics with wildcards.
#[derive(Debug, Clone)]
pub struct TopicPattern {
    /// Pattern segments.
    pub segments: Vec<PatternSegment>,
    /// The pattern text as given.
    pub raw: String,
}

impl TopicPattern {
    /// The segments as values.
    pub open spec fn model(&self) -> Seq<SegmentModel> {
        self.segments@.map_values(|s: PatternSegment| segment_model(s))
    }

    /// Whether this pattern matches a topic text.
    pub open spec fn spec_matches(&self, topic: Seq<char>) -> bool {
        segments_match(self.model(), split_seq(topic, '.'))
    }

    /// Parse a pattern: the text split on '.', each piece `*`, `#` or exact
    /// (lower-cased) text. An empty pattern is refused.
    pub fn parse(pattern: &str) -> (r: Result<TopicPattern, RoutingError>)
        ensures
            r is Ok <==> pattern@.len() > 0,
            r matches Ok(p) ==> p.raw@ == pattern@ && p.model() == split_seq(pattern@, '.').map_values(|piece: Seq<char>| parse_segment(piece)),
            r matches Err(RoutingError::InvalidPattern { pattern: text, reason }) ==> text@ == pattern@
                && reason@ == "Pattern cannot be empty"@,
            r is Err ==> r matches Err(RoutingError::InvalidPattern { .. }),
    {
        if pattern.is_empty() {
            return Err(RoutingError::InvalidPattern {
                pattern: String::from_str(pattern),
                reason: String::from_str("Pattern cannot be empty"),
            });
        }
        let pv = chars_of(pattern);
        let pieces = split_chars(pv.as_slice(), '.');
        let ghost want = split_seq(pattern@, '.').map_values(|piece: Seq<char>| parse_segment(piece));
        let mut segments: Vec<PatternSegment> = Vec::new();
        let mut i: usize = 0;
        while i < pieces.len()
            invariant
                i <= pieces@.len(),
                pieces@.len() == split_seq(pattern@, '.').len(),
                forall|k: int| 0 <= k < pieces@.len() ==> #[trigger] pieces@[k]@ == split_seq(pattern@, '.')[k],
                want == split_seq(pattern@, '.').map_values(|piece: Seq<char>| parse_segment(piece)),
                segments@.len() == i,
                forall|k: int| 0 <= k < i ==> segment_model(#[trigger] segments@[k]) == want[k],
            decreases pieces@.len() - i,
        {
            let piece = &pieces[i];
            let seg = if piece.len() == 1 && piece[0] == '*' {
                assert(piece@ =~= seq!['*']);
                PatternSegment::SingleWildcard
            } else if piece.len() == 1 && piece[0] == '#' {
                assert(piece@ =~= seq!['#']);
                PatternSegment::MultiWildcard
            } else {
                proof {
                    if piece@ == seq!['*'] {
                        assert(piece@[0] == '*');
                    }
                    if piece@ == seq!['#'] {
                        assert(piece@[0] == '#');
                    }
                }
                let text = string_of(piece.as_slice());
                PatternSegment::Exact(to_lowercase(text.as_str()))
            };
            segments.push(seg);
            i = i + 1;
        }
        let r = TopicPattern { segments, raw: String::from_str(pattern) };
        assert(r.model() =~= want);
        Ok(r)
    }

    /// Whether pattern segments from `pi` on match topic segments from `ti` on.
    fn match_from(&self, pi: usize, topic: &Vec<Vec<char>>, ti: usize) -> (b: bool)
        requires
            pi <= self.segments@.len(),
            ti <= topic@.len(),
        ensures
            b == segments_match(self.model().skip(pi as int), topic@.map_values(|v: Vec<char>| v@).skip(ti as int)),
        decreases self.segments@.len() - pi + topic@.len() - ti,
    {
        let ghost p = self.model().skip(pi as int);
        let ghost t = topic@.map_values(|v: Vec<char>| v@).skip(ti as int);
        if pi == self.segments.len() {
            assert(p.len() == 0);
            return ti == topic.len();
        }
        assert(p[0] == segment_model(self.segments@[pi as int]));
        assert(p.drop_first() =~= self.model().skip(pi as int + 1));
        if ti < topic.len() {
            assert(t.drop_first() =~= topic@.map_values(|v: Vec<char>| v@).skip(ti as int + 1));
            assert(t[0] == topic@[ti as int]@);
        }
        match &self.segments[pi] {
            PatternSegment::MultiWildcard => {
                if ti == topic.len() {
                    self.match_from(pi + 1, topic, ti)
                } else {
                    self.match_from(pi + 1, topic, ti) || self.match_from(pi, topic, ti + 1)
                }
            },
            PatternSegment::SingleWildcard => {
                ti < topic.len() && self.match_from(pi + 1, topic, ti + 1)
            },
            PatternSegment::Exact(text) => {
                if ti == topic.len() {
                    return false;
                }
                let tv = chars_of(text.as_str());
                eq_ignore_ascii_case(tv.as_slice(), topic[ti].as_slice()) && self.match_from(pi + 1, topic, ti + 1)
            },
        }
    }

    /// Whether a topic matches this pattern.
    pub fn matches(&self, topic: &str) -> (b: bool)
        ensures
            b == self.spec_matches(topic@),
    {
        let tv = chars_of(topic);
        let parts = split_chars(tv.as_slice(), '.');
        let r = self.match_from(0, &parts, 0);
        assert(self.model().skip(0) =~= self.model());
        assert(parts@.map_values(|v: Vec<char>| v@).skip(0) =~= split_seq(topic@, '.'));
        r
    }

    /// The pattern text as given.
    pub fn as_str(&self) -> (s: &str)
        ensures
            s@ == self.raw@,
    {
        self.raw.as_str()
    }

    /// The pattern text as given, owned.
    pub fn to_string(&self) -> (s: String)
        ensures
            s@ == self.raw@,
    {
        self.raw.clone()
    }
}

/// Whether two character slices are equal ignoring ASCII case.
pub fn eq_ignore_ascii_case(a: &[char], b: &[char]) -> (r: bool)
    ensures
        r == eq_ignore_ascii_case_seq(a@, b@),
{
    if a.len() != b.len() {
        return false;
    }
    let mut i: usize = 0;
    while i < a.len()
        invariant
            a@.len() == b@.len(),
            i <= a@.len(),
            forall|k: int| 0 <= k < i ==> ascii_lower(#[trigger] a@[k]) == ascii_lower(b@[k]),
        decreases a@.len() - i,
    {
        let ca: char = a[i];
        let cb: char = b[i];
        let same = if ca == cb {
            true
        } else if 'A' <= ca && ca <= 'Z' {
            (cb as u32) == (ca as u32) + 32
        } else if 'A' <= cb && cb <= 'Z' {
            (ca as u32) == (cb as u32) + 32
        } else {
            false
        };
        proof {
            assert(same == (ascii_lower(ca) == ascii_lower(cb)));
        }
        if !same {
            return false;
        }
        i = i + 1;
    }
    true
}

// =============================================================================
// PATTERN LAWS
// =============================================================================

/// `#` on its own matches every topic.
pub proof fn law_multi_wildcard_matches_all(t: Seq<Seq<char>>)
    ensures
        segments_match(seq![SegmentModel::Multi], t),
    decreases t.len(),
{
    let p = seq![SegmentModel::Multi];
    assert(p.len() == 1 && p[0] == SegmentModel::Multi);
    assert(p.drop_first() =~= Seq::<SegmentModel>::empty());
    if t.len() > 0 {
        law_multi_wildcard_matches_all(t.drop_first());
        assert(segments_match(p, t.drop_first()));
    } else {
        assert(segments_match(p.drop_first(), t));
    }
}

/// A pattern made only of exact segments matches exactly the topics with as
/// many segments, each equal to its pattern segment ignoring ASCII case.
pub proof fn law_exact_pattern_matches_pointwise(p: Seq<Seq<char>>, t: Seq<Seq<char>>)
    ensures
        segments_match(p.map_values(|s: Seq<char>| SegmentModel::Exact(s)), t)
            <==> (p.len() == t.len() && forall|i: int| 0 <= i < p.len() ==> #[trigger] eq_ignore_ascii_case_seq(p[i], t[i])),
    decreases p.len(),
{
    let m = p.map_values(|s: Seq<char>| SegmentModel::Exact(s));
    if p.len() > 0 && t.len() > 0 {
        law_exact_pattern_matches_pointwise(p.drop_first(), t.drop_first());
        assert(m.drop_first() =~= p.drop_first().map_values(|s: Seq<char>| SegmentModel::Exact(s)));
        if p.len() == t.len() && forall|i: int| 0 <= i < p.len() ==> #[trigger] eq_ignore_ascii_case_seq(p[i], t[i]) {
            assert(eq_ignore_ascii_case_seq(p[0], t[0]));
            assert forall|i: int| 0 <= i < p.drop_first().len() implies #[trigger] eq_ignore_ascii_case_seq(p.drop_first()[i], t.drop_first()[i]) by {
                assert(eq_ignore_ascii_case_seq(p[i + 1], t[i + 1]));
            }
        }
        if segments_match(m, t) {
            assert forall|i: int| 0 <= i < p.len() implies #[trigger] eq_ignore_ascii_case_seq(p[i], t[i]) by {
                if i > 0 {
                    assert(eq_ignore_ascii_case_seq(p.drop_first()[i - 1], t.drop_first()[i - 1]));
                }
            }
        }
    }
}

/// `*` on its own matches exactly the one-segment topics.
pub proof fn law_single_wildcard_matches_one_segment(t: Seq<Seq<char>>)
    ensures
        segments_match(seq![SegmentModel::Single], t) <==> t.len() == 1,
{
    let p = seq![SegmentModel::Single];
    assert(p.len() == 1 && p[0] == SegmentModel::Single);
    assert(p.drop_first() =~= Seq::<SegmentModel>::empty());
    if t.len() > 0 {
        assert(segments_match(p.drop_first(), t.drop_first()) <==> t.drop_first().len() == 0);
    }
}


// =============================================================================
// TOPIC TEMPLATE
// =============================================================================

/// One segment of a topic template.
#[derive(Debug, Clone, PartialEq, Eq)]
pub enum TemplateSegment {
    /// Literal text.
    Literal(String),
    /// `{exchange}`.
    Exchange,
    /// `{base}`.
    Base,
    /// `{quote}`.
    Quote,
    /// `{type}`.
    Type,
    /// `{prefix}`.
    Prefix,
}

/// A template segment as a value.
pub enum TemplatePart {
    /// Literal text.
    Literal(Seq<char>),
    /// Exchange name.
    Exchange,
    /// Base asset, lower-cased.
    Base,
    /// Quote asset, lower-cased.
    Quote,
    /// Topic type name.
    Type,
    /// Topic prefix.
    Prefix,
}

/// The model of a template segment.
pub open spec fn template_part(s: TemplateSegment) -> TemplatePart {
    match s {
        TemplateSegment::Literal(t) => TemplatePart::Literal(t@),
        TemplateSegment::Exchange => TemplatePart::Exchange,
        TemplateSegment::Base => TemplatePart::Base,
        TemplateSegment::Quote => TemplatePart::Quote,
        TemplateSegment::Type => TemplatePart::Type,
        TemplateSegment::Prefix => TemplatePart::Prefix,
    }
}

/// Why a template text is refused.
pub enum TemplateFault {
    /// `{` inside a placeholder.
    Nested,
    /// `}` outside a placeholder.
    UnexpectedClose,
    /// A placeholder with an unknown (lower-cased) name.
    Unknown(Seq<char>),
    /// The text ends inside a placeholder.
    Unclosed,
}

/// The reason text of a template fault.
pub open spec fn fault_reason(f: TemplateFault) -> Seq<char> {
    match f {
        TemplateFault::Nested => "Nested placeholders not allowed"@,
        TemplateFault::UnexpectedClose => "Unexpected closing brace"@,
        TemplateFault::Unknown(name) => "Unknown placeholder: {"@ + name + "}"@,
        TemplateFault::Unclosed => "Unclosed placeholder"@,
    }
}

/// State of a left-to-right scan of template text.
pub struct TemplateScan {
    /// Segments completed so far.
    pub parts: Seq<TemplatePart>,
    /// Text gathered since the last brace.
    pub current: Seq<char>,
    /// Inside a placeholder.
    pub open: bool,
    /// The first fault met, if any.
    pub fault: Option<TemplateFault>,
}

/// The placeholder a (lower-cased) name denotes.
pub open spec fn placeholder(name: Seq<char>) -> Option<TemplatePart> {
    if name == "exchange"@ {
        Some(TemplatePart::Exchange)
    } else if name == "base"@ {
        Some(TemplatePart::Base)
    } else if name == "quote"@ {
        Some(TemplatePart::Quote)
    } else if name == "type"@ {
        Some(TemplatePart::Type)
    } else if name == "prefix"@ {
        Some(TemplatePart::Prefix)
    } else {
        None
    }
}

/// One character of the scan. After a fault the state no longer changes.
pub open spec fn scan_step(st: TemplateScan, c: char) -> TemplateScan {
    if st.fault is Some {
        st
    } else if c == '{' {
        if st.open {
            TemplateScan { parts: st.parts, current: st.current, open: st.open, fault: Some(TemplateFault::Nested) }
        } else {
            TemplateScan {
                parts: if st.current.len() > 0 { st.parts.push(TemplatePart::Literal(st.current)) } else { st.parts },
                current: Seq::empty(),
                open: true,
                fault: None,
            }
        }
    } else if c == '}' {
        if !st.open {
            TemplateScan { parts: st.parts, current: st.current, open: st.open, fault: Some(TemplateFault::UnexpectedClose) }
        } else {
            match placeholder(lowercase(st.current)) {
                Some(p) => TemplateScan { parts: st.parts.push(p), current: Seq::empty(), open: false, fault: None },
                None => TemplateScan {
                    parts: st.parts,
                    current: st.current,
                    open: st.open,
                    fault: Some(TemplateFault::Unknown(lowercase(st.current))),
                },
            }
        }
    } else {
        TemplateScan { parts: st.parts, current: st.current.push(c), open: st.open, fault: st.fault }
    }
}

/// The scan of a whole text.
pub open spec fn scan(s: Seq<char>) -> TemplateScan
    decreases s.len(),
{
    if s.len() == 0 {
        TemplateScan { parts: Seq::empty(), current: Seq::empty(), open: false, fault: None }
    } else {
        scan_step(scan(s.drop_last()), s.last())
    }
}

/// Why a template text is refused, if it is.
pub open spec fn template_fault(s: Seq<char>) -> Option<TemplateFault> {
    let st = scan(s);
    if st.fault is Some {
        st.fault
    } else if st.open {
        Some(TemplateFault::Unclosed)
    } else {
        None
    }
}

/// The segments of an accepted template text.
pub open spec fn template_parts(s: Seq<char>) -> Seq<TemplatePart> {
    let st = scan(s);
    if st.current.len() > 0 {
        st.parts.push(TemplatePart::Literal(st.current))
    } else {
        st.parts
    }
}

/// Once a fault is met, the rest of the text does not change the scan.
pub proof fn lemma_scan_fault_sticks(s: Seq<char>, k: int)
    requires
        0 <= k <= s.len(),
        scan(s.take(k)).fault is Some,
    ensures
        scan(s) == scan(s.take(k)),
    decreases s.len(),
{
    if k == s.len() {
        assert(s.take(k) =~= s);
    } else {
        assert(s.drop_last().take(k) =~= s.take(k));
        lemma_scan_fault_sticks(s.drop_last(), k);
    }
}

/// Text of one template part for the given fields.
pub open spec fn part_text(p: TemplatePart, exchange: Exchange, base: Seq<char>, quote: Seq<char>, t: TopicType, prefix: Seq<char>) -> Seq<char> {
    match p {
        TemplatePart::Literal(s) => s,
        TemplatePart::Exchange => exchange_name(exchange),
        TemplatePart::Base => lowercase(base),
        TemplatePart::Quote => lowercase(quote),
        TemplatePart::Type => topic_type_name(t),
        TemplatePart::Prefix => prefix,
    }
}

/// Text of a sequence of template parts: the parts' texts concatenated.
pub open spec fn expand_parts(parts: Seq<TemplatePart>, exchange: Exchange, base: Seq<char>, quote: Seq<char>, t: TopicType, prefix: Seq<char>) -> Seq<char>
    decreases parts.len(),
{
    if parts.len() == 0 {
        Seq::empty()
    } else {
        expand_parts(parts.drop_last(), exchange, base, quote, t, prefix) + part_text(parts.last(), exchange, base, quote, t, prefix)
    }
}

/// Topic type of an event's payload: book, trade, or event for heartbeats.
pub open spec fn event_topic_type(d: MarketData) -> TopicType {
    match d {
        MarketData::Book { .. } => TopicType::Book,
        MarketData::Trade { .. } => TopicType::Trade,
        MarketData::Heartbeat { .. } => TopicType::Event,
    }
}

/// The placeholder segment a lower-cased name denotes.
fn placeholder_segment(name: &String) -> (r: Option<TemplateSegment>)
    ensures
        match r {
            Some(seg) => placeholder(name@) == Some(template_part(seg)),
            None => placeholder(name@) is None,
        },
{
    if *name == String::from_str("exchange") {
        Some(TemplateSegment::Exchange)
    } else if *name == String::from_str("base") {
        Some(TemplateSegment::Base)
    } else if *name == String::from_str("quote") {
        Some(TemplateSegment::Quote)
    } else if *name == String::from_str("type") {
        Some(TemplateSegment::Type)
    } else if *name == String::from_str("prefix") {
        Some(TemplateSegment::Prefix)
    } else {
        None
    }
}

/// Template for topic names with `{exchange}`, `{base}`, `{quote}`, `{type}`
/// and `{prefix}` placeholders.
#[derive(Debug, Clone)]
pub struct TopicTemplate {
    /// Parsed segments.
    pub segments: Vec<TemplateSegment>,
    /// The template text as given.
    pub raw: String,
}

impl TopicTemplate {
    /// The segments as values.
    pub open spec fn model(&self) -> Seq<TemplatePart> {
        self.segments@.map_values(|s: TemplateSegment| template_part(s))
    }

    /// The topic this template gives for an event, prefix and type.
    pub open spec fn spec_expand(&self, event: MarketEvent, prefix: Seq<char>, t: TopicType) -> Seq<char> {
        expand_parts(self.model(), event.instrument.exchange, event.instrument.base@, event.instrument.quote@, t, prefix)
    }

    fn invalid(template: &str, reason: &str) -> (e: RoutingError)
        ensures
            e matches RoutingError::InvalidTemplate { template: t, reason: r } && t@ == template@ && r@ == reason@,
    {
        RoutingError::InvalidTemplate { template: String::from_str(template), reason: String::from_str(reason) }
    }

    /// Parse a template text. Placeholder names are matched after lower-casing;
    /// nested, unbalanced, unknown or unclosed placeholders are refused.
    pub fn parse(template: &str) -> (r: Result<TopicTemplate, RoutingError>)
        ensures
            r is Ok <==> template_fault(template@) is None,
            r matches Ok(t) ==> t.raw@ == template@ && t.model() == template_parts(template@),
            r matches Err(e) ==> (e matches RoutingError::InvalidTemplate { template: text, reason }
                && text@ == template@ && reason@ == fault_reason(template_fault(template@).unwrap())),
    {
        let cs = chars_of(template);
        let mut parts: Vec<TemplateSegment> = Vec::new();
        let mut current: Vec<char> = Vec::new();
        let mut open = false;
        let mut i: usize = 0;
        while i < cs.len()
            invariant
                cs@ == template@,
                i <= cs@.len(),
                scan(template@.take(i as int)).fault is None,
                scan(template@.take(i as int)).parts == parts@.map_values(|s: TemplateSegment| template_part(s)),
                scan(template@.take(i as int)).current == current@,
                scan(template@.take(i as int)).open == open,
            decreases cs@.len() - i,
        {
            let c = cs[i];
            let ghost before = scan(template@.take(i as int));
            proof {
                let t = template@.take(i as int + 1);
                assert(t.drop_last() =~= template@.take(i as int));
                assert(t.last() == c);
                assert(scan(t) == scan_step(before, c));
            }
            if c == '{' {
                if open {
                    proof { lemma_scan_fault_sticks(template@, i as int + 1); }
                    return Err(TopicTemplate::invalid(template, "Nested placeholders not allowed"));
                }
                if current.len() > 0 {
                    let text = string_of(current.as_slice());
                    parts.push(TemplateSegment::Literal(text));
                }
                current = Vec::new();
                open = true;
            } else if c == '}' {
                if !open {
                    proof { lemma_scan_fault_sticks(template@, i as int + 1); }
                    return Err(TopicTemplate::invalid(template, "Unexpected closing brace"));
                }
                let text = string_of(current.as_slice());
                let name = to_lowercase(text.as_str());
                match placeholder_segment(&name) {
                    Some(seg) => {
                        parts.push(seg);
                        current = Vec::new();
                        open = false;
                    },
                    None => {
                        proof { lemma_scan_fault_sticks(template@, i as int + 1); }
                        let mut reason = String::from_str("Unknown placeholder: {");
                        reason.append(name.as_str());
                        reason.append("}");
                        return Err(RoutingError::InvalidTemplate { template: String::from_str(template), reason });
                    },
                }
            } else {
                current.push(c);
            }
            assert(parts@.map_values(|s: TemplateSegment| template_part(s)) =~= scan(template@.take(i as int + 1)).parts);
            i = i + 1;
        }
        assert(template@.take(cs@.len() as int) =~= template@);
        if open {
            return Err(TopicTemplate::invalid(template, "Unclosed placeholder"));
        }
        if current.len() > 0 {
            let text = string_of(current.as_slice());
            parts.push(TemplateSegment::Literal(text));
        }
        let t = TopicTemplate { segments: parts, raw: String::from_str(template) };
        assert(t.model() =~= template_parts(template@));
        Ok(t)
    }

    /// Topic type of an event's payload.
    pub fn detect_topic_type(event: &MarketEvent) -> (t: TopicType)
        ensures
            t == event_topic_type(event.data),
    {
        match &event.data {
            MarketData::Book { .. } => TopicType::Book,
            MarketData::Trade { .. } => TopicType::Trade,
            MarketData::Heartbeat { .. } => TopicType::Event,
        }
    }

    /// Expand the template for an event with an explicit prefix and topic type.
    pub fn expand_with_prefix(&self, event: &MarketEvent, prefix: &str, topic_type: TopicType) -> (r: String)
        ensures
            r@ == self.spec_expand(*event, prefix@, topic_type),
    {
        let mut result = String::new();
        let mut i: usize = 0;
        let ghost ex = event.instrument.exchange;
        let ghost b = event.instrument.base@;
        let ghost q = event.instrument.quote@;
        while i < self.segments.len()
            invariant
                i <= self.segments@.len(),
                ex == event.instrument.exchange && b == event.instrument.base@ && q == event.instrument.quote@,
                result@ == expand_parts(self.model().take(i as int), ex, b, q, topic_type, prefix@),
            decreases self.segments@.len() - i,
        {
            proof {
                let m = self.model().take(i as int + 1);
                assert(m.drop_last() =~= self.model().take(i as int));
                assert(m.last() == template_part(self.segments@[i as int]));
            }
            match &self.segments[i] {
                TemplateSegment::Literal(s) => result.append(s.as_str()),
                TemplateSegment::Exchange => result.append(event.instrument.exchange.as_str()),
                TemplateSegment::Base => {
                    let l = to_lowercase(event.instrument.base.as_str());
                    result.append(l.as_str());
                },
                TemplateSegment::Quote => {
                    let l = to_lowercase(event.instrument.quote.as_str());
                    result.append(l.as_str());
                },
                TemplateSegment::Type => result.append(topic_type.as_str()),
                TemplateSegment::Prefix => result.append(prefix),
            }
            i = i + 1;
        }
        assert(self.model().take(self.segments@.len() as int) =~= self.model());
        result
    }

    /// Expand the template for an event, with prefix "market_data" and the
    /// event's own topic type.
    pub fn expand(&self, event: &MarketEvent) -> (r: String)
        ensures
            r@ == self.spec_expand(*event, "market_data"@, event_topic_type(event.data)),
    {
        let t = TopicTemplate::detect_topic_type(event);
        self.expand_with_prefix(event, "market_data", t)
    }

    /// The template text as given.
    pub fn as_str(&self) -> (s: &str)
        ensures
            s@ == self.raw@,
    {
        self.raw.as_str()
    }

    /// The template text as given, owned.
    pub fn to_string(&self) -> (s: String)
        ensures
            s@ == self.raw@,
    {
        self.raw.clone()
    }
}


// =============================================================================
// TEMPLATE LAWS
// =============================================================================

/// Scanning text without braces gathers all of it as pending literal text.
proof fn lemma_scan_plain(s: Seq<char>)
    requires
        forall|i: int| 0 <= i < s.len() ==> #[trigger] s[i] != '{' && s[i] != '}',
    ensures
        scan(s).parts.len() == 0,
        scan(s).current == s,
        !scan(s).open,
        scan(s).fault is None,
    decreases s.len(),
{
    if s.len() > 0 {
        assert(s[s.len() - 1] == s.last());
        lemma_scan_plain(s.drop_last());
        assert(s.drop_last().push(s.last()) =~= s);
    }
}

/// A template text without braces is accepted, and expands to itself whatever
/// the event, prefix and topic type.
pub proof fn law_plain_template_expands_to_itself(
    s: Seq<char>,
    exchange: Exchange,
    base: Seq<char>,
    quote: Seq<char>,
    t: TopicType,
    prefix: Seq<char>,
)
    requires
        forall|i: int| 0 <= i < s.len() ==> #[trigger] s[i] != '{' && s[i] != '}',
    ensures
        template_fault(s) is None,
        expand_parts(template_parts(s), exchange, base, quote, t, prefix) == s,
{
    lemma_scan_plain(s);
    let parts = template_parts(s);
    if s.len() > 0 {
        assert(parts == seq![TemplatePart::Literal(s)]);
        assert(parts.drop_last() =~= Seq::<TemplatePart>::empty());
        assert(parts.last() == TemplatePart::Literal(s));
        assert(expand_parts(parts.drop_last(), exchange, base, quote, t, prefix) == Seq::<char>::empty());
        assert(part_text(parts.last(), exchange, base, quote, t, prefix) == s);
        assert(Seq::<char>::empty() + s =~= s);
    } else {
        assert(s =~= Seq::<char>::empty());
    }
}


// =============================================================================
// ROUTING FILTER
// =============================================================================

/// Whether two asset names are equal, after lower-casing both when `ci`.
pub open spec fn asset_eq(ci: bool, a: Seq<char>, b: Seq<char>) -> bool {
    if ci {
        lowercase(a) == lowercase(b)
    } else {
        a == b
    }
}

/// Whether a list of assets admits `v`: an empty list admits every asset.
pub open spec fn asset_allowed(list: Seq<Seq<char>>, ci: bool, v: Seq<char>) -> bool {
    list.len() == 0 || exists|i: int| 0 <= i < list.len() && #[trigger] asset_eq(ci, list[i], v)
}

/// The texts of a vector of strings.
pub open spec fn texts(v: Seq<String>) -> Seq<Seq<char>> {
    v.map_values(|s: String| s@)
}

/// Filter of events: all criteria must hold; an empty list admits everything.
#[derive(Debug, Clone)]
pub struct RoutingFilter {
    /// Exchanges admitted (empty = all).
    pub exchanges: Vec<Exchange>,
    /// Topic types admitted (empty = all).
    pub topic_types: Vec<TopicType>,
    /// Base assets admitted (empty = all).
    pub base_assets: Vec<String>,
    /// Quote assets admitted (empty = all).
    pub quote_assets: Vec<String>,
    /// Compare assets after lower-casing.
    pub case_insensitive: bool,
}

impl Default for RoutingFilter {
    fn default() -> (f: RoutingFilter)
        ensures
            f.exchanges@.len() == 0,
            f.topic_types@.len() == 0,
            f.base_assets@.len() == 0,
            f.quote_assets@.len() == 0,
            !f.case_insensitive,
    {
        RoutingFilter {
            exchanges: Vec::new(),
            topic_types: Vec::new(),
            base_assets: Vec::new(),
            quote_assets: Vec::new(),
            case_insensitive: false,
        }
    }
}

/// Whether some asset of `list` equals `v` (after lower-casing both when `ci`).
fn any_asset(list: &Vec<String>, ci: bool, v: &String) -> (b: bool)
    ensures
        b == exists|i: int| 0 <= i < list@.len() && #[trigger] asset_eq(ci, texts(list@)[i], v@),
{
    let lv = to_lowercase(v.as_str());
    let mut i: usize = 0;
    while i < list.len()
        invariant
            i <= list@.len(),
            lv@ == lowercase(v@),
            forall|k: int| 0 <= k < i ==> !#[trigger] asset_eq(ci, texts(list@)[k], v@),
        decreases list@.len() - i,
    {
        let hit = if ci {
            let la = to_lowercase(list[i].as_str());
            la == lv
        } else {
            list[i] == *v
        };
        assert(texts(list@)[i as int] == list@[i as int]@);
        if hit {
            assert(asset_eq(ci, texts(list@)[i as int], v@));
            return true;
        }
        i = i + 1;
    }
    false
}

impl RoutingFilter {
    /// Whether an event passes this filter.
    pub open spec fn spec_matches(&self, event: MarketEvent) -> bool {
        &&& (self.exchanges@.len() == 0 || self.exchanges@.contains(event.instrument.exchange))
        &&& (self.topic_types@.len() == 0 || self.topic_types@.contains(event_topic_type(event.data)))
        &&& asset_allowed(texts(self.base_assets@), self.case_insensitive, event.instrument.base@)
        &&& asset_allowed(texts(self.quote_assets@), self.case_insensitive, event.instrument.quote@)
    }

    /// Whether an event passes this filter.
    pub fn matches(&self, event: &MarketEvent) -> (b: bool)
        ensures
            b == self.spec_matches(*event),
    {
        if self.exchanges.len() > 0 {
            let mut found = false;
            let mut i: usize = 0;
            while i < self.exchanges.len()
                invariant
                    i <= self.exchanges@.len(),
                    found == exists|k: int| 0 <= k < i && self.exchanges@[k] == event.instrument.exchange,
                decreases self.exchanges@.len() - i,
            {
                if self.exchanges[i] == event.instrument.exchange {
                    found = true;
                }
                i = i + 1;
            }
            if !found {
                return false;
            }
        }
        if self.topic_types.len() > 0 {
            let t = TopicTemplate::detect_topic_type(event);
            let mut found = false;
            let mut i: usize = 0;
            while i < self.topic_types.len()
                invariant
                    i <= self.topic_types@.len(),
                    found == exists|k: int| 0 <= k < i && self.topic_types@[k] == t,
                decreases self.topic_types@.len() - i,
            {
                if self.topic_types[i] == t {
                    found = true;
                }
                i = i + 1;
            }
            if !found {
                return false;
            }
        }
        if self.base_assets.len() > 0 && !any_asset(&self.base_assets, self.case_insensitive, &event.instrument.base) {
            return false;
        }
        if self.quote_assets.len() > 0 && !any_asset(&self.quote_assets, self.case_insensitive, &event.instrument.quote) {
            return false;
        }
        true
    }
}

/// Builder of a [`RoutingFilter`].
#[derive(Debug, Clone)]
pub struct RoutingFilterBuilder {
    /// The filter being built.
    pub filter: RoutingFilter,
}

impl Default for RoutingFilterBuilder {
    fn default() -> (b: RoutingFilterBuilder)
        ensures
            b.filter.exchanges@.len() == 0,
            b.filter.topic_types@.len() == 0,
            b.filter.base_assets@.len() == 0,
            b.filter.quote_assets@.len() == 0,
            !b.filter.case_insensitive,
    {
        RoutingFilterBuilder { filter: RoutingFilter::default() }
    }
}

impl RoutingFilterBuilder {
    /// A builder of the filter that admits everything.
    pub fn new() -> (b: RoutingFilterBuilder)
        ensures
            b.filter.exchanges@.len() == 0,
            b.filter.topic_types@.len() == 0,
            b.filter.base_assets@.len() == 0,
            b.filter.quote_assets@.len() == 0,
            !b.filter.case_insensitive,
    {
        RoutingFilterBuilder::default()
    }

    /// Admit one more exchange.
    pub fn exchange(self, exchange: Exchange) -> (b: RoutingFilterBuilder)
        ensures
            b.filter.exchanges@ == self.filter.exchanges@.push(exchange),
            b.filter.topic_types@ == self.filter.topic_types@,
            b.filter.base_assets@ == self.filter.base_assets@,
            b.filter.quote_assets@ == self.filter.quote_assets@,
            b.filter.case_insensitive == self.filter.case_insensitive,
    {
        let mut b = self;
        b.filter.exchanges.push(exchange);
        b
    }

    /// Admit several more exchanges, in order.
    pub fn exchanges(self, exchanges: Vec<Exchange>) -> (b: RoutingFilterBuilder)
        ensures
            b.filter.exchanges@ == self.filter.exchanges@ + exchanges@,
            b.filter.topic_types@ == self.filter.topic_types@,
            b.filter.base_assets@ == self.filter.base_assets@,
            b.filter.quote_assets@ == self.filter.quote_assets@,
            b.filter.case_insensitive == self.filter.case_insensitive,
    {
        let mut b = self;
        let mut i: usize = 0;
        while i < exchanges.len()
            invariant
                i <= exchanges@.len(),
                b.filter.exchanges@ == self.filter.exchanges@ + exchanges@.take(i as int),
                b.filter.topic_types@ == self.filter.topic_types@,
                b.filter.base_assets@ == self.filter.base_assets@,
                b.filter.quote_assets@ == self.filter.quote_assets@,
                b.filter.case_insensitive == self.filter.case_insensitive,
            decreases exchanges@.len() - i,
        {
            b.filter.exchanges.push(exchanges[i]);
            assert(exchanges@.take(i as int + 1) =~= exchanges@.take(i as int).push(exchanges@[i as int]));
            i = i + 1;
        }
        assert(exchanges@.take(exchanges@.len() as int) =~= exchanges@);
        b
    }

    /// Admit one more topic type.
    pub fn topic_type(self, topic_type: TopicType) -> (b: RoutingFilterBuilder)
        ensures
            b.filter.exchanges@ == self.filter.exchanges@,
            b.filter.topic_types@ == self.filter.topic_types@.push(topic_type),
            b.filter.base_assets@ == self.filter.base_assets@,
            b.filter.quote_assets@ == self.filter.quote_assets@,
            b.filter.case_insensitive == self.filter.case_insensitive,
    {
        let mut b = self;
        b.filter.topic_types.push(topic_type);
        b
    }

    /// Admit one more base asset.
    pub fn base_asset(self, asset: &str) -> (b: RoutingFilterBuilder)
        ensures
            b.filter.exchanges@ == self.filter.exchanges@,
            b.filter.topic_types@ == self.filter.topic_types@,
            texts(b.filter.base_assets@) == texts(self.filter.base_assets@).push(asset@),
            b.filter.quote_assets@ == self.filter.quote_assets@,
            b.filter.case_insensitive == self.filter.case_insensitive,
    {
        let mut b = self;
        b.filter.base_assets.push(String::from_str(asset));
        assert(texts(b.filter.base_assets@) =~= texts(self.filter.base_assets@).push(asset@));
        b
    }

    /// Admit one more quote asset.
    pub fn quote_asset(self, asset: &str) -> (b: RoutingFilterBuilder)
        ensures
            b.filter.exchanges@ == self.filter.exchanges@,
            b.filter.topic_types@ == self.filter.topic_types@,
            b.filter.base_assets@ == self.filter.base_assets@,
            texts(b.filter.quote_assets@) == texts(self.filter.quote_assets@).push(asset@),
            b.filter.case_insensitive == self.filter.case_insensitive,
    {
        let mut b = self;
        b.filter.quote_assets.push(String::from_str(asset));
        assert(texts(b.filter.quote_assets@) =~= texts(self.filter.quote_assets@).push(asset@));
        b
    }

    /// Compare assets after lower-casing, or not.
    pub fn case_insensitive(self, enabled: bool) -> (b: RoutingFilterBuilder)
        ensures
            b.filter.exchanges@ == self.filter.exchanges@,
            b.filter.topic_types@ == self.filter.topic_types@,
            b.filter.base_assets@ == self.filter.base_assets@,
            b.filter.quote_assets@ == self.filter.quote_assets@,
            b.filter.case_insensitive == enabled,
    {
        let mut b = self;
        b.filter.case_insensitive = enabled;
        b
    }

    /// The filter built.
    pub fn build(self) -> (f: RoutingFilter)
        ensures
            f == self.filter,
    {
        self.filter
    }
}

/// An empty filter admits every event.
pub proof fn law_empty_filter_admits_all(f: RoutingFilter, event: MarketEvent)
    requires
        f.exchanges@.len() == 0,
        f.topic_types@.len() == 0,
        f.base_assets@.len() == 0,
        f.quote_assets@.len() == 0,
    ensures
        f.spec_matches(event),
{
}


// =============================================================================
// ROUTING RULES
// =============================================================================

/// What a matching rule does with an event.
#[derive(Debug, Clone, Copy, PartialEq, Eq, Structural)]
pub enum RoutingAction {
    /// Route to the rule's topics and go on with later rules.
    Route,
    /// Route to the rule's topics and stop.
    RouteAndStop,
    /// Drop the event: no topics at all, and stop.
    Drop,
}

impl Default for RoutingAction {
    fn default() -> (a: RoutingAction)
        ensures
            a == RoutingAction::Route,
    {
        RoutingAction::Route
    }
}

/// A routing rule. Rules are applied in priority order, lower first.
#[derive(Debug, Clone)]
pub struct RoutingRule {
    /// Rule identifier.
    pub id: RuleId,
    /// Rule name.
    pub name: String,
    /// Topic pattern attached to the rule.
    pub pattern: Option<TopicPattern>,
    /// Events the rule applies to.
    pub filter: RoutingFilter,
    /// Templates of the topics the rule routes to.
    pub targets: Vec<TopicTemplate>,
    /// Priority (lower = applied earlier).
    pub priority: u32,
    /// Whether the rule is applied at all.
    pub enabled: bool,
    /// What the rule does when it matches.
    pub action: RoutingAction,
}

impl RoutingRule {
    /// The default rule with the given id: unnamed, no pattern, a filter that
    /// admits everything, no targets, priority 100, enabled, routing.
    pub fn with_id(id: RuleId) -> (r: RoutingRule)
        ensures
            r.id == id,
            r.name@.len() == 0,
            r.pattern is None,
            r.filter.exchanges@.len() == 0,
            r.filter.topic_types@.len() == 0,
            r.filter.base_assets@.len() == 0,
            r.filter.quote_assets@.len() == 0,
            !r.filter.case_insensitive,
            r.targets@.len() == 0,
            r.priority == 100,
            r.enabled,
            r.action == RoutingAction::Route,
    {
        RoutingRule {
            id,
            name: String::new(),
            pattern: None,
            filter: RoutingFilter::default(),
            targets: Vec::new(),
            priority: 100,
            enabled: true,
            action: RoutingAction::Route,
        }
    }
}

/// The parts of the default target template, "{prefix}.{exchange}.{base}_{quote}.{type}".
pub open spec fn default_target_parts() -> Seq<TemplatePart> {
    seq![
        TemplatePart::Prefix,
        TemplatePart::Literal("."@),
        TemplatePart::Exchange,
        TemplatePart::Literal("."@),
        TemplatePart::Base,
        TemplatePart::Literal("_"@),
        TemplatePart::Quote,
        TemplatePart::Literal("."@),
        TemplatePart::Type,
    ]
}

/// The default target template, "{prefix}.{exchange}.{base}_{quote}.{type}".
fn default_target() -> (t: TopicTemplate)
    ensures
        t.model() == default_target_parts(),
        t.raw@ == "{prefix}.{exchange}.{base}_{quote}.{type}"@,
{
    let mut segments: Vec<TemplateSegment> = Vec::new();
    segments.push(TemplateSegment::Prefix);
    segments.push(TemplateSegment::Literal(String::from_str(".")));
    segments.push(TemplateSegment::Exchange);
    segments.push(TemplateSegment::Literal(String::from_str(".")));
    segments.push(TemplateSegment::Base);
    segments.push(TemplateSegment::Literal(String::from_str("_")));
    segments.push(TemplateSegment::Quote);
    segments.push(TemplateSegment::Literal(String::from_str(".")));
    segments.push(TemplateSegment::Type);
    let t = TopicTemplate { segments, raw: String::from_str("{prefix}.{exchange}.{base}_{quote}.{type}") };
    assert(t.model() =~= default_target_parts());
    t
}

/// Builder of a [`RoutingRule`].
#[derive(Debug, Clone)]
pub struct RoutingRuleBuilder {
    /// The rule being built.
    pub rule: RoutingRule,
}

impl RoutingRuleBuilder {
    /// A builder of the default rule with this id and name.
    pub fn new(name: &str, id: RuleId) -> (b: RoutingRuleBuilder)
        ensures
            b.rule.id == id,
            b.rule.name@ == name@,
            b.rule.pattern is None,
            b.rule.filter.exchanges@.len() == 0,
            b.rule.filter.topic_types@.len() == 0,
            b.rule.filter.base_assets@.len() == 0,
            b.rule.filter.quote_assets@.len() == 0,
            !b.rule.filter.case_insensitive,
            b.rule.targets@.len() == 0,
            b.rule.priority == 100,
            b.rule.enabled,
            b.rule.action == RoutingAction::Route,
    {
        let mut rule = RoutingRule::with_id(id);
        rule.name = String::from_str(name);
        RoutingRuleBuilder { rule }
    }

    /// Set the priority.
    pub fn priority(self, priority: u32) -> (b: RoutingRuleBuilder)
        ensures
            b.rule == (RoutingRule { priority, ..self.rule }),
    {
        let mut b = self;
        b.rule.priority = priority;
        b
    }

    /// Enable or disable the rule.
    pub fn enabled(self, enabled: bool) -> (b: RoutingRuleBuilder)
        ensures
            b.rule == (RoutingRule { enabled, ..self.rule }),
    {
        let mut b = self;
        b.rule.enabled = enabled;
        b
    }

    /// Set the filter.
    pub fn filter(self, filter: RoutingFilter) -> (b: RoutingRuleBuilder)
        ensures
            b.rule == (RoutingRule { filter, ..self.rule }),
    {
        let mut b = self;
        b.rule.filter = filter;
        b
    }

    /// Attach a topic pattern; a pattern that does not parse is ignored.
    pub fn pattern(self, pattern: &str) -> (b: RoutingRuleBuilder)
        ensures
            pattern@.len() == 0 ==> b.rule == self.rule,
            pattern@.len() > 0 ==> (b.rule.pattern matches Some(p) && p.raw@ == pattern@
                && p.model() == split_seq(pattern@, '.').map_values(|piece: Seq<char>| parse_segment(piece))),
            pattern@.len() > 0 ==> b.rule == (RoutingRule { pattern: b.rule.pattern, ..self.rule }),
    {
        let mut b = self;
        match TopicPattern::parse(pattern) {
            Ok(p) => {
                b.rule.pattern = Some(p);
            },
            Err(_) => {},
        }
        b
    }

    /// Add a target template; a template that does not parse is ignored.
    pub fn target_template(self, template: &str) -> (b: RoutingRuleBuilder)
        ensures
            template_fault(template@) is Some ==> b.rule == self.rule,
            template_fault(template@) is None ==> {
                &&& b.rule.targets@.len() == self.rule.targets@.len() + 1
                &&& b.rule.targets@.take(self.rule.targets@.len() as int) == self.rule.targets@
                &&& b.rule.targets@.last().raw@ == template@
                &&& b.rule.targets@.last().model() == template_parts(template@)
                &&& b.rule == (RoutingRule { targets: b.rule.targets, ..self.rule })
            },
    {
        let mut b = self;
        match TopicTemplate::parse(template) {
            Ok(t) => {
                b.rule.targets.push(t);
                assert(b.rule.targets@.take(self.rule.targets@.len() as int) =~= self.rule.targets@);
            },
            Err(_) => {},
        }
        b
    }

    /// Set the action.
    pub fn action(self, action: RoutingAction) -> (b: RoutingRuleBuilder)
        ensures
            b.rule == (RoutingRule { action, ..self.rule }),
    {
        let mut b = self;
        b.rule.action = action;
        b
    }

    /// The rule built; a rule without targets gets the default target
    /// "{prefix}.{exchange}.{base}_{quote}.{type}".
    pub fn build(self) -> (r: Result<RoutingRule, RoutingError>)
        ensures
            r is Ok,
            r matches Ok(rule) ==> {
                &&& self.rule.targets@.len() > 0 ==> rule == self.rule
                &&& self.rule.targets@.len() == 0 ==> {
                    &&& rule.targets@.len() == 1
                    &&& rule.targets@[0].model() == default_target_parts()
                    &&& rule.targets@[0].raw@ == "{prefix}.{exchange}.{base}_{quote}.{type}"@
                    &&& rule == (RoutingRule { targets: rule.targets, ..self.rule })
                }
            },
    {
        let mut rule = self.rule;
        if rule.targets.len() == 0 {
            rule.targets.push(default_target());
        }
        Ok(rule)
    }
}

/// The outcome of routing one event.
#[derive(Debug, Clone)]
pub struct RoutingResult {
    /// Topics to publish to.
    pub topics: Vec<String>,
    /// Rules that matched, in order.
    pub matched_rules: Vec<RuleId>,
    /// Whether a rule dropped the event.
    pub dropped: bool,
    /// Routing latency in microseconds.
    pub latency_us: u64,
}

impl Default for RoutingResult {
    fn default() -> (r: RoutingResult)
        ensures
            r.topics@.len() == 0,
            r.matched_rules@.len() == 0,
            !r.dropped,
            r.latency_us == 0,
    {
        RoutingResult { topics: Vec::new(), matched_rules: Vec::new(), dropped: false, latency_us: 0 }
    }
}

/// Counts of routing outcomes.
#[derive(Debug, Clone, Copy, PartialEq, Eq, Structural)]
pub struct RoutingCounts {
    /// Events routed.
    pub events_routed: u64,
    /// Events matched by at least one rule.
    pub events_matched: u64,
    /// Events dropped by a rule.
    pub events_dropped: u64,
    /// Events no rule matched.
    pub events_unmatched: u64,
    /// Topics produced.
    pub topics_generated: u64,
}

impl RoutingCounts {
    /// All counts at zero.
    pub fn new() -> (c: RoutingCounts)
        ensures
            c == (RoutingCounts { events_routed: 0, events_matched: 0, events_dropped: 0, events_unmatched: 0, topics_generated: 0 }),
    {
        RoutingCounts { events_routed: 0, events_matched: 0, events_dropped: 0, events_unmatched: 0, topics_generated: 0 }
    }

    /// Whether recording `result` stays within the counters' range.
    pub open spec fn can_record(&self, result: RoutingResult) -> bool {
        &&& self.events_routed < u64::MAX
        &&& self.events_matched < u64::MAX
        &&& self.events_dropped < u64::MAX
        &&& self.events_unmatched < u64::MAX
        &&& self.topics_generated + result.topics@.len() <= u64::MAX
    }

    /// Count one routed event: matched when some rule matched, else
    /// unmatched; dropped when a rule dropped it; and its topics.
    pub fn record(&mut self, result: &RoutingResult)
        requires
            old(self).can_record(*result),
        ensures
            final(self).events_routed == old(self).events_routed + 1,
            final(self).events_matched == old(self).events_matched + if result.matched_rules@.len() > 0 { 1int } else { 0int },
            final(self).events_unmatched == old(self).events_unmatched + if result.matched_rules@.len() == 0 { 1int } else { 0int },
            final(self).events_dropped == old(self).events_dropped + if result.dropped { 1int } else { 0int },
            final(self).topics_generated == old(self).topics_generated + result.topics@.len(),
    {
        self.events_routed = self.events_routed + 1;
        if result.matched_rules.len() > 0 {
            self.events_matched = self.events_matched + 1;
        } else {
            self.events_unmatched = self.events_unmatched + 1;
        }
        if result.dropped {
            self.events_dropped = self.events_dropped + 1;
        }
        self.topics_generated = self.topics_generated + result.topics.len() as u64;
    }
}

// =============================================================================
// ROUTER CONFIG
// =============================================================================

/// Settings of a topic router.
#[derive(Debug, Clone)]
pub struct RouterConfig {
    /// Case-insensitive matching.
    pub case_insensitive: bool,
    /// Default topic prefix.
    pub default_prefix: String,
    /// Strict mode: an event no rule matches gets no default topic.
    pub strict_mode: bool,
    /// Maximum topics per event.
    pub max_topics_per_event: usize,
    /// Keep routing statistics.
    pub track_stats: bool,
}

impl Default for RouterConfig {
    fn default() -> (c: RouterConfig)
        ensures
            !c.case_insensitive,
            c.default_prefix@ == "market_data"@,
            !c.strict_mode,
            c.max_topics_per_event == 10,
            c.track_stats,
    {
        RouterConfig {
            case_insensitive: false,
            default_prefix: String::from_str("market_data"),
            strict_mode: false,
            max_topics_per_event: 10,
            track_stats: true,
        }
    }
}

impl RouterConfig {
    /// Check the settings: the prefix must not be empty and at least one topic
    /// per event must be allowed.
    pub fn validate(&self) -> (r: Result<(), RoutingError>)
        ensures
            self.default_prefix@.len() == 0 ==> (r matches Err(RoutingError::ConfigError(m))
                && m@ == "default_prefix cannot be empty"@),
            self.default_prefix@.len() > 0 && self.max_topics_per_event == 0 ==> (r matches Err(RoutingError::ConfigError(m))
                && m@ == "max_topics_per_event must be > 0"@),
            self.default_prefix@.len() > 0 && self.max_topics_per_event > 0 ==> r is Ok,
    {
        if self.default_prefix.as_str().is_empty() {
            return Err(RoutingError::ConfigError(String::from_str("default_prefix cannot be empty")));
        }
        if self.max_topics_per_event == 0 {
            return Err(RoutingError::ConfigError(String::from_str("max_topics_per_event must be > 0")));
        }
        Ok(())
    }
}

/// Builder of a [`RouterConfig`].
#[derive(Debug, Clone)]
pub struct RouterConfigBuilder {
    /// The settings being built.
    pub config: RouterConfig,
}

impl Default for RouterConfigBuilder {
    fn default() -> (b: RouterConfigBuilder)
        ensures
            !b.config.case_insensitive,
            b.config.default_prefix@ == "market_data"@,
            !b.config.strict_mode,
            b.config.max_topics_per_event == 10,
            b.config.track_stats,
    {
        RouterConfigBuilder { config: RouterConfig::default() }
    }
}

impl RouterConfigBuilder {
    /// A builder of the default settings.
    pub fn new() -> (b: RouterConfigBuilder)
        ensures
            !b.config.case_insensitive,
            b.config.default_prefix@ == "market_data"@,
            !b.config.strict_mode,
            b.config.max_topics_per_event == 10,
            b.config.track_stats,
    {
        RouterConfigBuilder::default()
    }

    /// Set case-insensitive matching.
    pub fn case_insensitive(self, enabled: bool) -> (b: RouterConfigBuilder)
        ensures
            b.config == (RouterConfig { case_insensitive: enabled, ..self.config }),
    {
        let mut b = self;
        b.config.case_insensitive = enabled;
        b
    }

    /// Set the default prefix.
    pub fn default_prefix(self, prefix: &str) -> (b: RouterConfigBuilder)
        ensures
            b.config.default_prefix@ == prefix@,
            b.config == (RouterConfig { default_prefix: b.config.default_prefix, ..self.config }),
    {
        let mut b = self;
        b.config.default_prefix = String::from_str(prefix);
        b
    }

    /// Set strict mode.
    pub fn strict_mode(self, enabled: bool) -> (b: RouterConfigBuilder)
        ensures
            b.config == (RouterConfig { strict_mode: enabled, ..self.config }),
    {
        let mut b = self;
        b.config.strict_mode = enabled;
        b
    }

    /// Set the maximum topics per event.
    pub fn max_topics_per_event(self, max: usize) -> (b: RouterConfigBuilder)
        ensures
            b.config == (RouterConfig { max_topics_per_event: max, ..self.config }),
    {
        let mut b = self;
        b.config.max_topics_per_event = max;
        b
    }

    /// Set statistics tracking.
    pub fn track_stats(self, enabled: bool) -> (b: RouterConfigBuilder)
        ensures
            b.config == (RouterConfig { track_stats: enabled, ..self.config }),
    {
        let mut b = self;
        b.config.track_stats = enabled;
        b
    }

    /// The settings built.
    pub fn build(self) -> (c: RouterConfig)
        ensures
            c == self.config,
    {
        self.config
    }
}


// =============================================================================
// TOPIC ROUTER
// =============================================================================

/// State of routing one event through a prefix of the rules.
pub struct RouteState {
    /// Topics gathered.
    pub topics: Seq<Seq<char>>,
    /// Ids of the rules that matched.
    pub ids: Seq<RuleId>,
    /// A rule dropped the event.
    pub dropped: bool,
    /// Some rule matched.
    pub matched: bool,
    /// No later rule is applied.
    pub stopped: bool,
}

/// Add a topic unless it is already there.
pub open spec fn add_topic(ts: Seq<Seq<char>>, t: Seq<char>) -> Seq<Seq<char>> {
    if ts.contains(t) {
        ts
    } else {
        ts.push(t)
    }
}

/// Add the topics of the templates, in order, skipping those already there.
pub open spec fn add_targets(ts: Seq<Seq<char>>, targets: Seq<TopicTemplate>, event: MarketEvent, prefix: Seq<char>) -> Seq<Seq<char>>
    decreases targets.len(),
{
    if targets.len() == 0 {
        ts
    } else {
        add_topic(
            add_targets(ts, targets.drop_last(), event, prefix),
            targets.last().spec_expand(event, prefix, event_topic_type(event.data)),
        )
    }
}

/// Apply one rule. A stopped state, a disabled rule or a rule whose filter
/// refuses the event leaves the state as it is. A matching rule is recorded;
/// `Drop` clears the topics and stops; `RouteAndStop` adds the rule's topics
/// and stops; `Route` adds them and stops, cut to `max`, once there are `max`.
pub open spec fn route_step(st: RouteState, rule: RoutingRule, event: MarketEvent, prefix: Seq<char>, max: usize) -> RouteState {
    if st.stopped || !rule.enabled || !rule.filter.spec_matches(event) {
        st
    } else {
        let ids = st.ids.push(rule.id);
        match rule.action {
            RoutingAction::Drop => RouteState { topics: Seq::empty(), ids, dropped: true, matched: true, stopped: true },
            RoutingAction::RouteAndStop => RouteState {
                topics: add_targets(st.topics, rule.targets@, event, prefix),
                ids,
                dropped: st.dropped,
                matched: true,
                stopped: true,
            },
            RoutingAction::Route => {
                let ts = add_targets(st.topics, rule.targets@, event, prefix);
                if ts.len() >= max {
                    RouteState { topics: ts.take(max as int), ids, dropped: st.dropped, matched: true, stopped: true }
                } else {
                    RouteState { topics: ts, ids, dropped: st.dropped, matched: true, stopped: false }
                }
            },
        }
    }
}

/// Apply the rules in order.
pub open spec fn route_rules(rules: Seq<RoutingRule>, event: MarketEvent, prefix: Seq<char>, max: usize) -> RouteState
    decreases rules.len(),
{
    if rules.len() == 0 {
        RouteState { topics: Seq::empty(), ids: Seq::empty(), dropped: false, matched: false, stopped: false }
    } else {
        route_step(route_rules(rules.drop_last(), event, prefix, max), rules.last(), event, prefix, max)
    }
}

/// Once routing has stopped, later rules change nothing.
pub proof fn lemma_route_stopped(rules: Seq<RoutingRule>, k: int, event: MarketEvent, prefix: Seq<char>, max: usize)
    requires
        0 <= k <= rules.len(),
        route_rules(rules.take(k), event, prefix, max).stopped,
    ensures
        route_rules(rules, event, prefix, max) == route_rules(rules.take(k), event, prefix, max),
    decreases rules.len(),
{
    if k == rules.len() {
        assert(rules.take(k) =~= rules);
    } else {
        assert(rules.drop_last().take(k) =~= rules.take(k));
        lemma_route_stopped(rules.drop_last(), k, event, prefix, max);
    }
}

/// The action of the rule at which routing through `rules` stopped, if it
/// stopped.
pub open spec fn stopping_action(rules: Seq<RoutingRule>, event: MarketEvent, prefix: Seq<char>, max: usize) -> Option<RoutingAction>
    decreases rules.len(),
{
    if rules.len() == 0 {
        None
    } else {
        let st = route_rules(rules.drop_last(), event, prefix, max);
        if st.stopped {
            stopping_action(rules.drop_last(), event, prefix, max)
        } else if route_step(st, rules.last(), event, prefix, max).stopped {
            Some(rules.last().action)
        } else {
            None
        }
    }
}

/// Adding topics keeps them free of duplicates and never removes one.
proof fn lemma_add_targets_unique(ts: Seq<Seq<char>>, targets: Seq<TopicTemplate>, event: MarketEvent, prefix: Seq<char>)
    requires
        ts.no_duplicates(),
    ensures
        add_targets(ts, targets, event, prefix).no_duplicates(),
        add_targets(ts, targets, event, prefix).len() >= ts.len(),
    decreases targets.len(),
{
    if targets.len() > 0 {
        lemma_add_targets_unique(ts, targets.drop_last(), event, prefix);
    }
}

/// A prefix of a sequence without duplicates has none.
proof fn lemma_take_unique(ts: Seq<Seq<char>>, n: int)
    requires
        ts.no_duplicates(),
        0 <= n <= ts.len(),
    ensures
        ts.take(n).no_duplicates(),
{
    let t = ts.take(n);
    assert forall|i: int, j: int| 0 <= i < t.len() && 0 <= j < t.len() && i != j implies t[i] != t[j] by {
        assert(t[i] == ts[i] && t[j] == ts[j]);
    }
}

/// What holds after routing through any rules: topics are unique; a dropped
/// event has no topics; nothing matched means nothing happened; a routing
/// that goes on has fewer than `max` topics, and one that stopped has at most
/// `max` unless it stopped at a `RouteAndStop` rule.
proof fn lemma_route_rules_shape(rules: Seq<RoutingRule>, event: MarketEvent, prefix: Seq<char>, max: usize)
    requires
        max > 0,
    ensures
        route_rules(rules, event, prefix, max).topics.no_duplicates(),
        route_rules(rules, event, prefix, max).dropped ==> route_rules(rules, event, prefix, max).topics.len() == 0,
        route_rules(rules, event, prefix, max).dropped ==> route_rules(rules, event, prefix, max).stopped,
        !route_rules(rules, event, prefix, max).matched ==> {
            &&& route_rules(rules, event, prefix, max).topics.len() == 0
            &&& !route_rules(rules, event, prefix, max).dropped
            &&& !route_rules(rules, event, prefix, max).stopped
            &&& route_rules(rules, event, prefix, max).ids.len() == 0
        },
        !route_rules(rules, event, prefix, max).stopped ==> route_rules(rules, event, prefix, max).topics.len() < max,
        !route_rules(rules, event, prefix, max).stopped ==> stopping_action(rules, event, prefix, max) is None,
        route_rules(rules, event, prefix, max).stopped && stopping_action(rules, event, prefix, max) != Some(RoutingAction::RouteAndStop)
            ==> route_rules(rules, event, prefix, max).topics.len() <= max,
    decreases rules.len(),
{
    if rules.len() == 0 {
        assert(Seq::<Seq<char>>::empty().no_duplicates());
    } else {
        let prev = rules.drop_last();
        lemma_route_rules_shape(prev, event, prefix, max);
        let st = route_rules(prev, event, prefix, max);
        let rule = rules.last();
        if !(st.stopped || !rule.enabled || !rule.filter.spec_matches(event)) {
            lemma_add_targets_unique(st.topics, rule.targets@, event, prefix);
            let ts = add_targets(st.topics, rule.targets@, event, prefix);
            match rule.action {
                RoutingAction::Drop => {
                    assert(Seq::<Seq<char>>::empty().no_duplicates());
                },
                RoutingAction::RouteAndStop => {},
                RoutingAction::Route => {
                    if ts.len() >= max {
                        lemma_take_unique(ts, max as int);
                    }
                },
            }
        }
    }
}

/// Rules sorted by priority, lowest first.
pub open spec fn sorted_by_priority(rules: Seq<RoutingRule>) -> bool {
    forall|a: int, b: int| 0 <= a < b < rules.len() ==> (#[trigger] rules[a]).priority <= (#[trigger] rules[b]).priority
}

/// Where a rule of priority `p` goes among sorted rules: after every rule of
/// priority at most `p`.
pub open spec fn insert_position(rules: Seq<RoutingRule>, p: u32) -> int
    decreases rules.len(),
{
    if rules.len() == 0 {
        0
    } else if rules.last().priority <= p {
        rules.len() as int
    } else {
        insert_position(rules.drop_last(), p)
    }
}

/// Rules after inserting `r` as a stable sort by priority places it.
pub open spec fn insert_by_priority(rules: Seq<RoutingRule>, r: RoutingRule) -> Seq<RoutingRule> {
    rules.insert(insert_position(rules, r.priority), r)
}

/// Rules inserted one by one by priority.
pub open spec fn insert_all_by_priority(rules: Seq<RoutingRule>, added: Seq<RoutingRule>) -> Seq<RoutingRule>
    decreases added.len(),
{
    if added.len() == 0 {
        rules
    } else {
        insert_by_priority(insert_all_by_priority(rules, added.drop_last()), added.last())
    }
}

/// The index of the first rule with this id.
pub open spec fn rule_index(rules: Seq<RoutingRule>, id: RuleId) -> Option<int> {
    if exists|i: int| 0 <= i < rules.len() && rules[i].id == id {
        Some(choose|i: int| 0 <= i < rules.len() && rules[i].id == id
            && forall|j: int| 0 <= j < i ==> rules[j].id != id)
    } else {
        None
    }
}

/// Among sorted rules, the insert position splits them into those of priority
/// at most `p` and those above it.
proof fn lemma_insert_position(rules: Seq<RoutingRule>, p: u32)
    requires
        sorted_by_priority(rules),
    ensures
        0 <= insert_position(rules, p) <= rules.len(),
        forall|j: int| 0 <= j < insert_position(rules, p) ==> (#[trigger] rules[j]).priority <= p,
        forall|j: int| insert_position(rules, p) <= j < rules.len() ==> (#[trigger] rules[j]).priority > p,
    decreases rules.len(),
{
    if rules.len() > 0 {
        let k = insert_position(rules, p);
        if rules.last().priority <= p {
            assert forall|j: int| 0 <= j < k implies (#[trigger] rules[j]).priority <= p by {
                if j < rules.len() - 1 {
                    assert(rules[j].priority <= rules[rules.len() - 1].priority);
                }
            }
        } else {
            lemma_insert_position(rules.drop_last(), p);
            assert forall|j: int| k <= j < rules.len() implies (#[trigger] rules[j]).priority > p by {
                if j < rules.len() - 1 {
                    assert(rules.drop_last()[j] == rules[j]);
                }
            }
            assert forall|j: int| 0 <= j < k implies (#[trigger] rules[j]).priority <= p by {
                assert(rules.drop_last()[j] == rules[j]);
            }
        }
    }
}

/// Inserting by priority keeps rules sorted.
pub proof fn law_insert_keeps_sorted(rules: Seq<RoutingRule>, r: RoutingRule)
    requires
        sorted_by_priority(rules),
    ensures
        sorted_by_priority(insert_by_priority(rules, r)),
        insert_by_priority(rules, r).len() == rules.len() + 1,
        insert_by_priority(rules, r).to_multiset() == rules.to_multiset().insert(r),
{
    lemma_insert_position(rules, r.priority);
    let k = insert_position(rules, r.priority);
    let out = insert_by_priority(rules, r);
    assert forall|a: int, b: int| 0 <= a < b < out.len() implies (#[trigger] out[a]).priority <= (#[trigger] out[b]).priority by {
        if a < k && b < k {
            assert(out[a] == rules[a] && out[b] == rules[b]);
        } else if a < k && b == k {
            assert(out[a] == rules[a]);
        } else if a < k {
            assert(out[a] == rules[a] && out[b] == rules[b - 1]);
        } else if a == k {
            assert(out[b] == rules[b - 1]);
        } else {
            assert(out[a] == rules[a - 1] && out[b] == rules[b - 1]);
        }
    }
    vstd::seq_lib::lemma_multiset_commutative(rules.take(k), rules.skip(k));
    assert(out =~= rules.take(k) + seq![r] + rules.skip(k));
    vstd::seq_lib::lemma_multiset_commutative(rules.take(k) + seq![r], rules.skip(k));
    vstd::seq_lib::lemma_multiset_commutative(rules.take(k), seq![r]);
    assert(rules =~= rules.take(k) + rules.skip(k));
    assert(seq![r].to_multiset() =~= vstd::multiset::Multiset::empty().insert(r)) by {
        broadcast use vstd::seq_lib::group_to_multiset_ensures;
        assert(seq![r] =~= Seq::<RoutingRule>::empty().push(r));
    }
    assert(out.to_multiset() =~= rules.to_multiset().insert(r));
}

/// Removing a rule keeps rules sorted.
proof fn lemma_remove_keeps_sorted(rules: Seq<RoutingRule>, i: int)
    requires
        sorted_by_priority(rules),
        0 <= i < rules.len(),
    ensures
        sorted_by_priority(rules.remove(i)),
{
    let out = rules.remove(i);
    assert forall|a: int, b: int| 0 <= a < b < out.len() implies (#[trigger] out[a]).priority <= (#[trigger] out[b]).priority by {
        let a0 = if a < i { a } else { a + 1 };
        let b0 = if b < i { b } else { b + 1 };
        assert(out[a] == rules[a0]);
        assert(out[b] == rules[b0]);
    }
}

/// Routes market events to topics by priority-ordered rules.
#[derive(Debug)]
pub struct TopicRouter {
    rules: Vec<RoutingRule>,
    topic_builder: TopicBuilder,
    config: RouterConfig,
}

impl TopicRouter {
    /// The rules, in the order they are applied.
    pub closed spec fn spec_rules(&self) -> Seq<RoutingRule> {
        self.rules@
    }

    /// The settings.
    pub closed spec fn spec_config(&self) -> RouterConfig {
        self.config
    }

    /// Rules sorted by priority, default topics under the lower-cased prefix.
    pub closed spec fn wf(&self) -> bool {
        &&& sorted_by_priority(self.rules@)
        &&& self.topic_builder.prefix@ == lowercase(self.config.default_prefix@)
    }

    /// The routing outcome for an event: the rules applied in order, then,
    /// when none matched and the router is not strict, the default topic
    /// "{prefix}.{exchange}.{base}_{quote}.{type}" under the lower-cased prefix.
    pub open spec fn spec_route(&self, event: MarketEvent) -> RouteState {
        let st = route_rules(self.spec_rules(), event, self.spec_config().default_prefix@, self.spec_config().max_topics_per_event);
        if !st.matched && !self.spec_config().strict_mode {
            RouteState {
                topics: st.topics.push(market_topic(
                    lowercase(self.spec_config().default_prefix@),
                    event.instrument.exchange,
                    event.instrument.base@,
                    event.instrument.quote@,
                    event_topic_type(event.data),
                )),
                ..st
            }
        } else {
            st
        }
    }

    /// A router without rules.
    pub fn new(config: RouterConfig) -> (r: TopicRouter)
        ensures
            r.wf(),
            r.spec_rules().len() == 0,
            r.spec_config() == config,
    {
        let topic_builder = TopicBuilder::new(config.default_prefix.as_str());
        TopicRouter { rules: Vec::new(), topic_builder, config }
    }

    /// A router without rules and with the default settings.
    pub fn with_defaults() -> (r: TopicRouter)
        ensures
            r.wf(),
            r.spec_rules().len() == 0,
            !r.spec_config().case_insensitive,
            r.spec_config().default_prefix@ == "market_data"@,
            !r.spec_config().strict_mode,
            r.spec_config().max_topics_per_event == 10,
            r.spec_config().track_stats,
    {
        TopicRouter::new(RouterConfig::default())
    }

    /// Whether `topics` already holds `t`.
    fn has_topic(topics: &Vec<String>, t: &String) -> (b: bool)
        ensures
            b == texts(topics@).contains(t@),
    {
        let mut i: usize = 0;
        while i < topics.len()
            invariant
                i <= topics@.len(),
                forall|k: int| 0 <= k < i ==> texts(topics@)[k] != t@,
            decreases topics@.len() - i,
        {
            if topics[i] == *t {
                assert(texts(topics@)[i as int] == t@);
                return true;
            }
            i = i + 1;
        }
        false
    }

    /// Add the topics of a rule's targets to `topics`.
    fn add_rule_targets(&self, rule: &RoutingRule, event: &MarketEvent, topics: &mut Vec<String>)
        ensures
            texts(final(topics)@) == add_targets(texts(old(topics)@), rule.targets@, *event, self.config.default_prefix@),
    {
        let tt = TopicTemplate::detect_topic_type(event);
        let ghost start = texts(topics@);
        let mut j: usize = 0;
        while j < rule.targets.len()
            invariant
                j <= rule.targets@.len(),
                tt == event_topic_type(event.data),
                texts(topics@) == add_targets(start, rule.targets@.take(j as int), *event, self.config.default_prefix@),
            decreases rule.targets@.len() - j,
        {
            proof {
                let m = rule.targets@.take(j as int + 1);
                assert(m.drop_last() =~= rule.targets@.take(j as int));
                assert(m.last() == rule.targets@[j as int]);
            }
            let topic = rule.targets[j].expand_with_prefix(event, self.config.default_prefix.as_str(), tt);
            let ghost before_push = topics@;
            if !TopicRouter::has_topic(topics, &topic) {
                topics.push(topic);
                assert(texts(topics@) =~= texts(before_push).push(topic@));
            }
            j = j + 1;
        }
        assert(rule.targets@.take(rule.targets@.len() as int) =~= rule.targets@);
    }

    /// Route an event: the topics to publish it to, the rules that matched and
    /// whether it was dropped. The latency is left at 0 for the caller to fill.
    pub fn route(&self, event: &MarketEvent) -> (r: RoutingResult)
        requires
            self.wf(),
        ensures
            texts(r.topics@) == self.spec_route(*event).topics,
            r.matched_rules@ == self.spec_route(*event).ids,
            r.dropped == self.spec_route(*event).dropped,
            r.latency_us == 0,
    {
        let ghost prefix = self.config.default_prefix@;
        let max = self.config.max_topics_per_event;
        let mut topics: Vec<String> = Vec::new();
        let mut ids: Vec<RuleId> = Vec::new();
        let mut dropped = false;
        let mut matched = false;
        let mut stopped = false;
        let mut i: usize = 0;
        assert(texts(topics@) =~= Seq::<Seq<char>>::empty());
        while i < self.rules.len() && !stopped
            invariant
                i <= self.rules@.len(),
                prefix == self.config.default_prefix@,
                max == self.config.max_topics_per_event,
                (RouteState { topics: texts(topics@), ids: ids@, dropped, matched, stopped })
                    == route_rules(self.rules@.take(i as int), *event, prefix, max),
            decreases self.rules@.len() - i,
        {
            let ghost before = route_rules(self.rules@.take(i as int), *event, prefix, max);
            proof {
                let m = self.rules@.take(i as int + 1);
                assert(m.drop_last() =~= self.rules@.take(i as int));
                assert(m.last() == self.rules@[i as int]);
            }
            let rule = &self.rules[i];
            if rule.enabled && rule.filter.matches(event) {
                matched = true;
                ids.push(rule.id);
                match rule.action {
                    RoutingAction::Drop => {
                        dropped = true;
                        topics = Vec::new();
                        assert(texts(topics@) =~= Seq::<Seq<char>>::empty());
                        stopped = true;
                    },
                    RoutingAction::RouteAndStop => {
                        self.add_rule_targets(rule, event, &mut topics);
                        stopped = true;
                    },
                    RoutingAction::Route => {
                        self.add_rule_targets(rule, event, &mut topics);
                        if topics.len() >= max {
                            let ghost full = texts(topics@);
                            topics.truncate(max);
                            assert(texts(topics@) =~= full.take(max as int));
                            stopped = true;
                        }
                    },
                }
            }
            i = i + 1;
        }
        proof {
            if stopped {
                lemma_route_stopped(self.rules@, i as int, *event, prefix, max);
            } else {
                assert(self.rules@.take(i as int) =~= self.rules@);
            }
        }
        if !matched && !self.config.strict_mode {
            let tt = TopicTemplate::detect_topic_type(event);
            let topic = self.topic_builder.for_instrument(&event.instrument, tt);
            topics.push(topic);
            assert(texts(topics@) =~= self.spec_route(*event).topics);
        }
        RoutingResult { topics, matched_rules: ids, dropped, latency_us: 0 }
    }

    /// Add a rule after every rule of the same or lower priority, keeping the
    /// rules sorted by priority.
    pub fn add_rule(&mut self, rule: RoutingRule)
        requires
            old(self).wf(),
        ensures
            final(self).wf(),
            final(self).spec_rules() == insert_by_priority(old(self).spec_rules(), rule),
            final(self).spec_config() == old(self).spec_config(),
    {
        let ghost k = insert_position(self.rules@, rule.priority);
        proof {
            lemma_insert_position(self.rules@, rule.priority);
            law_insert_keeps_sorted(self.rules@, rule);
        }
        let mut i: usize = 0;
        while i < self.rules.len() && self.rules[i].priority <= rule.priority
            invariant
                i <= self.rules@.len(),
                i <= k,
                0 <= k <= self.rules@.len(),
                forall|j: int| k <= j < self.rules@.len() ==> (#[trigger] self.rules@[j]).priority > rule.priority,
            decreases self.rules@.len() - i,
        {
            i = i + 1;
        }
        self.rules.insert(i, rule);
    }

    /// Remove the first rule with this id; returns whether one was removed.
    pub fn remove_rule(&mut self, id: RuleId) -> (removed: bool)
        requires
            old(self).wf(),
        ensures
            final(self).wf(),
            removed == rule_index(old(self).spec_rules(), id) is Some,
            removed ==> final(self).spec_rules() == old(self).spec_rules().remove(rule_index(old(self).spec_rules(), id)->0),
            !removed ==> final(self).spec_rules() == old(self).spec_rules(),
            final(self).spec_config() == old(self).spec_config(),
    {
        match self.position(id) {
            Some(i) => {
                proof { lemma_remove_keeps_sorted(self.rules@, i as int); }
                self.rules.remove(i);
                true
            },
            None => false,
        }
    }

    /// Index of the first rule with this id.
    fn position(&self, id: RuleId) -> (r: Option<usize>)
        ensures
            match r {
                Some(i) => i < self.rules@.len() && rule_index(self.rules@, id) == Some(i as int),
                None => rule_index(self.rules@, id) is None,
            },
    {
        let mut i: usize = 0;
        while i < self.rules.len()
            invariant
                i <= self.rules@.len(),
                forall|j: int| 0 <= j < i ==> self.rules@[j].id != id,
            decreases self.rules@.len() - i,
        {
            if self.rules[i].id == id {
                proof {
                    let w = choose|w: int| 0 <= w < self.rules@.len() && self.rules@[w].id == id
                        && forall|j: int| 0 <= j < w ==> self.rules@[j].id != id;
                    assert(w == i as int) by {
                        if w < i {
                            assert(self.rules@[w].id != id);
                        }
                        if w > i {
                            assert(self.rules@[i as int].id == id);
                        }
                    }
                }
                return Some(i);
            }
            i = i + 1;
        }
        None
    }

    /// The first rule with this id.
    pub fn get_rule(&self, id: RuleId) -> (r: Option<&RoutingRule>)
        ensures
            match r {
                Some(rule) => rule_index(self.spec_rules(), id) matches Some(i) && *rule == self.spec_rules()[i],
                None => rule_index(self.spec_rules(), id) is None,
            },
    {
        match self.position(id) {
            Some(i) => Some(&self.rules[i]),
            None => None,
        }
    }

    /// Number of rules.
    pub fn rule_count(&self) -> (n: usize)
        ensures
            n == self.spec_rules().len(),
    {
        self.rules.len()
    }

    /// The settings.
    pub fn config(&self) -> (c: &RouterConfig)
        ensures
            *c == self.spec_config(),
    {
        &self.config
    }
}

/// Routing never yields a topic twice; a dropped event has no topics; when
/// no rule matches, nothing is dropped and the event goes to the default
/// topic, or nowhere on a strict router; and with a positive limit there are
/// at most `max_topics_per_event` topics, unless routing stopped at a
/// `RouteAndStop` rule, whose topics are all added before the limit is looked at.
pub proof fn law_route_topics_unique_and_bounded(router: TopicRouter, event: MarketEvent)
    requires
        router.spec_config().max_topics_per_event > 0,
    ensures
        router.spec_route(event).topics.no_duplicates(),
        router.spec_route(event).dropped ==> router.spec_route(event).topics.len() == 0,
        !router.spec_route(event).matched ==> {
            &&& !router.spec_route(event).dropped
            &&& router.spec_route(event).ids.len() == 0
            &&& router.spec_route(event).topics == if router.spec_config().strict_mode {
                Seq::<Seq<char>>::empty()
            } else {
                seq![market_topic(
                    lowercase(router.spec_config().default_prefix@),
                    event.instrument.exchange,
                    event.instrument.base@,
                    event.instrument.quote@,
                    event_topic_type(event.data),
                )]
            }
        },
        stopping_action(router.spec_rules(), event, router.spec_config().default_prefix@, router.spec_config().max_topics_per_event)
            != Some(RoutingAction::RouteAndStop) ==> router.spec_route(event).topics.len() <= router.spec_config().max_topics_per_event,
{
    let prefix = router.spec_config().default_prefix@;
    let max = router.spec_config().max_topics_per_event;
    lemma_route_rules_shape(router.spec_rules(), event, prefix, max);
    let st = route_rules(router.spec_rules(), event, prefix, max);
    if !st.matched && !router.spec_config().strict_mode {
        let t = market_topic(lowercase(prefix), event.instrument.exchange, event.instrument.base@, event.instrument.quote@, event_topic_type(event.data));
        assert(st.topics.push(t) =~= seq![t]);
        assert(seq![t].no_duplicates());
    } else if !st.matched {
        assert(st.topics =~= Seq::<Seq<char>>::empty());
    }
}

/// Builder of a [`TopicRouter`].
#[derive(Debug, Clone)]
pub struct TopicRouterBuilder {
    /// Router settings.
    pub config: RouterConfig,
    /// Rules, in the order they were added.
    pub rules: Vec<RoutingRule>,
}

impl Default for TopicRouterBuilder {
    fn default() -> (b: TopicRouterBuilder)
        ensures
            b.config.default_prefix@ == "market_data"@,
            b.config.max_topics_per_event == 10,
            !b.config.strict_mode,
            !b.config.case_insensitive,
            b.config.track_stats,
            b.rules@.len() == 0,
    {
        TopicRouterBuilder { config: RouterConfig::default(), rules: Vec::new() }
    }
}

impl TopicRouterBuilder {
    /// A builder with the default settings and no rules.
    pub fn new() -> (b: TopicRouterBuilder)
        ensures
            b.config.default_prefix@ == "market_data"@,
            b.config.max_topics_per_event == 10,
            !b.config.strict_mode,
            !b.config.case_insensitive,
            b.config.track_stats,
            b.rules@.len() == 0,
    {
        TopicRouterBuilder::default()
    }

    /// Set the settings.
    pub fn config(self, config: RouterConfig) -> (b: TopicRouterBuilder)
        ensures
            b.config == config,
            b.rules == self.rules,
    {
        let mut b = self;
        b.config = config;
        b
    }

    /// Add a rule.
    pub fn add_rule(self, rule: RoutingRule) -> (b: TopicRouterBuilder)
        ensures
            b.config == self.config,
            b.rules@ == self.rules@.push(rule),
    {
        let mut b = self;
        b.rules.push(rule);
        b
    }

    /// The router, with the rules sorted by priority (stable: rules of equal
    /// priority keep the order they were added in).
    pub fn build(self) -> (r: TopicRouter)
        ensures
            r.wf(),
            r.spec_config() == self.config,
            r.spec_rules() == insert_all_by_priority(Seq::empty(), self.rules@),
    {
        let mut router = TopicRouter::new(self.config);
        let mut rules = self.rules;
        let ghost all = rules@;
        let n = rules.len();
        let mut i: usize = 0;
        while rules.len() > 0
            invariant
                i <= all.len(),
                all.len() == n,
                rules@ == all.skip(i as int),
                router.wf(),
                router.spec_config() == self.config,
                router.spec_rules() == insert_all_by_priority(Seq::empty(), all.take(i as int)),
            decreases rules@.len(),
        {
            proof {
                let m = all.take(i as int + 1);
                assert(m.drop_last() =~= all.take(i as int));
                assert(m.last() == all[i as int]);
            }
            assert(i < all.len());
            let rule = rules.remove(0);
            router.add_rule(rule);
            assert(rules@ =~= all.skip(i as int + 1));
            i = i + 1;
        }
        assert(all.take(all.len() as int) =~= all);
        router
    }
}

} // verus!
