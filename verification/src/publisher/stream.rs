//! Stream publishing: serialization formats, topic names, publisher settings and
//! the XADD command a publish sends.

use crate::publisher::pool::{pool_error_text, PoolError};
use crate::text::{decimal_digits, decimal_text, i64_decimal, lowercase, to_lowercase, u64_decimal};
use crate::types::Timestamp;
use crate::types::{exchange_name, Exchange, Instrument};
use vstd::prelude::*;

verus! {

/// Serialization format of published payloads.
#[derive(Debug, Clone, Copy, PartialEq, Eq, Hash, Structural)]
pub enum SerializationFormat {
    /// JSON text.
    Json,
    /// Bincode (default).
    Bincode,
    /// Rkyv (encoded as bincode).
    Rkyv,
}

/// Name of a serialization format.
pub open spec fn format_name(f: SerializationFormat) -> Seq<char> {
    match f {
        SerializationFormat::Json => "json"@,
        SerializationFormat::Bincode => "bincode"@,
        SerializationFormat::Rkyv => "rkyv"@,
    }
}

impl Default for SerializationFormat {
    fn default() -> (f: SerializationFormat)
        ensures
            f == SerializationFormat::Bincode,
    {
        SerializationFormat::Bincode
    }
}

impl SerializationFormat {
    /// Lower-case name of the format.
    pub fn as_str(&self) -> (s: &'static str)
        ensures
            s@ == format_name(*self),
    {
        match self {
            SerializationFormat::Json => "json",
            SerializationFormat::Bincode => "bincode",
            SerializationFormat::Rkyv => "rkyv",
        }
    }

    /// The name as an owned string.
    pub fn to_string(&self) -> (s: String)
        ensures
            s@ == format_name(*self),
    {
        String::from_str(self.as_str())
    }
}

/// Kind of market-data topic.
#[derive(Debug, Clone, Copy, PartialEq, Eq, Hash, Structural)]
pub enum TopicType {
    /// Order book.
    Book,
    /// Trades.
    Trade,
    /// Ticker.
    Ticker,
    /// Other events.
    Event,
}

/// Name of a topic type.
pub open spec fn topic_type_name(t: TopicType) -> Seq<char> {
    match t {
        TopicType::Book => "book"@,
        TopicType::Trade => "trade"@,
        TopicType::Ticker => "ticker"@,
        TopicType::Event => "event"@,
    }
}

impl TopicType {
    /// Lower-case name of the topic type.
    pub fn as_str(&self) -> (s: &'static str)
        ensures
            s@ == topic_type_name(*self),
    {
        match self {
            TopicType::Book => "book",
            TopicType::Trade => "trade",
            TopicType::Ticker => "ticker",
            TopicType::Event => "event",
        }
    }

    /// The name as an owned string.
    pub fn to_string(&self) -> (s: String)
        ensures
            s@ == topic_type_name(*self),
    {
        String::from_str(self.as_str())
    }
}

/// Market-data topic name: prefix, exchange, base_quote (lower-cased), type, joined by dots.
pub open spec fn market_topic(prefix: Seq<char>, exchange: Exchange, base: Seq<char>, quote: Seq<char>, t: TopicType) -> Seq<char> {
    prefix + "."@ + exchange_name(exchange) + "."@ + lowercase(base) + "_"@ + lowercase(quote) + "."@ + topic_type_name(t)
}

/// Builder of topic names under a (lower-cased) prefix.
#[derive(Debug, Clone)]
pub struct TopicBuilder {
    /// Lower-cased prefix.
    pub prefix: String,
}

impl Default for TopicBuilder {
    fn default() -> (b: TopicBuilder)
        ensures
            b.prefix@ == lowercase("market_data"@),
    {
        TopicBuilder::new("market_data")
    }
}

impl TopicBuilder {
    /// A builder whose prefix is the lower-cased `prefix`.
    pub fn new(prefix: &str) -> (b: TopicBuilder)
        ensures
            b.prefix@ == lowercase(prefix@),
    {
        TopicBuilder { prefix: to_lowercase(prefix) }
    }

    /// Topic of market data: "{prefix}.{exchange}.{base}_{quote}.{type}", base and quote lower-cased.
    pub fn market_data(&self, exchange: Exchange, base: &str, quote: &str, topic_type: TopicType) -> (t: String)
        ensures
            t@ == market_topic(self.prefix@, exchange, base@, quote@, topic_type),
    {
        let mut t = self.prefix.clone();
        t.append(".");
        t.append(exchange.as_str());
        t.append(".");
        let b = to_lowercase(base);
        t.append(b.as_str());
        t.append("_");
        let q = to_lowercase(quote);
        t.append(q.as_str());
        t.append(".");
        t.append(topic_type.as_str());
        t
    }

    /// Topic of market data for an instrument.
    pub fn for_instrument(&self, instrument: &Instrument, topic_type: TopicType) -> (t: String)
        ensures
            t@ == market_topic(self.prefix@, instrument.exchange, instrument.base@, instrument.quote@, topic_type),
    {
        self.market_data(instrument.exchange, instrument.base.as_str(), instrument.quote.as_str(), topic_type)
    }

    /// System topic: "system.flash." and the lower-cased name.
    pub fn system(&self, name: &str) -> (t: String)
        ensures
            t@ == "system.flash."@ + lowercase(name@),
    {
        let mut t = String::from_str("system.flash.");
        let n = to_lowercase(name);
        t.append(n.as_str());
        t
    }
}

/// Settings of a stream publisher.
#[derive(Debug, Clone)]
pub struct StreamPublisherConfig {
    /// Default serialization format.
    pub format: SerializationFormat,
    /// Maximum stream length for MAXLEN trimming (0 = no trimming).
    pub max_stream_length: u64,
    /// Use approximate trimming (MAXLEN ~).
    pub approximate_trimming: bool,
    /// Add a timestamp field to each entry.
    pub include_timestamp: bool,
    /// Field name of the payload.
    pub data_field: String,
    /// Field name of the format.
    pub format_field: String,
    /// Topic prefix.
    pub topic_prefix: String,
}

impl Default for StreamPublisherConfig {
    fn default() -> (c: StreamPublisherConfig)
        ensures
            c.format == SerializationFormat::Bincode,
            c.max_stream_length == 100_000,
            c.approximate_trimming,
            c.include_timestamp,
            c.data_field@ == "data"@,
            c.format_field@ == "format"@,
            c.topic_prefix@ == "market_data"@,
    {
        StreamPublisherConfig {
            format: SerializationFormat::Bincode,
            max_stream_length: 100_000,
            approximate_trimming: true,
            include_timestamp: true,
            data_field: String::from_str("data"),
            format_field: String::from_str("format"),
            topic_prefix: String::from_str("market_data"),
        }
    }
}

/// Errors of stream publishing.
#[derive(Debug)]
pub enum StreamError {
    /// Serialization failed.
    SerializationFailed { format: SerializationFormat, reason: String },
    /// XADD failed.
    XaddFailed { topic: String, reason: String },
    /// Invalid topic name.
    InvalidTopic(String),
    /// Invalid configuration.
    InvalidConfig(String),
    /// No connection available.
    NoConnection,
    /// Connection pool error.
    PoolError(PoolError),
}

/// Result of stream operations.
pub type StreamResult<T> = Result<T, StreamError>;

/// Debug name of a serialization format.
pub open spec fn format_debug_name(f: SerializationFormat) -> Seq<char> {
    match f {
        SerializationFormat::Json => "Json"@,
        SerializationFormat::Bincode => "Bincode"@,
        SerializationFormat::Rkyv => "Rkyv"@,
    }
}

/// The message of a stream error.
pub open spec fn stream_error_text(e: StreamError) -> Seq<char> {
    match e {
        StreamError::SerializationFailed { format, reason } =>
            "Serialization failed for format "@ + format_debug_name(format) + ": "@ + reason@,
        StreamError::XaddFailed { topic, reason } => "XADD failed for topic "@ + topic@ + ": "@ + reason@,
        StreamError::InvalidTopic(s) => "Invalid topic name: "@ + s@,
        StreamError::InvalidConfig(s) => "Invalid configuration: "@ + s@,
        StreamError::NoConnection => "No connection available"@,
        StreamError::PoolError(p) => "Pool error: "@ + pool_error_text(p),
    }
}

impl StreamError {
    /// The message of the error.
    pub fn to_string(&self) -> (t: String)
        ensures
            t@ == stream_error_text(*self),
    {
        match self {
            StreamError::SerializationFailed { format, reason } => {
                let mut t = String::from_str("Serialization failed for format ");
                let name = match format {
                    SerializationFormat::Json => "Json",
                    SerializationFormat::Bincode => "Bincode",
                    SerializationFormat::Rkyv => "Rkyv",
                };
                t.append(name);
                t.append(": ");
                t.append(reason.as_str());
                t
            },
            StreamError::XaddFailed { topic, reason } => {
                let mut t = String::from_str("XADD failed for topic ");
                t.append(topic.as_str());
                t.append(": ");
                t.append(reason.as_str());
                t
            },
            StreamError::InvalidTopic(s) => {
                let mut t = String::from_str("Invalid topic name: ");
                t.append(s.as_str());
                t
            },
            StreamError::InvalidConfig(s) => {
                let mut t = String::from_str("Invalid configuration: ");
                t.append(s.as_str());
                t
            },
            StreamError::NoConnection => String::from_str("No connection available"),
            StreamError::PoolError(p) => {
                let mut t = String::from_str("Pool error: ");
                let inner = p.to_string();
                t.append(inner.as_str());
                t
            },
        }
    }
}

impl StreamPublisherConfig {
    /// The configuration is valid when the topic prefix, data field and format
    /// field are all non-empty; the first empty one is reported.
    pub fn validate(&self) -> (r: StreamResult<()>)
        ensures
            r is Ok <==> (self.topic_prefix@.len() > 0 && self.data_field@.len() > 0 && self.format_field@.len() > 0),
            self.topic_prefix@.len() == 0 ==> (r matches Err(StreamError::InvalidConfig(m)) && m@ == "topic_prefix cannot be empty"@),
            self.topic_prefix@.len() > 0 && self.data_field@.len() == 0
                ==> (r matches Err(StreamError::InvalidConfig(m)) && m@ == "data_field cannot be empty"@),
            self.topic_prefix@.len() > 0 && self.data_field@.len() > 0 && self.format_field@.len() == 0
                ==> (r matches Err(StreamError::InvalidConfig(m)) && m@ == "format_field cannot be empty"@),
    {
        if self.topic_prefix.as_str().is_empty() {
            return Err(StreamError::InvalidConfig(String::from_str("topic_prefix cannot be empty")));
        }
        if self.data_field.as_str().is_empty() {
            return Err(StreamError::InvalidConfig(String::from_str("data_field cannot be empty")));
        }
        if self.format_field.as_str().is_empty() {
            return Err(StreamError::InvalidConfig(String::from_str("format_field cannot be empty")));
        }
        Ok(())
    }
}

/// One argument of a Redis command: text, or raw bytes.
#[derive(Debug, Clone)]
pub enum CommandArg {
    /// A text argument.
    Text(String),
    /// A binary argument.
    Bytes(Vec<u8>),
}

/// A command argument as a value.
pub enum ArgModel {
    /// Text.
    Text(Seq<char>),
    /// Bytes.
    Bytes(Seq<u8>),
}

/// The model of a command argument.
pub open spec fn arg_model(a: CommandArg) -> ArgModel {
    match a {
        CommandArg::Text(s) => ArgModel::Text(s@),
        CommandArg::Bytes(b) => ArgModel::Bytes(b@),
    }
}

/// The models of command arguments.
pub open spec fn args_model(v: Seq<CommandArg>) -> Seq<ArgModel> {
    v.map_values(|a: CommandArg| arg_model(a))
}

/// Arguments of the XADD that publishes `data` to `topic`:
/// `topic [MAXLEN [~] n] * [timestamp ts] format_field format data_field data`,
/// MAXLEN only when a maximum length is set, `~` only with approximate
/// trimming, the timestamp only when configured.
pub open spec fn xadd_args(c: StreamPublisherConfig, topic: Seq<char>, data: Seq<u8>, format: SerializationFormat, ts: Timestamp) -> Seq<ArgModel> {
    seq![ArgModel::Text(topic)]
        + (if c.max_stream_length > 0 {
            seq![ArgModel::Text("MAXLEN"@)]
                + (if c.approximate_trimming { seq![ArgModel::Text("~"@)] } else { Seq::empty() })
                + seq![ArgModel::Text(decimal_digits(c.max_stream_length as nat))]
        } else {
            Seq::empty()
        })
        + seq![ArgModel::Text("*"@)]
        + (if c.include_timestamp {
            seq![ArgModel::Text("timestamp"@), ArgModel::Text(decimal_text(ts as int))]
        } else {
            Seq::empty()
        })
        + seq![
            ArgModel::Text(c.format_field@),
            ArgModel::Text(format_name(format)),
            ArgModel::Text(c.data_field@),
            ArgModel::Bytes(data),
        ]
}

/// An XADD publishes exactly the payload given: its last argument is the
/// payload bytes, unchanged, right after the data field's name; before them
/// come the format field's name and the format; the first argument is the
/// topic; and the payload is the only binary argument.
pub proof fn law_xadd_carries_payload(c: StreamPublisherConfig, topic: Seq<char>, data: Seq<u8>, format: SerializationFormat, ts: Timestamp)
    ensures
        ({
            let args = xadd_args(c, topic, data, format, ts);
            &&& args.len() >= 6
            &&& args[0] == ArgModel::Text(topic)
            &&& args.last() == ArgModel::Bytes(data)
            &&& args[args.len() - 2] == ArgModel::Text(c.data_field@)
            &&& args[args.len() - 3] == ArgModel::Text(format_name(format))
            &&& args[args.len() - 4] == ArgModel::Text(c.format_field@)
            &&& forall|i: int| 0 <= i < args.len() - 1 ==> (#[trigger] args[i]) is Text
        }),
{
    let args = xadd_args(c, topic, data, format, ts);
    let tail = seq![
        ArgModel::Text(c.format_field@),
        ArgModel::Text(format_name(format)),
        ArgModel::Text(c.data_field@),
        ArgModel::Bytes(data),
    ];
    let head = args.subrange(0, args.len() - 4);
    assert(args =~= head + tail);
    assert forall|i: int| 0 <= i < args.len() - 1 implies (#[trigger] args[i]) is Text by {
        if i < head.len() {
            assert(args[i] == head[i]);
        }
    }
}

impl StreamPublisherConfig {
    /// The arguments of the XADD command that publishes `data` to `topic`.
    pub fn xadd_command(&self, topic: &str, data: &[u8], format: SerializationFormat, timestamp: Timestamp) -> (args: Vec<CommandArg>)
        ensures
            args_model(args@) == xadd_args(*self, topic@, data@, format, timestamp),
    {
        let mut args: Vec<CommandArg> = Vec::new();
        args.push(CommandArg::Text(String::from_str(topic)));
        let ghost mut want: Seq<ArgModel> = seq![ArgModel::Text(topic@)];
        assert(args_model(args@) =~= want);
        if self.max_stream_length > 0 {
            args.push(CommandArg::Text(String::from_str("MAXLEN")));
            proof { want = want.push(ArgModel::Text("MAXLEN"@)); }
            assert(args_model(args@) =~= want);
            if self.approximate_trimming {
                args.push(CommandArg::Text(String::from_str("~")));
                proof { want = want.push(ArgModel::Text("~"@)); }
                assert(args_model(args@) =~= want);
            }
            args.push(CommandArg::Text(u64_decimal(self.max_stream_length)));
            proof { want = want.push(ArgModel::Text(decimal_digits(self.max_stream_length as nat))); }
            assert(args_model(args@) =~= want);
        }
        args.push(CommandArg::Text(String::from_str("*")));
        proof { want = want.push(ArgModel::Text("*"@)); }
        assert(args_model(args@) =~= want);
        if self.include_timestamp {
            args.push(CommandArg::Text(String::from_str("timestamp")));
            args.push(CommandArg::Text(i64_decimal(timestamp)));
            proof { want = want.push(ArgModel::Text("timestamp"@)).push(ArgModel::Text(decimal_text(timestamp as int))); }
            assert(args_model(args@) =~= want);
        }
        args.push(CommandArg::Text(self.format_field.clone()));
        args.push(CommandArg::Text(String::from_str(format.as_str())));
        args.push(CommandArg::Text(self.data_field.clone()));
        let mut bytes: Vec<u8> = Vec::new();
        let mut i: usize = 0;
        while i < data.len()
            invariant
                i <= data@.len(),
                bytes@ == data@.take(i as int),
            decreases data@.len() - i,
        {
            bytes.push(data[i]);
            assert(data@.take(i as int + 1) =~= data@.take(i as int).push(data@[i as int]));
            i = i + 1;
        }
        assert(data@.take(data@.len() as int) =~= data@);
        args.push(CommandArg::Bytes(bytes));
        proof {
            want = want.push(ArgModel::Text(self.format_field@)).push(ArgModel::Text(format_name(format)))
                .push(ArgModel::Text(self.data_field@)).push(ArgModel::Bytes(data@));
        }
        assert(args_model(args@) =~= want);
        assert(want =~= xadd_args(*self, topic@, data@, format, timestamp));
        args
    }
}

/// Result of one publish.
#[derive(Debug, Clone)]
pub struct PublishResult {
    /// Redis stream entry id.
    pub message_id: String,
    /// Topic published to.
    pub topic: String,
    /// Payload size in bytes.
    pub data_size: usize,
    /// Publish latency in microseconds.
    pub latency_us: u64,
}

/// Builder of stream publisher settings.
#[derive(Debug, Clone)]
pub struct StreamPublisherBuilder {
    /// Settings built so far.
    pub config: StreamPublisherConfig,
}

impl Default for StreamPublisherBuilder {
    fn default() -> (b: StreamPublisherBuilder)
        ensures
            b.config.format == SerializationFormat::Bincode,
            b.config.max_stream_length == 100_000,
            b.config.approximate_trimming,
            b.config.include_timestamp,
            b.config.data_field@ == "data"@,
            b.config.format_field@ == "format"@,
            b.config.topic_prefix@ == "market_data"@,
    {
        StreamPublisherBuilder { config: StreamPublisherConfig::default() }
    }
}

impl StreamPublisherBuilder {
    /// Set the serialization format.
    pub fn format(self, format: SerializationFormat) -> (b: StreamPublisherBuilder)
        ensures
            b.config == (StreamPublisherConfig { format, ..self.config }),
    {
        let mut b = self;
        b.config.format = format;
        b
    }

    /// Set the maximum stream length.
    pub fn max_stream_length(self, len: u64) -> (b: StreamPublisherBuilder)
        ensures
            b.config == (StreamPublisherConfig { max_stream_length: len, ..self.config }),
    {
        let mut b = self;
        b.config.max_stream_length = len;
        b
    }

    /// Set approximate trimming.
    pub fn approximate_trimming(self, enabled: bool) -> (b: StreamPublisherBuilder)
        ensures
            b.config == (StreamPublisherConfig { approximate_trimming: enabled, ..self.config }),
    {
        let mut b = self;
        b.config.approximate_trimming = enabled;
        b
    }

    /// Set whether entries carry a timestamp.
    pub fn include_timestamp(self, enabled: bool) -> (b: StreamPublisherBuilder)
        ensures
            b.config == (StreamPublisherConfig { include_timestamp: enabled, ..self.config }),
    {
        let mut b = self;
        b.config.include_timestamp = enabled;
        b
    }

    /// Set the topic prefix.
    pub fn topic_prefix(self, prefix: &str) -> (b: StreamPublisherBuilder)
        ensures
            b.config.topic_prefix@ == prefix@,
            b.config == (StreamPublisherConfig { topic_prefix: b.config.topic_prefix, ..self.config }),
    {
        let mut b = self;
        b.config.topic_prefix = String::from_str(prefix);
        b
    }

    /// Set the payload field name.
    pub fn data_field(self, field: &str) -> (b: StreamPublisherBuilder)
        ensures
            b.config.data_field@ == field@,
            b.config == (StreamPublisherConfig { data_field: b.config.data_field, ..self.config }),
    {
        let mut b = self;
        b.config.data_field = String::from_str(field);
        b
    }

    /// Set the format field name.
    pub fn format_field(self, field: &str) -> (b: StreamPublisherBuilder)
        ensures
            b.config.format_field@ == field@,
            b.config == (StreamPublisherConfig { format_field: b.config.format_field, ..self.config }),
    {
        let mut b = self;
        b.config.format_field = String::from_str(field);
        b
    }

    /// The settings built so far.
    pub fn config(&self) -> (c: &StreamPublisherConfig)
        ensures
            *c == self.config,
    {
        &self.config
    }
}

} // verus!
