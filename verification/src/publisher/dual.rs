//! Dual output: the Redis keys of the order-book and signal streams, the XADD
//! each output sends, and the publish statistics.

use crate::publisher::stream::{arg_model, args_model, format_name, ArgModel, CommandArg, SerializationFormat};
use crate::text::{decimal_digits, u64_decimal};
use crate::types::{exchange_name, Instrument};
use vstd::prelude::*;

verus! {

/// Default key prefix of order-book streams.
pub const DEFAULT_ORDERBOOK_PREFIX: &'static str = "market:orderbook:";

/// Default key prefix of signal streams.
pub const FUSION_TOPIC_PREFIX: &'static str = "astra:signals:flash";

/// How the keys of both outputs are laid out.
#[derive(Debug, Clone)]
pub struct KeyLayout {
    /// Prefix of order-book keys.
    pub orderbook_key_prefix: String,
    /// Prefix of signal keys.
    pub signal_key_prefix: String,
    /// Insert the shadow namespace into keys.
    pub shadow_mode_enabled: bool,
    /// Namespace inserted in shadow mode.
    pub shadow_mode_namespace: String,
}

/// The order-book key: `{prefix}{base}_{quote}`, or
/// `{prefix}{namespace}:{base}_{quote}` in shadow mode.
pub open spec fn orderbook_key_text(l: KeyLayout, base: Seq<char>, quote: Seq<char>) -> Seq<char> {
    if l.shadow_mode_enabled {
        l.orderbook_key_prefix@ + l.shadow_mode_namespace@ + ":"@ + base + "_"@ + quote
    } else {
        l.orderbook_key_prefix@ + base + "_"@ + quote
    }
}

/// The signal key: `{prefix}:{exchange}:{base}_{quote}`, or
/// `{prefix}:{namespace}:{exchange}:{base}_{quote}` in shadow mode.
pub open spec fn signal_key_text(l: KeyLayout, exchange: Seq<char>, base: Seq<char>, quote: Seq<char>) -> Seq<char> {
    if l.shadow_mode_enabled {
        l.signal_key_prefix@ + ":"@ + l.shadow_mode_namespace@ + ":"@ + exchange + ":"@ + base + "_"@ + quote
    } else {
        l.signal_key_prefix@ + ":"@ + exchange + ":"@ + base + "_"@ + quote
    }
}

impl KeyLayout {
    /// Key of the order-book stream of an instrument.
    pub fn orderbook_key(&self, instrument: &Instrument) -> (k: String)
        ensures
            k@ == orderbook_key_text(*self, instrument.base@, instrument.quote@),
    {
        let mut k = self.orderbook_key_prefix.clone();
        if self.shadow_mode_enabled {
            k.append(self.shadow_mode_namespace.as_str());
            k.append(":");
        }
        k.append(instrument.base.as_str());
        k.append("_");
        k.append(instrument.quote.as_str());
        k
    }

    /// Key of the signal stream of an instrument.
    pub fn signal_key(&self, instrument: &Instrument) -> (k: String)
        ensures
            k@ == signal_key_text(*self, exchange_name(instrument.exchange), instrument.base@, instrument.quote@),
    {
        let mut k = self.signal_key_prefix.clone();
        k.append(":");
        if self.shadow_mode_enabled {
            k.append(self.shadow_mode_namespace.as_str());
            k.append(":");
        }
        k.append(instrument.exchange.as_str());
        k.append(":");
        k.append(instrument.base.as_str());
        k.append("_");
        k.append(instrument.quote.as_str());
        k
    }
}

/// Arguments of the XADD of one output: `key [MAXLEN ~ n] * data <json> format <fmt>`,
/// MAXLEN only when a maximum length is set.
pub open spec fn dual_xadd_args(key: Seq<char>, json: Seq<char>, max_stream_length: u64, format: SerializationFormat) -> Seq<ArgModel> {
    seq![ArgModel::Text(key)]
        + (if max_stream_length > 0 {
            seq![ArgModel::Text("MAXLEN"@), ArgModel::Text("~"@), ArgModel::Text(decimal_digits(max_stream_length as nat))]
        } else {
            Seq::empty()
        })
        + seq![
            ArgModel::Text("*"@),
            ArgModel::Text("data"@),
            ArgModel::Text(json),
            ArgModel::Text("format"@),
            ArgModel::Text(format_name(format)),
        ]
}

/// A dual-output XADD publishes exactly the JSON given, under the "data"
/// field, followed by the "format" field and the format's name; the first
/// argument is the stream key.
pub proof fn law_dual_xadd_carries_payload(key: Seq<char>, json: Seq<char>, max_stream_length: u64, format: SerializationFormat)
    ensures
        ({
            let args = dual_xadd_args(key, json, max_stream_length, format);
            &&& args.len() >= 6
            &&& args[0] == ArgModel::Text(key)
            &&& args[args.len() - 4] == ArgModel::Text("data"@)
            &&& args[args.len() - 3] == ArgModel::Text(json)
            &&& args[args.len() - 2] == ArgModel::Text("format"@)
            &&& args[args.len() - 1] == ArgModel::Text(format_name(format))
        }),
{
}

/// The streams a dual publish writes to.
#[derive(Debug, Clone, Copy, PartialEq, Eq, Structural)]
pub struct DualOutputs {
    /// Write the order-book stream.
    pub orderbook: bool,
    /// Write the signal stream.
    pub signal: bool,
}

/// The streams to write: the enabled ones; with neither enabled there is
/// nothing to publish and the publish is refused (`None`).
pub fn dual_outputs(orderbook_enabled: bool, signal_enabled: bool) -> (r: Option<DualOutputs>)
    ensures
        r is None <==> (!orderbook_enabled && !signal_enabled),
        r matches Some(o) ==> o.orderbook == orderbook_enabled && o.signal == signal_enabled,
{
    if !orderbook_enabled && !signal_enabled {
        None
    } else {
        Some(DualOutputs { orderbook: orderbook_enabled, signal: signal_enabled })
    }
}

/// The arguments of the XADD that publishes `json` to the stream `key`.
pub fn dual_xadd_command(key: &str, json: &str, max_stream_length: u64, format: SerializationFormat) -> (args: Vec<CommandArg>)
    ensures
        args_model(args@) == dual_xadd_args(key@, json@, max_stream_length, format),
{
    let mut args: Vec<CommandArg> = Vec::new();
    args.push(CommandArg::Text(String::from_str(key)));
    let ghost mut want: Seq<ArgModel> = seq![ArgModel::Text(key@)];
    assert(args_model(args@) =~= want);
    if max_stream_length > 0 {
        args.push(CommandArg::Text(String::from_str("MAXLEN")));
        args.push(CommandArg::Text(String::from_str("~")));
        args.push(CommandArg::Text(u64_decimal(max_stream_length)));
        proof {
            want = want.push(ArgModel::Text("MAXLEN"@)).push(ArgModel::Text("~"@))
                .push(ArgModel::Text(decimal_digits(max_stream_length as nat)));
        }
        assert(args_model(args@) =~= want);
    }
    args.push(CommandArg::Text(String::from_str("*")));
    args.push(CommandArg::Text(String::from_str("data")));
    args.push(CommandArg::Text(String::from_str(json)));
    args.push(CommandArg::Text(String::from_str("format")));
    args.push(CommandArg::Text(String::from_str(format.as_str())));
    proof {
        want = want.push(ArgModel::Text("*"@)).push(ArgModel::Text("data"@)).push(ArgModel::Text(json@))
            .push(ArgModel::Text("format"@)).push(ArgModel::Text(format_name(format)));
    }
    assert(args_model(args@) =~= want);
    assert(want =~= dual_xadd_args(key@, json@, max_stream_length, format));
    args
}

/// Counts of dual publishing.
#[derive(Debug, Clone, Copy, PartialEq, Eq, Structural)]
pub struct DualStats {
    /// Order-book snapshots published.
    pub orderbook_published: u64,
    /// Signals published.
    pub signals_published: u64,
    /// Sum of publish latencies (microseconds).
    pub total_latency_us: u64,
    /// Publish operations.
    pub publish_count: u64,
    /// Publish errors.
    pub publish_errors: u64,
}

impl Default for DualStats {
    fn default() -> (s: DualStats)
        ensures
            s == (DualStats { orderbook_published: 0, signals_published: 0, total_latency_us: 0, publish_count: 0, publish_errors: 0 }),
    {
        DualStats { orderbook_published: 0, signals_published: 0, total_latency_us: 0, publish_count: 0, publish_errors: 0 }
    }
}

impl DualStats {
    /// All counts back to zero.
    pub fn reset(&mut self)
        ensures
            *final(self) == (DualStats { orderbook_published: 0, signals_published: 0, total_latency_us: 0, publish_count: 0, publish_errors: 0 }),
    {
        *self = DualStats::default();
    }

    /// Count one completed publish: the outputs it reached and its latency.
    pub fn record_publish(&mut self, orderbook: bool, signal: bool, latency_us: u64)
        requires
            old(self).orderbook_published < u64::MAX,
            old(self).signals_published < u64::MAX,
            old(self).publish_count < u64::MAX,
            old(self).total_latency_us + latency_us <= u64::MAX,
        ensures
            final(self).orderbook_published == old(self).orderbook_published + if orderbook { 1int } else { 0int },
            final(self).signals_published == old(self).signals_published + if signal { 1int } else { 0int },
            final(self).publish_count == old(self).publish_count + 1,
            final(self).total_latency_us == old(self).total_latency_us + latency_us,
            final(self).publish_errors == old(self).publish_errors,
    {
        if orderbook {
            self.orderbook_published = self.orderbook_published + 1;
        }
        if signal {
            self.signals_published = self.signals_published + 1;
        }
        self.publish_count = self.publish_count + 1;
        self.total_latency_us = self.total_latency_us + latency_us;
    }
}

/// Outcome of a dual publish.
#[derive(Debug, Clone)]
pub struct DualPublishResult {
    /// Key of the order-book stream, when published.
    pub orderbook_key: Option<String>,
    /// Key of the signal stream, when published.
    pub signal_key: Option<String>,
    /// Stream entry id of the order-book publish.
    pub orderbook_message_id: Option<String>,
    /// Stream entry id of the signal publish.
    pub signal_message_id: Option<String>,
    /// Publish latency (microseconds).
    pub latency_us: u64,
}

} // verus!
