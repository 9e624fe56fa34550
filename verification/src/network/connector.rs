//! Connection state of the WebSocket connections, their statistics and events,
//! and the per-exchange table of connection states that the connector keeps.

use crate::types::{exchange_name, Exchange, FlashError, Timestamp};
use crate::text::{decimal_digits, u64_decimal, utf8_text};
use vstd::string::StringSliceAdditionalSpecFns;
use vstd::utf8::{encode_utf8, valid_utf8};
use vstd::prelude::*;

verus! {

/// A point in monotonic time, carried through unchanged.
#[verifier::external_type_specification]
#[verifier::external_body]
pub struct ExInstant(std::time::Instant);

/// `Instant` is `Copy`, so its clone hands back the same instant.
pub assume_specification[ <std::time::Instant as core::clone::Clone>::clone ](
    i: &std::time::Instant,
) -> (r: std::time::Instant)
    ensures
        r == *i,
;

/// The current monotonic time.
///
/// Calls `std::time::Instant::now`; the result depends on the clock, so the
/// contract states nothing about it.
#[verifier::external_body]
pub(crate) fn instant_now() -> std::time::Instant {
    std::time::Instant::now()
}

/// State of a WebSocket connection.
#[derive(Debug, Clone, Copy, PartialEq, Eq, Hash, Structural)]
pub enum ConnectionState {
    /// Not connected.
    Disconnected,
    /// Connection attempt in progress.
    Connecting,
    /// Connected and ready.
    Connected,
    /// Graceful disconnection in progress.
    Disconnecting,
}

/// Display name of a connection state.
pub open spec fn connection_state_name(s: ConnectionState) -> Seq<char> {
    match s {
        ConnectionState::Disconnected => "disconnected"@,
        ConnectionState::Connecting => "connecting"@,
        ConnectionState::Connected => "connected"@,
        ConnectionState::Disconnecting => "disconnecting"@,
    }
}

impl Default for ConnectionState {
    fn default() -> (s: ConnectionState)
        ensures
            s == ConnectionState::Disconnected,
    {
        ConnectionState::Disconnected
    }
}

impl ConnectionState {
    /// Whether the state is Connected.
    pub fn is_connected(&self) -> (b: bool)
        ensures
            b == (*self == ConnectionState::Connected),
    {
        match self {
            ConnectionState::Connected => true,
            _ => false,
        }
    }

    /// Lower-case display name.
    pub fn to_string(&self) -> (s: String)
        ensures
            s@ == connection_state_name(*self),
    {
        match self {
            ConnectionState::Disconnected => String::from_str("disconnected"),
            ConnectionState::Connecting => String::from_str("connecting"),
            ConnectionState::Connected => String::from_str("connected"),
            ConnectionState::Disconnecting => String::from_str("disconnecting"),
        }
    }
}

/// Events emitted by the connection manager.
#[derive(Debug, Clone)]
pub enum ConnectorEvent {
    /// Connected to an exchange.
    Connected { exchange: Exchange, url: String },
    /// Disconnected from an exchange.
    Disconnected { exchange: Exchange, reason: String, will_reconnect: bool },
    /// A connection attempt failed.
    ConnectionFailed { exchange: Exchange, error: String, attempt: u32 },
    /// A message was received.
    MessageReceived { exchange: Exchange, size_bytes: usize },
    /// The connection state changed.
    StateChanged { exchange: Exchange, old_state: ConnectionState, new_state: ConnectionState },
}

/// A raw message received from a WebSocket, before decoding.
#[derive(Debug, Clone)]
pub struct RawMessage {
    /// Exchange the message came from.
    pub exchange: Exchange,
    /// Raw content (typically JSON).
    pub payload: String,
    /// Local receive time (microseconds).
    pub received_at: Timestamp,
}

/// Statistics of one connection.
#[derive(Debug, Clone)]
pub struct ConnectionStats {
    /// Current state.
    pub state: ConnectionState,
    /// When the connection was established, if connected.
    pub connected_since: Option<std::time::Instant>,
    /// Messages received.
    pub messages_received: u64,
    /// Messages sent.
    pub messages_sent: u64,
    /// Time of the last send or receive.
    pub last_activity: std::time::Instant,
    /// WebSocket URL.
    pub url: String,
}

impl Default for ConnectionStats {
    fn default() -> (s: ConnectionStats)
        ensures
            s.state == ConnectionState::Disconnected,
            s.connected_since is None,
            s.messages_received == 0,
            s.messages_sent == 0,
            s.url@ == Seq::<char>::empty(),
    {
        ConnectionStats {
            state: ConnectionState::Disconnected,
            connected_since: None,
            messages_received: 0,
            messages_sent: 0,
            last_activity: instant_now(),
            url: String::new(),
        }
    }
}

/// One row of the connection table.
#[derive(Debug, Clone)]
pub struct ConnectionEntry {
    /// The exchange.
    pub exchange: Exchange,
    /// Its connection state.
    pub state: ConnectionState,
    /// The URL it is connected to.
    pub url: String,
}

/// The connection state of each exchange the connector holds a connection for.
///
/// An exchange appears at most once; an exchange without a row is Disconnected.
#[derive(Debug, Clone)]
pub struct ConnectionTable {
    /// Rows, at most one per exchange.
    pub entries: Vec<ConnectionEntry>,
}

/// Position of the row of `exchange` in `entries`, if any.
pub open spec fn entry_index(entries: Seq<ConnectionEntry>, exchange: Exchange) -> Option<int> {
    if exists|i: int| 0 <= i < entries.len() && (#[trigger] entries[i]).exchange == exchange {
        Some(choose|i: int| 0 <= i < entries.len() && (#[trigger] entries[i]).exchange == exchange)
    } else {
        None
    }
}

/// Each exchange has at most one row.
pub open spec fn entries_unique(entries: Seq<ConnectionEntry>) -> bool {
    forall|i: int, j: int| 0 <= i < entries.len() && 0 <= j < entries.len() && i != j
        ==> (#[trigger] entries[i]).exchange != (#[trigger] entries[j]).exchange
}

impl ConnectionTable {
    /// The state of each exchange: its row's state, Disconnected without a row.
    pub open spec fn state_of(&self, exchange: Exchange) -> ConnectionState {
        match entry_index(self.entries@, exchange) {
            Some(i) => self.entries@[i].state,
            None => ConnectionState::Disconnected,
        }
    }

    /// The URL an exchange's row records, if it has a row.
    pub open spec fn url_of(&self, exchange: Exchange) -> Option<Seq<char>> {
        match entry_index(self.entries@, exchange) {
            Some(i) => Some(self.entries@[i].url@),
            None => None,
        }
    }

    /// Well-formedness: at most one row per exchange.
    pub open spec fn wf(&self) -> bool {
        entries_unique(self.entries@)
    }

    /// An empty table.
    pub fn new() -> (t: ConnectionTable)
        ensures
            t.wf(),
            forall|e: Exchange| t.state_of(e) == ConnectionState::Disconnected,
    {
        ConnectionTable { entries: Vec::new() }
    }

    /// Position of an exchange's row.
    fn find(&self, exchange: Exchange) -> (r: Option<usize>)
        requires
            self.wf(),
        ensures
            match r {
                Some(i) => i < self.entries@.len() && self.entries@[i as int].exchange == exchange
                    && entry_index(self.entries@, exchange) == Some(i as int),
                None => entry_index(self.entries@, exchange) is None,
            },
    {
        let mut i: usize = 0;
        while i < self.entries.len()
            invariant
                i <= self.entries@.len(),
                self.wf(),
                forall|j: int| 0 <= j < i ==> (#[trigger] self.entries@[j]).exchange != exchange,
            decreases self.entries@.len() - i,
        {
            if self.entries[i].exchange == exchange {
                proof {
                    let k = choose|k: int| 0 <= k < self.entries@.len() && (#[trigger] self.entries@[k]).exchange == exchange;
                    assert(self.entries@[i as int].exchange == exchange);
                    if k != i as int {
                        assert(self.entries@[k].exchange != self.entries@[i as int].exchange);
                    }
                }
                return Some(i);
            }
            i = i + 1;
        }
        None
    }

    /// The current state of an exchange's connection (Disconnected without a row).
    pub fn state(&self, exchange: Exchange) -> (s: ConnectionState)
        requires
            self.wf(),
        ensures
            s == self.state_of(exchange),
    {
        match self.find(exchange) {
            Some(i) => self.entries[i].state,
            None => ConnectionState::Disconnected,
        }
    }

    /// Whether an exchange is connected.
    pub fn is_connected(&self, exchange: Exchange) -> (b: bool)
        requires
            self.wf(),
        ensures
            b == (self.state_of(exchange) == ConnectionState::Connected),
    {
        self.state(exchange).is_connected()
    }

    /// Record a connection: the exchange's row becomes Connected with the URL.
    pub fn set_connected(&mut self, exchange: Exchange, url: &str)
        requires
            old(self).wf(),
        ensures
            final(self).wf(),
            final(self).state_of(exchange) == ConnectionState::Connected,
            final(self).url_of(exchange) == Some(url@),
            forall|e: Exchange| e != exchange ==> final(self).state_of(e) == old(self).state_of(e),
            forall|e: Exchange| e != exchange ==> final(self).url_of(e) == old(self).url_of(e),
    {
        let row = ConnectionEntry { exchange, state: ConnectionState::Connected, url: String::from_str(url) };
        match self.find(exchange) {
            Some(i) => {
                let ghost before = self.entries@;
                self.entries.set(i, row);
                proof {
                    assert(self.entries@[i as int].exchange == exchange);
                    assert forall|e: Exchange| #![trigger self.state_of(e)] #![trigger self.url_of(e)] e != exchange implies self.state_of(e) == old(self).state_of(e) && self.url_of(e) == old(self).url_of(e) by {
                        if entry_index(before, e) is Some {
                            let k = choose|k: int| 0 <= k < before.len() && (#[trigger] before[k]).exchange == e;
                            assert(self.entries@[k].exchange == e);
                        }
                        if entry_index(self.entries@, e) is Some {
                            let k = choose|k: int| 0 <= k < self.entries@.len() && (#[trigger] self.entries@[k]).exchange == e;
                            assert(k != i as int);
                            assert(before[k].exchange == e);
                        }
                    }
                    assert(entry_index(self.entries@, exchange) == Some(i as int)) by {
                        let k = choose|k: int| 0 <= k < self.entries@.len() && (#[trigger] self.entries@[k]).exchange == exchange;
                        if k != i as int {
                            assert(before[k].exchange == before[i as int].exchange);
                        }
                    }
                }
            },
            None => {
                let ghost before = self.entries@;
                self.entries.push(row);
                proof {
                    let n = before.len() as int;
                    assert(self.entries@[n].exchange == exchange);
                    assert forall|e: Exchange| #![trigger self.state_of(e)] #![trigger self.url_of(e)] e != exchange implies self.state_of(e) == old(self).state_of(e) && self.url_of(e) == old(self).url_of(e) by {
                        if entry_index(before, e) is Some {
                            let k = choose|k: int| 0 <= k < before.len() && (#[trigger] before[k]).exchange == e;
                            assert(self.entries@[k].exchange == e);
                        }
                        if entry_index(self.entries@, e) is Some {
                            let k = choose|k: int| 0 <= k < self.entries@.len() && (#[trigger] self.entries@[k]).exchange == e;
                            assert(k != n);
                            assert(before[k].exchange == e);
                        }
                    }
                    assert(entry_index(self.entries@, exchange) == Some(n)) by {
                        let k = choose|k: int| 0 <= k < self.entries@.len() && (#[trigger] self.entries@[k]).exchange == exchange;
                        if k != n {
                            assert(before[k].exchange == exchange);
                        }
                    }
                }
            },
        }
    }

    /// Drop an exchange's row; returns whether there was one. The exchange is Disconnected after.
    pub fn remove(&mut self, exchange: Exchange) -> (had: bool)
        requires
            old(self).wf(),
        ensures
            final(self).wf(),
            had == (entry_index(old(self).entries@, exchange) is Some),
            final(self).state_of(exchange) == ConnectionState::Disconnected,
            forall|e: Exchange| e != exchange ==> final(self).state_of(e) == old(self).state_of(e),
    {
        match self.find(exchange) {
            Some(i) => {
                let ghost before = self.entries@;
                self.entries.remove(i);
                proof {
                    assert forall|j: int| 0 <= j < self.entries@.len() implies (#[trigger] self.entries@[j]).exchange != exchange by {
                        if j < i as int {
                            assert(self.entries@[j] == before[j]);
                        } else {
                            assert(self.entries@[j] == before[j + 1]);
                        }
                    }
                    assert forall|e: Exchange| e != exchange implies #[trigger] self.state_of(e) == old(self).state_of(e) by {
                        if entry_index(before, e) is Some {
                            let k = choose|k: int| 0 <= k < before.len() && (#[trigger] before[k]).exchange == e;
                            assert(k != i as int);
                            if k < i as int {
                                assert(self.entries@[k].exchange == e);
                            } else {
                                assert(self.entries@[k - 1].exchange == e);
                            }
                        }
                        if entry_index(self.entries@, e) is Some {
                            let k = choose|k: int| 0 <= k < self.entries@.len() && (#[trigger] self.entries@[k]).exchange == e;
                            if k < i as int {
                                assert(before[k].exchange == e);
                            } else {
                                assert(before[k + 1].exchange == e);
                            }
                        }
                    }
                }
                true
            },
            None => false,
        }
    }

    /// The exchanges whose connection is Connected, in row order.
    pub fn connected_exchanges(&self) -> (v: Vec<Exchange>)
        requires
            self.wf(),
        ensures
            forall|e: Exchange| v@.contains(e) <==> self.state_of(e) == ConnectionState::Connected,
    {
        let mut v: Vec<Exchange> = Vec::new();
        let mut i: usize = 0;
        while i < self.entries.len()
            invariant
                i <= self.entries@.len(),
                self.wf(),
                forall|e: Exchange| v@.contains(e) <==> exists|j: int| 0 <= j < i
                    && (#[trigger] self.entries@[j]).exchange == e && self.entries@[j].state == ConnectionState::Connected,
            decreases self.entries@.len() - i,
        {
            let row = &self.entries[i];
            if row.state == ConnectionState::Connected {
                let ghost old_v = v@;
                v.push(row.exchange);
                proof {
                    assert forall|e: Exchange| v@.contains(e) <==> exists|j: int| 0 <= j < i + 1
                        && (#[trigger] self.entries@[j]).exchange == e && self.entries@[j].state == ConnectionState::Connected by {
                        if v@.contains(e) {
                            let k = choose|k: int| 0 <= k < v@.len() && v@[k] == e;
                            if k < old_v.len() {
                                assert(old_v.contains(e));
                            }
                        }
                        if exists|j: int| 0 <= j < i + 1 && (#[trigger] self.entries@[j]).exchange == e && self.entries@[j].state == ConnectionState::Connected {
                            let j = choose|j: int| 0 <= j < i + 1 && (#[trigger] self.entries@[j]).exchange == e && self.entries@[j].state == ConnectionState::Connected;
                            if j < i {
                                assert(old_v.contains(e));
                                let k = choose|k: int| 0 <= k < old_v.len() && old_v[k] == e;
                                assert(v@[k] == e);
                            } else {
                                assert(v@[old_v.len() as int] == e);
                            }
                        }
                    }
                }
            }
            i = i + 1;
        }
        proof {
            assert forall|e: Exchange| v@.contains(e) <==> self.state_of(e) == ConnectionState::Connected by {
                if self.state_of(e) == ConnectionState::Connected {
                    let k = choose|k: int| 0 <= k < self.entries@.len() && (#[trigger] self.entries@[k]).exchange == e;
                    assert(self.entries@[k].state == ConnectionState::Connected);
                }
                if v@.contains(e) {
                    let j = choose|j: int| 0 <= j < self.entries@.len() && (#[trigger] self.entries@[j]).exchange == e && self.entries@[j].state == ConnectionState::Connected;
                    let k = choose|k: int| 0 <= k < self.entries@.len() && (#[trigger] self.entries@[k]).exchange == e;
                    if k != j {
                        assert(self.entries@[k].exchange == self.entries@[j].exchange);
                    }
                }
            }
        }
        v
    }
}


// =============================================================================
// CONNECTING, SENDING AND THE CONNECTION LOOP
// =============================================================================

/// What `url::Url::parse` makes of a text: the URL's serialization, or the
/// message of the parse error.
pub uninterp spec fn url_parse_result(s: Seq<char>) -> Result<Seq<char>, Seq<char>>;

/// Parse a URL.
///
/// Calls `url::Url::parse` (what `str::parse::<Url>` calls) and hands back the
/// parsed URL's serialization (`Url::as_str`) or the error's message; the
/// contract names that outcome `url_parse_result` of the text.
#[verifier::external_body]
fn parse_url(url: &str) -> (r: Result<String, String>)
    ensures
        match r {
            Ok(u) => url_parse_result(url@) == Ok::<Seq<char>, Seq<char>>(u@),
            Err(e) => url_parse_result(url@) == Err::<Seq<char>, Seq<char>>(e@),
        },
{
    match url::Url::parse(url) {
        Ok(u) => Ok(u.as_str().to_string()),
        Err(e) => Err(e.to_string()),
    }
}

/// Outcome of a WebSocket handshake.
#[derive(Debug, Clone)]
pub enum HandshakeOutcome {
    /// The handshake succeeded.
    Connected,
    /// The handshake failed with this message.
    Failed(String),
    /// The handshake did not finish within the connect timeout.
    TimedOut,
}

/// Start connecting to an exchange: the state becomes Connecting, then the
/// URL is checked. Returns the events to emit and the URL to dial, or the
/// connection failure for a URL that does not parse.
pub fn begin_connect(exchange: Exchange, url: &str) -> (r: (Vec<ConnectorEvent>, Result<String, FlashError>))
    ensures
        r.0@.len() == 1,
        r.0@[0] matches ConnectorEvent::StateChanged { exchange: e, old_state, new_state }
            && e == exchange && old_state == ConnectionState::Disconnected && new_state == ConnectionState::Connecting,
        match url_parse_result(url@) {
            Ok(u) => r.1 matches Ok(dial) && dial@ == u,
            Err(m) => r.1 matches Err(FlashError::ConnectionFailed(msg)) && msg@ == "Invalid URL: "@ + m,
        },
{
    let mut events: Vec<ConnectorEvent> = Vec::new();
    events.push(ConnectorEvent::StateChanged {
        exchange,
        old_state: ConnectionState::Disconnected,
        new_state: ConnectionState::Connecting,
    });
    match parse_url(url) {
        Ok(u) => (events, Ok(u)),
        Err(e) => {
            let mut msg = String::from_str("Invalid URL: ");
            msg.append(e.as_str());
            (events, Err(FlashError::ConnectionFailed(msg)))
        },
    }
}

impl ConnectionTable {
    /// Finish a connection attempt with the handshake's outcome. On success
    /// the exchange is recorded as connected to `url` and Connected then
    /// Connecting→Connected are reported; on failure or timeout the failure
    /// (attempt 1) then Connecting→Disconnected are reported and the error
    /// is returned, the table being left as it was.
    pub fn finish_connect(&mut self, exchange: Exchange, url: &str, outcome: HandshakeOutcome, connect_timeout_ms: u64)
        -> (r: (Vec<ConnectorEvent>, Result<(), FlashError>))
        requires
            old(self).wf(),
        ensures
            final(self).wf(),
            r.0@.len() == 2,
            match outcome {
                HandshakeOutcome::Connected => {
                    &&& r.1 is Ok
                    &&& final(self).state_of(exchange) == ConnectionState::Connected
                    &&& final(self).url_of(exchange) == Some(url@)
                    &&& forall|e: Exchange| e != exchange ==> final(self).state_of(e) == old(self).state_of(e)
                    &&& forall|e: Exchange| e != exchange ==> final(self).url_of(e) == old(self).url_of(e)
                    &&& r.0@[0] matches ConnectorEvent::Connected { exchange: e, url: u } && e == exchange && u@ == url@
                    &&& r.0@[1] matches ConnectorEvent::StateChanged { exchange: e, old_state, new_state }
                        && e == exchange && old_state == ConnectionState::Connecting && new_state == ConnectionState::Connected
                },
                HandshakeOutcome::Failed(msg) => {
                    &&& r.1 matches Err(FlashError::ConnectionFailed(m)) && m@ == msg@
                    &&& *final(self) == *old(self)
                    &&& r.0@[0] matches ConnectorEvent::ConnectionFailed { exchange: e, error, attempt }
                        && e == exchange && error@ == msg@ && attempt == 1
                    &&& r.0@[1] matches ConnectorEvent::StateChanged { exchange: e, old_state, new_state }
                        && e == exchange && old_state == ConnectionState::Connecting && new_state == ConnectionState::Disconnected
                },
                HandshakeOutcome::TimedOut => {
                    &&& r.1 matches Err(FlashError::ConnectionTimeout { timeout_ms }) && timeout_ms == connect_timeout_ms
                    &&& *final(self) == *old(self)
                    &&& r.0@[0] matches ConnectorEvent::ConnectionFailed { exchange: e, error, attempt }
                        && e == exchange && error@ == "Connection timeout"@ && attempt == 1
                    &&& r.0@[1] matches ConnectorEvent::StateChanged { exchange: e, old_state, new_state }
                        && e == exchange && old_state == ConnectionState::Connecting && new_state == ConnectionState::Disconnected
                },
            },
    {
        let mut events: Vec<ConnectorEvent> = Vec::new();
        match outcome {
            HandshakeOutcome::Connected => {
                self.set_connected(exchange, url);
                events.push(ConnectorEvent::Connected { exchange, url: String::from_str(url) });
                events.push(ConnectorEvent::StateChanged {
                    exchange,
                    old_state: ConnectionState::Connecting,
                    new_state: ConnectionState::Connected,
                });
                (events, Ok(()))
            },
            HandshakeOutcome::Failed(msg) => {
                events.push(ConnectorEvent::ConnectionFailed { exchange, error: msg.clone(), attempt: 1 });
                events.push(ConnectorEvent::StateChanged {
                    exchange,
                    old_state: ConnectionState::Connecting,
                    new_state: ConnectionState::Disconnected,
                });
                (events, Err(FlashError::ConnectionFailed(msg)))
            },
            HandshakeOutcome::TimedOut => {
                events.push(ConnectorEvent::ConnectionFailed {
                    exchange,
                    error: String::from_str("Connection timeout"),
                    attempt: 1,
                });
                events.push(ConnectorEvent::StateChanged {
                    exchange,
                    old_state: ConnectionState::Connecting,
                    new_state: ConnectionState::Disconnected,
                });
                (events, Err(FlashError::ConnectionTimeout { timeout_ms: connect_timeout_ms }))
            },
        }
    }

    /// Whether a message may be sent to an exchange: it must have a
    /// connection, and that connection must be Connected.
    pub fn check_send(&self, exchange: Exchange) -> (r: Result<(), FlashError>)
        requires
            self.wf(),
        ensures
            entry_index(self.entries@, exchange) is None ==> (r matches Err(FlashError::Disconnected { reason, will_retry })
                && reason@ == "Not connected to "@ + exchange_name(exchange) && !will_retry),
            entry_index(self.entries@, exchange) is Some && self.state_of(exchange) != ConnectionState::Connected
                ==> (r matches Err(FlashError::Disconnected { reason, will_retry })
                && reason@ == "Exchange "@ + exchange_name(exchange) + " is not connected"@ && !will_retry),
            r is Ok <==> (entry_index(self.entries@, exchange) is Some && self.state_of(exchange) == ConnectionState::Connected),
    {
        match self.find(exchange) {
            Some(i) => {
                if self.entries[i].state != ConnectionState::Connected {
                    let mut reason = String::from_str("Exchange ");
                    reason.append(exchange.as_str());
                    reason.append(" is not connected");
                    return Err(FlashError::Disconnected { reason, will_retry: false });
                }
                Ok(())
            },
            None => {
                let mut reason = String::from_str("Not connected to ");
                reason.append(exchange.as_str());
                Err(FlashError::Disconnected { reason, will_retry: false })
            },
        }
    }

    /// Disconnect on request: the entry goes, and a Disconnected event
    /// ("user requested", no reconnect) is reported when there was one.
    pub fn disconnect(&mut self, exchange: Exchange) -> (event: Option<ConnectorEvent>)
        requires
            old(self).wf(),
        ensures
            final(self).wf(),
            final(self).state_of(exchange) == ConnectionState::Disconnected,
            forall|e: Exchange| e != exchange ==> final(self).state_of(e) == old(self).state_of(e),
            match entry_index(old(self).entries@, exchange) {
                Some(_) => event matches Some(ConnectorEvent::Disconnected { exchange: e, reason, will_reconnect })
                    && e == exchange && reason@ == "user requested"@ && !will_reconnect,
                None => event is None,
            },
    {
        if self.remove(exchange) {
            Some(ConnectorEvent::Disconnected { exchange, reason: String::from_str("user requested"), will_reconnect: false })
        } else {
            None
        }
    }
}

/// What the connection loop got from the socket or its owner.
#[derive(Debug, Clone)]
pub enum LinkInput {
    /// Nothing was read within the read timeout.
    ReadTimeout,
    /// A text frame.
    Text(String),
    /// A binary frame.
    Binary(Vec<u8>),
    /// A ping with its payload.
    Ping(Vec<u8>),
    /// A pong.
    Pong,
    /// The server closed the connection.
    Close,
    /// A raw frame.
    RawFrame,
    /// Reading failed with this message.
    ReadError(String),
    /// The stream ended.
    StreamEnded,
    /// A message to send.
    Outgoing(String),
    /// The owner asked to shut down.
    Shutdown,
}

/// A frame the connection loop writes.
#[derive(Debug, Clone)]
pub enum LinkReply {
    /// Answer a ping with its payload.
    Pong(Vec<u8>),
    /// Send a text message.
    Text(String),
    /// Close the connection.
    Close,
}

/// What the connection loop does with one input.
#[derive(Debug)]
pub struct LinkStep {
    /// Count a received message.
    pub count_received: bool,
    /// Count a sent message once the reply is written.
    pub count_sent: bool,
    /// Event to report.
    pub event: Option<ConnectorEvent>,
    /// Message to forward to the decoders.
    pub forward: Option<RawMessage>,
    /// Frame to write.
    pub reply: Option<LinkReply>,
    /// Leave the loop.
    pub stop: bool,
}

/// The connection loop's decision for one input received at `received_at`.
///
/// Text frames are counted, reported with their size and forwarded; binary
/// frames are counted and forwarded, as text, when they are valid UTF-8; pings are answered;
/// pongs and raw frames are ignored; a read timeout ends the loop reporting a
/// disconnection to reconnect from, a close, a read error or the end of the
/// stream end it reporting a disconnection not to reconnect from; outgoing
/// messages are written and counted; a shutdown writes a close and ends it.
pub fn connection_step(exchange: Exchange, input: LinkInput, received_at: Timestamp, read_timeout_ms: u64) -> (s: LinkStep)
    ensures
        match input {
            LinkInput::ReadTimeout => {
                &&& s.stop && !s.count_received && !s.count_sent && s.forward is None && s.reply is None
                &&& s.event matches Some(ConnectorEvent::Disconnected { exchange: e, reason, will_reconnect })
                    && e == exchange && will_reconnect
                    && reason@ == "read timeout: no data for "@ + decimal_digits(read_timeout_ms as nat) + "ms"@
            },
            LinkInput::Text(t) => {
                &&& !s.stop && s.count_received && !s.count_sent && s.reply is None
                &&& s.event matches Some(ConnectorEvent::MessageReceived { exchange: e, size_bytes })
                    && e == exchange && size_bytes == encode_utf8(t@).len() as usize
                &&& s.forward matches Some(m) && m.exchange == exchange && m.payload@ == t@ && m.received_at == received_at
            },
            LinkInput::Binary(data) => {
                &&& !s.stop && s.count_received && !s.count_sent && s.reply is None && s.event is None
                &&& if valid_utf8(data@) {
                    s.forward matches Some(m) && m.exchange == exchange && encode_utf8(m.payload@) == data@
                        && m.received_at == received_at
                } else {
                    s.forward is None
                }
            },
            LinkInput::Ping(data) => {
                &&& !s.stop && !s.count_received && !s.count_sent && s.event is None && s.forward is None
                &&& s.reply matches Some(LinkReply::Pong(p)) && p@ == data@
            },
            LinkInput::Pong | LinkInput::RawFrame => {
                &&& !s.stop && !s.count_received && !s.count_sent && s.event is None && s.forward is None && s.reply is None
            },
            LinkInput::Close => {
                &&& s.stop && !s.count_received && !s.count_sent && s.forward is None && s.reply is None
                &&& s.event matches Some(ConnectorEvent::Disconnected { exchange: e, reason, will_reconnect })
                    && e == exchange && !will_reconnect && reason@ == "server closed connection"@
            },
            LinkInput::ReadError(msg) => {
                &&& s.stop && !s.count_received && !s.count_sent && s.forward is None && s.reply is None
                &&& s.event matches Some(ConnectorEvent::Disconnected { exchange: e, reason, will_reconnect })
                    && e == exchange && !will_reconnect && reason@ == msg@
            },
            LinkInput::StreamEnded => {
                &&& s.stop && !s.count_received && !s.count_sent && s.forward is None && s.reply is None
                &&& s.event matches Some(ConnectorEvent::Disconnected { exchange: e, reason, will_reconnect })
                    && e == exchange && !will_reconnect && reason@ == "stream ended"@
            },
            LinkInput::Outgoing(m) => {
                &&& !s.stop && !s.count_received && s.count_sent && s.event is None && s.forward is None
                &&& s.reply matches Some(LinkReply::Text(t)) && t@ == m@
            },
            LinkInput::Shutdown => {
                &&& s.stop && !s.count_received && !s.count_sent && s.event is None && s.forward is None
                &&& s.reply matches Some(LinkReply::Close)
            },
        },
{
    match input {
        LinkInput::ReadTimeout => {
            let mut reason = String::from_str("read timeout: no data for ");
            let n = u64_decimal(read_timeout_ms);
            reason.append(n.as_str());
            reason.append("ms");
            LinkStep {
                count_received: false,
                count_sent: false,
                event: Some(ConnectorEvent::Disconnected { exchange, reason, will_reconnect: true }),
                forward: None,
                reply: None,
                stop: true,
            }
        },
        LinkInput::Text(text) => {
            let size_bytes = text.as_str().len();
            LinkStep {
                count_received: true,
                count_sent: false,
                event: Some(ConnectorEvent::MessageReceived { exchange, size_bytes }),
                forward: Some(RawMessage { exchange, payload: text, received_at }),
                reply: None,
                stop: false,
            }
        },
        LinkInput::Binary(data) => {
            let forward = match utf8_text(data.as_slice()) {
                Some(t) => Some(RawMessage { exchange, payload: t, received_at }),
                None => None,
            };
            LinkStep { count_received: true, count_sent: false, event: None, forward, reply: None, stop: false }
        },
        LinkInput::Ping(data) => LinkStep {
            count_received: false,
            count_sent: false,
            event: None,
            forward: None,
            reply: Some(LinkReply::Pong(data)),
            stop: false,
        },
        LinkInput::Pong | LinkInput::RawFrame => LinkStep {
            count_received: false,
            count_sent: false,
            event: None,
            forward: None,
            reply: None,
            stop: false,
        },
        LinkInput::Close => LinkStep {
            count_received: false,
            count_sent: false,
            event: Some(ConnectorEvent::Disconnected {
                exchange,
                reason: String::from_str("server closed connection"),
                will_reconnect: false,
            }),
            forward: None,
            reply: None,
            stop: true,
        },
        LinkInput::ReadError(msg) => LinkStep {
            count_received: false,
            count_sent: false,
            event: Some(ConnectorEvent::Disconnected { exchange, reason: msg, will_reconnect: false }),
            forward: None,
            reply: None,
            stop: true,
        },
        LinkInput::StreamEnded => LinkStep {
            count_received: false,
            count_sent: false,
            event: Some(ConnectorEvent::Disconnected {
                exchange,
                reason: String::from_str("stream ended"),
                will_reconnect: false,
            }),
            forward: None,
            reply: None,
            stop: true,
        },
        LinkInput::Outgoing(m) => LinkStep {
            count_received: false,
            count_sent: true,
            event: None,
            forward: None,
            reply: Some(LinkReply::Text(m)),
            stop: false,
        },
        LinkInput::Shutdown => LinkStep {
            count_received: false,
            count_sent: false,
            event: None,
            forward: None,
            reply: Some(LinkReply::Close),
            stop: true,
        },
    }
}

} // verus!
