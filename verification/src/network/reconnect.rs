//! Reconnection: the per-exchange reconnection status, subscriptions to restore,
//! and sequence-number gap detection.

use crate::types::Exchange;
use vstd::prelude::*;

verus! {

/// Status of reconnection for an exchange.
#[derive(Debug, Clone, Copy, PartialEq, Eq, Hash, Structural)]
pub enum ReconnectionStatus {
    /// Connection is stable.
    Idle,
    /// Attempting to reconnect.
    Reconnecting,
    /// Waiting for the backoff delay.
    Waiting,
    /// Restoring subscriptions after reconnecting.
    RestoringSubscriptions,
    /// Retries exhausted.
    Failed,
    /// Reconnection disabled.
    Disabled,
}

/// Metric code of a reconnection status.
pub open spec fn reconnection_code(s: ReconnectionStatus) -> u8 {
    match s {
        ReconnectionStatus::Idle => 0,
        ReconnectionStatus::Reconnecting => 1,
        ReconnectionStatus::Waiting => 2,
        ReconnectionStatus::RestoringSubscriptions => 3,
        ReconnectionStatus::Failed => 4,
        ReconnectionStatus::Disabled => 5,
    }
}

/// Display name of a reconnection status.
pub open spec fn reconnection_name(s: ReconnectionStatus) -> Seq<char> {
    match s {
        ReconnectionStatus::Idle => "idle"@,
        ReconnectionStatus::Reconnecting => "reconnecting"@,
        ReconnectionStatus::Waiting => "waiting"@,
        ReconnectionStatus::RestoringSubscriptions => "restoring_subscriptions"@,
        ReconnectionStatus::Failed => "failed"@,
        ReconnectionStatus::Disabled => "disabled"@,
    }
}

impl Default for ReconnectionStatus {
    fn default() -> (s: ReconnectionStatus)
        ensures
            s == ReconnectionStatus::Idle,
    {
        ReconnectionStatus::Idle
    }
}

impl ReconnectionStatus {
    /// Whether the status is Idle.
    pub fn is_idle(&self) -> (b: bool)
        ensures
            b == (*self == ReconnectionStatus::Idle),
    {
        match self {
            ReconnectionStatus::Idle => true,
            _ => false,
        }
    }

    /// Whether the status is Reconnecting.
    pub fn is_reconnecting(&self) -> (b: bool)
        ensures
            b == (*self == ReconnectionStatus::Reconnecting),
    {
        match self {
            ReconnectionStatus::Reconnecting => true,
            _ => false,
        }
    }

    /// Whether reconnection is under way: Reconnecting, Waiting or RestoringSubscriptions.
    pub fn is_active(&self) -> (b: bool)
        ensures
            b == (*self == ReconnectionStatus::Reconnecting || *self == ReconnectionStatus::Waiting
                || *self == ReconnectionStatus::RestoringSubscriptions),
    {
        match self {
            ReconnectionStatus::Reconnecting => true,
            ReconnectionStatus::Waiting => true,
            ReconnectionStatus::RestoringSubscriptions => true,
            _ => false,
        }
    }

    /// Whether the status is Failed.
    pub fn is_failed(&self) -> (b: bool)
        ensures
            b == (*self == ReconnectionStatus::Failed),
    {
        match self {
            ReconnectionStatus::Failed => true,
            _ => false,
        }
    }

    /// Whether the status is Disabled.
    pub fn is_disabled(&self) -> (b: bool)
        ensures
            b == (*self == ReconnectionStatus::Disabled),
    {
        match self {
            ReconnectionStatus::Disabled => true,
            _ => false,
        }
    }

    /// Numeric value for metrics, Idle 0 through Disabled 5.
    pub fn as_u8(&self) -> (v: u8)
        ensures
            v == reconnection_code(*self),
    {
        match self {
            ReconnectionStatus::Idle => 0,
            ReconnectionStatus::Reconnecting => 1,
            ReconnectionStatus::Waiting => 2,
            ReconnectionStatus::RestoringSubscriptions => 3,
            ReconnectionStatus::Failed => 4,
            ReconnectionStatus::Disabled => 5,
        }
    }

    /// Lower-case display name.
    pub fn to_string(&self) -> (s: String)
        ensures
            s@ == reconnection_name(*self),
    {
        match self {
            ReconnectionStatus::Idle => String::from_str("idle"),
            ReconnectionStatus::Reconnecting => String::from_str("reconnecting"),
            ReconnectionStatus::Waiting => String::from_str("waiting"),
            ReconnectionStatus::RestoringSubscriptions => String::from_str("restoring_subscriptions"),
            ReconnectionStatus::Failed => String::from_str("failed"),
            ReconnectionStatus::Disabled => String::from_str("disabled"),
        }
    }
}

/// Events emitted by the reconnection manager.
#[derive(Debug, Clone)]
pub enum ReconnectionEvent {
    /// An attempt started.
    AttemptStarted { exchange: Exchange, attempt: u32, max_retries: u32, delay_ms: u64 },
    /// An attempt succeeded.
    AttemptSucceeded { exchange: Exchange, attempt: u32, duration_ms: u64 },
    /// An attempt failed.
    AttemptFailed { exchange: Exchange, attempt: u32, error: String, next_delay_ms: Option<u64> },
    /// All retries exhausted.
    RetriesExhausted { exchange: Exchange, total_attempts: u32, total_duration_ms: u64 },
    /// Subscription restoration started.
    RestoringSubscriptions { exchange: Exchange, subscription_count: usize },
    /// One subscription restored.
    SubscriptionRestored { exchange: Exchange, subscription: String },
    /// All subscriptions restored.
    SubscriptionsRestored { exchange: Exchange, restored_count: usize, failed_count: usize },
    /// A sequence gap was detected.
    SequenceGap { exchange: Exchange, expected: u64, received: u64 },
    /// A snapshot was requested.
    SnapshotRequested { exchange: Exchange, reason: String },
    /// Reconnection enabled.
    Started { exchange: Exchange },
    /// Reconnection disabled.
    Stopped { exchange: Exchange, reason: String },
    /// A backoff delay started.
    BackoffStarted { exchange: Exchange, delay_ms: u64, attempt: u32 },
    /// Manual reconnection requested.
    ManualReconnect { exchange: Exchange },
}

/// A gap in sequence numbers.
#[derive(Debug, Clone, Copy, PartialEq, Eq, Structural)]
pub struct SequenceGap {
    /// Expected sequence number.
    pub expected: u64,
    /// Received sequence number.
    pub received: u64,
}

impl SequenceGap {
    /// Number of messages missed: received minus expected, or 0 if received is not past expected.
    pub fn gap_size(&self) -> (n: u64)
        ensures
            n == if self.received > self.expected { self.received - self.expected } else { 0 },
    {
        self.received.saturating_sub(self.expected)
    }
}

/// Reconnection bookkeeping of one exchange.
#[derive(Debug, Clone)]
pub struct ReconnectionState {
    /// Current status.
    pub status: ReconnectionStatus,
    /// Current attempt (0 when idle).
    pub attempt: u64,
    /// URL to reconnect to.
    pub url: String,
    /// Subscription messages to restore, in registration order.
    pub subscriptions: Vec<String>,
    /// Last sequence number seen.
    pub last_sequence: u64,
    /// Whether a sequence number has been seen since the last reset.
    pub sequence_initialized: bool,
    /// Whether reconnection is enabled.
    pub enabled: bool,
    /// Reconnection attempts (lifetime).
    pub total_attempts: u64,
    /// Successful reconnections (lifetime).
    pub successful_reconnects: u64,
    /// Last error message.
    pub last_error: Option<String>,
}

/// The gap, if any, that receiving `sequence` after `last` reveals: a
/// sequence past `last + 1` skips messages; `last` itself (a duplicate),
/// `last + 1`, and anything lower do not.
pub open spec fn sequence_gap(last: u64, sequence: u64) -> Option<SequenceGap> {
    if sequence > last + 1 {
        Some(SequenceGap { expected: (last + 1) as u64, received: sequence })
    } else {
        None
    }
}

/// Sequence tracking: whether a number has been seen since the last reset,
/// and the last one seen.
pub struct SequenceTracking {
    /// A number has been seen.
    pub initialized: bool,
    /// The last number seen.
    pub last: u64,
}

/// Receiving `sequence`: it becomes the last one seen, and it reveals the
/// gap after the previous one, none when it is the first.
pub open spec fn track_step(t: SequenceTracking, sequence: u64) -> (SequenceTracking, Option<SequenceGap>) {
    (
        SequenceTracking { initialized: true, last: sequence },
        if t.initialized { sequence_gap(t.last, sequence) } else { None },
    )
}

/// Receiving the numbers in order: the tracking after them, and the gap each one revealed.
pub open spec fn track_run(t: SequenceTracking, seqs: Seq<u64>) -> (SequenceTracking, Seq<Option<SequenceGap>>)
    decreases seqs.len(),
{
    if seqs.len() == 0 {
        (t, Seq::empty())
    } else {
        let prev = track_run(t, seqs.drop_last());
        let step = track_step(prev.0, seqs.last());
        (step.0, prev.1.push(step.1))
    }
}

/// Sequence numbers received in order: each number after the first is
/// compared with the one received just before it; the first is compared
/// with the last one seen before, or, right after a reset or a new state,
/// reveals no gap. The last number received is the one tracked after.
pub proof fn law_sequence_gaps(t: SequenceTracking, seqs: Seq<u64>)
    ensures
        track_run(t, seqs).1.len() == seqs.len(),
        forall|i: int| 0 <= i < seqs.len() ==> #[trigger] track_run(t, seqs).1[i] == if i == 0 {
            if t.initialized { sequence_gap(t.last, seqs[0]) } else { None }
        } else {
            sequence_gap(seqs[i - 1], seqs[i])
        },
        seqs.len() > 0 ==> track_run(t, seqs).0 == (SequenceTracking { initialized: true, last: seqs.last() }),
        seqs.len() == 0 ==> track_run(t, seqs).0 == t,
    decreases seqs.len(),
{
    if seqs.len() > 0 {
        let p = seqs.drop_last();
        law_sequence_gaps(t, p);
        let r = track_run(t, seqs);
        assert forall|i: int| 0 <= i < seqs.len() implies #[trigger] r.1[i] == if i == 0 {
            if t.initialized { sequence_gap(t.last, seqs[0]) } else { None }
        } else {
            sequence_gap(seqs[i - 1], seqs[i])
        } by {
            if i < p.len() {
                assert(r.1[i] == track_run(t, p).1[i]);
                assert(p[i] == seqs[i]);
                if i > 0 {
                    assert(p[i - 1] == seqs[i - 1]);
                }
            }
        }
    }
}

impl ReconnectionState {
    /// The sequence tracking of the state.
    pub open spec fn tracking(&self) -> SequenceTracking {
        SequenceTracking { initialized: self.sequence_initialized, last: self.last_sequence }
    }

    /// A fresh state: Disabled, nothing registered.
    pub fn new() -> (s: ReconnectionState)
        ensures
            s.status == ReconnectionStatus::Disabled,
            s.attempt == 0,
            s.url@ == Seq::<char>::empty(),
            s.subscriptions@.len() == 0,
            s.last_sequence == 0,
            !s.sequence_initialized,
            !s.enabled,
            s.total_attempts == 0,
            s.successful_reconnects == 0,
            s.last_error is None,
    {
        ReconnectionState {
            status: ReconnectionStatus::Disabled,
            attempt: 0,
            url: String::new(),
            subscriptions: Vec::new(),
            last_sequence: 0,
            sequence_initialized: false,
            enabled: false,
            total_attempts: 0,
            successful_reconnects: 0,
            last_error: None,
        }
    }

    /// Enable reconnection to `url`; a Disabled status becomes Idle, any other is kept.
    pub fn enable(&mut self, url: &str)
        ensures
            final(self).enabled,
            final(self).url@ == url@,
            final(self).status == if old(self).status == ReconnectionStatus::Disabled {
                ReconnectionStatus::Idle
            } else {
                old(self).status
            },
            final(self).subscriptions == old(self).subscriptions,
            final(self).attempt == old(self).attempt,
            final(self).last_sequence == old(self).last_sequence,
            final(self).sequence_initialized == old(self).sequence_initialized,
    {
        self.enabled = true;
        self.url = String::from_str(url);
        if self.status == ReconnectionStatus::Disabled {
            self.status = ReconnectionStatus::Idle;
        }
    }

    /// Disable reconnection: the status becomes Disabled.
    pub fn disable(&mut self)
        ensures
            !final(self).enabled,
            final(self).status == ReconnectionStatus::Disabled,
            final(self).url == old(self).url,
            final(self).subscriptions == old(self).subscriptions,
            final(self).attempt == old(self).attempt,
            final(self).last_sequence == old(self).last_sequence,
            final(self).sequence_initialized == old(self).sequence_initialized,
    {
        self.enabled = false;
        self.status = ReconnectionStatus::Disabled;
    }

    /// Reset after a successful connection: Idle, no attempt, no error, sequence tracking restarted.
    pub fn reset(&mut self)
        ensures
            final(self).status == ReconnectionStatus::Idle,
            final(self).attempt == 0,
            final(self).last_error is None,
            !final(self).sequence_initialized,
            final(self).last_sequence == 0,
            final(self).enabled == old(self).enabled,
            final(self).url == old(self).url,
            final(self).subscriptions == old(self).subscriptions,
            final(self).total_attempts == old(self).total_attempts,
            final(self).successful_reconnects == old(self).successful_reconnects,
    {
        self.status = ReconnectionStatus::Idle;
        self.attempt = 0;
        self.last_error = None;
        self.sequence_initialized = false;
        self.last_sequence = 0;
    }

    /// Register a subscription message to restore after reconnecting.
    pub fn register_subscription(&mut self, subscription: String)
        ensures
            final(self).subscriptions@ == old(self).subscriptions@.push(subscription),
            final(self).status == old(self).status,
            final(self).enabled == old(self).enabled,
    {
        self.subscriptions.push(subscription);
    }

    /// Forget all registered subscriptions.
    pub fn clear_subscriptions(&mut self)
        ensures
            final(self).subscriptions@.len() == 0,
            final(self).status == old(self).status,
            final(self).enabled == old(self).enabled,
    {
        self.subscriptions.clear();
    }

    /// Record a received sequence number; returns the gap it reveals, if any.
    ///
    /// The first number after a reset only initializes tracking. The last
    /// sequence always becomes the received one.
    pub fn record_sequence(&mut self, sequence: u64) -> (gap: Option<SequenceGap>)
        requires
            old(self).sequence_initialized ==> old(self).last_sequence < u64::MAX,
        ensures
            final(self).sequence_initialized,
            final(self).last_sequence == sequence,
            gap == if old(self).sequence_initialized { sequence_gap(old(self).last_sequence, sequence) } else { None },
            (final(self).tracking(), gap) == track_step(old(self).tracking(), sequence),
            final(self).status == old(self).status,
            final(self).enabled == old(self).enabled,
            final(self).subscriptions == old(self).subscriptions,
    {
        if !self.sequence_initialized {
            self.last_sequence = sequence;
            self.sequence_initialized = true;
            return None;
        }
        let last = self.last_sequence;
        if sequence != last + 1 && sequence != last && sequence > last {
            let gap = SequenceGap { expected: last + 1, received: sequence };
            self.last_sequence = sequence;
            return Some(gap);
        }
        self.last_sequence = sequence;
        None
    }
}

/// The integer check of a reconnection configuration: the maximum delay may not
/// be below the initial delay.
pub fn validate_reconnect_delays(initial_delay_ms: u64, max_delay_ms: u64) -> (r: Result<(), String>)
    ensures
        r is Ok <==> max_delay_ms >= initial_delay_ms,
        r is Err ==> r->Err_0@ == "max_delay_ms must be >= initial_delay_ms"@,
{
    if max_delay_ms < initial_delay_ms {
        return Err(String::from_str("max_delay_ms must be >= initial_delay_ms"));
    }
    Ok(())
}

} // verus!
