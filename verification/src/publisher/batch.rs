//! Message batching: overflow and backpressure vocabulary, queued messages,
//! batches and the accumulator that gathers messages into batches.

use crate::publisher::stream::SerializationFormat;
use crate::types::{now_micros, Timestamp};
use vstd::prelude::*;

verus! {

// =============================================================================
// VOCABULARY
// =============================================================================

/// What to do when the message queue overflows.
#[derive(Debug, Clone, Copy, PartialEq, Eq, Hash, Structural)]
pub enum OverflowAction {
    /// Block the producer until there is room (default).
    Block,
    /// Remove the oldest messages to make room.
    DropOldest,
    /// Refuse incoming messages while full.
    DropNewest,
    /// Warn and go on.
    WarnAndContinue,
}

impl Default for OverflowAction {
    fn default() -> (a: OverflowAction)
        ensures
            a == OverflowAction::Block,
    {
        OverflowAction::Block
    }
}

impl OverflowAction {
    /// Name of the action.
    pub fn to_string(&self) -> (s: String)
        ensures
            s@ == match *self {
                OverflowAction::Block => "Block"@,
                OverflowAction::DropOldest => "DropOldest"@,
                OverflowAction::DropNewest => "DropNewest"@,
                OverflowAction::WarnAndContinue => "WarnAndContinue"@,
            },
    {
        match self {
            OverflowAction::Block => String::from_str("Block"),
            OverflowAction::DropOldest => String::from_str("DropOldest"),
            OverflowAction::DropNewest => String::from_str("DropNewest"),
            OverflowAction::WarnAndContinue => String::from_str("WarnAndContinue"),
        }
    }
}

/// Backpressure level of the queue.
#[derive(Debug, Clone, Copy, PartialEq, Eq, Hash, Structural)]
pub enum BackpressureStatus {
    /// Below the warning threshold (default).
    Normal,
    /// Between the warning and critical thresholds.
    Warning,
    /// Above the critical threshold.
    Critical,
}

impl Default for BackpressureStatus {
    fn default() -> (s: BackpressureStatus)
        ensures
            s == BackpressureStatus::Normal,
    {
        BackpressureStatus::Normal
    }
}

impl BackpressureStatus {
    /// Name of the status.
    pub fn to_string(&self) -> (s: String)
        ensures
            s@ == match *self {
                BackpressureStatus::Normal => "Normal"@,
                BackpressureStatus::Warning => "Warning"@,
                BackpressureStatus::Critical => "Critical"@,
            },
    {
        match self {
            BackpressureStatus::Normal => String::from_str("Normal"),
            BackpressureStatus::Warning => String::from_str("Warning"),
            BackpressureStatus::Critical => String::from_str("Critical"),
        }
    }
}

/// What made a batch flush.
#[derive(Debug, Clone, Copy, PartialEq, Eq, Hash, Structural)]
pub enum FlushTrigger {
    /// The batch reached its maximum size.
    BatchFull,
    /// The batch delay ran out.
    Timeout,
    /// A flush was requested.
    Manual,
    /// Shutting down.
    Shutdown,
}

impl FlushTrigger {
    /// Name of the trigger.
    pub fn to_string(&self) -> (s: String)
        ensures
            s@ == match *self {
                FlushTrigger::BatchFull => "BatchFull"@,
                FlushTrigger::Timeout => "Timeout"@,
                FlushTrigger::Manual => "Manual"@,
                FlushTrigger::Shutdown => "Shutdown"@,
            },
    {
        match self {
            FlushTrigger::BatchFull => String::from_str("BatchFull"),
            FlushTrigger::Timeout => String::from_str("Timeout"),
            FlushTrigger::Manual => String::from_str("Manual"),
            FlushTrigger::Shutdown => String::from_str("Shutdown"),
        }
    }
}

/// Why a message was dropped.
#[derive(Debug, Clone, Copy, PartialEq, Eq, Hash, Structural)]
pub enum DropReason {
    /// The queue was full and the action drops new messages.
    QueueFull,
    /// Evicted to make room.
    Evicted,
    /// The message is too large.
    MessageTooLarge,
    /// The message format is invalid.
    InvalidFormat,
}

impl DropReason {
    /// Name of the reason.
    pub fn to_string(&self) -> (s: String)
        ensures
            s@ == match *self {
                DropReason::QueueFull => "QueueFull"@,
                DropReason::Evicted => "Evicted"@,
                DropReason::MessageTooLarge => "MessageTooLarge"@,
                DropReason::InvalidFormat => "InvalidFormat"@,
            },
    {
        match self {
            DropReason::QueueFull => String::from_str("QueueFull"),
            DropReason::Evicted => String::from_str("Evicted"),
            DropReason::MessageTooLarge => String::from_str("MessageTooLarge"),
            DropReason::InvalidFormat => String::from_str("InvalidFormat"),
        }
    }
}

/// Errors of the batcher.
#[derive(Debug, Clone)]
pub enum BatcherError {
    /// The configuration is invalid.
    InvalidConfig { reason: String },
    /// The channel is full and the action blocks.
    ChannelFull,
    /// A message was dropped.
    MessageDropped { reason: DropReason },
    /// Publishing a batch failed.
    PublishFailed { reason: String },
    /// The batcher is not running.
    NotRunning,
    /// The batcher is already running.
    AlreadyRunning,
    /// Shutdown timed out.
    ShutdownTimeout { timeout_ms: u64 },
    /// A stream error.
    StreamError { reason: String },
}

/// Result of batcher operations.
pub type BatcherResult<T> = Result<T, BatcherError>;

/// Events the batcher reports.
#[derive(Debug, Clone)]
pub enum BatcherEvent {
    /// A message was queued.
    MessageEnqueued { topic: String, size: usize },
    /// A batch was flushed.
    BatchFlushed { message_count: usize, bytes: usize, trigger: FlushTrigger },
    /// The backpressure level changed.
    BackpressureChanged { old_status: BackpressureStatus, new_status: BackpressureStatus, queue_depth: usize },
    /// A message was dropped.
    MessageDropped { topic: String, reason: DropReason },
    /// An error occurred.
    Error { error: BatcherError },
}

// =============================================================================
// MESSAGES AND BATCHES
// =============================================================================

/// A message queued for publishing.
#[derive(Debug, Clone)]
pub struct BatchMessage {
    /// Topic to publish to.
    pub topic: String,
    /// Serialized payload.
    pub data: Vec<u8>,
    /// Serialization format of the payload.
    pub format: SerializationFormat,
    /// Time the message was queued (microseconds).
    pub enqueued_at: Timestamp,
    /// Priority (higher = more important).
    pub priority: u8,
}

impl BatchMessage {
    /// Size of the payload in bytes.
    pub fn size(&self) -> (n: usize)
        ensures
            n == self.data@.len(),
    {
        self.data.len()
    }
}

/// Sum of the payload sizes of messages.
pub open spec fn payload_bytes(ms: Seq<BatchMessage>) -> int
    decreases ms.len(),
{
    if ms.len() == 0 {
        0
    } else {
        payload_bytes(ms.drop_last()) + ms.last().data@.len()
    }
}

/// A batch as values.
pub struct BatchModel {
    /// Messages, in the order they were added.
    pub messages: Seq<BatchMessage>,
    /// Counted payload bytes.
    pub total_bytes: int,
    /// Counted messages.
    pub message_count: int,
    /// Time the batch was started.
    pub created_at: Timestamp,
}

/// A batch after adding one message: the message is appended and counted.
pub open spec fn batch_add_step(b: BatchModel, m: BatchMessage) -> BatchModel {
    BatchModel {
        messages: b.messages.push(m),
        total_bytes: b.total_bytes + m.data@.len(),
        message_count: b.message_count + 1,
        created_at: b.created_at,
    }
}

/// A batch after adding the messages in order.
pub open spec fn batch_adds(b: BatchModel, ms: Seq<BatchMessage>) -> BatchModel
    decreases ms.len(),
{
    if ms.len() == 0 {
        b
    } else {
        batch_add_step(batch_adds(b, ms.drop_last()), ms.last())
    }
}

/// Adding messages to a batch appends them in order, adds their payload
/// sizes and their number to the counts, keeps the start time, and keeps
/// the counts in agreement with the messages.
pub proof fn law_batch_adds(b: BatchModel, ms: Seq<BatchMessage>)
    ensures
        batch_adds(b, ms).messages == b.messages + ms,
        batch_adds(b, ms).total_bytes == b.total_bytes + payload_bytes(ms),
        batch_adds(b, ms).message_count == b.message_count + ms.len(),
        batch_adds(b, ms).created_at == b.created_at,
        b.total_bytes == payload_bytes(b.messages) && b.message_count == b.messages.len() ==> {
            &&& batch_adds(b, ms).total_bytes == payload_bytes(batch_adds(b, ms).messages)
            &&& batch_adds(b, ms).message_count == batch_adds(b, ms).messages.len()
        },
    decreases ms.len(),
{
    if ms.len() > 0 {
        law_batch_adds(b, ms.drop_last());
        assert(b.messages + ms =~= (b.messages + ms.drop_last()).push(ms.last()));
        assert((b.messages + ms).drop_last() =~= b.messages + ms.drop_last());
    } else {
        assert(b.messages + ms =~= b.messages);
    }
}

/// A batch of messages ready for publishing.
#[derive(Debug, Clone)]
pub struct MessageBatch {
    /// Messages, in the order they were added.
    pub messages: Vec<BatchMessage>,
    /// Time the batch was started.
    pub created_at: Timestamp,
    /// Total payload size in bytes.
    pub total_bytes: usize,
    /// Number of messages.
    pub message_count: usize,
}

impl MessageBatch {
    /// The batch as values.
    pub open spec fn model(&self) -> BatchModel {
        BatchModel {
            messages: self.messages@,
            total_bytes: self.total_bytes as int,
            message_count: self.message_count as int,
            created_at: self.created_at,
        }
    }

    /// The counters agree with the messages held.
    pub open spec fn consistent(&self) -> bool {
        &&& self.total_bytes == payload_bytes(self.messages@)
        &&& self.message_count == self.messages@.len()
    }

    /// An empty batch started now.
    pub fn new() -> (b: MessageBatch)
        ensures
            b.messages@.len() == 0,
            b.total_bytes == 0,
            b.message_count == 0,
            b.consistent(),
    {
        MessageBatch { messages: Vec::new(), created_at: now_micros(), total_bytes: 0, message_count: 0 }
    }

    /// Append a message and count its bytes.
    pub fn add(&mut self, message: BatchMessage)
        requires
            old(self).total_bytes + message.data@.len() <= usize::MAX,
            old(self).message_count < usize::MAX,
        ensures
            final(self).messages@ == old(self).messages@.push(message),
            final(self).total_bytes == old(self).total_bytes + message.data@.len(),
            final(self).message_count == old(self).message_count + 1,
            final(self).created_at == old(self).created_at,
            old(self).consistent() ==> final(self).consistent(),
            final(self).model() == batch_add_step(old(self).model(), message),
    {
        let ghost before = self.messages@;
        self.total_bytes = self.total_bytes + message.data.len();
        self.message_count = self.message_count + 1;
        self.messages.push(message);
        assert(self.messages@.drop_last() =~= before);
    }

    /// Empty the batch and restart its clock.
    pub fn clear(&mut self)
        ensures
            final(self).messages@.len() == 0,
            final(self).total_bytes == 0,
            final(self).message_count == 0,
            final(self).consistent(),
    {
        self.messages.clear();
        self.total_bytes = 0;
        self.message_count = 0;
        self.created_at = now_micros();
    }

    /// Whether the batch holds no message.
    pub fn is_empty(&self) -> (b: bool)
        ensures
            b == (self.messages@.len() == 0),
    {
        self.messages.len() == 0
    }

    /// Number of messages held.
    pub fn len(&self) -> (n: usize)
        ensures
            n == self.messages@.len(),
    {
        self.messages.len()
    }
}

impl Default for MessageBatch {
    fn default() -> (b: MessageBatch)
        ensures
            b.messages@.len() == 0,
            b.total_bytes == 0,
            b.message_count == 0,
            b.consistent(),
    {
        MessageBatch::new()
    }
}

// =============================================================================
// BATCH ACCUMULATOR
// =============================================================================

/// Microseconds from `first` to `now`, 0 when `now` is not later.
pub open spec fn elapsed_us(first: Timestamp, now: Timestamp) -> u64 {
    if now > first {
        (now - first) as u64
    } else {
        0
    }
}

/// An accumulator as values.
pub struct AccumulatorModel {
    /// The batch being gathered.
    pub batch: BatchModel,
    /// Size at which the batch is ready.
    pub max_size: usize,
    /// Size a batch needs before a timeout flush.
    pub min_size: usize,
    /// Queue time of the first message of the batch, if any.
    pub first: Option<Timestamp>,
}

/// An accumulator after adding a message: the batch takes it, and the first
/// message of a batch starts its clock.
pub open spec fn acc_add_step(a: AccumulatorModel, m: BatchMessage) -> AccumulatorModel {
    AccumulatorModel {
        batch: batch_add_step(a.batch, m),
        first: if a.first is None { Some(m.enqueued_at) } else { a.first },
        ..a
    }
}

/// An accumulator after adding the messages in order.
pub open spec fn acc_adds(a: AccumulatorModel, ms: Seq<BatchMessage>) -> AccumulatorModel
    decreases ms.len(),
{
    if ms.len() == 0 {
        a
    } else {
        acc_add_step(acc_adds(a, ms.drop_last()), ms.last())
    }
}

/// Whether the accumulator's batch has reached its maximum size.
pub open spec fn acc_ready(a: AccumulatorModel) -> bool {
    a.batch.messages.len() >= a.max_size
}

/// Messages added to an empty accumulator are gathered in order: the batch
/// holds exactly them, counts their payload bytes and their number, its clock
/// starts at the first one's queue time, and it is ready exactly when at least
/// the maximum size of them were added. `take` then hands out that batch and
/// leaves an empty one.
pub proof fn law_accumulate(a: AccumulatorModel, ms: Seq<BatchMessage>)
    requires
        a.batch.messages.len() == 0,
        a.batch.total_bytes == 0,
        a.batch.message_count == 0,
        a.first is None,
    ensures
        acc_adds(a, ms).batch.messages == ms,
        acc_adds(a, ms).batch.total_bytes == payload_bytes(ms),
        acc_adds(a, ms).batch.message_count == ms.len(),
        acc_adds(a, ms).first == if ms.len() > 0 { Some(ms[0].enqueued_at) } else { None::<Timestamp> },
        acc_ready(acc_adds(a, ms)) <==> ms.len() >= a.max_size,
        acc_adds(a, ms).max_size == a.max_size,
        acc_adds(a, ms).min_size == a.min_size,
    decreases ms.len(),
{
    if ms.len() > 0 {
        let p = ms.drop_last();
        law_accumulate(a, p);
        assert(ms =~= p.push(ms.last()));
        if p.len() > 0 {
            assert(p[0] == ms[0]);
        }
    } else {
        assert(a.batch.messages =~= ms);
    }
}

/// Gathers messages into a batch until it is full.
#[derive(Debug)]
pub struct BatchAccumulator {
    batch: MessageBatch,
    max_size: usize,
    min_size: usize,
    first_message_at: Option<Timestamp>,
}

impl BatchAccumulator {
    /// The batch being gathered.
    pub closed spec fn current(&self) -> MessageBatch {
        self.batch
    }

    /// Size at which the batch is ready.
    pub closed spec fn max_batch(&self) -> usize {
        self.max_size
    }

    /// Size a batch needs before a timeout flush.
    pub closed spec fn min_batch(&self) -> usize {
        self.min_size
    }

    /// Queue time of the first message of the batch, if any.
    pub closed spec fn first_at(&self) -> Option<Timestamp> {
        self.first_message_at
    }

    /// The accumulator as values.
    pub open spec fn model(&self) -> AccumulatorModel {
        AccumulatorModel {
            batch: self.current().model(),
            max_size: self.max_batch(),
            min_size: self.min_batch(),
            first: self.first_at(),
        }
    }

    /// The batch counters agree with its messages, and a first time is
    /// recorded exactly when the batch holds messages.
    pub closed spec fn wf(&self) -> bool {
        &&& self.batch.consistent()
        &&& (self.first_message_at is Some <==> self.batch.messages@.len() > 0)
        &&& (self.batch.messages@.len() > 0 ==> self.first_message_at == Some(self.batch.messages@[0].enqueued_at))
    }

    /// An accumulator of batches of up to `max_size` messages, flushed on
    /// timeout from one message on.
    pub fn new(max_size: usize) -> (a: BatchAccumulator)
        ensures
            a.current().consistent(),
            a.current().total_bytes == 0,
            a.current().message_count == 0,
            a.wf(),
            a.current().messages@.len() == 0,
            a.max_batch() == max_size,
            a.min_batch() == 1,
            a.first_at() is None,
    {
        BatchAccumulator { batch: MessageBatch::new(), max_size, min_size: 1, first_message_at: None }
    }

    /// An accumulator with the given maximum and minimum batch sizes.
    pub fn with_limits(max_size: usize, min_size: usize) -> (a: BatchAccumulator)
        ensures
            a.current().consistent(),
            a.current().total_bytes == 0,
            a.current().message_count == 0,
            a.wf(),
            a.current().messages@.len() == 0,
            a.max_batch() == max_size,
            a.min_batch() == min_size,
            a.first_at() is None,
    {
        BatchAccumulator { batch: MessageBatch::new(), max_size, min_size, first_message_at: None }
    }

    /// Add a message; the first message of a batch starts its latency clock.
    pub fn add(&mut self, message: BatchMessage)
        requires
            old(self).wf(),
            old(self).current().total_bytes + message.data@.len() <= usize::MAX,
            old(self).current().message_count < usize::MAX,
        ensures
            final(self).wf(),
            final(self).current().consistent(),
            final(self).current().messages@ == old(self).current().messages@.push(message),
            final(self).current().total_bytes == old(self).current().total_bytes + message.data@.len(),
            final(self).first_at() == (if old(self).first_at() is None { Some(message.enqueued_at) } else { old(self).first_at() }),
            final(self).max_batch() == old(self).max_batch(),
            final(self).min_batch() == old(self).min_batch(),
            final(self).model() == acc_add_step(old(self).model(), message),
    {
        if self.first_message_at.is_none() {
            self.first_message_at = Some(message.enqueued_at);
        }
        self.batch.add(message);
    }

    /// Whether the batch has reached its maximum size.
    pub fn is_ready(&self) -> (b: bool)
        ensures
            b == (self.current().messages@.len() >= self.max_batch()),
            b == acc_ready(self.model()),
    {
        self.batch.len() >= self.max_size
    }

    /// Whether the batch is large enough for a timeout flush.
    pub fn meets_minimum(&self) -> (b: bool)
        ensures
            b == (self.current().messages@.len() >= self.min_batch()),
    {
        self.batch.len() >= self.min_size
    }

    /// Whether the batch is empty.
    pub fn is_empty(&self) -> (b: bool)
        ensures
            b == (self.current().messages@.len() == 0),
    {
        self.batch.is_empty()
    }

    /// Number of messages in the batch.
    pub fn len(&self) -> (n: usize)
        ensures
            n == self.current().messages@.len(),
    {
        self.batch.len()
    }

    /// Hand out the batch and start a new, empty one.
    pub fn take(&mut self) -> (b: MessageBatch)
        requires
            old(self).wf(),
        ensures
            final(self).wf(),
            b == old(self).current(),
            b.model() == old(self).model().batch,
            b.consistent(),
            final(self).current().messages@.len() == 0,
            final(self).current().total_bytes == 0,
            final(self).current().message_count == 0,
            final(self).first_at() is None,
            final(self).max_batch() == old(self).max_batch(),
            final(self).min_batch() == old(self).min_batch(),
    {
        let mut b = MessageBatch::new();
        std::mem::swap(&mut self.batch, &mut b);
        self.first_message_at = None;
        b
    }

    /// Microseconds since the first message of the batch, at time `now`.
    pub fn latency_at(&self, now: Timestamp) -> (l: Option<u64>)
        ensures
            match self.first_at() {
                Some(first) => l == Some(elapsed_us(first, now)),
                None => l is None,
            },
    {
        match self.first_message_at {
            Some(first) => {
                if now > first {
                    Some((now as i128 - first as i128) as u64)
                } else {
                    Some(0)
                }
            },
            None => None,
        }
    }

    /// Microseconds since the first message of the batch, by the clock.
    pub fn latency_us(&self) -> (l: Option<u64>)
        ensures
            l is Some <==> self.first_at() is Some,
    {
        let now = now_micros();
        self.latency_at(now)
    }

    /// Total payload bytes of the batch.
    pub fn total_bytes(&self) -> (n: usize)
        ensures
            n == self.current().total_bytes,
    {
        self.batch.total_bytes
    }
}

/// The integer checks of a batch configuration, in the order the
/// configuration is validated: a batch and the channel must each hold at
/// least one message. The first failing check's message is returned.
pub fn validate_batch_sizes(max_batch_size: usize, channel_capacity: usize) -> (r: Result<(), String>)
    ensures
        r is Ok <==> (max_batch_size > 0 && channel_capacity > 0),
        max_batch_size == 0 ==> r is Err && r->Err_0@ == "max_batch_size cannot be zero"@,
        max_batch_size > 0 && channel_capacity == 0 ==> r is Err && r->Err_0@ == "channel_capacity cannot be zero"@,
{
    if max_batch_size == 0 {
        return Err(String::from_str("max_batch_size cannot be zero"));
    }
    if channel_capacity == 0 {
        return Err(String::from_str("channel_capacity cannot be zero"));
    }
    Ok(())
}

} // verus!
