//! Backpressure vocabulary: the drop policy, shared frame counters, and the
//! error that hands a dropped value back.

use std::sync::atomic::{AtomicU64, Ordering};
use vstd::prelude::*;

verus! {

/// What happens to a frame when the channel is full.
#[derive(Debug, Clone, Copy, PartialEq, Eq, Hash, Structural)]
pub enum BackpressurePolicy {
    /// Drop the incoming frame (default).
    DropNewest,
    /// Warn and drop the frame.
    WarnAndContinue,
}

impl Default for BackpressurePolicy {
    fn default() -> (p: BackpressurePolicy)
        ensures
            p == BackpressurePolicy::DropNewest,
    {
        BackpressurePolicy::DropNewest
    }
}

impl BackpressurePolicy {
    /// Name of the policy.
    pub fn to_string(&self) -> (s: String)
        ensures
            s@ == match *self {
                BackpressurePolicy::DropNewest => "DropNewest"@,
                BackpressurePolicy::WarnAndContinue => "WarnAndContinue"@,
            },
    {
        match self {
            BackpressurePolicy::DropNewest => String::from_str("DropNewest"),
            BackpressurePolicy::WarnAndContinue => String::from_str("WarnAndContinue"),
        }
    }
}

/// Counters of sent and dropped frames, shared between threads.
///
/// The counters are atomics that other holders update at any time, so what
/// a read returns depends on them; the methods state nothing of the values.
#[derive(Debug)]
pub struct BackpressureMetrics {
    dropped_frames: AtomicU64,
    sent_frames: AtomicU64,
}

impl Default for BackpressureMetrics {
    fn default() -> (m: BackpressureMetrics) {
        BackpressureMetrics::new()
    }
}

impl BackpressureMetrics {
    /// Both counters at zero.
    pub fn new() -> (m: BackpressureMetrics) {
        BackpressureMetrics { dropped_frames: AtomicU64::new(0), sent_frames: AtomicU64::new(0) }
    }

    /// Count a dropped frame.
    pub fn increment_dropped(&self) {
        self.dropped_frames.fetch_add(1, Ordering::Relaxed);
    }

    /// Count a sent frame.
    pub fn increment_sent(&self) {
        self.sent_frames.fetch_add(1, Ordering::Relaxed);
    }

    /// Frames dropped so far.
    pub fn dropped_frames(&self) -> u64 {
        self.dropped_frames.load(Ordering::Relaxed)
    }

    /// Frames sent so far.
    pub fn sent_frames(&self) -> u64 {
        self.sent_frames.load(Ordering::Relaxed)
    }

    /// Sent plus dropped frames (wrapping at `u64::MAX`, as the counters do).
    pub fn total_frames(&self) -> u64 {
        let sent = self.sent_frames();
        let dropped = self.dropped_frames();
        sent.wrapping_add(dropped)
    }

    /// Set both counters back to zero.
    pub fn reset(&self) {
        self.dropped_frames.store(0, Ordering::Relaxed);
        self.sent_frames.store(0, Ordering::Relaxed);
    }
}

/// A send that did not happen, with the value that was not sent.
#[derive(Debug)]
pub enum BackpressureSendError<T> {
    /// The channel was full; the value was dropped.
    ChannelFull { dropped_value: T },
    /// The channel was closed; the value was dropped.
    ChannelClosed { dropped_value: T },
}

/// Result of backpressure sends.
pub type BackpressureResult<T> = Result<T, BackpressureSendError<T>>;

} // verus!
