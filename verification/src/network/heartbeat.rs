//! Connection health from ping/pong heartbeats: the health status, its
//! transitions on pongs and missed pongs, and the events reported about them.

use crate::types::{Exchange, Timestamp};
use vstd::prelude::*;

verus! {

/// Health status of a WebSocket connection.
#[derive(Debug, Clone, Copy, PartialEq, Eq, Hash, Structural)]
pub enum HealthStatus {
    /// All pongs received within the timeout.
    Healthy,
    /// Some pongs missed, below the unhealthy threshold.
    Degraded,
    /// Too many pongs missed.
    Unhealthy,
    /// Not enough data, or not monitored.
    Unknown,
}

/// Metric code of a health status.
pub open spec fn health_code(s: HealthStatus) -> u8 {
    match s {
        HealthStatus::Unknown => 0,
        HealthStatus::Healthy => 1,
        HealthStatus::Degraded => 2,
        HealthStatus::Unhealthy => 3,
    }
}

/// Display name of a health status.
pub open spec fn health_name(s: HealthStatus) -> Seq<char> {
    match s {
        HealthStatus::Healthy => "healthy"@,
        HealthStatus::Degraded => "degraded"@,
        HealthStatus::Unhealthy => "unhealthy"@,
        HealthStatus::Unknown => "unknown"@,
    }
}

impl Default for HealthStatus {
    fn default() -> (s: HealthStatus)
        ensures
            s == HealthStatus::Unknown,
    {
        HealthStatus::Unknown
    }
}

impl HealthStatus {
    /// Whether the status is Healthy.
    pub fn is_healthy(&self) -> (b: bool)
        ensures
            b == (*self == HealthStatus::Healthy),
    {
        match self {
            HealthStatus::Healthy => true,
            _ => false,
        }
    }

    /// Whether the status is Degraded.
    pub fn is_degraded(&self) -> (b: bool)
        ensures
            b == (*self == HealthStatus::Degraded),
    {
        match self {
            HealthStatus::Degraded => true,
            _ => false,
        }
    }

    /// Whether the status is Unhealthy.
    pub fn is_unhealthy(&self) -> (b: bool)
        ensures
            b == (*self == HealthStatus::Unhealthy),
    {
        match self {
            HealthStatus::Unhealthy => true,
            _ => false,
        }
    }

    /// Numeric value for metrics: Unknown 0, Healthy 1, Degraded 2, Unhealthy 3.
    pub fn as_u8(&self) -> (v: u8)
        ensures
            v == health_code(*self),
    {
        match self {
            HealthStatus::Unknown => 0,
            HealthStatus::Healthy => 1,
            HealthStatus::Degraded => 2,
            HealthStatus::Unhealthy => 3,
        }
    }

    /// Lower-case display name.
    pub fn to_string(&self) -> (s: String)
        ensures
            s@ == health_name(*self),
    {
        match self {
            HealthStatus::Healthy => String::from_str("healthy"),
            HealthStatus::Degraded => String::from_str("degraded"),
            HealthStatus::Unhealthy => String::from_str("unhealthy"),
            HealthStatus::Unknown => String::from_str("unknown"),
        }
    }
}

/// Status after a missed pong, given the consecutive missed count and the thresholds.
pub open spec fn status_after_missed(old: HealthStatus, missed: int, degraded_threshold: int, unhealthy_threshold: int) -> HealthStatus {
    if missed >= unhealthy_threshold {
        HealthStatus::Unhealthy
    } else if missed >= degraded_threshold {
        HealthStatus::Degraded
    } else {
        old
    }
}

/// Status after `k` consecutive missed pongs from status `s` with no miss
/// counted yet: each miss moves the status as `status_after_missed` says.
pub open spec fn status_after_misses(s: HealthStatus, k: nat, degraded_threshold: int, unhealthy_threshold: int) -> HealthStatus
    decreases k,
{
    if k == 0 {
        s
    } else {
        status_after_missed(status_after_misses(s, (k - 1) as nat, degraded_threshold, unhealthy_threshold), k as int,
            degraded_threshold, unhealthy_threshold)
    }
}

/// Consecutive missed pongs escalate health by the thresholds alone: after
/// `k` misses (at least one) the status is Unhealthy once `k` reaches the
/// unhealthy threshold, Degraded once it reaches the degraded threshold, and
/// otherwise what it was before the first miss.
pub proof fn law_missed_pongs_escalate(s: HealthStatus, k: nat, degraded_threshold: int, unhealthy_threshold: int)
    requires
        k >= 1,
    ensures
        status_after_misses(s, k, degraded_threshold, unhealthy_threshold) == if k >= unhealthy_threshold {
            HealthStatus::Unhealthy
        } else if k >= degraded_threshold {
            HealthStatus::Degraded
        } else {
            s
        },
    decreases k,
{
    let prev = status_after_misses(s, (k - 1) as nat, degraded_threshold, unhealthy_threshold);
    assert(status_after_misses(s, k, degraded_threshold, unhealthy_threshold)
        == status_after_missed(prev, k as int, degraded_threshold, unhealthy_threshold));
    if k > 1 {
        law_missed_pongs_escalate(s, (k - 1) as nat, degraded_threshold, unhealthy_threshold);
    }
}

/// Status after a missed pong: Unhealthy at or above the unhealthy threshold,
/// Degraded at or above the degraded threshold, otherwise unchanged.
pub fn next_status_on_missed(old: HealthStatus, missed: u64, degraded_threshold: u32, unhealthy_threshold: u32) -> (s: HealthStatus)
    ensures
        s == status_after_missed(old, missed as int, degraded_threshold as int, unhealthy_threshold as int),
{
    if missed >= unhealthy_threshold as u64 {
        HealthStatus::Unhealthy
    } else if missed >= degraded_threshold as u64 {
        HealthStatus::Degraded
    } else if old == HealthStatus::Healthy {
        HealthStatus::Healthy
    } else {
        old
    }
}

/// Health bookkeeping of one exchange.
#[derive(Debug, Clone)]
pub struct HealthTracker {
    /// Current health status.
    pub status: HealthStatus,
    /// Consecutive missed pongs.
    pub missed_pongs: u64,
    /// Total pongs received.
    pub total_pongs: u64,
    /// Total pings sent.
    pub total_pings: u64,
    /// Latency of the last round trip with a known latency (microseconds, 0 if none).
    pub last_latency_us: u64,
    /// Whether the exchange is monitored.
    pub monitoring: bool,
}

/// Change of health status reported by a transition.
#[derive(Debug, Clone, Copy, PartialEq, Eq, Structural)]
pub struct StatusChange {
    /// Status before the transition.
    pub old_status: HealthStatus,
    /// Status after the transition.
    pub new_status: HealthStatus,
}

impl HealthTracker {
    /// A fresh tracker: Unknown, no counts, not monitoring.
    pub fn new() -> (t: HealthTracker)
        ensures
            t.status == HealthStatus::Unknown,
            t.missed_pongs == 0,
            t.total_pongs == 0,
            t.total_pings == 0,
            t.last_latency_us == 0,
            !t.monitoring,
    {
        HealthTracker {
            status: HealthStatus::Unknown,
            missed_pongs: 0,
            total_pongs: 0,
            total_pings: 0,
            last_latency_us: 0,
            monitoring: false,
        }
    }

    /// Start monitoring; returns whether monitoring was off before (and is now started).
    pub fn start_monitoring(&mut self) -> (started: bool)
        ensures
            started == !old(self).monitoring,
            final(self).monitoring,
            final(self).status == old(self).status,
            final(self).missed_pongs == old(self).missed_pongs,
            final(self).total_pongs == old(self).total_pongs,
            final(self).total_pings == old(self).total_pings,
            final(self).last_latency_us == old(self).last_latency_us,
    {
        if self.monitoring {
            return false;
        }
        self.monitoring = true;
        true
    }

    /// Stop monitoring; returns whether monitoring was on before (and is now stopped).
    pub fn stop_monitoring(&mut self) -> (stopped: bool)
        ensures
            stopped == old(self).monitoring,
            !final(self).monitoring,
            final(self).status == old(self).status,
            final(self).missed_pongs == old(self).missed_pongs,
            final(self).total_pongs == old(self).total_pongs,
            final(self).total_pings == old(self).total_pings,
            final(self).last_latency_us == old(self).last_latency_us,
    {
        if !self.monitoring {
            return false;
        }
        self.monitoring = false;
        true
    }

    /// Record a ping sent.
    pub fn record_ping(&mut self)
        ensures
            final(self).total_pings == (old(self).total_pings + 1) % 0x1_0000_0000_0000_0000,
            final(self).status == old(self).status,
            final(self).missed_pongs == old(self).missed_pongs,
            final(self).total_pongs == old(self).total_pongs,
            final(self).last_latency_us == old(self).last_latency_us,
            final(self).monitoring == old(self).monitoring,
    {
        self.total_pings = self.total_pings.wrapping_add(1);
    }

    /// Record a pong with the measured latency (0 when unknown): the missed count
    /// resets, the status becomes Healthy, and the change of status, if any, is returned.
    pub fn record_pong(&mut self, latency_us: u64) -> (change: Option<StatusChange>)
        ensures
            final(self).status == HealthStatus::Healthy,
            final(self).missed_pongs == 0,
            final(self).total_pongs == (old(self).total_pongs + 1) % 0x1_0000_0000_0000_0000,
            final(self).total_pings == old(self).total_pings,
            final(self).last_latency_us == if latency_us > 0 { latency_us } else { old(self).last_latency_us },
            final(self).monitoring == old(self).monitoring,
            change == if old(self).status == HealthStatus::Healthy {
                None
            } else {
                Some(StatusChange { old_status: old(self).status, new_status: HealthStatus::Healthy })
            },
    {
        let old_status = self.status;
        self.missed_pongs = 0;
        self.total_pongs = self.total_pongs.wrapping_add(1);
        if latency_us > 0 {
            self.last_latency_us = latency_us;
        }
        self.status = HealthStatus::Healthy;
        if old_status != HealthStatus::Healthy {
            Some(StatusChange { old_status, new_status: HealthStatus::Healthy })
        } else {
            None
        }
    }

    /// Record a missed pong: the missed count grows by one and the status follows
    /// the thresholds. Returns the new missed count and the change of status, if any.
    pub fn record_missed_pong(&mut self, degraded_threshold: u32, unhealthy_threshold: u32) -> (r: (u64, Option<StatusChange>))
        requires
            old(self).missed_pongs < u64::MAX,
        ensures
            final(self).missed_pongs == old(self).missed_pongs + 1,
            r.0 == final(self).missed_pongs,
            final(self).status == status_after_missed(old(self).status, old(self).missed_pongs + 1,
                degraded_threshold as int, unhealthy_threshold as int),
            r.1 == if final(self).status == old(self).status {
                None
            } else {
                Some(StatusChange { old_status: old(self).status, new_status: final(self).status })
            },
            final(self).total_pongs == old(self).total_pongs,
            final(self).total_pings == old(self).total_pings,
            final(self).last_latency_us == old(self).last_latency_us,
            final(self).monitoring == old(self).monitoring,
            *final(self) == missed_step(*old(self), degraded_threshold, unhealthy_threshold),
    {
        let old_status = self.status;
        let missed = self.missed_pongs + 1;
        self.missed_pongs = missed;
        let new_status = next_status_on_missed(old_status, missed, degraded_threshold, unhealthy_threshold);
        self.status = new_status;
        if old_status != new_status {
            (missed, Some(StatusChange { old_status, new_status }))
        } else {
            (missed, None)
        }
    }
}

/// A tracker after one missed pong: the missed count grows by one and the
/// status follows the thresholds; nothing else changes.
pub open spec fn missed_step(t: HealthTracker, degraded_threshold: u32, unhealthy_threshold: u32) -> HealthTracker {
    HealthTracker {
        missed_pongs: (t.missed_pongs + 1) as u64,
        status: status_after_missed(t.status, t.missed_pongs + 1, degraded_threshold as int, unhealthy_threshold as int),
        ..t
    }
}

/// A tracker after `k` missed pongs in a row.
pub open spec fn missed_steps(t: HealthTracker, k: nat, degraded_threshold: u32, unhealthy_threshold: u32) -> HealthTracker
    decreases k,
{
    if k == 0 {
        t
    } else {
        missed_step(missed_steps(t, (k - 1) as nat, degraded_threshold, unhealthy_threshold), degraded_threshold, unhealthy_threshold)
    }
}

/// Missed pongs counted from a tracker with none counted (a new tracker, or
/// one that just recorded a pong): after `k` misses in a row the missed count
/// is `k`, and the status is Unhealthy once `k` reaches the unhealthy
/// threshold, Degraded once it reaches the degraded threshold, and otherwise
/// what it was before the first miss; each miss moves the status from the
/// one before it by the same rule.
pub proof fn law_consecutive_missed_pongs(t: HealthTracker, k: nat, degraded_threshold: u32, unhealthy_threshold: u32)
    requires
        t.missed_pongs == 0,
        k <= u64::MAX,
    ensures
        missed_steps(t, k, degraded_threshold, unhealthy_threshold).missed_pongs == k,
        missed_steps(t, k, degraded_threshold, unhealthy_threshold).status
            == status_after_misses(t.status, k, degraded_threshold as int, unhealthy_threshold as int),
        k >= 1 ==> missed_steps(t, k, degraded_threshold, unhealthy_threshold).status == if k >= unhealthy_threshold {
            HealthStatus::Unhealthy
        } else if k >= degraded_threshold {
            HealthStatus::Degraded
        } else {
            t.status
        },
        k >= 1 ==> missed_steps(t, k, degraded_threshold, unhealthy_threshold).status == status_after_missed(
            missed_steps(t, (k - 1) as nat, degraded_threshold, unhealthy_threshold).status, k as int,
            degraded_threshold as int, unhealthy_threshold as int),
        missed_steps(t, k, degraded_threshold, unhealthy_threshold).total_pongs == t.total_pongs,
        missed_steps(t, k, degraded_threshold, unhealthy_threshold).monitoring == t.monitoring,
    decreases k,
{
    if k > 0 {
        law_consecutive_missed_pongs(t, (k - 1) as nat, degraded_threshold, unhealthy_threshold);
        law_missed_pongs_escalate(t.status, k, degraded_threshold as int, unhealthy_threshold as int);
    }
}

/// Events emitted by the heartbeat manager.
#[derive(Debug, Clone)]
pub enum HeartbeatEvent {
    /// Ping was sent.
    PingSent { exchange: Exchange, timestamp: Timestamp },
    /// Pong was received.
    PongReceived { exchange: Exchange, latency_us: u64, timestamp: Timestamp },
    /// No pong within the timeout.
    PongTimeout { exchange: Exchange, missed_count: u32 },
    /// Health status changed.
    HealthChanged { exchange: Exchange, old_status: HealthStatus, new_status: HealthStatus, missed_pongs: u32 },
    /// No activity for too long.
    StaleConnection { exchange: Exchange, last_activity_ms: u64 },
    /// Monitoring started.
    MonitoringStarted { exchange: Exchange },
    /// Monitoring stopped.
    MonitoringStopped { exchange: Exchange, reason: String },
}

/// Pong timeout must be shorter than the ping interval, and the unhealthy
/// threshold at least the degraded threshold.
pub open spec fn heartbeat_timing_valid(ping_interval_ms: u64, pong_timeout_ms: u64, degraded_threshold: u32, unhealthy_threshold: u32) -> bool {
    pong_timeout_ms < ping_interval_ms && unhealthy_threshold >= degraded_threshold
}

/// The integer checks of a heartbeat configuration, in the order the
/// configuration is validated: the first failing check's message is returned.
pub fn validate_heartbeat_timing(ping_interval_ms: u64, pong_timeout_ms: u64, degraded_threshold: u32, unhealthy_threshold: u32) -> (r: Result<(), String>)
    ensures
        r is Ok <==> heartbeat_timing_valid(ping_interval_ms, pong_timeout_ms, degraded_threshold, unhealthy_threshold),
        pong_timeout_ms >= ping_interval_ms ==> r is Err && r->Err_0@ == "pong_timeout_ms must be less than ping_interval_ms"@,
        pong_timeout_ms < ping_interval_ms && unhealthy_threshold < degraded_threshold
            ==> r is Err && r->Err_0@ == "unhealthy_threshold must be >= degraded_threshold"@,
{
    if pong_timeout_ms >= ping_interval_ms {
        return Err(String::from_str("pong_timeout_ms must be less than ping_interval_ms"));
    }
    if unhealthy_threshold < degraded_threshold {
        return Err(String::from_str("unhealthy_threshold must be >= degraded_threshold"));
    }
    Ok(())
}

} // verus!
