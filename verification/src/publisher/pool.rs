//! Redis connection-pool settings, statistics, health bookkeeping and errors.

use crate::json::{parse_unsigned, unsigned_of_text};
use crate::text::{chars_of, decimal_digits, occurs_at_chars, split_chars, split_seq, starts_with_seq, string_of, trim_chars, trim_seq, u64_decimal};
use crate::types::Timestamp;
use vstd::prelude::*;

verus! {

/// Settings of the Redis connection pool.
#[derive(Debug, Clone)]
pub struct PoolConfig {
    /// Redis URL.
    pub url: String,
    /// Maximum pool size.
    pub max_size: usize,
    /// Minimum idle connections to keep.
    pub min_idle: Option<usize>,
    /// Connection timeout (ms).
    pub connect_timeout_ms: u64,
    /// Wait timeout for a connection (ms).
    pub wait_timeout_ms: u64,
    /// Health check interval (ms).
    pub health_check_interval_ms: u64,
    /// Reconnect automatically.
    pub auto_reconnect: bool,
    /// Maximum reconnect attempts.
    pub max_reconnect_attempts: u32,
    /// Delay between reconnect attempts (ms).
    pub reconnect_delay_ms: u64,
    /// Database number (0-15).
    pub database: u8,
    /// Password, if any.
    pub password: Option<String>,
    /// Use TLS.
    pub tls_enabled: bool,
}

/// The default pool settings, apart from the URL.
pub open spec fn pool_defaults_except_url(c: PoolConfig) -> bool {
    &&& c.max_size == 10
    &&& c.min_idle == Some(2usize)
    &&& c.connect_timeout_ms == 5000
    &&& c.wait_timeout_ms == 5000
    &&& c.health_check_interval_ms == 10000
    &&& c.auto_reconnect
    &&& c.max_reconnect_attempts == 10
    &&& c.reconnect_delay_ms == 1000
    &&& c.database == 0
    &&& c.password is None
    &&& !c.tls_enabled
}

impl Default for PoolConfig {
    fn default() -> (c: PoolConfig)
        ensures
            c.url@ == "redis://127.0.0.1:6379"@,
            pool_defaults_except_url(c),
    {
        PoolConfig {
            url: String::from_str("redis://127.0.0.1:6379"),
            max_size: 10,
            min_idle: Some(2),
            connect_timeout_ms: 5000,
            wait_timeout_ms: 5000,
            health_check_interval_ms: 10000,
            auto_reconnect: true,
            max_reconnect_attempts: 10,
            reconnect_delay_ms: 1000,
            database: 0,
            password: None,
            tls_enabled: false,
        }
    }
}

/// Errors of the connection pool.
#[derive(Debug)]
pub enum PoolError {
    /// The pool could not be created.
    CreationFailed(String),
    /// No connection could be acquired.
    AcquisitionFailed(String),
    /// Acquiring a connection timed out.
    ConnectionTimeout { timeout_ms: u64 },
    /// All connections are in use.
    PoolExhausted { waiting: usize },
    /// The health check failed.
    HealthCheckFailed(String),
    /// The configuration is invalid.
    InvalidConfig(String),
    /// Redis reported an error.
    RedisError(String),
    /// The pool is closed.
    PoolClosed,
    /// Other pool error.
    DeadpoolError(String),
}

/// Result of pool operations.
pub type PoolResult<T> = Result<T, PoolError>;

/// The message of a pool error.
pub open spec fn pool_error_text(e: PoolError) -> Seq<char> {
    match e {
        PoolError::CreationFailed(s) => "Failed to create pool: "@ + s@,
        PoolError::AcquisitionFailed(s) => "Failed to acquire connection: "@ + s@,
        PoolError::ConnectionTimeout { timeout_ms } => "Connection timeout after "@ + decimal_digits(timeout_ms as nat) + "ms"@,
        PoolError::PoolExhausted { waiting } => "Pool exhausted, "@ + decimal_digits(waiting as nat) + " requests waiting"@,
        PoolError::HealthCheckFailed(s) => "Health check failed: "@ + s@,
        PoolError::InvalidConfig(s) => "Invalid pool configuration: "@ + s@,
        PoolError::RedisError(s) => "Redis error: "@ + s@,
        PoolError::PoolClosed => "Pool is closed"@,
        PoolError::DeadpoolError(s) => "Pool error: "@ + s@,
    }
}

impl PoolError {
    /// The message of the error.
    pub fn to_string(&self) -> (t: String)
        ensures
            t@ == pool_error_text(*self),
    {
        match self {
            PoolError::CreationFailed(s) => {
                let mut t = String::from_str("Failed to create pool: ");
                t.append(s.as_str());
                t
            },
            PoolError::AcquisitionFailed(s) => {
                let mut t = String::from_str("Failed to acquire connection: ");
                t.append(s.as_str());
                t
            },
            PoolError::ConnectionTimeout { timeout_ms } => {
                let mut t = String::from_str("Connection timeout after ");
                let n = u64_decimal(*timeout_ms);
                t.append(n.as_str());
                t.append("ms");
                t
            },
            PoolError::PoolExhausted { waiting } => {
                let mut t = String::from_str("Pool exhausted, ");
                let n = u64_decimal(*waiting as u64);
                t.append(n.as_str());
                t.append(" requests waiting");
                t
            },
            PoolError::HealthCheckFailed(s) => {
                let mut t = String::from_str("Health check failed: ");
                t.append(s.as_str());
                t
            },
            PoolError::InvalidConfig(s) => {
                let mut t = String::from_str("Invalid pool configuration: ");
                t.append(s.as_str());
                t
            },
            PoolError::RedisError(s) => {
                let mut t = String::from_str("Redis error: ");
                t.append(s.as_str());
                t
            },
            PoolError::PoolClosed => String::from_str("Pool is closed"),
            PoolError::DeadpoolError(s) => {
                let mut t = String::from_str("Pool error: ");
                t.append(s.as_str());
                t
            },
        }
    }
}

/// A pool configuration is valid: non-empty URL, positive size, database at
/// most 15, and a minimum idle count (if any) not above the size.
pub open spec fn pool_config_valid(c: PoolConfig) -> bool {
    &&& c.url@.len() > 0
    &&& c.max_size > 0
    &&& c.database <= 15
    &&& (c.min_idle matches Some(m) ==> m <= c.max_size)
}

impl PoolConfig {
    /// Check the configuration; the first failing check is reported.
    pub fn validate(&self) -> (r: PoolResult<()>)
        ensures
            r is Ok <==> pool_config_valid(*self),
            self.url@.len() == 0 ==> (r matches Err(PoolError::InvalidConfig(m)) && m@ == "URL cannot be empty"@),
            self.url@.len() > 0 && self.max_size == 0
                ==> (r matches Err(PoolError::InvalidConfig(m)) && m@ == "max_size must be greater than 0"@),
            self.url@.len() > 0 && self.max_size > 0 && self.database > 15
                ==> (r matches Err(PoolError::InvalidConfig(m)) && m@ == "database must be between 0 and 15"@),
            self.url@.len() > 0 && self.max_size > 0 && self.database <= 15 && !pool_config_valid(*self)
                ==> (r matches Err(PoolError::InvalidConfig(m)) && m@ == "min_idle cannot exceed max_size"@),
    {
        if self.url.as_str().is_empty() {
            return Err(PoolError::InvalidConfig(String::from_str("URL cannot be empty")));
        }
        if self.max_size == 0 {
            return Err(PoolError::InvalidConfig(String::from_str("max_size must be greater than 0")));
        }
        if self.database > 15 {
            return Err(PoolError::InvalidConfig(String::from_str("database must be between 0 and 15")));
        }
        match self.min_idle {
            Some(min) => {
                if min > self.max_size {
                    return Err(PoolError::InvalidConfig(String::from_str("min_idle cannot exceed max_size")));
                }
            },
            None => {},
        }
        Ok(())
    }
}

/// Counters of pool activity.
#[derive(Debug, Clone, Copy, PartialEq, Eq, Structural)]
pub struct PoolStats {
    /// Connections handed out.
    pub connections_created: u64,
    /// Connections returned.
    pub connections_recycled: u64,
    /// Acquisitions that timed out.
    pub connection_timeouts: u64,
    /// Acquisitions that failed.
    pub connection_failures: u64,
    /// Pool size.
    pub current_size: usize,
    /// Idle connections.
    pub idle_connections: usize,
    /// Connections in use.
    pub in_use_connections: usize,
    /// Most connections in use at once.
    pub peak_in_use: usize,
    /// Commands executed.
    pub commands_executed: u64,
    /// Time of the last successful health check.
    pub last_health_check: Option<Timestamp>,
}

impl Default for PoolStats {
    fn default() -> (s: PoolStats)
        ensures
            s == (PoolStats {
                connections_created: 0,
                connections_recycled: 0,
                connection_timeouts: 0,
                connection_failures: 0,
                current_size: 0,
                idle_connections: 0,
                in_use_connections: 0,
                peak_in_use: 0,
                commands_executed: 0,
                last_health_check: None,
            }),
    {
        PoolStats {
            connections_created: 0,
            connections_recycled: 0,
            connection_timeouts: 0,
            connection_failures: 0,
            current_size: 0,
            idle_connections: 0,
            in_use_connections: 0,
            peak_in_use: 0,
            commands_executed: 0,
            last_health_check: None,
        }
    }
}

impl PoolStats {
    /// Account for a connection handed out: one more created and in use, one
    /// fewer idle (if any), and the peak raised to the in-use count.
    pub fn record_acquired(&mut self)
        requires
            old(self).connections_created < u64::MAX,
            old(self).in_use_connections < usize::MAX,
        ensures
            final(self).connections_created == old(self).connections_created + 1,
            final(self).in_use_connections == old(self).in_use_connections + 1,
            final(self).idle_connections == if old(self).idle_connections > 0 { (old(self).idle_connections - 1) as usize } else { 0 },
            final(self).peak_in_use == if old(self).in_use_connections + 1 > old(self).peak_in_use {
                (old(self).in_use_connections + 1) as usize
            } else {
                old(self).peak_in_use
            },
            final(self).peak_in_use >= final(self).in_use_connections,
            *final(self) == (PoolStats {
                connections_created: final(self).connections_created,
                in_use_connections: final(self).in_use_connections,
                idle_connections: final(self).idle_connections,
                peak_in_use: final(self).peak_in_use,
                ..*old(self)
            }),
    {
        self.connections_created = self.connections_created + 1;
        self.in_use_connections = self.in_use_connections + 1;
        if self.idle_connections > 0 {
            self.idle_connections = self.idle_connections - 1;
        }
        if self.in_use_connections > self.peak_in_use {
            self.peak_in_use = self.in_use_connections;
        }
    }

    /// Account for a connection given back: one more recycled and idle, one
    /// fewer in use (if any).
    pub fn record_released(&mut self)
        requires
            old(self).connections_recycled < u64::MAX,
            old(self).idle_connections < usize::MAX,
        ensures
            final(self).connections_recycled == old(self).connections_recycled + 1,
            final(self).idle_connections == old(self).idle_connections + 1,
            final(self).in_use_connections == if old(self).in_use_connections > 0 { (old(self).in_use_connections - 1) as usize } else { 0 },
            *final(self) == (PoolStats {
                connections_recycled: final(self).connections_recycled,
                idle_connections: final(self).idle_connections,
                in_use_connections: final(self).in_use_connections,
                ..*old(self)
            }),
    {
        self.connections_recycled = self.connections_recycled + 1;
        if self.in_use_connections > 0 {
            self.in_use_connections = self.in_use_connections - 1;
        }
        self.idle_connections = self.idle_connections + 1;
    }
}

/// Health status of the pool.
#[derive(Debug, Clone, Copy, PartialEq, Eq, Structural)]
pub enum PoolHealthStatus {
    /// Responding.
    Healthy,
    /// Some checks failing.
    Degraded,
    /// Five or more consecutive checks failed.
    Unhealthy,
    /// Not checked yet.
    Unknown,
}

impl Default for PoolHealthStatus {
    fn default() -> (s: PoolHealthStatus)
        ensures
            s == PoolHealthStatus::Unknown,
    {
        PoolHealthStatus::Unknown
    }
}

/// The outcome counters of the pool's health checks.
#[derive(Debug, Clone, Copy, PartialEq, Eq, Structural)]
pub struct HealthCheckCounters {
    /// Current status.
    pub status: PoolHealthStatus,
    /// Consecutive successful checks.
    pub consecutive_successes: u32,
    /// Consecutive failed checks.
    pub consecutive_failures: u32,
}

impl HealthCheckCounters {
    /// No check yet.
    pub fn new() -> (c: HealthCheckCounters)
        ensures
            c == (HealthCheckCounters { status: PoolHealthStatus::Unknown, consecutive_successes: 0, consecutive_failures: 0 }),
    {
        HealthCheckCounters { status: PoolHealthStatus::Unknown, consecutive_successes: 0, consecutive_failures: 0 }
    }

    /// A check succeeded: successes grow, failures reset, and the pool is Healthy.
    pub fn record_success(&mut self)
        requires
            old(self).consecutive_successes < u32::MAX,
        ensures
            final(self).consecutive_successes == old(self).consecutive_successes + 1,
            final(self).consecutive_failures == 0,
            final(self).status == PoolHealthStatus::Healthy,
    {
        self.consecutive_successes = self.consecutive_successes + 1;
        self.consecutive_failures = 0;
        self.status = if self.consecutive_successes >= 3 || self.consecutive_failures == 0 {
            PoolHealthStatus::Healthy
        } else {
            PoolHealthStatus::Degraded
        };
    }

    /// A check failed: failures grow, successes reset; Unhealthy from the fifth
    /// consecutive failure, Degraded before.
    pub fn record_failure(&mut self)
        requires
            old(self).consecutive_failures < u32::MAX,
        ensures
            final(self).consecutive_failures == old(self).consecutive_failures + 1,
            final(self).consecutive_successes == 0,
            final(self).status == if final(self).consecutive_failures >= 5 {
                PoolHealthStatus::Unhealthy
            } else {
                PoolHealthStatus::Degraded
            },
    {
        self.consecutive_failures = self.consecutive_failures + 1;
        self.consecutive_successes = 0;
        self.status = if self.consecutive_failures >= 5 {
            PoolHealthStatus::Unhealthy
        } else {
            PoolHealthStatus::Degraded
        };
    }

    /// Forget the history: Unknown with no counts.
    pub fn reset(&mut self)
        ensures
            *final(self) == (HealthCheckCounters { status: PoolHealthStatus::Unknown, consecutive_successes: 0, consecutive_failures: 0 }),
    {
        self.status = PoolHealthStatus::Unknown;
        self.consecutive_successes = 0;
        self.consecutive_failures = 0;
    }
}

/// Facts about the Redis server.
#[derive(Debug, Clone)]
pub struct RedisServerInfo {
    /// Redis version.
    pub version: String,
    /// Connected clients.
    pub connected_clients: u32,
    /// Used memory in bytes.
    pub used_memory_bytes: u64,
    /// Uptime in seconds.
    pub uptime_seconds: u64,
}

/// The value of the last line that starts with `prefix`: the rest of that
/// line with surrounding white space trimmed.
pub open spec fn last_field(lines: Seq<Seq<char>>, prefix: Seq<char>) -> Option<Seq<char>>
    decreases lines.len(),
{
    if lines.len() == 0 {
        None
    } else if starts_with_seq(lines.last(), prefix) {
        Some(trim_seq(lines.last().subrange(prefix.len() as int, lines.last().len() as int)))
    } else {
        last_field(lines.drop_last(), prefix)
    }
}

/// The number the last line starting with `prefix` gives, read as an
/// unsigned number no larger than `limit`; 0 when there is no such line or
/// its value does not read.
pub open spec fn info_number(lines: Seq<Seq<char>>, prefix: Seq<char>, limit: int) -> int {
    match last_field(lines, prefix) {
        Some(v) => match unsigned_of_text(v, limit) {
            Some(n) => n,
            None => 0,
        },
        None => 0,
    }
}

/// The lines of an INFO reply, split at line feeds (a carriage return before
/// a line feed stays on its line and is trimmed away with the value).
pub open spec fn info_lines(info: Seq<char>) -> Seq<Seq<char>> {
    split_seq(info, '\n')
}

/// The rest of `line` after `prefix`, trimmed, when the line starts with it.
fn field_after(line: &[char], prefix: &[char]) -> (r: Option<Vec<char>>)
    ensures
        match r {
            Some(v) => starts_with_seq(line@, prefix@)
                && v@ == trim_seq(line@.subrange(prefix@.len() as int, line@.len() as int)),
            None => !starts_with_seq(line@, prefix@),
        },
{
    if prefix.len() > line.len() || !occurs_at_chars(line, prefix, 0) {
        return None;
    }
    let rest = line.split_at(prefix.len()).1;
    assert(rest@ =~= line@.subrange(prefix@.len() as int, line@.len() as int));
    Some(trim_chars(rest))
}

/// The number a field value gives, 0 when it does not read.
fn info_value(v: &[char], limit: u64) -> (n: u64)
    ensures
        n <= limit,
        n == match unsigned_of_text(v@, limit as int) {
            Some(x) => x,
            None => 0,
        },
{
    match parse_unsigned(v, limit) {
        Some(n) => n,
        None => 0,
    }
}

/// Read the facts of a Redis INFO reply: the server version and the numbers
/// of connected clients, used memory and uptime. For each, the last line
/// that carries it counts; a missing field is "" or 0, and so is a number
/// that does not read.
pub fn parse_server_info(info: &str) -> (r: RedisServerInfo)
    ensures
        r.version@ == match last_field(info_lines(info@), "redis_version:"@) {
            Some(v) => v,
            None => Seq::<char>::empty(),
        },
        r.connected_clients == info_number(info_lines(info@), "connected_clients:"@, u32::MAX as int),
        r.used_memory_bytes == info_number(info_lines(info@), "used_memory:"@, u64::MAX as int),
        r.uptime_seconds == info_number(info_lines(info@), "uptime_in_seconds:"@, u64::MAX as int),
{
    let cs = chars_of(info);
    let lines = split_chars(cs.as_slice(), '\n');
    let p_version = chars_of("redis_version:");
    let p_clients = chars_of("connected_clients:");
    let p_memory = chars_of("used_memory:");
    let p_uptime = chars_of("uptime_in_seconds:");
    let ghost ls = info_lines(info@);
    let mut version: Vec<char> = Vec::new();
    let mut connected_clients: u32 = 0;
    let mut used_memory: u64 = 0;
    let mut uptime: u64 = 0;
    let mut i: usize = 0;
    while i < lines.len()
        invariant
            i <= lines@.len(),
            lines@.len() == ls.len(),
            forall|k: int| 0 <= k < ls.len() ==> (#[trigger] lines@[k])@ == ls[k],
            p_version@ == "redis_version:"@,
            p_clients@ == "connected_clients:"@,
            p_memory@ == "used_memory:"@,
            p_uptime@ == "uptime_in_seconds:"@,
            version@ == match last_field(ls.take(i as int), "redis_version:"@) {
                Some(v) => v,
                None => Seq::<char>::empty(),
            },
            connected_clients == info_number(ls.take(i as int), "connected_clients:"@, u32::MAX as int),
            used_memory == info_number(ls.take(i as int), "used_memory:"@, u64::MAX as int),
            uptime == info_number(ls.take(i as int), "uptime_in_seconds:"@, u64::MAX as int),
        decreases lines@.len() - i,
    {
        let line = lines[i].as_slice();
        proof {
            let t = ls.take(i as int + 1);
            assert(t.drop_last() =~= ls.take(i as int));
            assert(t.last() == ls[i as int]);
            assert(line@ == ls[i as int]);
        }
        match field_after(line, p_version.as_slice()) {
            Some(v) => {
                version = v;
            },
            None => {},
        }
        let ghost t = ls.take(i as int + 1);
        match field_after(line, p_clients.as_slice()) {
            Some(v) => {
                assert(last_field(t, "connected_clients:"@) == Some(v@));
                let n = info_value(v.as_slice(), 4294967295);
                connected_clients = n as u32;
            },
            None => {
                assert(last_field(t, "connected_clients:"@) == last_field(ls.take(i as int), "connected_clients:"@));
            },
        }
        match field_after(line, p_memory.as_slice()) {
            Some(v) => {
                assert(last_field(t, "used_memory:"@) == Some(v@));
                used_memory = info_value(v.as_slice(), u64::MAX);
            },
            None => {
                assert(last_field(t, "used_memory:"@) == last_field(ls.take(i as int), "used_memory:"@));
            },
        }
        match field_after(line, p_uptime.as_slice()) {
            Some(v) => {
                assert(last_field(t, "uptime_in_seconds:"@) == Some(v@));
                uptime = info_value(v.as_slice(), u64::MAX);
            },
            None => {
                assert(last_field(t, "uptime_in_seconds:"@) == last_field(ls.take(i as int), "uptime_in_seconds:"@));
            },
        }
        i = i + 1;
    }
    assert(ls.take(lines@.len() as int) =~= ls);
    RedisServerInfo {
        version: string_of(version.as_slice()),
        connected_clients,
        used_memory_bytes: used_memory,
        uptime_seconds: uptime,
    }
}

/// Events of the pool.
#[derive(Debug, Clone)]
pub enum PoolEvent {
    /// Pool created.
    Created { size: usize },
    /// Connection acquired.
    ConnectionAcquired { idle_remaining: usize },
    /// Connection released.
    ConnectionReleased { usage_duration_us: u64 },
    /// Connection failed.
    ConnectionFailed { error: String },
    /// Health check completed.
    HealthCheckCompleted { status: PoolHealthStatus, latency_us: u64 },
    /// Pool exhausted.
    Exhausted { wait_queue_size: usize },
    /// Pool resized.
    Resized { old_size: usize, new_size: usize },
}

/// Whole milliseconds of a duration, truncated to 64 bits: what
/// `Duration::as_millis` gives, cast to `u64`.
pub uninterp spec fn duration_ms(d: std::time::Duration) -> u64;

/// Whole milliseconds of a duration, truncated to 64 bits.
///
/// Calls `Duration::as_millis` and casts the `u128` to `u64`. `Duration` is
/// opaque here, so the value is given only by name: it depends on the
/// duration alone.
#[verifier::external_body]
pub(crate) fn duration_millis(d: std::time::Duration) -> (ms: u64)
    ensures
        ms == duration_ms(d),
{
    d.as_millis() as u64
}

/// Builder of pool settings.
pub struct RedisPoolBuilder {
    /// Settings built so far.
    pub config: PoolConfig,
}

impl RedisPoolBuilder {
    /// Default settings with the given URL.
    pub fn new(url: &str) -> (b: RedisPoolBuilder)
        ensures
            b.config.url@ == url@,
            pool_defaults_except_url(b.config),
    {
        let mut config = PoolConfig::default();
        config.url = String::from_str(url);
        RedisPoolBuilder { config }
    }

    /// Set the maximum pool size.
    pub fn max_size(self, size: usize) -> (b: RedisPoolBuilder)
        ensures
            b.config == (PoolConfig { max_size: size, ..self.config }),
    {
        let mut b = self;
        b.config.max_size = size;
        b
    }

    /// Set the minimum idle connections.
    pub fn min_idle(self, count: usize) -> (b: RedisPoolBuilder)
        ensures
            b.config == (PoolConfig { min_idle: Some(count), ..self.config }),
    {
        let mut b = self;
        b.config.min_idle = Some(count);
        b
    }

    /// Set the connection timeout.
    pub fn connect_timeout(self, timeout: std::time::Duration) -> (b: RedisPoolBuilder)
        ensures
            b.config == (PoolConfig { connect_timeout_ms: duration_ms(timeout), ..self.config }),
    {
        let mut b = self;
        b.config.connect_timeout_ms = duration_millis(timeout);
        b
    }

    /// Set the wait timeout.
    pub fn wait_timeout(self, timeout: std::time::Duration) -> (b: RedisPoolBuilder)
        ensures
            b.config == (PoolConfig { wait_timeout_ms: duration_ms(timeout), ..self.config }),
    {
        let mut b = self;
        b.config.wait_timeout_ms = duration_millis(timeout);
        b
    }

    /// Set the health check interval.
    pub fn health_check_interval(self, interval: std::time::Duration) -> (b: RedisPoolBuilder)
        ensures
            b.config == (PoolConfig { health_check_interval_ms: duration_ms(interval), ..self.config }),
    {
        let mut b = self;
        b.config.health_check_interval_ms = duration_millis(interval);
        b
    }

    /// Set automatic reconnection.
    pub fn auto_reconnect(self, enabled: bool) -> (b: RedisPoolBuilder)
        ensures
            b.config == (PoolConfig { auto_reconnect: enabled, ..self.config }),
    {
        let mut b = self;
        b.config.auto_reconnect = enabled;
        b
    }

    /// Set the database number.
    pub fn database(self, db: u8) -> (b: RedisPoolBuilder)
        ensures
            b.config == (PoolConfig { database: db, ..self.config }),
    {
        let mut b = self;
        b.config.database = db;
        b
    }

    /// Set the password.
    pub fn password(self, password: &str) -> (b: RedisPoolBuilder)
        ensures
            b.config.password is Some && b.config.password->0@ == password@,
            b.config == (PoolConfig { password: b.config.password, ..self.config }),
    {
        let mut b = self;
        b.config.password = Some(String::from_str(password));
        b
    }

    /// Set TLS.
    pub fn tls(self, enabled: bool) -> (b: RedisPoolBuilder)
        ensures
            b.config == (PoolConfig { tls_enabled: enabled, ..self.config }),
    {
        let mut b = self;
        b.config.tls_enabled = enabled;
        b
    }

    /// The settings built so far.
    pub fn config(&self) -> (c: &PoolConfig)
        ensures
            *c == self.config,
    {
        &self.config
    }
}

} // verus!
