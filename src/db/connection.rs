//! Settings of the bounded connection pool over the embedded store.
use vstd::prelude::*;

verus! {

/// Journal mode of the store.
#[derive(Clone, Copy, Debug, PartialEq, Eq, Structural)]
pub enum JournalMode {
    /// Write-ahead log: readers proceed while one writer appends.
    Wal,
    /// Rollback journal deleted after each transaction.
    Delete,
}

/// How often the store forces writes to disk.
#[derive(Clone, Copy, Debug, PartialEq, Eq, Structural)]
pub enum Synchronous {
    /// Sync at checkpoints only: survives a process crash.
    Normal,
    /// Sync on every commit.
    Full,
}

/// Everything the pool and its connections are configured with.
#[derive(Clone, Copy, Debug, PartialEq, Eq, Structural)]
pub struct PoolConfig {
    /// Create the store file when it does not exist.
    pub create_if_missing: bool,
    /// Enforce foreign-key constraints.
    pub foreign_keys: bool,
    pub journal_mode: JournalMode,
    pub synchronous: Synchronous,
    /// How long a statement waits on a locked store, in seconds.
    pub busy_timeout_secs: u64,
    /// Upper bound on open connections.
    pub max_connections: u32,
    /// Connections kept open while idle.
    pub min_connections: u32,
    /// Age in seconds after which a connection is retired.
    pub max_lifetime_secs: u64,
    /// How long a caller waits for a free connection, in seconds.
    pub acquire_timeout_secs: u64,
    /// Check a connection's liveness before handing it out.
    pub test_before_acquire: bool,
}

/// A configuration is usable when the pool may open at least one
/// connection, keeps no more idle ones than it may open, and bounds every
/// wait.
pub open spec fn pool_config_valid(c: PoolConfig) -> bool {
    &&& c.max_connections > 0
    &&& c.min_connections <= c.max_connections
    &&& c.acquire_timeout_secs > 0
    &&& c.busy_timeout_secs > 0
}

impl PoolConfig {
    /// The settings every pool of this layer uses: file created if missing,
    /// foreign keys on, write-ahead log with normal sync, at most 5
    /// connections and at least 1 idle, connections retired after an hour,
    /// a 3 s acquire timeout, a 5 s busy timeout, and liveness checks
    /// before use.
    pub fn standard() -> (r: PoolConfig)
        ensures
            r.create_if_missing,
            r.foreign_keys,
            r.journal_mode == JournalMode::Wal,
            r.synchronous == Synchronous::Normal,
            r.busy_timeout_secs == 5,
            r.max_connections == 5,
            r.min_connections == 1,
            r.max_lifetime_secs == 3600,
            r.acquire_timeout_secs == 3,
            r.test_before_acquire,
            pool_config_valid(r),
    {
        PoolConfig {
            create_if_missing: true,
            foreign_keys: true,
            journal_mode: JournalMode::Wal,
            synchronous: Synchronous::Normal,
            busy_timeout_secs: 5,
            max_connections: 5,
            min_connections: 1,
            max_lifetime_secs: 3600,
            acquire_timeout_secs: 3,
            test_before_acquire: true,
        }
    }
}

} // verus!
