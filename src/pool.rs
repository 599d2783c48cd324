//! Bounds of the pool of store connections that the handlers share.
use vstd::prelude::*;

verus! {

/// The most connections that are open at once.
pub const MAX_CONNECTIONS: u32 = 5;

/// How long, in seconds, a request waits for a connection before it fails.
pub const ACQUIRE_TIMEOUT_SECS: u64 = 3;

/// The bounds that the pool is created with.
#[derive(Debug, Clone, Copy, PartialEq, Eq, Structural)]
pub struct PoolSettings {
    /// The most connections lent out at once; at least one.
    pub max_connections: u32,
    /// How long a request waits for a connection, in seconds; then it fails.
    pub acquire_timeout_secs: u64,
}

impl PoolSettings {
    /// The bounds that a serving process uses.
    pub fn standard() -> (r: PoolSettings)
        ensures
            r.max_connections == MAX_CONNECTIONS,
            r.acquire_timeout_secs == ACQUIRE_TIMEOUT_SECS,
            r.wf(),
    {
        PoolSettings { max_connections: MAX_CONNECTIONS, acquire_timeout_secs: ACQUIRE_TIMEOUT_SECS }
    }

    /// Well-formed bounds: at least one connection, and a wait that ends.
    pub open spec fn wf(&self) -> bool {
        self.max_connections >= 1 && self.acquire_timeout_secs >= 1
    }
}

} // verus!
