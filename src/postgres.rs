use vstd::prelude::*;

verus! {

/// The `[postgres]` section: where the database is and how its pool is bounded.
/// Timeouts and the lifetime are in seconds.
pub struct PostgresConfig {
    pub url: String,
    pub max_connections: u32,
    pub min_connections: u32,
    pub acquire_timeout: u64,
    pub idle_timeout: u64,
    pub max_lifetime: u64,
}

} // verus!
