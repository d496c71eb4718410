use vstd::prelude::*;

verus! {

/// The `[redis]` section: where the cache is.
pub struct RedisConfig {
    pub url: String,
}

} // verus!
