use vstd::prelude::*;
use crate::types::{Address, OracleConfig, PriceCache, DEFAULT_MAX_ORACLE_AGE};

verus! {

/// Age of a cache entry at ledger time `now`; an entry from the future has age zero.
pub open spec fn cache_age(cache: PriceCache, now: u64) -> int {
    if now >= cache.timestamp {
        now - cache.timestamp
    } else {
        0
    }
}

/// A cached rate may be served while its age is below `max_age`.
pub open spec fn cache_is_fresh(cache: PriceCache, now: u64, max_age: u64) -> bool {
    cache_age(cache, now) < max_age
}

/// Whether `cache` may still be served at `now`.
pub fn is_fresh(cache: &PriceCache, now: u64, max_age: u64) -> (r: bool)
    ensures
        r == cache_is_fresh(*cache, now, max_age),
{
    let age: u64 = if now >= cache.timestamp {
        now - cache.timestamp
    } else {
        0
    };
    age < max_age
}

/// The oracle settings a freshly initialized contract starts with.
pub fn default_oracle_config(oracle_address: Address) -> (r: OracleConfig)
    ensures
        r.oracle_address == oracle_address,
        r.max_oracle_age == DEFAULT_MAX_ORACLE_AGE,
        !r.is_paused,
{
    OracleConfig { oracle_address, max_oracle_age: DEFAULT_MAX_ORACLE_AGE, is_paused: false }
}

} // verus!
