//! Configuration values consumed at startup and immutable thereafter.
use vstd::prelude::*;

verus! {

/// Cache sizing configuration: the maximum total byte weight the cache may
/// retain once pending maintenance has run.
#[derive(Clone, Copy, Debug)]
pub struct CacheConfig {
    pub capacity: u64,
}

/// Process configuration: where to listen, which remote hosts may be
/// fetched from, and how large the cache may grow.
#[derive(Clone, Debug)]
pub struct Config {
    pub host: String,
    pub port: u16,
    pub whitelist: Vec<String>,
    pub cache: CacheConfig,
}

} // verus!
