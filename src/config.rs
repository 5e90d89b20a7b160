//! Tunables of the worker.

use vstd::prelude::*;

verus! {

/// Tunables of the worker, read once at startup.
#[derive(Debug, Clone, Copy)]
pub struct WorkerConfig {
    /// Lifetime of cached values in the key-value store, in seconds.
    pub cache_ttl_seconds: u64,
    /// Lifetime of completeness records, in minutes.
    pub completeness_cache_minutes: i64,
    /// Points written per transaction.
    pub batch_size: usize,
    /// Attempts allowed for a failing step.
    pub retry_max: usize,
    /// Pause between attempts, in milliseconds.
    pub retry_delay_ms: u64,
}

impl Default for WorkerConfig {
    fn default() -> (r: Self)
        ensures
            r.cache_ttl_seconds == 3600,
            r.completeness_cache_minutes == 30,
            r.batch_size == 1000,
            r.retry_max == 3,
            r.retry_delay_ms == 500,
    {
        WorkerConfig {
            cache_ttl_seconds: 3600,
            completeness_cache_minutes: 30,
            batch_size: 1000,
            retry_max: 3,
            retry_delay_ms: 500,
        }
    }
}

} // verus!
