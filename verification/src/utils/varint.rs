//! The extended settings of the integer codec.

use vstd::prelude::*;

verus! {

/// Settings of the integer codec and of its bookkeeping.
#[derive(Debug, Clone)]
pub struct VarIntConfig {
    /// Entries reserved for the encode cache.
    pub cache_size: usize,
    /// The number of small values whose encodings are precomputed.
    pub quick_lookup_size: usize,
    /// Worker threads that share one codec.
    pub thread_pool_size: usize,
    /// Whether the codec's counters are exported.
    pub metrics_enabled: bool,
    /// Seconds between two exports.
    pub metrics_interval_secs: u64,
}

/// `num_cpus::get`: the number of logical processors available to this
/// process, which the crate documents to be at least one. It differs from
/// machine to machine, so nothing more is said of it.
#[verifier::external_body]
fn available_cpus() -> (count: usize)
    ensures
        count >= 1,
{
    num_cpus::get()
}

impl VarIntConfig {
    /// The default settings for a pool of the given number of threads: a
    /// cache of 1,048,576 entries, a table of 128 values, counters exported
    /// every minute.
    pub fn for_threads(thread_pool_size: usize) -> (config: Self)
        ensures
            config == (VarIntConfig {
                cache_size: 1_048_576,
                quick_lookup_size: 128,
                thread_pool_size,
                metrics_enabled: true,
                metrics_interval_secs: 60,
            }),
    {
        VarIntConfig {
            cache_size: 1_048_576,
            quick_lookup_size: 128,
            thread_pool_size,
            metrics_enabled: true,
            metrics_interval_secs: 60,
        }
    }
}

impl Default for VarIntConfig {
    /// The default settings for as many threads as this machine has
    /// processors.
    fn default() -> (config: Self)
        ensures
            config.cache_size == 1_048_576,
            config.quick_lookup_size == 128,
            config.thread_pool_size >= 1,
            config.metrics_enabled,
            config.metrics_interval_secs == 60,
    {
        Self::for_threads(available_cpus())
    }
}

} // verus!
