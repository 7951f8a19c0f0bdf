//! Counters of the integer codec.
//!
//! The library only counts. Reading the counters at intervals, turning them
//! into rates and sending them somewhere is the work of whoever owns them.

use vstd::prelude::*;

verus! {

/// What has happened in a codec so far. Every counter starts at zero and
/// wraps round at the end of its range.
#[derive(Debug, Clone, Copy, PartialEq, Eq, Structural)]
pub struct VarIntMetrics {
    /// Values written.
    pub encode_count: u64,
    /// Values read.
    pub decode_count: u64,
    /// Batches written.
    pub batch_operations: u64,
    /// Values answered from the table.
    pub cache_hits: u64,
    /// Values that the table did not cover.
    pub cache_misses: u64,
    /// The number of entries that the table holds.
    pub cache_size: usize,
    /// Values that could not be written.
    pub encoding_errors: u64,
    /// Values that could not be read.
    pub decoding_errors: u64,
    /// Threads that use the codec at this moment.
    pub active_threads: usize,
}

/// The counter after one more event.
pub open spec fn bump(count: u64) -> u64 {
    if count == u64::MAX {
        0
    } else {
        (count + 1) as u64
    }
}

impl VarIntMetrics {
    /// Counters that have counted nothing yet.
    pub fn new() -> (metrics: Self)
        ensures
            metrics == (VarIntMetrics {
                encode_count: 0,
                decode_count: 0,
                batch_operations: 0,
                cache_hits: 0,
                cache_misses: 0,
                cache_size: 0,
                encoding_errors: 0,
                decoding_errors: 0,
                active_threads: 0,
            }),
    {
        VarIntMetrics {
            encode_count: 0,
            decode_count: 0,
            batch_operations: 0,
            cache_hits: 0,
            cache_misses: 0,
            cache_size: 0,
            encoding_errors: 0,
            decoding_errors: 0,
            active_threads: 0,
        }
    }

    /// One more value was written.
    pub fn record_encode(&mut self)
        ensures
            *final(self) == (VarIntMetrics {
                encode_count: bump(old(self).encode_count),
                ..*old(self)
            }),
    {
        self.encode_count = self.encode_count.wrapping_add(1);
    }

    /// One more value was read.
    pub fn record_decode(&mut self)
        ensures
            *final(self) == (VarIntMetrics {
                decode_count: bump(old(self).decode_count),
                ..*old(self)
            }),
    {
        self.decode_count = self.decode_count.wrapping_add(1);
    }

    /// One more batch was written.
    pub fn record_batch(&mut self)
        ensures
            *final(self) == (VarIntMetrics {
                batch_operations: bump(old(self).batch_operations),
                ..*old(self)
            }),
    {
        self.batch_operations = self.batch_operations.wrapping_add(1);
    }

    /// One more value was answered from the table.
    pub fn record_cache_hit(&mut self)
        ensures
            *final(self) == (VarIntMetrics { cache_hits: bump(old(self).cache_hits), ..*old(self) }),
    {
        self.cache_hits = self.cache_hits.wrapping_add(1);
    }

    /// One more value was not covered by the table.
    pub fn record_cache_miss(&mut self)
        ensures
            *final(self) == (VarIntMetrics {
                cache_misses: bump(old(self).cache_misses),
                ..*old(self)
            }),
    {
        self.cache_misses = self.cache_misses.wrapping_add(1);
    }

    /// The table now holds `size` entries.
    pub fn update_cache_size(&mut self, size: usize)
        ensures
            *final(self) == (VarIntMetrics { cache_size: size, ..*old(self) }),
    {
        self.cache_size = size;
    }

    /// One more thread uses the codec.
    pub fn record_thread_start(&mut self)
        ensures
            *final(self) == (VarIntMetrics {
                active_threads: if old(self).active_threads == usize::MAX {
                    0
                } else {
                    (old(self).active_threads + 1) as usize
                },
                ..*old(self)
            }),
    {
        self.active_threads = self.active_threads.wrapping_add(1);
    }

    /// One thread fewer uses the codec.
    pub fn record_thread_end(&mut self)
        ensures
            *final(self) == (VarIntMetrics {
                active_threads: if old(self).active_threads == 0 {
                    usize::MAX
                } else {
                    (old(self).active_threads - 1) as usize
                },
                ..*old(self)
            }),
    {
        self.active_threads = self.active_threads.wrapping_sub(1);
    }

    /// One more value could not be written.
    pub fn record_encoding_error(&mut self)
        ensures
            *final(self) == (VarIntMetrics {
                encoding_errors: bump(old(self).encoding_errors),
                ..*old(self)
            }),
    {
        self.encoding_errors = self.encoding_errors.wrapping_add(1);
    }

    /// One more value could not be read.
    pub fn record_decoding_error(&mut self)
        ensures
            *final(self) == (VarIntMetrics {
                decoding_errors: bump(old(self).decoding_errors),
                ..*old(self)
            }),
    {
        self.decoding_errors = self.decoding_errors.wrapping_add(1);
    }
}

impl Default for VarIntMetrics {
    fn default() -> (metrics: Self)
        ensures
            metrics == (VarIntMetrics {
                encode_count: 0,
                decode_count: 0,
                batch_operations: 0,
                cache_hits: 0,
                cache_misses: 0,
                cache_size: 0,
                encoding_errors: 0,
                decoding_errors: 0,
                active_threads: 0,
            }),
    {
        Self::new()
    }
}

} // verus!
