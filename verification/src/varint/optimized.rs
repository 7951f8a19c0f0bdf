//! The integer codec with a table of precomputed small values.

use crate::buffer::bytes_of;
use crate::utils::config::VarIntConfig;
use crate::varint::model::{encode_batch, encode_i32, encode_string};
use crate::varint::utils::{
    encode_varint, read_i64, read_string, read_varint, write_i64, write_string,
};
use crate::varint::{VarIntEncoder, VarIntError};
use bytes::BytesMut;
use vstd::prelude::*;

verus! {

/// The number of table entries that `OptimizedVarInt::new` precomputes.
pub const DEFAULT_QUICK_LOOKUP_SIZE: usize = 256;

/// The number of values written per batch where the settings do not say.
pub const DEFAULT_BATCH_SIZE: usize = 100;

/// The number of non-negative 32-bit values: no table is longer.
pub const MAX_QUICK_LOOKUP_SIZE: usize = 0x8000_0000;

/// An integer codec that answers small non-negative values from a table built
/// once, and all others by the general algorithm. Both ways give the same
/// bytes.
pub struct OptimizedVarInt {
    config: VarIntConfig,
    quick_lookup: Vec<Vec<u8>>,
}

impl OptimizedVarInt {
    /// Every table entry is the canonical encoding of its index.
    #[verifier::type_invariant]
    spec fn table_is_canonical(&self) -> bool {
        &&& self.quick_lookup@.len() <= 0x8000_0000
        &&& forall|i: int|
            0 <= i < self.quick_lookup@.len() ==> (#[trigger] self.quick_lookup@[i])@
                == encode_i32(i as i32)
    }

    /// The number of values that the table answers: those from 0 up to, but
    /// not including, this number.
    pub closed spec fn quick_lookup_size(&self) -> nat {
        self.quick_lookup@.len()
    }

    /// The settings that the codec was built with.
    pub closed spec fn settings(&self) -> VarIntConfig {
        self.config
    }

    /// The general algorithm: appends the bytes of `value` to `buf`.
    fn init_varint(buf: &mut Vec<u8>, value: i32)
        ensures
            final(buf)@ == old(buf)@ + encode_i32(value),
    {
        let mut bytes = encode_varint(value);
        buf.append(&mut bytes);
    }

    /// A codec with a table for the values below 256.
    pub fn new(config: VarIntConfig) -> (codec: Self)
        ensures
            codec.quick_lookup_size() == DEFAULT_QUICK_LOOKUP_SIZE,
            codec.settings() == config,
    {
        Self::with_quick_lookup_size(config, DEFAULT_QUICK_LOOKUP_SIZE)
    }

    /// A codec with a table for the values below `size`. There are no more
    /// than 2^31 values that a table can answer, so a larger size gives a
    /// table of that many.
    pub fn with_quick_lookup_size(config: VarIntConfig, size: usize) -> (codec: Self)
        ensures
            codec.quick_lookup_size() == if size <= MAX_QUICK_LOOKUP_SIZE {
                size
            } else {
                MAX_QUICK_LOOKUP_SIZE
            },
            codec.settings() == config,
    {
        let size: usize = if size <= MAX_QUICK_LOOKUP_SIZE {
            size
        } else {
            MAX_QUICK_LOOKUP_SIZE
        };
        let mut quick_lookup: Vec<Vec<u8>> = Vec::new();
        let mut i: usize = 0;
        while i < size
            invariant
                i <= size <= 0x8000_0000,
                quick_lookup@.len() == i,
                forall|j: int|
                    0 <= j < i ==> (#[trigger] quick_lookup@[j])@ == encode_i32(j as i32),
            decreases size - i,
        {
            let mut entry: Vec<u8> = Vec::new();
            Self::init_varint(&mut entry, i as i32);
            quick_lookup.push(entry);
            i += 1;
        }
        OptimizedVarInt { config, quick_lookup }
    }

    /// A codec for the extended settings: its table covers as many values as
    /// they ask for, its cache is as large as they say, and its batches have
    /// the default size.
    pub fn with_settings(settings: &crate::utils::varint::VarIntConfig) -> (codec: Self)
        ensures
            codec.quick_lookup_size() == if settings.quick_lookup_size <= MAX_QUICK_LOOKUP_SIZE {
                settings.quick_lookup_size
            } else {
                MAX_QUICK_LOOKUP_SIZE
            },
            codec.settings() == (VarIntConfig {
                cache_size: settings.cache_size,
                batch_size: DEFAULT_BATCH_SIZE,
            }),
    {
        Self::with_quick_lookup_size(
            VarIntConfig { cache_size: settings.cache_size, batch_size: DEFAULT_BATCH_SIZE },
            settings.quick_lookup_size,
        )
    }

    /// The settings that the codec was built with.
    pub fn config(&self) -> (config: &VarIntConfig)
        ensures
            *config == self.settings(),
    {
        &self.config
    }

    /// The table's answer for `value`: its canonical bytes where the table
    /// covers it, nothing where it does not.
    pub fn quick_lookup(&self, value: i32) -> (entry: Option<&[u8]>)
        ensures
            if 0 <= value < self.quick_lookup_size() {
                entry matches Some(bytes) && bytes@ == encode_i32(value)
            } else {
                entry is None
            },
    {
        proof {
            use_type_invariant(self);
        }
        if value >= 0 && (value as usize) < self.quick_lookup.len() {
            Some(self.quick_lookup[value as usize].as_slice())
        } else {
            None
        }
    }
}

impl VarIntEncoder for OptimizedVarInt {
    fn write_varint(&self, buf: &mut BytesMut, value: i32) -> (done: Result<(), VarIntError>) {
        match self.quick_lookup(value) {
            Some(bytes) => {
                buf.extend_from_slice(bytes);
            },
            None => {
                let bytes = encode_varint(value);
                buf.extend_from_slice(bytes.as_slice());
            },
        }
        Ok(())
    }

    fn read_varint(&self, buf: &mut BytesMut) -> (value: Result<Option<i32>, VarIntError>) {
        read_varint(buf)
    }

    fn write_varint_batch(&self, values: &[i32], buf: &mut BytesMut) -> (done: Result<
        (),
        VarIntError,
    >) {
        let mut i: usize = 0;
        while i < values.len()
            invariant
                i <= values@.len(),
                bytes_of(*buf) == bytes_of(*old(buf)) + encode_batch(values@.take(i as int)),
            decreases values@.len() - i,
        {
            let _ = self.write_varint(buf, values[i]);
            proof {
                let next = values@.take(i + 1);
                assert(next.drop_last() =~= values@.take(i as int));
                assert(bytes_of(*buf) =~= bytes_of(*old(buf)) + encode_batch(next));
            }
            i += 1;
        }
        proof {
            assert(values@.take(i as int) =~= values@);
        }
        Ok(())
    }

    fn write_i64(&self, buf: &mut BytesMut, value: i64) -> (done: Result<(), VarIntError>) {
        write_i64(buf, value)
    }

    fn read_i64(&self, buf: &mut BytesMut) -> (value: Result<Option<i64>, VarIntError>) {
        read_i64(buf)
    }

    fn write_string(&self, buf: &mut BytesMut, value: &str) -> (done: Result<(), VarIntError>) {
        let body = value.as_bytes();
        if body.len() > i32::MAX as usize {
            return Err(VarIntError::ValueTooLarge);
        }
        let _ = self.write_varint(buf, body.len() as i32);
        buf.extend_from_slice(body);
        proof {
            assert(bytes_of(*buf) =~= bytes_of(*old(buf)) + encode_string(value@));
        }
        Ok(())
    }

    fn read_string(&self, buf: &mut BytesMut) -> (value: Result<Option<String>, VarIntError>) {
        read_string(buf)
    }
}

} // verus!
