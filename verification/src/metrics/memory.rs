//! Memory and swap.

use crate::model::MemoryInfo;
use vstd::prelude::*;

verus! {

/// What one poll reads of memory and swap, in bytes.
#[derive(Debug, Clone, Copy, PartialEq, Eq, Structural)]
pub struct MemoryReading {
    pub total: u64,
    pub used: u64,
    pub available: u64,
    pub free: u64,
    pub swap_total: u64,
    pub swap_used: u64,
    pub swap_free: u64,
}

/// The estimate of the buffers: a twentieth of the memory in use.
pub open spec fn estimated_buffers(reading: MemoryReading) -> u64 {
    reading.used / 20
}

/// The estimate of the cache: what is available beyond what is free.
pub open spec fn estimated_cache(reading: MemoryReading) -> u64 {
    if reading.available > reading.free {
        (reading.available - reading.free) as u64
    } else {
        0
    }
}

/// The memory of a snapshot that the reading gives; buffers and cache are
/// estimated where `estimate` is set, and zero elsewhere.
pub open spec fn memory_info(reading: MemoryReading, estimate: bool) -> MemoryInfo {
    MemoryInfo {
        total: reading.total,
        used: reading.used,
        available: reading.available,
        free: reading.free,
        buffers: if estimate {
            estimated_buffers(reading)
        } else {
            0
        },
        cached: if estimate {
            estimated_cache(reading)
        } else {
            0
        },
        swap_total: reading.swap_total,
        swap_used: reading.swap_used,
        swap_free: reading.swap_free,
    }
}

/// Turns the memory reading into the memory of a snapshot.
pub struct MemoryCollector {
    /// Whether buffers and cache are estimated, as on Linux.
    pub estimate_cache: bool,
}

impl MemoryCollector {
    /// A collector that estimates buffers and cache where `estimate_cache` is set.
    pub fn new(estimate_cache: bool) -> (r: Self)
        ensures
            r.estimate_cache == estimate_cache,
    {
        MemoryCollector { estimate_cache }
    }

    /// The memory of the snapshot of one poll.
    pub fn collect(&mut self, reading: &MemoryReading) -> (r: MemoryInfo)
        ensures
            r == memory_info(*reading, old(self).estimate_cache),
            final(self).estimate_cache == old(self).estimate_cache,
    {
        let (buffers, cached) = self.get_buffer_cached_memory(reading);
        MemoryInfo {
            total: reading.total,
            used: reading.used,
            available: reading.available,
            free: reading.free,
            buffers,
            cached,
            swap_total: reading.swap_total,
            swap_used: reading.swap_used,
            swap_free: reading.swap_free,
        }
    }

    /// Buffers and cache, estimated or zero.
    fn get_buffer_cached_memory(&self, reading: &MemoryReading) -> (r: (u64, u64))
        ensures
            r.0 == memory_info(*reading, self.estimate_cache).buffers,
            r.1 == memory_info(*reading, self.estimate_cache).cached,
    {
        if self.estimate_cache {
            let cached = if reading.available > reading.free {
                reading.available - reading.free
            } else {
                0
            };
            let buffers = reading.used / 20;
            (buffers, cached)
        } else {
            (0, 0)
        }
    }
}

} // verus!
