//! Memory pools with stack-like allocation: a general pool with statistics, a
//! lean pool for speed, and the configurations that create them.
use vstd::prelude::*;
use crate::forge::pool::{creation_outcome, MemoryPool, PoolError};

pub mod stats;
pub mod pool;
pub mod optimized_pool;


verus! {

/// Settings of the pools a component creates.
#[derive(Debug, Clone)]
pub struct ForgeConfig {
    /// Default memory pool size in bytes
    pub default_pool_size: usize,
    /// Default alignment for allocations
    pub default_alignment: usize,
    /// Enable performance statistics collection
    pub enable_stats: bool,
}

impl Default for ForgeConfig {
    /// 1 MiB pools, 8-byte alignment, with statistics.
    fn default() -> (r: Self)
        ensures
            r.default_pool_size == 1024 * 1024,
            r.default_alignment == 8,
            r.enable_stats,
    {
        ForgeConfig { default_pool_size: 1024 * 1024, default_alignment: 8, enable_stats: true }
    }
}

impl ForgeConfig {
    /// 64 KiB pools, 8-byte alignment, with statistics.
    pub fn optimized_for_small_allocations() -> (r: Self)
        ensures
            r.default_pool_size == 64 * 1024,
            r.default_alignment == 8,
            r.enable_stats,
    {
        ForgeConfig { default_pool_size: 64 * 1024, default_alignment: 8, enable_stats: true }
    }

    /// 16 MiB pools aligned to a 64-byte cache line, with statistics.
    pub fn optimized_for_large_data() -> (r: Self)
        ensures
            r.default_pool_size == 16 * 1024 * 1024,
            r.default_alignment == 64,
            r.enable_stats,
    {
        ForgeConfig {
            default_pool_size: 16 * 1024 * 1024,
            default_alignment: 64,
            enable_stats: true,
        }
    }

    /// A memory pool of the default size and alignment.
    pub fn create_pool(&self) -> (r: Result<MemoryPool, PoolError>)
        requires
            self.default_pool_size <= usize::MAX - 4095,
        ensures
            creation_outcome(self.default_pool_size, self.default_alignment, r),
    {
        MemoryPool::new_with_alignment(self.default_pool_size, self.default_alignment)
    }
}

} // verus!
