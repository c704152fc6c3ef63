//! A lean memory pool: every request is rounded up to the pool's alignment and
//! served at the current offset; a reset frees everything at once.
use vstd::prelude::*;
use crate::forge::pool::{
    align_up, invalid_layout_message, is_pow2, is_power_of_two, layout_fits, lemma_align_up,
    law_align_up_closed_form, pool_alignment, round_up, written, PoolError,
};
use crate::text::{concat, decimal_seq, owned, with_decimal};

verus! {

/// The branch hint of the fast path: the condition itself.
fn likely(b: bool) -> (r: bool)
    ensures
        r == b,
{
    b
}

/// A memory pool that serves each request at its current offset, rounded up
/// to the pool's alignment, and counts allocations only when asked to.
#[derive(Debug)]
pub struct OptimizedPool {
    buffer: Vec<u8>,
    total_size: usize,
    current_offset: usize,
    base_alignment: usize,
    stats_enabled: bool,
    alloc_count: u32,
}

impl OptimizedPool {
    /// The size of the pool in bytes.
    pub closed spec fn total_spec(&self) -> usize {
        self.total_size
    }

    /// The current offset: everything below it is allocated.
    pub closed spec fn current_spec(&self) -> usize {
        self.current_offset
    }

    /// The alignment every request is rounded up to.
    pub closed spec fn alignment_spec(&self) -> usize {
        self.base_alignment
    }

    /// Whether allocations are counted.
    pub closed spec fn counting_spec(&self) -> bool {
        self.stats_enabled
    }

    /// The allocations counted since the last reset.
    pub closed spec fn count_spec(&self) -> u32 {
        self.alloc_count
    }

    /// The bytes of the pool's buffer.
    pub closed spec fn contents(&self) -> Seq<u8> {
        self.buffer@
    }

    /// The number of bytes in the pool's buffer.
    pub open spec fn buffer_len(&self) -> nat {
        self.contents().len()
    }

    /// The current offset lies within the pool; it and the pool's size are
    /// multiples of the alignment, a power of two of at least 8, with a valid
    /// layout; nothing is counted unless counting is on; the buffer holds
    /// exactly the pool's size in bytes.
    pub open spec fn wf(&self) -> bool {
        &&& self.current_spec() <= self.total_spec()
        &&& self.buffer_len() == self.total_spec()
        &&& self.current_spec() % self.alignment_spec() == 0
        &&& self.total_spec() % self.alignment_spec() == 0
        &&& is_pow2(self.alignment_spec() as int)
        &&& self.alignment_spec() >= 8
        &&& layout_fits(self.total_spec() as int, self.alignment_spec() as int)
        &&& !self.counting_spec() ==> self.count_spec() == 0
    }

    /// A pool of at least `size` bytes, 8-byte aligned, without counting.
    pub fn new_fast(size: usize) -> (r: Result<Self, PoolError>)
        requires
            align_up(size as int, 8) <= usize::MAX,
        ensures
            optimized_creation(size, 8, false, r),
    {
        Self::new_with_options(size, 8, false)
    }

    /// A pool of `size` bytes rounded up to its alignment, which is
    /// `alignment` but at least 8; allocations are counted when `enable_stats`.
    pub fn new_with_options(size: usize, alignment: usize, enable_stats: bool) -> (r: Result<
        Self,
        PoolError,
    >)
        requires
            is_pow2(alignment as int) ==> align_up(size as int, pool_alignment(alignment) as int)
                <= usize::MAX,
        ensures
            optimized_creation(size, alignment, enable_stats, r),
    {
        if !is_power_of_two(alignment) {
            return Err(PoolError::InvalidAlignment { alignment });
        }
        let base_alignment = if alignment < 8 {
            8
        } else {
            alignment
        };
        proof {
            reveal_with_fuel(is_pow2, 4);
            lemma_align_up(size as int, base_alignment as int);
        }
        let aligned_size = round_up(size, base_alignment);
        if base_alignment - 1 > isize::MAX as usize || aligned_size > (isize::MAX as usize) - (
        base_alignment - 1) {
            return Err(
                PoolError::AllocationFailed(
                    owned("Invalid layout: invalid parameters to Layout::from_size_align"),
                ),
            );
        }
        let mut buffer: Vec<u8> = Vec::new();
        if buffer.try_reserve(aligned_size).is_err() {
            let m = with_decimal(owned("Failed to allocate "), aligned_size as u64);
            return Err(PoolError::AllocationFailed(concat(m, " bytes")));
        }
        buffer.resize(aligned_size, 0u8);
        Ok(
            OptimizedPool {
                buffer,
                total_size: aligned_size,
                current_offset: 0,
                base_alignment,
                stats_enabled: enable_stats,
                alloc_count: 0,
            },
        )
    }

    /// Serves `size` bytes, rounded up to the pool's alignment, at the current
    /// offset, which it returns.
    pub fn allocate_fast(&mut self, size: usize) -> (r: Result<usize, PoolError>)
        requires
            old(self).wf(),
            fast_allocation_defined(*old(self), size),
        ensures
            fast_allocation_outcome(*old(self), *final(self), size, r),
    {
        proof {
            lemma_align_up(size as int, self.base_alignment as int);
        }
        let aligned_size = round_up(size, self.base_alignment);
        let new_offset = self.current_offset + aligned_size;
        if likely(new_offset <= self.total_size) {
            let offset = self.current_offset;
            self.current_offset = new_offset;
            if self.stats_enabled {
                self.alloc_count = self.alloc_count + 1;
            }
            proof {
                vstd::arithmetic::div_mod::lemma_mod_adds(
                    offset as int,
                    aligned_size as int,
                    self.base_alignment as int,
                );
            }
            Ok(offset)
        } else {
            Err(
                PoolError::PoolExhausted {
                    requested: aligned_size,
                    available: self.total_size - self.current_offset,
                },
            )
        }
    }

    /// The `len` bytes at `offset`, which lie within what is allocated.
    pub fn bytes(&self, offset: usize, len: usize) -> (r: &[u8])
        requires
            self.wf(),
            offset + len <= self.current_spec(),
        ensures
            r@ == self.contents().subrange(offset as int, offset + len),
    {
        vstd::slice::slice_subrange(self.buffer.as_slice(), offset, offset + len)
    }

    /// Writes `data` at `offset`, within what is allocated; the rest of the
    /// pool is unchanged.
    pub fn write_bytes(&mut self, offset: usize, data: &[u8])
        requires
            old(self).wf(),
            offset + data@.len() <= old(self).current_spec(),
        ensures
            final(self).wf(),
            final(self).contents() == written(old(self).contents(), offset as int, data@),
            final(self).current_spec() == old(self).current_spec(),
            final(self).total_spec() == old(self).total_spec(),
            final(self).alignment_spec() == old(self).alignment_spec(),
            final(self).counting_spec() == old(self).counting_spec(),
            final(self).count_spec() == old(self).count_spec(),
    {
        let ghost before = self.buffer@;
        let ghost s0 = *self;
        let mut i: usize = 0;
        while i < data.len()
            invariant
                self.current_offset == s0.current_offset,
                self.total_size == s0.total_size,
                self.base_alignment == s0.base_alignment,
                self.stats_enabled == s0.stats_enabled,
                self.alloc_count == s0.alloc_count,
                0 <= i <= data@.len(),
                offset + data@.len() <= self.current_offset <= self.total_size,
                self.buffer@.len() == before.len(),
                before.len() == self.total_size,
                forall|k: int|
                    0 <= k < before.len() ==> #[trigger] self.buffer@[k] == if offset <= k
                        < offset + i {
                        data@[k - offset]
                    } else {
                        before[k]
                    },
            decreases data@.len() - i,
        {
            self.buffer.set(offset + i, data[i]);
            i = i + 1;
        }
        assert(self.buffer@ =~= written(before, offset as int, data@));
    }

    /// Frees every allocation and, when counting, sets the count back to zero.
    pub fn reset_fast(&mut self)
        requires
            old(self).wf(),
        ensures
            final(self).wf(),
            final(self).current_spec() == 0,
            final(self).count_spec() == 0,
            final(self).total_spec() == old(self).total_spec(),
            final(self).alignment_spec() == old(self).alignment_spec(),
            final(self).counting_spec() == old(self).counting_spec(),
            final(self).contents() == old(self).contents(),
    {
        proof {
            vstd::arithmetic::div_mod::lemma_small_mod(0, self.base_alignment as nat);
        }
        self.current_offset = 0;
        if self.stats_enabled {
            self.alloc_count = 0;
        }
    }

    /// The allocations counted since the last reset; 0 when not counting.
    pub fn allocation_count(&self) -> (r: u32)
        ensures
            r == if self.counting_spec() {
                self.count_spec()
            } else {
                0
            },
    {
        if self.stats_enabled {
            self.alloc_count
        } else {
            0
        }
    }

    /// The bytes in use.
    pub fn current_usage(&self) -> (r: usize)
        ensures
            r == self.current_spec(),
    {
        self.current_offset
    }

    /// The bytes left.
    pub fn remaining_capacity(&self) -> (r: usize)
        requires
            self.wf(),
        ensures
            r == self.total_spec() - self.current_spec(),
    {
        self.total_size - self.current_offset
    }

    /// The size of the pool in bytes.
    pub fn total_size(&self) -> (r: usize)
        ensures
            r == self.total_spec(),
    {
        self.total_size
    }

    /// Whether allocations are counted.
    pub fn stats_enabled(&self) -> (r: bool)
        ensures
            r == self.counting_spec(),
    {
        self.stats_enabled
    }
}

/// What creating a lean pool gives: a refused alignment; a refused layout; the
/// empty pool of `size` rounded up to its alignment (`alignment`, at least 8);
/// or, when the memory cannot be had, a refusal saying so.
pub open spec fn optimized_creation(
    size: usize,
    alignment: usize,
    enable_stats: bool,
    r: Result<OptimizedPool, PoolError>,
) -> bool {
    let a = pool_alignment(alignment);
    let t = align_up(size as int, a as int);
    if !is_pow2(alignment as int) {
        r matches Err(PoolError::InvalidAlignment { alignment: x }) && x == alignment
    } else if !layout_fits(t, a as int) {
        r matches Err(PoolError::AllocationFailed(m)) && m@ == invalid_layout_message()
    } else {
        match r {
            Ok(p) => {
                &&& p.wf()
                &&& p.total_spec() == t
                &&& p.buffer_len() == t
                &&& p.current_spec() == 0
                &&& p.alignment_spec() == a
                &&& p.counting_spec() == enable_stats
                &&& p.count_spec() == 0
            },
            Err(e) => e matches PoolError::AllocationFailed(m) && m@ == "Failed to allocate "@
                + decimal_seq(t as nat) + " bytes"@,
        }
    }
}

/// A created lean pool holds the requested size rounded up to a multiple of
/// its alignment (at least 8), with nothing allocated and counting as asked;
/// a non-power-of-two alignment is refused.
pub proof fn law_fast_pool_size_rounded(
    size: usize,
    alignment: usize,
    enable_stats: bool,
    r: Result<OptimizedPool, PoolError>,
)
    requires
        optimized_creation(size, alignment, enable_stats, r),
    ensures
        !is_pow2(alignment as int) ==> (r matches Err(PoolError::InvalidAlignment { alignment: x })
            && x == alignment),
        r matches Ok(p) ==> p.total_spec() == (size + pool_alignment(alignment) - 1) / (
        pool_alignment(alignment) as int) * pool_alignment(alignment) && p.current_spec() == 0
            && p.count_spec() == 0 && p.counting_spec() == enable_stats,
{
    law_align_up_closed_form(size as int, pool_alignment(alignment) as int);
}

/// Whether `allocate_fast(size)` is defined: the rounded request and its end
/// stay within `usize`, and a counted allocation has room in the counter.
pub open spec fn fast_allocation_defined(p: OptimizedPool, size: usize) -> bool {
    let n = align_up(size as int, p.alignment_spec() as int);
    &&& p.current_spec() + n <= usize::MAX
    &&& p.counting_spec() ==> p.count_spec() < u32::MAX
}

/// What `allocate_fast(size)` does: with `n` the request rounded up to the
/// pool's alignment, refuses a request that does not fit, naming `n` and the
/// bytes left, and leaves the pool unchanged; otherwise returns the current
/// offset, moves it forward by `n`, and counts the allocation when counting.
pub open spec fn fast_allocation_outcome(
    before: OptimizedPool,
    after: OptimizedPool,
    size: usize,
    r: Result<usize, PoolError>,
) -> bool {
    let n = align_up(size as int, before.alignment_spec() as int);
    &&& after.wf()
    &&& after.total_spec() == before.total_spec()
    &&& after.alignment_spec() == before.alignment_spec()
    &&& after.counting_spec() == before.counting_spec()
    &&& if before.current_spec() + n > before.total_spec() {
        &&& r matches Err(PoolError::PoolExhausted { requested, available }) && requested == n
            && available == before.total_spec() - before.current_spec()
        &&& after == before
    } else {
        &&& r == Ok::<usize, PoolError>(before.current_spec())
        &&& after.current_spec() == before.current_spec() + n
        &&& after.contents() == before.contents()
        &&& after.count_spec() == if before.counting_spec() {
            before.count_spec() + 1
        } else {
            0
        }
    }
}

/// Settings from which lean pools are created.
#[derive(Debug, Clone)]
pub struct FastPoolConfig {
    pub pool_size: usize,
    pub alignment: usize,
    pub enable_stats: bool,
}

impl FastPoolConfig {
    /// 8 MiB, 8-byte alignment, no counting.
    pub fn fastest() -> (r: Self)
        ensures
            r.pool_size == 8 * 1024 * 1024,
            r.alignment == 8,
            !r.enable_stats,
    {
        FastPoolConfig { pool_size: 8 * 1024 * 1024, alignment: 8, enable_stats: false }
    }

    /// 8 MiB, 8-byte alignment, with counting.
    pub fn fast_with_stats() -> (r: Self)
        ensures
            r.pool_size == 8 * 1024 * 1024,
            r.alignment == 8,
            r.enable_stats,
    {
        FastPoolConfig { pool_size: 8 * 1024 * 1024, alignment: 8, enable_stats: true }
    }

    /// 1 MiB aligned to the vector width, no counting.
    pub fn simd_optimized(vector_width: usize) -> (r: Self)
        ensures
            r.pool_size == 1024 * 1024,
            r.alignment == vector_width,
            !r.enable_stats,
    {
        FastPoolConfig { pool_size: 1024 * 1024, alignment: vector_width, enable_stats: false }
    }

    /// 256 KiB aligned to a 64-byte cache line, with counting.
    pub fn cache_optimized() -> (r: Self)
        ensures
            r.pool_size == 256 * 1024,
            r.alignment == 64,
            r.enable_stats,
    {
        FastPoolConfig { pool_size: 256 * 1024, alignment: 64, enable_stats: true }
    }

    /// A lean pool with these settings.
    pub fn create_pool(&self) -> (r: Result<OptimizedPool, PoolError>)
        requires
            is_pow2(self.alignment as int) ==> align_up(
                self.pool_size as int,
                pool_alignment(self.alignment) as int,
            ) <= usize::MAX,
        ensures
            optimized_creation(self.pool_size, self.alignment, self.enable_stats, r),
    {
        OptimizedPool::new_with_options(self.pool_size, self.alignment, self.enable_stats)
    }
}

/// Successive lean allocations do not overlap, and each starts at a multiple
/// of the pool's alignment.
pub proof fn law_fast_allocations_disjoint(
    p0: OptimizedPool,
    p1: OptimizedPool,
    p2: OptimizedPool,
    s1: usize,
    s2: usize,
    o1: usize,
    o2: usize,
)
    requires
        p0.wf(),
        fast_allocation_outcome(p0, p1, s1, Ok(o1)),
        fast_allocation_outcome(p1, p2, s2, Ok(o2)),
    ensures
        o1 + s1 <= o2,
        o2 + s2 <= p2.total_spec(),
        o1 % p0.alignment_spec() == 0,
        o2 % p0.alignment_spec() == 0,
{
    lemma_align_up(s1 as int, p0.alignment_spec() as int);
    lemma_align_up(s2 as int, p0.alignment_spec() as int);
}

} // verus!
