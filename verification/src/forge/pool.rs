//! A memory pool with stack-like semantics: allocation moves an offset
//! forward, a reset moves it back to a checkpoint.
use vstd::prelude::*;
use crate::forge::stats::PoolStats;
use crate::text::{concat, decimal_seq, owned, with_decimal};

verus! {

/// Errors of memory pool operations.
#[derive(Debug, Clone)]
pub enum PoolError {
    /// The request does not fit in the space left.
    PoolExhausted { requested: usize, available: usize },
    /// The alignment is not a power of two.
    InvalidAlignment { alignment: usize },
    /// The offset lies beyond the pool or its current allocations.
    InvalidOffset { offset: usize, pool_size: usize },
    /// The backing memory could not be had.
    AllocationFailed(String),
}

impl PoolError {
    /// The message that describes the error.
    pub fn to_display_string(&self) -> (r: String)
        ensures
            match self {
                PoolError::PoolExhausted { requested, available } => r@ == "Pool exhausted: requested "@
                    + decimal_seq(*requested as nat) + " bytes, available "@ + decimal_seq(
                    *available as nat,
                ) + " bytes"@,
                PoolError::InvalidAlignment { alignment } => r@ == "Invalid alignment: "@
                    + decimal_seq(*alignment as nat) + " is not a power of 2"@,
                PoolError::InvalidOffset { offset, pool_size } => r@ == "Invalid offset: "@
                    + decimal_seq(*offset as nat) + " is beyond pool size "@ + decimal_seq(
                    *pool_size as nat,
                ),
                PoolError::AllocationFailed(m) => r@ == "Allocation failed: "@ + m@,
            },
    {
        match self {
            PoolError::PoolExhausted { requested, available } => {
                let a = with_decimal(owned("Pool exhausted: requested "), *requested as u64);
                let b = with_decimal(concat(a, " bytes, available "), *available as u64);
                concat(b, " bytes")
            },
            PoolError::InvalidAlignment { alignment } => {
                let a = with_decimal(owned("Invalid alignment: "), *alignment as u64);
                concat(a, " is not a power of 2")
            },
            PoolError::InvalidOffset { offset, pool_size } => {
                let a = with_decimal(owned("Invalid offset: "), *offset as u64);
                with_decimal(concat(a, " is beyond pool size "), *pool_size as u64)
            },
            PoolError::AllocationFailed(m) => concat(owned("Allocation failed: "), m.as_str()),
        }
    }
}

/// Whether `n` is a power of two.
pub open spec fn is_pow2(n: int) -> bool
    decreases n,
{
    if n <= 0 {
        false
    } else if n == 1 {
        true
    } else {
        n % 2 == 0 && is_pow2(n / 2)
    }
}

/// Whether `n` is a power of two (as `usize::is_power_of_two` decides).
pub fn is_power_of_two(n: usize) -> (r: bool)
    ensures
        r == is_pow2(n as int),
{
    if n == 0 {
        return false;
    }
    let mut m = n;
    while m > 1 && m % 2 == 0
        invariant
            m >= 1,
            is_pow2(n as int) == is_pow2(m as int),
        decreases m,
    {
        m = m / 2;
    }
    m == 1
}

/// `offset` rounded up to a multiple of `align`.
pub open spec fn align_up(offset: int, align: int) -> int {
    if offset % align == 0 {
        offset
    } else {
        offset + (align - offset % align)
    }
}

/// Rounding up gives a multiple of `align` less than `align` above `offset`.
pub proof fn lemma_align_up(offset: int, align: int)
    requires
        offset >= 0,
        align > 0,
    ensures
        align_up(offset, align) % align == 0,
        offset <= align_up(offset, align) < offset + align,
{
    let q = offset / align;
    let rem = offset % align;
    vstd::arithmetic::div_mod::lemma_fundamental_div_mod(offset, align);
    if rem != 0 {
        assert(offset + (align - rem) == (q + 1) * align) by (nonlinear_arith)
            requires
                offset == align * q + rem,
        ;
        vstd::arithmetic::div_mod::lemma_mod_multiples_basic(q + 1, align);
    }
}

/// `offset` rounded up to a multiple of `align`, which is positive.
pub fn round_up(offset: usize, align: usize) -> (r: usize)
    requires
        align > 0,
        align_up(offset as int, align as int) <= usize::MAX,
    ensures
        r == align_up(offset as int, align as int),
        r % align == 0,
        offset <= r < offset + align,
{
    proof {
        lemma_align_up(offset as int, align as int);
    }
    let rem = offset % align;
    if rem == 0 {
        offset
    } else {
        offset + (align - rem)
    }
}

/// Rounding `offset` up to a multiple of `align` gives
/// `(offset + align - 1) / align * align`.
pub proof fn law_align_up_closed_form(offset: int, align: int)
    requires
        offset >= 0,
        align > 0,
    ensures
        align_up(offset, align) == (offset + align - 1) / align * align,
{
    lemma_align_up(offset, align);
    let m = align_up(offset, align);
    let q = (offset + align - 1) / align;
    let r = (offset + align - 1) % align;
    vstd::arithmetic::div_mod::lemma_fundamental_div_mod(offset + align - 1, align);
    vstd::arithmetic::div_mod::lemma_fundamental_div_mod(m, align);
    let p = m / align;
    assert(p == q) by (nonlinear_arith)
        requires
            m == align * p,
            offset + align - 1 == align * q + r,
            0 <= r < align,
            offset <= m < offset + align,
            align > 0,
    ;
    assert(m == q * align) by (nonlinear_arith)
        requires
            m == align * p,
            p == q,
    ;
}

/// The alignment a pool uses when `alignment` is asked for: at least 8.
pub open spec fn pool_alignment(alignment: usize) -> usize {
    if alignment < 8 {
        8
    } else {
        alignment
    }
}

/// Whether a buffer of `size` bytes aligned to `align` has a valid layout:
/// rounded up to `align`, its size does not pass `isize::MAX`.
pub open spec fn layout_fits(size: int, align: int) -> bool {
    size <= isize::MAX - (align - 1)
}

/// The message of an invalid buffer layout.
pub open spec fn invalid_layout_message() -> Seq<char> {
    "Invalid layout: invalid parameters to Layout::from_size_align"@
}

/// The message of a failed buffer allocation.
pub open spec fn allocation_failed_message(size: nat) -> Seq<char> {
    "Failed to allocate "@ + decimal_seq(size) + " bytes"@
}

/// A memory pool with stack-like allocation: it hands out offsets into a
/// buffer of `total_size` bytes, moving its current offset forward, and a
/// reset moves the offset back.
#[derive(Debug)]
pub struct MemoryPool {
    buffer: Vec<u8>,
    total_size: usize,
    current_offset: usize,
    high_water_mark: usize,
    alignment: usize,
    stats: PoolStats,
}

impl MemoryPool {
    /// The size of the pool in bytes.
    pub closed spec fn total_spec(&self) -> usize {
        self.total_size
    }

    /// The current offset: everything below it is allocated.
    pub closed spec fn current_spec(&self) -> usize {
        self.current_offset
    }

    /// The bytes left above the current offset.
    pub open spec fn available_spec(&self) -> int {
        self.total_spec() - self.current_spec()
    }

    /// The largest offset an allocation has reached.
    pub closed spec fn high_water_spec(&self) -> usize {
        self.high_water_mark
    }

    /// The alignment of the pool's buffer.
    pub closed spec fn alignment_spec(&self) -> usize {
        self.alignment
    }

    /// The pool's statistics.
    pub closed spec fn stats_spec(&self) -> PoolStats {
        self.stats
    }

    /// The bytes of the pool's buffer.
    pub closed spec fn contents(&self) -> Seq<u8> {
        self.buffer@
    }

    /// The number of bytes in the pool's buffer.
    pub open spec fn buffer_len(&self) -> nat {
        self.contents().len()
    }

    /// The current offset lies within the high water mark, which lies within
    /// the pool; the pool is a whole number of 4 KiB pages with a valid
    /// layout; its alignment is a power of two, at least 8; its buffer holds
    /// exactly its size in bytes.
    pub open spec fn wf(&self) -> bool {
        &&& self.current_spec() <= self.high_water_spec() <= self.total_spec()
        &&& self.buffer_len() == self.total_spec()
        &&& self.total_spec() % 4096 == 0
        &&& layout_fits(self.total_spec() as int, self.alignment_spec() as int)
        &&& is_pow2(self.alignment_spec() as int)
        &&& self.alignment_spec() >= 8
    }

    /// A pool of at least `size` bytes with 8-byte alignment.
    pub fn new(size: usize) -> (r: Result<Self, PoolError>)
        requires
            size <= usize::MAX - 4095,
        ensures
            creation_outcome(size, 8, r),
    {
        Self::new_with_alignment(size, 8)
    }

    /// A pool of `size` bytes rounded up to whole 4 KiB pages, whose buffer is
    /// aligned to `alignment` (at least 8).
    pub fn new_with_alignment(size: usize, alignment: usize) -> (r: Result<Self, PoolError>)
        requires
            size <= usize::MAX - 4095,
        ensures
            creation_outcome(size, alignment, r),
    {
        if !is_power_of_two(alignment) {
            return Err(PoolError::InvalidAlignment { alignment });
        }
        let alignment = if alignment < 8 {
            8
        } else {
            alignment
        };
        proof {
            lemma_align_up(size as int, 4096);
            reveal_with_fuel(is_pow2, 4);
        }
        let aligned_size = round_up(size, 4096);
        if alignment - 1 > isize::MAX as usize || aligned_size > (isize::MAX as usize) - (
        alignment - 1) {
            return Err(
                PoolError::AllocationFailed(
                    owned("Invalid layout: invalid parameters to Layout::from_size_align"),
                ),
            );
        }
        let mut buffer: Vec<u8> = Vec::new();
        if buffer.try_reserve(aligned_size).is_err() {
            let m = with_decimal(owned("Failed to allocate "), aligned_size as u64);
            return Err(PoolError::AllocationFailed(concat(m, " bytes")));
        }
        buffer.resize(aligned_size, 0u8);
        Ok(
            MemoryPool {
                buffer,
                total_size: aligned_size,
                current_offset: 0,
                high_water_mark: 0,
                alignment,
                stats: PoolStats::new(),
            },
        )
    }

    /// Allocates `size` bytes aligned to `align` and returns their offset: the
    /// current offset rounded up to `align`.
    pub fn allocate(&mut self, size: usize, align: usize) -> (r: Result<usize, PoolError>)
        requires
            old(self).wf(),
            old(self).stats_spec().can_record(size, align),
        ensures
            allocation_outcome(*old(self), *final(self), size, align, r),
    {
        if !is_power_of_two(align) {
            return Err(PoolError::InvalidAlignment { alignment: align });
        }
        let rem = self.current_offset % align;
        let rounded = if rem == 0 {
            Some(self.current_offset)
        } else {
            self.current_offset.checked_add(align - rem)
        };
        let aligned_offset = match rounded {
            Some(o) => o,
            None => {
                return Err(PoolError::PoolExhausted { requested: size, available: 0 });
            },
        };
        if aligned_offset > self.total_size {
            return Err(PoolError::PoolExhausted { requested: size, available: 0 });
        }
        if size > self.total_size - aligned_offset {
            return Err(
                PoolError::PoolExhausted {
                    requested: size,
                    available: self.total_size - aligned_offset,
                },
            );
        }
        proof {
            lemma_align_up(self.current_offset as int, align as int);
        }
        let end_offset = aligned_offset + size;
        self.current_offset = end_offset;
        if end_offset > self.high_water_mark {
            self.high_water_mark = end_offset;
        }
        self.stats.record_allocation(size, align);
        Ok(aligned_offset)
    }

    /// The `len` bytes at `offset`, which lie within what is allocated.
    pub fn bytes(&self, offset: usize, len: usize) -> (r: &[u8])
        requires
            self.wf(),
            offset + len <= self.current_spec(),
        ensures
            r@ == self.contents().subrange(offset as int, offset + len),
    {
        vstd::slice::slice_subrange(self.buffer.as_slice(), offset, offset + len)
    }

    /// Writes `data` at `offset`, within what is allocated; the rest of the
    /// pool is unchanged.
    pub fn write_bytes(&mut self, offset: usize, data: &[u8])
        requires
            old(self).wf(),
            offset + data@.len() <= old(self).current_spec(),
        ensures
            final(self).wf(),
            final(self).contents() == written(old(self).contents(), offset as int, data@),
            final(self).current_spec() == old(self).current_spec(),
            final(self).total_spec() == old(self).total_spec(),
            final(self).high_water_spec() == old(self).high_water_spec(),
            final(self).alignment_spec() == old(self).alignment_spec(),
            final(self).stats_spec() == old(self).stats_spec(),
    {
        let ghost before = self.buffer@;
        let ghost s0 = *self;
        let mut i: usize = 0;
        while i < data.len()
            invariant
                self.current_offset == s0.current_offset,
                self.total_size == s0.total_size,
                self.high_water_mark == s0.high_water_mark,
                self.alignment == s0.alignment,
                self.stats == s0.stats,
                0 <= i <= data@.len(),
                offset + data@.len() <= self.current_offset <= self.high_water_mark
                    <= self.total_size,
                self.buffer@.len() == before.len(),
                before.len() == self.total_size,
                forall|k: int|
                    0 <= k < before.len() ==> #[trigger] self.buffer@[k] == if offset <= k
                        < offset + i {
                        data@[k - offset]
                    } else {
                        before[k]
                    },
            decreases data@.len() - i,
        {
            self.buffer.set(offset + i, data[i]);
            i = i + 1;
        }
        assert(self.buffer@ =~= written(before, offset as int, data@));
    }

    /// Moves the current offset back to `offset`, freeing what was allocated
    /// above it.
    pub fn reset_to(&mut self, offset: usize) -> (r: Result<(), PoolError>)
        requires
            old(self).wf(),
            old(self).stats_spec().reset_count < u64::MAX,
        ensures
            reset_outcome(*old(self), *final(self), offset, r),
    {
        if offset > self.total_size {
            return Err(PoolError::InvalidOffset { offset, pool_size: self.total_size });
        }
        if offset <= self.current_offset {
            self.current_offset = offset;
            self.stats.record_reset(offset);
            Ok(())
        } else {
            Err(PoolError::InvalidOffset { offset, pool_size: self.current_offset })
        }
    }

    /// Frees every allocation.
    pub fn reset(&mut self)
        requires
            old(self).wf(),
            old(self).stats_spec().reset_count < u64::MAX,
        ensures
            final(self).wf(),
            final(self).current_spec() == 0,
            final(self).total_spec() == old(self).total_spec(),
            final(self).high_water_spec() == old(self).high_water_spec(),
            final(self).alignment_spec() == old(self).alignment_spec(),
            final(self).stats_spec().counts_reset(old(self).stats_spec(), 0),
            final(self).contents() == old(self).contents(),
    {
        self.current_offset = 0;
        self.stats.record_reset(0);
    }

    /// The current allocation offset.
    pub fn current_offset(&self) -> (r: usize)
        ensures
            r == self.current_spec(),
    {
        self.current_offset
    }

    /// The size of the pool in bytes.
    pub fn total_size(&self) -> (r: usize)
        ensures
            r == self.total_spec(),
    {
        self.total_size
    }

    /// The bytes left for allocation.
    pub fn available(&self) -> (r: usize)
        requires
            self.wf(),
        ensures
            r == self.available_spec(),
    {
        self.total_size - self.current_offset
    }

    /// The largest offset an allocation has reached.
    pub fn high_water_mark(&self) -> (r: usize)
        ensures
            r == self.high_water_spec(),
    {
        self.high_water_mark
    }

    /// The pool's statistics.
    pub fn get_stats(&self) -> (r: &PoolStats)
        ensures
            *r == self.stats_spec(),
    {
        &self.stats
    }

    /// Whether nothing is allocated.
    pub fn is_empty(&self) -> (r: bool)
        ensures
            r == (self.current_spec() == 0),
    {
        self.current_offset == 0
    }
}

/// What creating a pool of `size` bytes with `alignment` gives: a refused
/// alignment; a refused layout; the pool, empty, of `size` rounded up to whole
/// pages; or, when the memory cannot be had, a refusal saying so.
pub open spec fn creation_outcome(size: usize, alignment: usize, r: Result<MemoryPool, PoolError>) -> bool {
    let a = pool_alignment(alignment);
    let t = align_up(size as int, 4096);
    if !is_pow2(alignment as int) {
        r matches Err(PoolError::InvalidAlignment { alignment: x }) && x == alignment
    } else if !layout_fits(t, a as int) {
        r matches Err(PoolError::AllocationFailed(m)) && m@ == invalid_layout_message()
    } else {
        match r {
            Ok(p) => {
                &&& p.wf()
                &&& p.total_spec() == t
                &&& p.buffer_len() == t
                &&& p.current_spec() == 0
                &&& p.high_water_spec() == 0
                &&& p.alignment_spec() == a
                &&& p.stats_spec().is_fresh()
            },
            Err(e) => e matches PoolError::AllocationFailed(m) && m@ == allocation_failed_message(
                t as nat,
            ),
        }
    }
}

/// A created pool holds the requested size rounded up to whole 4096-byte
/// pages, `(size + 4095) / 4096 * 4096` bytes, with nothing allocated; a
/// non-power-of-two alignment is refused.
pub proof fn law_pool_size_in_pages(size: usize, alignment: usize, r: Result<MemoryPool, PoolError>)
    requires
        creation_outcome(size, alignment, r),
    ensures
        !is_pow2(alignment as int) ==> (r matches Err(PoolError::InvalidAlignment { alignment: x })
            && x == alignment),
        r matches Ok(p) ==> p.total_spec() == (size + 4095) / 4096 * 4096 && p.current_spec() == 0
            && p.high_water_spec() == 0,
{
    law_align_up_closed_form(size as int, 4096);
}

/// `data` written over `s` from `offset` on.
pub open spec fn written(s: Seq<u8>, offset: int, data: Seq<u8>) -> Seq<u8> {
    s.subrange(0, offset) + data + s.subrange(offset + data.len(), s.len() as int)
}

/// What a write leaves: reading the written range gives back the data, the
/// pool keeps its size, and every byte outside the range is unchanged.
pub proof fn law_read_back_written(s: Seq<u8>, offset: int, data: Seq<u8>)
    requires
        0 <= offset,
        offset + data.len() <= s.len(),
    ensures
        written(s, offset, data).len() == s.len(),
        written(s, offset, data).subrange(offset, offset + data.len()) == data,
        forall|k: int|
            0 <= k < s.len() && !(offset <= k < offset + data.len()) ==> #[trigger] written(
                s,
                offset,
                data,
            )[k] == s[k],
{
    assert(written(s, offset, data).subrange(offset, offset + data.len()) =~= data);
}

/// What `allocate(size, align)` does: refuses an alignment that is not a power
/// of two, or a request that does not fit, naming the bytes left above the
/// rounded offset (none when it lies beyond the pool), and leaves the pool
/// unchanged; otherwise returns the current offset rounded up to `align`,
/// moves the current offset to the end of the request, raises the high water
/// mark to it, and counts the allocation.
pub open spec fn allocation_outcome(
    before: MemoryPool,
    after: MemoryPool,
    size: usize,
    align: usize,
    r: Result<usize, PoolError>,
) -> bool {
    let o = align_up(before.current_spec() as int, align as int);
    &&& after.wf()
    &&& after.total_spec() == before.total_spec()
    &&& after.alignment_spec() == before.alignment_spec()
    &&& if !is_pow2(align as int) {
        &&& r matches Err(PoolError::InvalidAlignment { alignment: x }) && x == align
        &&& after == before
    } else if o + size > before.total_spec() {
        &&& r matches Err(PoolError::PoolExhausted { requested, available }) && requested == size
            && available == if o <= before.total_spec() {
            before.total_spec() - o
        } else {
            0
        }
        &&& after == before
    } else {
        &&& r == Ok::<usize, PoolError>(o as usize)
        &&& o % (align as int) == 0
        &&& before.current_spec() <= o
        &&& after.current_spec() == o + size
        &&& after.high_water_spec() == if o + size > before.high_water_spec() {
            o + size
        } else {
            before.high_water_spec() as int
        }
        &&& after.stats_spec().counts_allocation(before.stats_spec(), size, align)
        &&& after.contents() == before.contents()
    }
}

/// What `reset_to(offset)` does: refuses an offset beyond the pool, naming the
/// pool's size, or beyond the current offset, naming the current offset, and
/// leaves the pool unchanged; otherwise moves the current offset back to
/// `offset` and counts the reset.
pub open spec fn reset_outcome(
    before: MemoryPool,
    after: MemoryPool,
    offset: usize,
    r: Result<(), PoolError>,
) -> bool {
    &&& after.wf()
    &&& if offset > before.total_spec() {
        &&& r matches Err(PoolError::InvalidOffset { offset: o, pool_size: s }) && o == offset
            && s == before.total_spec()
        &&& after == before
    } else if offset > before.current_spec() {
        &&& r matches Err(PoolError::InvalidOffset { offset: o, pool_size: s }) && o == offset
            && s == before.current_spec()
        &&& after == before
    } else {
        &&& r is Ok
        &&& after.current_spec() == offset
        &&& after.total_spec() == before.total_spec()
        &&& after.high_water_spec() == before.high_water_spec()
        &&& after.alignment_spec() == before.alignment_spec()
        &&& after.stats_spec().counts_reset(before.stats_spec(), offset)
        &&& after.contents() == before.contents()
    }
}

/// Stack semantics: resetting to the offset taken before an allocation frees
/// exactly that allocation, and the pool is back at its checkpoint.
pub proof fn law_reset_undoes_allocation(
    p0: MemoryPool,
    p1: MemoryPool,
    p2: MemoryPool,
    size: usize,
    align: usize,
    offset: usize,
    r: Result<(), PoolError>,
)
    requires
        p0.wf(),
        allocation_outcome(p0, p1, size, align, Ok(offset)),
        reset_outcome(p1, p2, p0.current_spec(), r),
    ensures
        r is Ok,
        p2.current_spec() == p0.current_spec(),
        p2.total_spec() == p0.total_spec(),
        p2.available_spec() == p0.available_spec(),
{
}

/// Successive allocations do not overlap: each starts at or after the end of
/// the one before, and both lie within the pool.
pub proof fn law_allocations_disjoint(
    p0: MemoryPool,
    p1: MemoryPool,
    p2: MemoryPool,
    s1: usize,
    a1: usize,
    s2: usize,
    a2: usize,
    o1: usize,
    o2: usize,
)
    requires
        p0.wf(),
        allocation_outcome(p0, p1, s1, a1, Ok(o1)),
        allocation_outcome(p1, p2, s2, a2, Ok(o2)),
    ensures
        o1 + s1 <= o2,
        o2 + s2 <= p2.total_spec(),
        o1 % a1 == 0,
        o2 % a2 == 0,
{
}

/// The high water mark never falls: neither allocation nor reset lowers it,
/// and it stays at or above the current offset.
pub proof fn law_high_water_monotone(
    p0: MemoryPool,
    p1: MemoryPool,
    size: usize,
    align: usize,
    a: Result<usize, PoolError>,
    offset: usize,
    r: Result<(), PoolError>,
    p2: MemoryPool,
)
    requires
        p0.wf(),
        allocation_outcome(p0, p1, size, align, a),
        reset_outcome(p1, p2, offset, r),
    ensures
        p0.high_water_spec() <= p1.high_water_spec() <= p2.high_water_spec(),
        p2.current_spec() <= p2.high_water_spec(),
{
}

} // verus!
