//! Counters of a memory pool: allocations, bytes, resets, sizes, alignments
//! and peak usage.
use vstd::prelude::*;

verus! {

/// The histogram slot of an alignment: slots 0 to 6 count the alignments 1 to
/// 64, slot 7 every other alignment.
pub open spec fn alignment_slot(alignment: usize) -> int {
    if alignment == 1 {
        0
    } else if alignment == 2 {
        1
    } else if alignment == 4 {
        2
    } else if alignment == 8 {
        3
    } else if alignment == 16 {
        4
    } else if alignment == 32 {
        5
    } else if alignment == 64 {
        6
    } else {
        7
    }
}

/// The alignment a histogram slot stands for: `2^slot` for the slots 0 to 6,
/// 128 for the last.
pub open spec fn slot_alignment(slot: int) -> usize {
    if slot == 0 {
        1
    } else if slot == 1 {
        2
    } else if slot == 2 {
        4
    } else if slot == 3 {
        8
    } else if slot == 4 {
        16
    } else if slot == 5 {
        32
    } else if slot == 6 {
        64
    } else {
        128
    }
}

/// Whether `slot` holds the largest count of `h`, and no later slot holds as
/// many.
pub open spec fn last_maximum(h: Seq<u64>, slot: int) -> bool {
    &&& 0 <= slot < h.len()
    &&& forall|j: int| 0 <= j < h.len() ==> #[trigger] h[j] <= h[slot]
    &&& forall|j: int| slot < j < h.len() ==> #[trigger] h[j] < h[slot]
}

/// Statistics of a memory pool.
#[derive(Debug, Clone, Copy)]
pub struct PoolStats {
    /// Total number of allocation requests
    pub total_allocations: u64,
    /// Total bytes allocated across all requests
    pub total_bytes_allocated: u64,
    /// Number of pool resets performed
    pub reset_count: u64,
    /// Largest single allocation size
    pub largest_allocation: usize,
    /// Smallest nonzero allocation size; `usize::MAX` before any
    pub smallest_allocation: usize,
    /// Allocations per alignment: 1, 2, 4, 8, 16, 32, 64, and 128 or more
    pub alignment_histogram: [u64; 8],
    /// Largest offset a reset has gone back to
    pub peak_usage_bytes: usize,
}

impl PoolStats {
    /// Whether these are the statistics of a pool that did nothing yet.
    pub open spec fn is_fresh(&self) -> bool {
        &&& self.total_allocations == 0
        &&& self.total_bytes_allocated == 0
        &&& self.reset_count == 0
        &&& self.largest_allocation == 0
        &&& self.smallest_allocation == usize::MAX
        &&& forall|i: int| 0 <= i < 8 ==> #[trigger] self.alignment_histogram@[i] == 0
        &&& self.peak_usage_bytes == 0
    }

    /// Statistics with every counter at zero.
    pub fn new() -> (r: Self)
        ensures
            r.is_fresh(),
    {
        PoolStats {
            total_allocations: 0,
            total_bytes_allocated: 0,
            reset_count: 0,
            largest_allocation: 0,
            smallest_allocation: usize::MAX,
            alignment_histogram: [0; 8],
            peak_usage_bytes: 0,
        }
    }

    /// Whether one more allocation of `size` bytes with `alignment` can be
    /// counted without a counter passing its maximum.
    pub open spec fn can_record(&self, size: usize, alignment: usize) -> bool {
        &&& self.total_allocations < u64::MAX
        &&& self.total_bytes_allocated + size <= u64::MAX
        &&& self.alignment_histogram@[alignment_slot(alignment)] < u64::MAX
    }

    /// Whether `self` is `before` with one allocation of `size` bytes with
    /// `alignment` counted: one more allocation, `size` more bytes, the largest
    /// and smallest nonzero sizes updated, one more in the alignment's slot.
    pub open spec fn counts_allocation(&self, before: PoolStats, size: usize, alignment: usize) -> bool {
        &&& self.total_allocations == before.total_allocations + 1
        &&& self.total_bytes_allocated == before.total_bytes_allocated + size
        &&& self.reset_count == before.reset_count
        &&& self.largest_allocation == if size > before.largest_allocation {
            size
        } else {
            before.largest_allocation
        }
        &&& self.smallest_allocation == if 0 < size && size < before.smallest_allocation {
            size
        } else {
            before.smallest_allocation
        }
        &&& self.alignment_histogram@ == before.alignment_histogram@.update(
            alignment_slot(alignment),
            (before.alignment_histogram@[alignment_slot(alignment)] + 1) as u64,
        )
        &&& self.peak_usage_bytes == before.peak_usage_bytes
    }

    /// Whether `self` is `before` with a reset to `new_offset` counted: one
    /// more reset, the peak usage raised to `new_offset`, the rest unchanged.
    pub open spec fn counts_reset(&self, before: PoolStats, new_offset: usize) -> bool {
        &&& self.reset_count == before.reset_count + 1
        &&& self.peak_usage_bytes == if new_offset > before.peak_usage_bytes {
            new_offset
        } else {
            before.peak_usage_bytes
        }
        &&& self.total_allocations == before.total_allocations
        &&& self.total_bytes_allocated == before.total_bytes_allocated
        &&& self.largest_allocation == before.largest_allocation
        &&& self.smallest_allocation == before.smallest_allocation
        &&& self.alignment_histogram@ == before.alignment_histogram@
    }

    /// Counts an allocation of `size` bytes with `alignment`.
    pub fn record_allocation(&mut self, size: usize, alignment: usize)
        requires
            old(self).can_record(size, alignment),
        ensures
            final(self).counts_allocation(*old(self), size, alignment),
    {
        self.total_allocations = self.total_allocations + 1;
        self.total_bytes_allocated = self.total_bytes_allocated + size as u64;
        if size > self.largest_allocation {
            self.largest_allocation = size;
        }
        if size > 0 && size < self.smallest_allocation {
            self.smallest_allocation = size;
        }
        let slot = self.alignment_to_index(alignment);
        let count = self.alignment_histogram[slot];
        self.alignment_histogram.set(slot, count + 1);
    }

    /// Counts a reset to `new_offset`, which may raise the peak usage.
    pub fn record_reset(&mut self, new_offset: usize)
        requires
            old(self).reset_count < u64::MAX,
        ensures
            final(self).counts_reset(*old(self), new_offset),
    {
        self.reset_count = self.reset_count + 1;
        if new_offset > self.peak_usage_bytes {
            self.peak_usage_bytes = new_offset;
        }
    }

    /// The most frequent alignment; among equally frequent ones the largest
    /// slot wins, as with `Iterator::max_by_key`.
    pub fn most_common_alignment(&self) -> (r: usize)
        ensures
            exists|slot: int|
                last_maximum(self.alignment_histogram@, slot) && r == slot_alignment(slot),
    {
        let mut best: usize = 0;
        let mut i: usize = 1;
        while i < 8
            invariant
                1 <= i <= 8,
                best < i,
                forall|j: int| 0 <= j < i ==> #[trigger] self.alignment_histogram@[j]
                    <= self.alignment_histogram@[best as int],
                forall|j: int| best < j < i ==> #[trigger] self.alignment_histogram@[j]
                    < self.alignment_histogram@[best as int],
            decreases 8 - i,
        {
            if self.alignment_histogram[i] >= self.alignment_histogram[best] {
                best = i;
            }
            i = i + 1;
        }
        assert(last_maximum(self.alignment_histogram@, best as int));
        self.index_to_alignment(best)
    }

    /// The histogram slot of `alignment`.
    fn alignment_to_index(&self, alignment: usize) -> (r: usize)
        ensures
            r == alignment_slot(alignment),
    {
        match alignment {
            1 => 0,
            2 => 1,
            4 => 2,
            8 => 3,
            16 => 4,
            32 => 5,
            64 => 6,
            _ => 7,
        }
    }

    /// The alignment of histogram slot `index`.
    fn index_to_alignment(&self, index: usize) -> (r: usize)
        ensures
            r == slot_alignment(index as int),
    {
        match index {
            0 => 1,
            1 => 2,
            2 => 4,
            3 => 8,
            4 => 16,
            5 => 32,
            6 => 64,
            _ => 128,
        }
    }

    /// Sets every counter back to zero.
    pub fn reset_stats(&mut self)
        ensures
            final(self).is_fresh(),
    {
        *self = Self::new();
    }
}

impl Default for PoolStats {
    fn default() -> (r: Self)
        ensures
            r.is_fresh(),
    {
        PoolStats::new()
    }
}

} // verus!
