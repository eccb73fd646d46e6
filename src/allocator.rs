use vstd::prelude::*;

use crate::buffer::{is_host_visible, BufferLocation};
use crate::error::GpuError;

verus! {

/// One region of device memory handed out by the allocator.
#[derive(Debug, Clone, Copy, PartialEq, Eq, Structural)]
pub struct Allocation {
    pub id: u64,
    pub size: u64,
    pub location: BufferLocation,
}

impl Allocation {
    /// Whether the region is mapped into host memory.
    pub fn is_mapped(&self) -> (r: bool)
        ensures
            r == is_host_visible(self.location),
    {
        match self.location {
            BufferLocation::GpuOnly => false,
            _ => true,
        }
    }
}

/// `size` rounded up to the next multiple of `alignment`.
pub open spec fn aligned_size(size: int, alignment: int) -> int {
    if size % alignment == 0 {
        size
    } else {
        size + (alignment - size % alignment)
    }
}

/// Total bytes held by a sequence of allocations.
pub open spec fn sum_sizes(s: Seq<Allocation>) -> int
    decreases s.len(),
{
    if s.len() == 0 {
        0
    } else {
        sum_sizes(s.drop_last()) + s.last().size
    }
}

/// Whether no two allocations in `s` share an id.
pub open spec fn ids_unique(s: Seq<Allocation>) -> bool {
    forall|i: int, j: int| 0 <= i < s.len() && 0 <= j < s.len() && i != j ==> s[i].id != s[j].id
}

proof fn lemma_sum_sizes_nonneg(s: Seq<Allocation>)
    ensures
        sum_sizes(s) >= 0,
    decreases s.len(),
{
    if s.len() > 0 {
        lemma_sum_sizes_nonneg(s.drop_last());
    }
}

proof fn lemma_sum_sizes_remove(s: Seq<Allocation>, i: int)
    requires
        0 <= i < s.len(),
    ensures
        sum_sizes(s.remove(i)) == sum_sizes(s) - s[i].size,
    decreases s.len(),
{
    if i == s.len() - 1 {
        assert(s.remove(i) =~= s.drop_last());
    } else {
        let r = s.remove(i);
        assert(r.drop_last() =~= s.drop_last().remove(i));
        assert(r.last() == s.last());
        lemma_sum_sizes_remove(s.drop_last(), i);
    }
}

/// Sub-allocator of device memory with a fixed budget of bytes.
pub struct MemoryAllocator {
    capacity: u64,
    total: u64,
    next_id: u64,
    live: Vec<Allocation>,
}

impl MemoryAllocator {
    /// The allocations currently handed out, in the order they were made.
    pub closed spec fn live(&self) -> Seq<Allocation> {
        self.live@
    }

    /// The budget of bytes this allocator may hand out.
    pub closed spec fn capacity_spec(&self) -> u64 {
        self.capacity
    }

    /// The id that the next allocation receives.
    pub closed spec fn next_id_spec(&self) -> u64 {
        self.next_id
    }

    /// Bytes currently handed out.
    pub open spec fn allocated(&self) -> int {
        sum_sizes(self.live())
    }

    pub closed spec fn wf(&self) -> bool {
        &&& self.total == sum_sizes(self.live@)
        &&& self.total <= self.capacity
        &&& ids_unique(self.live@)
        &&& forall|i: int| 0 <= i < self.live@.len() ==> self.live@[i].id < self.next_id
    }

    /// Whether a request for `size` bytes at `alignment` is refused for lack of
    /// room (or of fresh ids).
    pub open spec fn refuses(&self, size: u64, alignment: u64) -> bool {
        self.next_id_spec() == u64::MAX || self.allocated() + aligned_size(
            size as int,
            alignment as int,
        ) > self.capacity_spec()
    }

    pub fn new(capacity: u64) -> (r: Self)
        ensures
            r.wf(),
            r.live() == Seq::<Allocation>::empty(),
            r.capacity_spec() == capacity,
            r.allocated() == 0,
    {
        MemoryAllocator { capacity, total: 0, next_id: 0, live: Vec::new() }
    }

    /// The id of the allocation made last was fresh: no allocation held
    /// before it had it, so it is not among the ones still held before.
    pub proof fn lemma_fresh_id(&self, a: Allocation)
        requires
            self.wf(),
            self.live().len() > 0,
            self.live().last() == a,
        ensures
            !self.live().drop_last().contains(a),
    {
        let s = self.live@;
        if s.drop_last().contains(a) {
            let j = choose|j: int| 0 <= j < s.drop_last().len() && s.drop_last()[j] == a;
            assert(s[j].id == s[s.len() - 1].id);
        }
    }

    /// Every allocation held has an id below the next one to be given.
    pub proof fn lemma_ids_below_next(&self, a: Allocation)
        requires
            self.wf(),
            self.live().contains(a),
        ensures
            a.id < self.next_id_spec(),
    {
    }

    /// Bytes currently handed out.
    pub fn total_allocated(&self) -> (r: u64)
        requires
            self.wf(),
        ensures
            r == self.allocated(),
    {
        self.total
    }

    /// Number of live allocations.
    pub fn allocation_count(&self) -> (r: usize)
        ensures
            r == self.live().len(),
    {
        self.live.len()
    }

    /// Hands out `size` bytes rounded up to `alignment` at `location`, or
    /// fails with `OutOfMemory` and leaves the allocator as it was.
    pub fn allocate(&mut self, size: u64, alignment: u64, location: BufferLocation) -> (r: Result<
        Allocation,
        GpuError,
    >)
        requires
            old(self).wf(),
            alignment > 0,
        ensures
            final(self).wf(),
            final(self).capacity_spec() == old(self).capacity_spec(),
            r.is_err() <==> old(self).refuses(size, alignment),
            match r {
                Ok(a) => {
                    &&& a.size == aligned_size(size as int, alignment as int)
                    &&& a.location == location
                    &&& a.id == old(self).next_id_spec()
                    &&& final(self).live() == old(self).live().push(a)
                    &&& final(self).allocated() == old(self).allocated() + a.size
                },
                Err(e) => e == GpuError::OutOfMemory && *final(self) == *old(self),
            },
    {
        let rem = size % alignment;
        let pad: u64 = if rem == 0 {
            0
        } else {
            alignment - rem
        };
        let room = self.capacity - self.total;
        if self.next_id == u64::MAX || size > room || pad > room - size {
            return Err(GpuError::OutOfMemory);
        }
        let a = Allocation { id: self.next_id, size: size + pad, location };
        proof {
            assert(self.live@.push(a).drop_last() =~= self.live@);
        }
        self.live.push(a);
        self.total = self.total + a.size;
        self.next_id = self.next_id + 1;
        Ok(a)
    }

    /// Returns `allocation` to the allocator, or fails with
    /// `UnknownAllocation` if it is not one that this allocator holds.
    pub fn free(&mut self, allocation: Allocation) -> (r: Result<(), GpuError>)
        requires
            old(self).wf(),
        ensures
            final(self).wf(),
            final(self).capacity_spec() == old(self).capacity_spec(),
            final(self).next_id_spec() == old(self).next_id_spec(),
            r.is_ok() <==> old(self).live().contains(allocation),
            r.is_ok() ==> exists|i: int|
                0 <= i < old(self).live().len() && old(self).live()[i] == allocation
                    && final(self).live() == old(self).live().remove(i),
            r.is_ok() ==> final(self).allocated() == old(self).allocated() - allocation.size,
            !final(self).live().contains(allocation),
            forall|a: Allocation|
                #[trigger] final(self).live().contains(a) <==> old(self).live().contains(a) && a
                    != allocation,
            r.is_err() ==> r == Err::<(), GpuError>(GpuError::UnknownAllocation),
            r.is_err() ==> *final(self) == *old(self),
    {
        let mut i: usize = 0;
        while i < self.live.len()
            invariant
                *self == *old(self),
                self.wf(),
                i <= self.live@.len(),
                forall|j: int| 0 <= j < i ==> self.live@[j].id != allocation.id,
            decreases self.live@.len() - i,
        {
            if self.live[i].id == allocation.id {
                if self.live[i] != allocation {
                    return Err(GpuError::UnknownAllocation);
                }
                proof {
                    lemma_sum_sizes_remove(self.live@, i as int);
                    lemma_sum_sizes_nonneg(self.live@.remove(i as int));
                }
                let ghost before = self.live@;
                let removed = self.live.remove(i);
                proof {
                    before.remove_ensures(i as int);
                    assert(forall|j: int| 0 <= j < self.live@.len() ==> #[trigger] self.live@[j] == before[if j < i { j } else { j + 1 }]);
                    assert forall|a: Allocation|
                        #[trigger] self.live@.contains(a) <==> before.contains(a) && a != allocation by {
                        if self.live@.contains(a) {
                            let j = choose|j: int| 0 <= j < self.live@.len() && self.live@[j] == a;
                            let jj = if j < i { j } else { j + 1 };
                            assert(before[jj] == a);
                            assert(jj != i);
                        }
                        if before.contains(a) && a != allocation {
                            let jj = choose|jj: int| 0 <= jj < before.len() && before[jj] == a;
                            if jj < i {
                                assert(self.live@[jj] == a);
                            } else {
                                assert(jj != i);
                                assert(self.live@[jj - 1] == a);
                            }
                        }
                    }
                }
                self.total = self.total - removed.size;
                return Ok(());
            }
            i = i + 1;
        }
        Err(GpuError::UnknownAllocation)
    }
}

/// Allocating a region and handing it straight back leaves the allocator
/// holding exactly what it held before, so its total of allocated bytes is
/// unchanged.
pub proof fn lemma_allocate_free_round_trip(
    a0: MemoryAllocator,
    a1: MemoryAllocator,
    a2: MemoryAllocator,
    x: Allocation,
    i: int,
)
    requires
        a0.wf(),
        a1.wf(),
        a2.wf(),
        a1.live() == a0.live().push(x),
        0 <= i < a1.live().len(),
        a1.live()[i] == x,
        a2.live() == a1.live().remove(i),
    ensures
        a2.live() == a0.live(),
        a2.allocated() == a0.allocated(),
{
    let last = a1.live().len() - 1;
    assert(a1.live()[last] == x);
    assert(i == last);
    assert(a2.live() =~= a0.live());
}

} // verus!
