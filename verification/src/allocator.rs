//! The bump allocator's bookkeeping.
//!
//! The arithmetic that decides where an allocation lands and when the heap
//! can be reset lives here; handing the resulting addresses out as raw
//! pointers is the global allocator glue's edge.
use vstd::prelude::*;

verus! {

/// Aligns the given address upwards to `align`.
///
/// Requires that `align` is a power of two; the result is the first address
/// at or above `addr` whose low alignment bits are clear.
pub fn align_up(addr: usize, align: usize) -> (aligned: usize)
    requires
        align > 0,
        align & ((align - 1) as usize) == 0,
        addr + align - 1 <= usize::MAX,
    ensures
        aligned & ((align - 1) as usize) == 0,
        addr <= aligned <= addr + align - 1,
{
    proof {
        let a = addr;
        let g = align;
        let m = (g - 1) as usize;
        assert(g > 0 && g & m == 0 && vstd::prelude::add(a, m) >= a ==> {
            &&& (vstd::prelude::add(a, m) & !m) & m == 0
            &&& a <= (vstd::prelude::add(a, m) & !m)
            &&& (vstd::prelude::add(a, m) & !m) <= vstd::prelude::add(a, m)
        }) by (bit_vector);
        assert(vstd::prelude::add(a, m) == a + m);
    }
    (addr + (align - 1)) & !(align - 1)
}

/// Bump Allocator: hands out addresses from a fixed region front to back,
/// and can only reclaim the whole region at once, when the last allocation
/// is returned.
pub struct BumpAllocator {
    heap_start: usize,
    heap_end: usize,
    next: usize,
    allocations: usize,
}

impl BumpAllocator {
    /// The start of the managed region.
    pub closed spec fn start(&self) -> usize {
        self.heap_start
    }

    /// The end of the managed region.
    pub closed spec fn end(&self) -> usize {
        self.heap_end
    }

    /// The first address not yet handed out.
    pub closed spec fn next_free(&self) -> usize {
        self.next
    }

    /// The number of live allocations.
    pub closed spec fn live(&self) -> usize {
        self.allocations
    }

    /// The shape every bump allocator keeps.
    pub open spec fn wf(&self) -> bool {
        self.start() <= self.next_free() <= self.end()
    }

    /// Creates a new empty object.
    pub fn new() -> (allocator: BumpAllocator)
        ensures
            allocator.wf(),
            allocator.start() == 0,
            allocator.end() == 0,
            allocator.next_free() == 0,
            allocator.live() == 0,
    {
        BumpAllocator { heap_start: 0, heap_end: 0, next: 0, allocations: 0 }
    }

    /// Initializes the allocator with the given region.
    pub fn init(&mut self, heap_start: usize, heap_size: usize)
        requires
            heap_start + heap_size <= usize::MAX,
        ensures
            final(self).wf(),
            final(self).start() == heap_start,
            final(self).end() == heap_start + heap_size,
            final(self).next_free() == heap_start,
            final(self).live() == old(self).live(),
    {
        self.heap_start = heap_start;
        self.heap_end = heap_start + heap_size;
        self.next = heap_start;
    }

    /// Decides where an allocation of the given size and alignment lands:
    /// the next free address aligned up, if the allocation still fits the
    /// region; a `None` leaves the allocator untouched.
    pub fn allocate(&mut self, size: usize, align: usize) -> (address: Option<usize>)
        requires
            old(self).wf(),
            align > 0,
            align & ((align - 1) as usize) == 0,
            old(self).live() < usize::MAX,
        ensures
            final(self).wf(),
            final(self).start() == old(self).start(),
            final(self).end() == old(self).end(),
            match address {
                Option::Some(start) => {
                    &&& start & ((align - 1) as usize) == 0
                    &&& old(self).next_free() <= start
                    &&& start + size <= old(self).end()
                    &&& final(self).next_free() == start + size
                    &&& final(self).live() == old(self).live() + 1
                },
                Option::None => {
                    &&& final(self).next_free() == old(self).next_free()
                    &&& final(self).live() == old(self).live()
                },
            },
    {
        if self.next > usize::MAX - (align - 1) {
            return None;
        }
        let alloc_start = align_up(self.next, align);
        let alloc_end = match alloc_start.checked_add(size) {
            Some(end) => end,
            None => {
                return None;
            },
        };
        if alloc_end > self.heap_end {
            None
        } else {
            self.next = alloc_end;
            self.allocations = self.allocations + 1;
            Some(alloc_start)
        }
    }

    /// Returns one allocation; when the last one is returned, the whole
    /// region becomes free again.
    pub fn deallocate(&mut self)
        requires
            old(self).wf(),
            old(self).live() > 0,
        ensures
            final(self).wf(),
            final(self).start() == old(self).start(),
            final(self).end() == old(self).end(),
            final(self).live() == old(self).live() - 1,
            final(self).next_free() == if old(self).live() == 1 {
                old(self).start()
            } else {
                old(self).next_free()
            },
    {
        self.allocations = self.allocations - 1;
        if self.allocations == 0 {
            self.next = self.heap_start;
        }
    }
}

} // verus!
