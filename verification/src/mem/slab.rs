//! The slab allocator: caches of blocks of equal size, each with a list of
//! its free blocks.

use vstd::prelude::*;

verus! {

/// The size of the pages that a cache grows by.
pub const PAGE_SIZE_MIN: usize = 0x1000;

/// Why no memory was given.
#[derive(Debug, Copy, Clone, PartialEq, Eq, Structural)]
pub enum AllocationError {
    Unexpected,
    OutOfMemory,
    InvalidArgument,
    Unsupported,
}

/// Why memory was not taken back.
#[derive(Debug, Copy, Clone, PartialEq, Eq, Structural)]
pub enum DeallocationError {
    Unexpected,
    InvalidArgument,
    Unsupported,
}

/// Where a cache gets its pages from. The library asks and promises nothing
/// about the answer.
pub trait PageSource {
    /// The address of `size` zeroed bytes aligned to `align`, if there are
    /// any left.
    fn zalloc(&mut self, size: usize, align: usize) -> Option<usize>;
}

/// A free block of 16 bytes that holds the link to the next one in itself.
#[derive(Debug, Copy, Clone, PartialEq, Eq)]
pub struct Node16 {
    pub element: [u8; 16],
    pub next: usize,
}

impl Node16 {
    /// A block that is the last of its list.
    pub fn new() -> (r: Self)
        ensures
            r.next == 0,
            forall|i: int| 0 <= i < 16 ==> r.element@[i] == 0,
    {
        Node16 { element: [0u8; 16], next: 0 }
    }

    /// The address of the next block; zero at the end of the list.
    pub fn next_raw(&self) -> (r: usize)
        ensures
            r == self.next,
    {
        self.next
    }
}

/// An entry of the list of free blocks of a larger size: the address of the
/// block and the link to the next entry.
#[derive(Debug, Copy, Clone, PartialEq, Eq, Structural)]
pub struct AtomicNode {
    pub next: usize,
    pub element_ptr: usize,
}

impl AtomicNode {
    /// The entry for the block at `element`, the last of its list.
    pub fn new(element: usize) -> (r: Self)
        requires
            element != 0,
        ensures
            r == (AtomicNode { next: 0, element_ptr: element }),
    {
        AtomicNode { next: 0, element_ptr: element }
    }

    /// The address of the next entry; zero at the end of the list.
    pub fn next_raw(&self) -> (r: usize)
        ensures
            r == self.next,
    {
        self.next
    }

    pub fn element_ptr(&self) -> (r: usize)
        ensures
            r == self.element_ptr,
    {
        self.element_ptr
    }
}

/// A cache of blocks of one size. The free blocks form a stack: the block
/// freed last is given out first.
pub struct SlabCache2 {
    pub block_size: u16,
    /// The number of blocks the cache was given.
    pub total_count: usize,
    /// The addresses of the free blocks; the last is the next to be given
    /// out.
    pub free: Vec<usize>,
}

impl SlabCache2 {
    /// An empty cache of blocks of `block_size` bytes.
    pub fn new(block_size: u16) -> (r: Self)
        ensures
            r.block_size == block_size,
            r.total_count == 0,
            r.free@.len() == 0,
    {
        SlabCache2 { block_size, total_count: 0, free: Vec::new() }
    }

    pub fn block_size(&self) -> (r: usize)
        ensures
            r == self.block_size,
    {
        self.block_size as usize
    }

    pub fn total_count(&self) -> (r: usize)
        ensures
            r == self.total_count,
    {
        self.total_count
    }

    pub fn free_count(&self) -> (r: usize)
        ensures
            r == self.free@.len(),
    {
        self.free.len()
    }

    /// The number of free bytes, counted in `usize`.
    pub fn free_memory_size(&self) -> (r: usize)
        ensures
            r == (self.free@.len() as usize).wrapping_mul(self.block_size as usize),
    {
        self.free_count().wrapping_mul(self.block_size())
    }

    /// A block of the cache has a size, and a page holds at least one.
    pub open spec fn fits_page(&self) -> bool {
        0 < self.block_size <= PAGE_SIZE_MIN
    }

    /// The distance between two blocks of a page: the block size, but 32
    /// bytes for blocks of 16 bytes.
    pub open spec fn spec_entry_size(&self) -> usize {
        if self.block_size == 16 {
            32
        } else {
            self.block_size as usize
        }
    }

    pub fn entry_size(&self) -> (r: usize)
        ensures
            r == self.spec_entry_size(),
    {
        if self.block_size == 16 {
            32
        } else {
            self.block_size as usize
        }
    }

    /// The blocks of a page at `blob`, lowest address first.
    pub open spec fn blocks_of(blob: usize, entry_size: usize, count: nat) -> Seq<usize> {
        Seq::new(count, |i: int| (blob + i * entry_size) as usize)
    }

    /// Takes a page at `blob` into the cache: its blocks become free, the
    /// one at the highest address to be given out first.
    pub fn expand(&mut self, blob: usize)
        requires
            old(self).fits_page(),
            blob + PAGE_SIZE_MIN <= usize::MAX,
        ensures
            final(self).block_size == old(self).block_size,
            final(self).total_count == old(self).total_count.wrapping_add(
                (PAGE_SIZE_MIN / old(self).spec_entry_size()) as usize,
            ),
            final(self).free@ == old(self).free@ + Self::blocks_of(
                blob,
                old(self).spec_entry_size(),
                (PAGE_SIZE_MIN / old(self).spec_entry_size()) as nat,
            ),
    {
        let entry_size = self.entry_size();
        let entry_count = PAGE_SIZE_MIN / entry_size;
        assert(entry_count * entry_size <= PAGE_SIZE_MIN) by (nonlinear_arith)
            requires
                entry_count == PAGE_SIZE_MIN / entry_size,
                entry_size > 0,
        ;
        let mut i: usize = 0;
        while i < entry_count
            invariant
                i <= entry_count,
                entry_count * entry_size <= PAGE_SIZE_MIN,
                blob + PAGE_SIZE_MIN <= usize::MAX,
                entry_size > 0,
                self.block_size == old(self).block_size,
                self.total_count == old(self).total_count,
                self.free@ == old(self).free@ + Self::blocks_of(blob, entry_size, i as nat),
            decreases entry_count - i,
        {
            assert(i * entry_size <= entry_count * entry_size) by (nonlinear_arith)
                requires
                    i <= entry_count,
                    entry_size > 0,
            ;
            self.free.push(blob + i * entry_size);
            i = i + 1;
            assert(self.free@ =~= old(self).free@ + Self::blocks_of(blob, entry_size, i as nat));
        }
        self.total_count = self.total_count.wrapping_add(entry_count);
    }

    /// Gives out a free block: the one that was freed last. A cache without
    /// a free block asks `memory` for a page first, and fails with
    /// `OutOfMemory`, unchanged, if it gets none; a page that does not fit
    /// below the end of the address space is refused as `Unexpected`.
    pub fn allocate<M: PageSource>(&mut self, memory: &mut M) -> (r: Result<usize, AllocationError>)
        requires
            old(self).fits_page(),
        ensures
            final(self).block_size == old(self).block_size,
            old(self).free@.len() > 0 ==> r == Ok::<usize, AllocationError>(old(self).free@.last())
                && final(self).free@ == old(self).free@.drop_last() && final(self).total_count
                == old(self).total_count,
            old(self).free@.len() == 0 ==> match r {
                Ok(block) => exists|blob: usize|
                    {
                        let blocks = #[trigger] Self::blocks_of(
                            blob,
                            old(self).spec_entry_size(),
                            (PAGE_SIZE_MIN / old(self).spec_entry_size()) as nat,
                        );
                        &&& blocks.len() > 0
                        &&& block == blocks.last()
                        &&& final(self).free@ == blocks.drop_last()
                        &&& final(self).total_count == old(self).total_count.wrapping_add(
                            (PAGE_SIZE_MIN / old(self).spec_entry_size()) as usize,
                        )
                    },
                Err(e) => (e == AllocationError::OutOfMemory || e == AllocationError::Unexpected)
                    && final(self).free@ == old(self).free@ && final(self).total_count == old(self).total_count,
            },
    {
        if self.free.len() == 0 {
            let entry_size = self.entry_size();
            let entry_count = PAGE_SIZE_MIN / entry_size;
            assert(entry_count * entry_size <= PAGE_SIZE_MIN && entry_count >= 1) by (nonlinear_arith)
                requires
                    entry_count == PAGE_SIZE_MIN / entry_size,
                    0 < entry_size <= PAGE_SIZE_MIN,
            ;
            let alloc_size = entry_count * entry_size;
            let blob = match memory.zalloc(alloc_size, PAGE_SIZE_MIN) {
                Some(b) => b,
                None => {
                    return Err(AllocationError::OutOfMemory);
                },
            };
            if blob > usize::MAX - PAGE_SIZE_MIN {
                return Err(AllocationError::Unexpected);
            }
            self.expand(blob);
            proof {
                assert(self.free@ =~= Self::blocks_of(blob, entry_size, entry_count as nat));
            }
        }
        match self.free.pop() {
            Some(block) => Ok(block),
            None => Err(AllocationError::Unexpected),
        }
    }

    /// Takes a block back: it is the next to be given out.
    pub fn free(&mut self, ptr: usize) -> (r: Result<(), DeallocationError>)
        ensures
            r.is_ok(),
            final(self).block_size == old(self).block_size,
            final(self).total_count == old(self).total_count,
            final(self).free@ == old(self).free@.push(ptr),
    {
        self.free.push(ptr);
        Ok(())
    }
}

/// The allocator: caches for blocks of 16 bytes up to 2048 bytes, each size
/// twice the one before.
pub struct SlabAllocator {
    pub slabs: Vec<SlabCache2>,
}

impl SlabAllocator {
    /// Every cache has blocks of a size of which a page holds at least one.
    pub open spec fn wf(&self) -> bool {
        forall|i: int| 0 <= i < self.slabs@.len() ==> (#[trigger] self.slabs@[i]).fits_page()
    }

    /// The allocator with its eight empty caches.
    pub fn new() -> (r: Self)
        ensures
            r.wf(),
            r.slabs@.len() == 8,
            forall|i: int|
                0 <= i < 8 ==> (#[trigger] r.slabs@[i]).free@.len() == 0 && r.slabs@[i].total_count
                    == 0,
            r.slabs@[0].block_size == 16,
            r.slabs@[1].block_size == 32,
            r.slabs@[2].block_size == 64,
            r.slabs@[3].block_size == 128,
            r.slabs@[4].block_size == 256,
            r.slabs@[5].block_size == 512,
            r.slabs@[6].block_size == 1024,
            r.slabs@[7].block_size == 2048,
    {
        let mut slabs: Vec<SlabCache2> = Vec::new();
        slabs.push(SlabCache2::new(16));
        slabs.push(SlabCache2::new(32));
        slabs.push(SlabCache2::new(64));
        slabs.push(SlabCache2::new(128));
        slabs.push(SlabCache2::new(256));
        slabs.push(SlabCache2::new(512));
        slabs.push(SlabCache2::new(1024));
        slabs.push(SlabCache2::new(2048));
        SlabAllocator { slabs }
    }

    /// The space a request needs: its size or its alignment, whichever is
    /// larger.
    pub open spec fn needed(size: usize, align: usize) -> usize {
        if size >= align {
            size
        } else {
            align
        }
    }

    /// The first cache whose blocks hold `size` bytes, if there is one.
    pub open spec fn cache_for(&self, size: usize) -> Option<int> {
        if exists|i: int| 0 <= i < self.slabs@.len() && size <= (#[trigger] self.slabs@[i]).block_size {
            Some(
                choose|i: int|
                    0 <= i < self.slabs@.len() && size <= (#[trigger] self.slabs@[i]).block_size && (
                    forall|j: int| 0 <= j < i ==> size > (#[trigger] self.slabs@[j]).block_size),
            )
        } else {
            None
        }
    }

    /// Finds the first cache whose blocks hold `size` bytes.
    pub fn find_cache(&self, size: usize) -> (r: Option<usize>)
        ensures
            r matches Some(i) ==> i < self.slabs@.len() && size <= self.slabs@[i as int].block_size
                && (forall|j: int| 0 <= j < i ==> size > (#[trigger] self.slabs@[j]).block_size),
            r.is_none() ==> forall|j: int|
                0 <= j < self.slabs@.len() ==> size > (#[trigger] self.slabs@[j]).block_size,
    {
        let mut i: usize = 0;
        while i < self.slabs.len()
            invariant
                i <= self.slabs@.len(),
                forall|j: int| 0 <= j < i ==> size > (#[trigger] self.slabs@[j]).block_size,
            decreases self.slabs@.len() - i,
        {
            if size <= self.slabs[i].block_size as usize {
                return Some(i);
            }
            i = i + 1;
        }
        None
    }

    /// Cache `i` is the first whose blocks hold `size` bytes.
    pub open spec fn serves(&self, i: int, size: usize) -> bool {
        &&& 0 <= i < self.slabs@.len()
        &&& size <= self.slabs@[i].block_size
        &&& forall|j: int| 0 <= j < i ==> size > (#[trigger] self.slabs@[j]).block_size
    }

    /// No cache has blocks that hold `size` bytes.
    pub open spec fn serves_none(&self, size: usize) -> bool {
        forall|j: int| 0 <= j < self.slabs@.len() ==> size > (#[trigger] self.slabs@[j]).block_size
    }

    /// Every cache holds what it held in `before`.
    pub open spec fn holds_the_same(&self, before: &SlabAllocator) -> bool {
        &&& self.slabs@.len() == before.slabs@.len()
        &&& forall|j: int|
            0 <= j < self.slabs@.len() ==> (#[trigger] self.slabs@[j]).free@ == before.slabs@[j].free@
                && self.slabs@[j].total_count == before.slabs@[j].total_count
                && self.slabs@[j].block_size == before.slabs@[j].block_size
    }

    /// Gives out a block for a request of `size` bytes aligned to `align`,
    /// from the first cache whose blocks are large enough: the block that
    /// this cache was given back last, or, if it has none, a block of a page
    /// that it gets from `memory`. A request that no cache serves is refused
    /// as `Unsupported`, and no other request is. Where no block is given
    /// out, every cache holds what it held.
    pub fn allocate<M: PageSource>(&mut self, size: usize, align: usize, memory: &mut M) -> (r: Result<
        usize,
        AllocationError,
    >)
        requires
            old(self).wf(),
        ensures
            final(self).wf(),
            final(self).slabs@.len() == old(self).slabs@.len(),
            (r == Err::<usize, AllocationError>(AllocationError::Unsupported)) == old(self).serves_none(Self::needed(size, align)),
            r matches Err(e) ==> (e == AllocationError::Unsupported || e
                == AllocationError::OutOfMemory || e == AllocationError::Unexpected) && final(self).holds_the_same(old(self)),
            forall|i: int| #[trigger]
                old(self).serves(i, Self::needed(size, align)) ==> {
                    &&& forall|j: int|
                        0 <= j < old(self).slabs@.len() && j != i ==> final(self).slabs@[j] == old(self).slabs@[j]
                    &&& final(self).slabs@[i].block_size == old(self).slabs@[i].block_size
                    &&& old(self).slabs@[i].free@.len() > 0 ==> r == Ok::<usize, AllocationError>(
                        old(self).slabs@[i].free@.last(),
                    ) && final(self).slabs@[i].free@ == old(self).slabs@[i].free@.drop_last()
                        && final(self).slabs@[i].total_count == old(self).slabs@[i].total_count
                    &&& old(self).slabs@[i].free@.len() == 0 ==> (r matches Ok(block)
                        ==> exists|blob: usize|
                        {
                            let blocks = #[trigger] SlabCache2::blocks_of(
                                blob,
                                old(self).slabs@[i].spec_entry_size(),
                                (PAGE_SIZE_MIN / old(self).slabs@[i].spec_entry_size()) as nat,
                            );
                            &&& blocks.len() > 0
                            &&& block == blocks.last()
                            &&& final(self).slabs@[i].free@ == blocks.drop_last()
                            &&& final(self).slabs@[i].total_count == old(self).slabs@[i].total_count.wrapping_add(
                                (PAGE_SIZE_MIN / old(self).slabs@[i].spec_entry_size()) as usize,
                            )
                        })
                },
    {
        let needed = if size >= align {
            size
        } else {
            align
        };
        if needed > 0xFFFF {
            proof {
                assert forall|j: int| 0 <= j < self.slabs@.len() implies needed > (
                #[trigger] self.slabs@[j]).block_size by {}
            }
            return Err(AllocationError::Unsupported);
        }
        match self.find_cache(needed) {
            Some(i) => {
                let ghost before = self.slabs@;
                let r = self.slabs[i].allocate(memory);
                proof {
                    assert forall|j: int| 0 <= j < before.len() && j != i implies self.slabs@[j]
                        == before[j] by {}
                    assert(old(self).serves(i as int, needed));
                    assert(before[i as int].block_size >= needed);
                    assert forall|x: int| #[trigger] old(self).serves(x, needed) implies x == i by {
                        if x < i {
                            assert(needed > before[x].block_size);
                        } else if x > i {
                            assert(needed > before[i as int].block_size);
                        }
                    }
                }
                r
            },
            None => Err(AllocationError::Unsupported),
        }
    }

    /// Takes back the block at `base` that was given out for a request of
    /// `size` bytes aligned to `align`: it returns to the cache it came
    /// from and is the next that cache gives out.
    pub fn free(&mut self, base: usize, size: usize, align: usize) -> (r: Result<
        (),
        DeallocationError,
    >)
        requires
            old(self).wf(),
        ensures
            final(self).wf(),
            final(self).slabs@.len() == old(self).slabs@.len(),
            r.is_ok() == (exists|i: int|
                0 <= i < old(self).slabs@.len() && Self::needed(size, align) <= (
                #[trigger] old(self).slabs@[i]).block_size),
            r.is_err() ==> r == Err::<(), DeallocationError>(DeallocationError::Unsupported)
                && final(self).slabs@ == old(self).slabs@,
            r.is_ok() ==> exists|i: int|
                0 <= i < old(self).slabs@.len() && Self::needed(size, align) <= (
                #[trigger] old(self).slabs@[i]).block_size && (forall|j: int|
                    0 <= j < i ==> Self::needed(size, align) > (
                    #[trigger] old(self).slabs@[j]).block_size) && (forall|j: int|
                    0 <= j < old(self).slabs@.len() && j != i ==> final(self).slabs@[j] == old(self).slabs@[j]) && final(self).slabs@[i].free@ == old(self).slabs@[i].free@.push(
                    base,
                ) && final(self).slabs@[i].total_count == old(self).slabs@[i].total_count,
    {
        let needed = if size >= align {
            size
        } else {
            align
        };
        if needed > 0xFFFF {
            proof {
                assert forall|j: int| 0 <= j < self.slabs@.len() implies needed > (
                #[trigger] self.slabs@[j]).block_size by {}
            }
            return Err(DeallocationError::Unsupported);
        }
        match self.find_cache(needed) {
            Some(i) => {
                let ghost before = self.slabs@;
                let r = self.slabs[i].free(base);
                proof {
                    assert forall|j: int| 0 <= j < before.len() && j != i implies self.slabs@[j]
                        == before[j] by {}
                    assert(before[i as int].block_size >= needed);
                }
                r
            },
            None => Err(DeallocationError::Unsupported),
        }
    }

    /// The free bytes of the first `n` caches together, counted in `usize`.
    pub open spec fn free_bytes(slabs: Seq<SlabCache2>, n: int) -> usize
        decreases n,
    {
        if n <= 0 {
            0
        } else {
            Self::free_bytes(slabs, n - 1).wrapping_add(
                (slabs[n - 1].free@.len() as usize).wrapping_mul(slabs[n - 1].block_size as usize),
            )
        }
    }

    /// The number of free bytes in all caches.
    pub fn free_memory_size(&self) -> (r: usize)
        ensures
            r == Self::free_bytes(self.slabs@, self.slabs@.len() as int),
    {
        let mut total: usize = 0;
        let mut i: usize = 0;
        while i < self.slabs.len()
            invariant
                i <= self.slabs@.len(),
                total == Self::free_bytes(self.slabs@, i as int),
            decreases self.slabs@.len() - i,
        {
            total = total.wrapping_add(self.slabs[i].free_memory_size());
            i = i + 1;
        }
        total
    }

    /// For each cache its block size, the number of its blocks in use and
    /// the number of all its blocks.
    pub fn statistics(&self) -> (r: Vec<(usize, usize, usize)>)
        ensures
            r@.len() == self.slabs@.len(),
            forall|i: int|
                0 <= i < self.slabs@.len() ==> #[trigger] r@[i] == (
                    self.slabs@[i].block_size as usize,
                    self.slabs@[i].total_count.wrapping_sub(self.slabs@[i].free@.len() as usize),
                    self.slabs@[i].total_count,
                ),
    {
        let mut out: Vec<(usize, usize, usize)> = Vec::new();
        let mut i: usize = 0;
        while i < self.slabs.len()
            invariant
                i <= self.slabs@.len(),
                out@.len() == i,
                forall|j: int|
                    0 <= j < i ==> #[trigger] out@[j] == (
                        self.slabs@[j].block_size as usize,
                        self.slabs@[j].total_count.wrapping_sub(
                            self.slabs@[j].free@.len() as usize,
                        ),
                        self.slabs@[j].total_count,
                    ),
            decreases self.slabs@.len() - i,
        {
            let slab = &self.slabs[i];
            let count = slab.total_count();
            out.push((slab.block_size(), count.wrapping_sub(slab.free_count()), count));
            i = i + 1;
        }
        out
    }
}

} // verus!
