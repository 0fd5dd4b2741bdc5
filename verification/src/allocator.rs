//! Buddy allocator over an owned free-list index.
//!
//! Blocks are powers of two of the page size, addressed by their base;
//! the free lists are index-based — one list of block bases per order —
//! so no pointers thread through the managed memory itself. Splitting
//! walks a block down to the smallest order that still fits the request,
//! returning the upper halves to the lists on the way.

use vstd::prelude::*;

verus! {

/// Page size (4KB): the order-0 block.
pub const PAGE_SIZE: usize = 4096;

/// Largest order: blocks of four megabytes.
pub const MAX_ORDER: usize = 10;

/// The byte size of a block of an order; orders past the largest size
/// like the largest.
pub open spec fn block_bytes(order: nat) -> nat {
    if order == 0 {
        0x1000
    } else if order == 1 {
        0x2000
    } else if order == 2 {
        0x4000
    } else if order == 3 {
        0x8000
    } else if order == 4 {
        0x1_0000
    } else if order == 5 {
        0x2_0000
    } else if order == 6 {
        0x4_0000
    } else if order == 7 {
        0x8_0000
    } else if order == 8 {
        0x10_0000
    } else if order == 9 {
        0x20_0000
    } else {
        0x40_0000
    }
}

/// Whether a request fits a block of an order.
pub open spec fn fits(want: nat, order: nat) -> bool {
    want <= block_bytes(order)
}

/// Block sizes never shrink with the order, so what fits an order fits
/// every larger one.
pub proof fn lemma_fits_monotone(want: nat, a: nat, b: nat)
    requires
        a <= b,
        fits(want, a),
    ensures
        fits(want, b),
{
}

/// The byte size of a block of an order.
fn block_bytes_exec(order: usize) -> (r: usize)
    requires
        order <= MAX_ORDER,
    ensures
        r == block_bytes(order as nat),
{
    if order == 0 {
        0x1000
    } else if order == 1 {
        0x2000
    } else if order == 2 {
        0x4000
    } else if order == 3 {
        0x8000
    } else if order == 4 {
        0x1_0000
    } else if order == 5 {
        0x2_0000
    } else if order == 6 {
        0x4_0000
    } else if order == 7 {
        0x8_0000
    } else if order == 8 {
        0x10_0000
    } else if order == 9 {
        0x20_0000
    } else {
        0x40_0000
    }
}

/// The buddy allocator.
#[derive(Debug)]
pub struct BuddyAllocator {
    /// Free block bases, one list per order
    free_lists: Vec<Vec<usize>>,
    /// Base of the managed heap
    heap_start: usize,
    /// Size of the managed heap in bytes
    heap_size: usize,
}

impl BuddyAllocator {
    /// The free block bases at an order.
    pub closed spec fn spec_free(&self, order: int) -> Seq<usize> {
        self.free_lists@[order]@
    }

    /// Spec view of the heap base.
    pub closed spec fn spec_heap_start(&self) -> usize {
        self.heap_start
    }

    /// Spec view of the heap size.
    pub closed spec fn spec_heap_size(&self) -> usize {
        self.heap_size
    }

    /// Allocator well-formedness: one free list per order.
    pub closed spec fn wf(&self) -> bool {
        self.free_lists@.len() == MAX_ORDER as int + 1
    }

    /// An allocator managing no memory yet.
    pub fn new() -> (r: Self)
        ensures
            r.wf(),
            r.spec_heap_size() == 0,
            forall|o: int| 0 <= o <= MAX_ORDER as int ==> #[trigger] r.spec_free(o).len() == 0,
    {
        let mut free_lists: Vec<Vec<usize>> = Vec::new();
        let mut i: usize = 0;
        while i < MAX_ORDER + 1
            invariant
                i <= MAX_ORDER + 1,
                free_lists@.len() == i,
                forall|o: int| 0 <= o < i ==> (#[trigger] free_lists@[o])@.len() == 0,
            decreases MAX_ORDER + 1 - i,
        {
            free_lists.push(Vec::new());
            i = i + 1;
        }
        BuddyAllocator { free_lists, heap_start: 0, heap_size: 0 }
    }

    /// Hand the allocator a heap region: the largest block that fits the
    /// region joins the free lists. A region smaller than one page is
    /// recorded but contributes no block.
    pub fn init(&mut self, heap_start: usize, heap_size: usize)
        requires
            old(self).wf(),
        ensures
            final(self).wf(),
            final(self).spec_heap_start() == heap_start,
            final(self).spec_heap_size() == heap_size,
            heap_size >= PAGE_SIZE ==> exists|o: int|
                0 <= o <= MAX_ORDER as int && #[trigger] final(self).spec_free(o).len() > 0,
    {
        self.heap_start = heap_start;
        self.heap_size = heap_size;
        if heap_size < PAGE_SIZE {
            return ;
        }
        // the largest order whose block still fits the region
        let mut order: usize = 0;
        let mut grown: bool = true;
        while order < MAX_ORDER && grown
            invariant
                order <= MAX_ORDER,
                self.wf(),
                self.heap_start == heap_start,
                self.heap_size == heap_size,
            decreases MAX_ORDER - order, (if grown { 1int } else { 0int }),
        {
            let next = block_bytes_exec(order + 1);
            if next <= heap_size {
                order = order + 1;
            } else {
                grown = false;
            }
        }
        self.free_lists[order].push(heap_start);
        proof {
            assert(self.spec_free(order as int).len() > 0);
        }
    }

    /// Allocate a block that covers `size` bytes at `align` alignment.
    ///
    /// The request is rounded up to the smallest order that covers it; a
    /// free block of that order is handed out, splitting a larger one on
    /// the way down and returning the split-off upper halves to their
    /// lists. The call succeeds exactly when some free block fits the
    /// request.
    pub fn allocate(&mut self, size: usize, align: usize) -> (r: Option<usize>)
        requires
            old(self).wf(),
        ensures
            final(self).wf(),
            final(self).spec_heap_start() == old(self).spec_heap_start(),
            final(self).spec_heap_size() == old(self).spec_heap_size(),
            r is Some <==> exists|l: int|
                0 <= l <= MAX_ORDER as int && fits(
                    (if size > align { size } else { align }) as nat,
                    l as nat,
                ) && #[trigger] old(self).spec_free(l).len() > 0,
    {
        let want = if size > align {
            size
        } else {
            align
        };
        if want > block_bytes_exec(MAX_ORDER) {
            // larger than the largest block
            proof {
                assert forall|l: int|
                    0 <= l <= MAX_ORDER as int implies !(fits(want as nat, l as nat) && old(
                    self,
                ).spec_free(l).len() > 0) by {
                    if fits(want as nat, l as nat) {
                        lemma_fits_monotone(want as nat, l as nat, MAX_ORDER as nat);
                    }
                }
            }
            return None;
        }
        // the smallest order whose block covers the request
        let mut order: usize = 0;
        let mut covered: bool = block_bytes_exec(0) >= want;
        while order < MAX_ORDER && !covered
            invariant
                order <= MAX_ORDER,
                self.wf(),
                *self == *old(self),
                covered == fits(want as nat, order as nat),
                forall|o: int| 0 <= o < order ==> !(#[trigger] fits(want as nat, o as nat)),
            decreases MAX_ORDER - order,
        {
            order = order + 1;
            covered = block_bytes_exec(order) >= want;
        }
        // the first order at or above the request with a free block
        let mut level: usize = order;
        while level <= MAX_ORDER && self.free_lists[level].len() == 0
            invariant
                order <= level <= MAX_ORDER + 1,
                self.wf(),
                *self == *old(self),
                fits(want as nat, order as nat),
                forall|o: int| 0 <= o < order ==> !(#[trigger] fits(want as nat, o as nat)),
                forall|o: int| order <= o < level ==> #[trigger] self.spec_free(o).len() == 0,
            decreases MAX_ORDER + 1 - level,
        {
            level = level + 1;
        }
        if level > MAX_ORDER {
            proof {
                assert forall|l: int|
                    0 <= l <= MAX_ORDER as int implies !(fits(want as nat, l as nat) && old(
                    self,
                ).spec_free(l).len() > 0) by {
                    if l >= order {
                        assert(self.spec_free(l).len() == 0);
                    }
                }
            }
            return None;
        }
        proof {
            lemma_fits_monotone(want as nat, order as nat, level as nat);
            assert(fits(want as nat, level as nat) && old(self).spec_free(level as int).len() > 0);
        }
        let list_len = self.free_lists[level].len();
        let tail = self.free_lists[level].split_off(list_len - 1);
        let addr = tail[0];
        // split the block down to the requested order, returning the
        // upper halves; a half that would wrap the address space is
        // dropped rather than listed
        let mut current = level;
        while current > order
            invariant
                order <= current <= MAX_ORDER,
                self.wf(),
                self.heap_start == old(self).spec_heap_start(),
                self.heap_size == old(self).spec_heap_size(),
            decreases current,
        {
            current = current - 1;
            let half = block_bytes_exec(current);
            if addr <= usize::MAX - half {
                let buddy = addr + half;
                self.free_lists[current].push(buddy);
            }
        }
        Some(addr)
    }
}

} // verus!
