use vstd::prelude::*;
use crate::bus::NvmeBus;
use crate::error::NvmeError;

verus! {

/// The collaborator that hands out physically contiguous, page-aligned DMA
/// memory and translates host-virtual addresses to physical ones.
///
/// The core never touches page tables itself; everything it knows about
/// memory layout it knows through this trait. The contracts below are the
/// allocator's side of the bargain: `translate` is a pure function of the
/// address, and `allocate` returns a page-aligned region that fits in the
/// address space.
pub trait NvmeAllocator {
    /// The translation as a mathematical function, so that contracts can
    /// talk about physical addresses.
    spec fn spec_translate(&self, addr: usize) -> usize;

    /// Translates a host-virtual address to the physical address the
    /// controller must use.
    fn translate(&self, addr: usize) -> (r: usize)
        ensures
            r == self.spec_translate(addr),
    ;

    /// Allocates `size` bytes of physically contiguous memory and returns
    /// the host-virtual address of its start.
    fn allocate(&self, size: usize) -> (r: usize)
        requires
            size >= 1,
            size % 4096 == 0,
        ensures
            r % 4096 == 0,
            r + size <= usize::MAX,
    ;

    /// Releases a region previously returned by `allocate`.
    fn deallocate(&self, addr: usize);
}

/// A page-aligned DMA region: the host-virtual address the core reads and
/// writes through the bus, the physical address the controller is told, and
/// the region's size in bytes.
#[derive(Debug, Clone, Copy, PartialEq, Eq, Structural)]
pub struct Dma {
    /// Host-virtual start address.
    pub addr: usize,
    /// Physical start address, as the allocator translated `addr`.
    pub phys_addr: usize,
    /// Usable size in bytes, always a whole number of pages.
    pub size: usize,
}

impl Dma {
    /// A region the core may address: page-aligned and lying entirely
    /// inside the address space.
    pub open spec fn wf(self) -> bool {
        &&& self.addr % 4096 == 0
        &&& self.size >= 4096
        &&& self.addr + self.size <= usize::MAX
    }

    /// Allocates a region of at least `size` bytes, rounded up to a whole
    /// number of pages. The physical address is the allocator's translation
    /// of the virtual one.
    pub fn allocate<A: NvmeAllocator>(allocator: &A, size: usize) -> (r: Dma)
        requires
            1 <= size <= usize::MAX - 4095,
        ensures
            r.wf(),
            r.size == ((size + 4095) / 4096) * 4096,
            r.size >= size,
            r.size % 4096 == 0,
            r.phys_addr == allocator.spec_translate(r.addr),
    {
        let rounded: usize = ((size + 4095) / 4096) * 4096;
        let addr = allocator.allocate(rounded);
        let phys_addr = allocator.translate(addr);
        Dma { addr, phys_addr, size: rounded }
    }

    /// Returns the region to the allocator.
    pub fn deallocate<A: NvmeAllocator>(&self, allocator: &A) {
        allocator.deallocate(self.addr);
    }
}

/// How many 4096-byte pages the transfer `(address, bytes)` spans.
pub open spec fn page_count(address: usize, bytes: usize) -> int {
    ((address % 4096) + bytes + 4095) / 4096
}

/// How many PRP list pages a transfer of `n` pages needs, for `n >= 3`:
/// the first page travels in PRP1, and each list page carries up to 511
/// further pages plus a chain pointer (512 in the final list, which needs
/// no chain).
pub open spec fn lists_needed(n: int) -> int {
    (n - 2 + 510) / 511
}

/// How many payload entries list page `k` carries, out of a transfer of `n`
/// pages: full lists hold 511, the final list holds the rest.
pub open spec fn list_payload(n: int, k: int) -> int {
    if k < lists_needed(n) - 1 {
        511
    } else {
        n - 1 - 511 * k
    }
}

/// Payload entry `i` of list page `k`: the physical address of the
/// transfer's page `1 + 511*k + i` (page 0 travels in PRP1).
pub open spec fn prp_entry<A: NvmeAllocator>(alloc: A, address: usize, k: int, i: int) -> u64 {
    alloc.spec_translate((address + 4096 * (1 + 511 * k + i)) as usize) as u64
}

/// One PRP list page: the DMA page the controller will walk, and a mirror
/// of the 512 eight-byte entries written into it.
#[derive(Debug, Clone)]
pub struct PrpList {
    /// The page itself; its physical address goes into PRP2 or into the
    /// previous list's chain slot.
    pub dma: Dma,
    /// The 512 entries as they were stored into the page.
    pub entries: Vec<u64>,
}

/// The PRP layout chosen for one transfer.
#[derive(Debug, Clone)]
pub enum PrpResult {
    /// The transfer fits in one page: PRP1 alone.
    Single(usize),
    /// Exactly two pages: PRP1 plus PRP2 as a direct pointer.
    Double(usize, usize),
    /// More than two pages: PRP1 plus a chain of list pages.
    List(usize, Vec<PrpList>),
}

/// The lists of a `PrpResult::List` built for `(address, bytes)` spanning
/// `n` pages: every payload slot holds the translation of the right page,
/// every chain slot holds the next list's physical address, and every other
/// slot is zero.
pub open spec fn lists_ok<A: NvmeAllocator>(
    alloc: A,
    address: usize,
    n: int,
    lists: Seq<PrpList>,
) -> bool {
    &&& lists.len() == lists_needed(n)
    &&& (forall|k: int| 0 <= k < lists.len() ==> (#[trigger] lists[k].entries)@.len() == 512)
    &&& (forall|k: int| 0 <= k < lists.len() ==> (#[trigger] lists[k].dma).wf())
    &&& (forall|k: int, i: int|
        0 <= k < lists.len() && 0 <= i < list_payload(n, k) ==> #[trigger] lists[k].entries@[i]
            == prp_entry(alloc, address, k, i))
    &&& (forall|k: int|
        0 <= k < lists.len() - 1 ==> (#[trigger] lists[k].entries)@[511] == lists[k
            + 1].dma.phys_addr as u64)
    &&& (forall|k: int, i: int|
        0 <= k < lists.len() && list_payload(n, k) <= i < 512 && !(k < lists.len() - 1 && i == 511)
            ==> #[trigger] lists[k].entries@[i] == 0)
}

/// What a successful PRP build returns for `(address, bytes)`, as a
/// function of the allocator's translation.
pub open spec fn prp_ok<A: NvmeAllocator>(
    alloc: A,
    address: usize,
    bytes: usize,
    r: PrpResult,
) -> bool {
    let n = page_count(address, bytes);
    if n <= 1 {
        r == PrpResult::Single(alloc.spec_translate(address))
    } else if n == 2 {
        r == PrpResult::Double(
            alloc.spec_translate(address),
            alloc.spec_translate((address + 4096) as usize),
        )
    } else {
        &&& r matches PrpResult::List(prp1, lists)
        &&& prp1 == alloc.spec_translate(address)
        &&& lists_ok(alloc, address, n, lists@)
    }
}

impl PrpResult {
    /// Structurally sound: a `List` has at least one list page and every
    /// list page is addressable.
    pub open spec fn wf(self) -> bool {
        match self {
            PrpResult::Single(_) => true,
            PrpResult::Double(_, _) => true,
            PrpResult::List(_, lists) => {
                &&& lists@.len() >= 1
                &&& forall|k: int| 0 <= k < lists@.len() ==> (#[trigger] lists@[k].dma).wf()
            },
        }
    }

    /// The two pointer fields to store in a command's PRP1 and PRP2 slots:
    /// `Single` leaves PRP2 zero, `Double` points PRP2 at the second page,
    /// `List` points PRP2 at the first list page.
    pub fn get_prp(&self) -> (r: (usize, usize))
        requires
            self.wf(),
        ensures
            r == match *self {
                PrpResult::Single(prp) => (prp, 0usize),
                PrpResult::Double(prp1, prp2) => (prp1, prp2),
                PrpResult::List(prp1, lists) => (prp1, lists@[0].dma.phys_addr),
            },
    {
        match self {
            PrpResult::Single(prp) => (*prp, 0),
            PrpResult::Double(prp1, prp2) => (*prp1, *prp2),
            PrpResult::List(prp1, prp_lists) => (*prp1, prp_lists[0].dma.phys_addr),
        }
    }
}

/// A queue of spare PRP list pages with a fixed capacity.
pub struct FixedSizeQueue {
    /// The pooled pages, oldest first.
    pub queue: Vec<Dma>,
    /// The most pages the pool will hold.
    pub capacity: usize,
}

impl FixedSizeQueue {
    /// Within capacity, and every pooled page addressable.
    pub open spec fn wf(self) -> bool {
        &&& self.queue@.len() <= self.capacity
        &&& forall|i: int| 0 <= i < self.queue@.len() ==> (#[trigger] self.queue@[i]).wf()
    }

    /// An empty pool with the given capacity.
    pub fn new(capacity: usize) -> (r: FixedSizeQueue)
        ensures
            r.wf(),
            r.capacity == capacity,
            r.queue@.len() == 0,
    {
        FixedSizeQueue { queue: Vec::new(), capacity }
    }

    /// Whether a further `push` would be refused.
    pub fn is_full(&self) -> (r: bool)
        ensures
            r == (self.queue@.len() >= self.capacity),
    {
        self.queue.len() >= self.capacity
    }

    /// Takes the oldest pooled page, if any.
    pub fn pop(&mut self) -> (r: Option<Dma>)
        requires
            old(self).wf(),
        ensures
            final(self).wf(),
            final(self).capacity == old(self).capacity,
            old(self).queue@.len() == 0 ==> r is None && *final(self) == *old(self),
            old(self).queue@.len() > 0 ==> r == Some(old(self).queue@[0]) && final(self).queue@
                == old(self).queue@.drop_first(),
    {
        if self.queue.len() > 0 {
            Some(self.queue.remove(0))
        } else {
            None
        }
    }

    /// Stores a page unless the pool is at capacity.
    pub fn push(&mut self, item: Dma) -> (r: Result<(), NvmeError>)
        requires
            old(self).wf(),
            item.wf(),
        ensures
            final(self).wf(),
            final(self).capacity == old(self).capacity,
            old(self).queue@.len() < old(self).capacity ==> r is Ok && final(self).queue@ == old(self).queue@.push(item),
            old(self).queue@.len() >= old(self).capacity ==> r == Err::<(), NvmeError>(
                NvmeError::QueueFull,
            ) && *final(self) == *old(self),
    {
        if self.queue.len() < self.capacity {
            self.queue.push(item);
            Ok(())
        } else {
            Err(NvmeError::QueueFull)
        }
    }
}

/// Builds PRP descriptors for transfers and keeps a bounded pool of list
/// pages for reuse, so that multi-page transfers do not allocate every time.
pub struct PrpManager {
    /// Spare list pages.
    pub list_pool: FixedSizeQueue,
}

/// The default number of list pages the pool retains.
pub const PRP_POOL_CAPACITY: usize = 32;

impl Default for PrpManager {
    /// A manager with an empty pool of the default capacity.
    fn default() -> (r: PrpManager)
        ensures
            r.wf(),
            r.list_pool.queue@.len() == 0,
    {
        PrpManager { list_pool: FixedSizeQueue::new(PRP_POOL_CAPACITY) }
    }
}

impl PrpManager {
    /// The pool is sound.
    pub open spec fn wf(self) -> bool {
        self.list_pool.wf()
    }

    /// Takes a page from the pool, or allocates a fresh one.
    fn take_page<A: NvmeAllocator>(&mut self, allocator: &A) -> (r: Dma)
        requires
            old(self).wf(),
        ensures
            final(self).wf(),
            final(self).list_pool.capacity == old(self).list_pool.capacity,
            r.wf(),
    {
        match self.list_pool.pop() {
            Some(page) => page,
            None => Dma::allocate(allocator, 4096),
        }
    }

    /// Builds the PRP descriptors for the transfer `(address, bytes)` and
    /// stores every list entry into its list page through the bus.
    ///
    /// A transfer inside one page needs only 4-byte alignment and becomes
    /// `Single`; any transfer that crosses a page boundary must start
    /// page-aligned; two pages become `Double`; more become a chain of list
    /// pages, each holding 511 payload pointers and a chain pointer, except
    /// the final one, which may hold 512 payload pointers.
    pub fn create<A: NvmeAllocator, B: NvmeBus>(
        &mut self,
        allocator: &A,
        bus: &B,
        address: usize,
        bytes: usize,
    ) -> (r: Result<PrpResult, NvmeError>)
        requires
            old(self).wf(),
            1 <= bytes <= usize::MAX - 8192,
            address + bytes + 4096 <= usize::MAX,
        ensures
            final(self).wf(),
            final(self).list_pool.capacity == old(self).list_pool.capacity,
            r == Err::<PrpResult, NvmeError>(NvmeError::NotAlignedToDword) <==> address % 4 != 0,
            r == Err::<PrpResult, NvmeError>(NvmeError::NotAlignedToPage) <==> (address % 4 == 0
                && page_count(address, bytes) >= 2 && address % 4096 != 0),
            r is Ok <==> (address % 4 == 0 && (page_count(address, bytes) < 2 || address % 4096
                == 0)),
            r matches Ok(p) ==> p.wf() && prp_ok(*allocator, address, bytes, p),
            r matches Ok(p) && p is Single ==> address % 4096 + bytes <= 4096,
            r matches Ok(p) && p is Double ==> bytes <= 2 * 4096 && address % 4096 == 0,
            r is Err ==> *final(self) == *old(self),
            r matches Ok(p) && !(p is List) ==> *final(self) == *old(self),
    {
        let n: usize = ((address % 4096) + bytes + 4095) / 4096;
        let prp1 = allocator.translate(address);

        if address % 4 != 0 {
            return Err(NvmeError::NotAlignedToDword);
        }
        if n == 1 {
            return Ok(PrpResult::Single(prp1));
        }
        if address % 4096 != 0 {
            return Err(NvmeError::NotAlignedToPage);
        }
        let prp2_start = allocator.translate(address + 4096);
        if n == 2 {
            return Ok(PrpResult::Double(prp1, prp2_start));
        }

        let remaining: usize = n - 1;
        let lists_count: usize = (remaining - 1 + 510) / 511;
        proof {
            assert(lists_count == lists_needed(n as int));
            assert(511 * (lists_count - 1) <= n - 3);
            assert(n - 2 <= 511 * lists_count);
        }

        let mut pages: Vec<Dma> = Vec::new();
        while pages.len() < lists_count
            invariant
                self.wf(),
                self.list_pool.capacity == old(self).list_pool.capacity,
                pages@.len() <= lists_count,
                forall|j: int| 0 <= j < pages@.len() ==> (#[trigger] pages@[j]).wf(),
            decreases lists_count - pages@.len(),
        {
            let page = self.take_page(allocator);
            pages.push(page);
        }

        let mut prp_lists: Vec<PrpList> = Vec::new();
        let mut k: usize = 0;
        while k < lists_count
            invariant
                1 <= lists_count,
                511 * (lists_count - 1) <= n - 3,
                n - 2 <= 511 * lists_count,
                lists_count == lists_needed(n as int),
                n == page_count(address, bytes),
                3 <= n,
                remaining == n - 1,
                address % 4096 == 0,
                address + bytes + 4096 <= usize::MAX,
                4096 * n <= bytes + 4095,
                k <= lists_count,
                pages@.len() == lists_count,
                forall|j: int| 0 <= j < lists_count ==> (#[trigger] pages@[j]).wf(),
                prp_lists@.len() == k,
                forall|j: int| 0 <= j < k ==> (#[trigger] prp_lists@[j]).dma == pages@[j],
                forall|j: int| 0 <= j < k ==> (#[trigger] prp_lists@[j]).entries@.len() == 512,
                forall|j: int, i: int|
                    0 <= j < k && 0 <= i < list_payload(n as int, j)
                        ==> #[trigger] prp_lists@[j].entries@[i] == prp_entry(
                        *allocator,
                        address,
                        j,
                        i,
                    ),
                forall|j: int|
                    0 <= j < k && j < lists_count - 1 ==> (#[trigger] prp_lists@[j]).entries@[511]
                        == pages@[j + 1].phys_addr as u64,
                forall|j: int, i: int|
                    0 <= j < k && list_payload(n as int, j) <= i < 512 && !(j < lists_count - 1 && i
                        == 511) ==> #[trigger] prp_lists@[j].entries@[i] == 0,
            decreases lists_count - k,
        {
            let cnt: usize = if k + 1 < lists_count {
                511
            } else {
                remaining - k * 511
            };
            proof {
                assert(cnt == list_payload(n as int, k as int));
                assert(1 + (k as int) * 511 + (cnt - 1) <= n - 1);
            }
            let page_k = pages[k];
            let mut entries: Vec<u64> = Vec::new();
            let mut i: usize = 0;
            while i < 512
                invariant
                    i <= 512,
                    entries@.len() == i,
                    cnt == list_payload(n as int, k as int),
                    lists_count == lists_needed(n as int),
                    1 <= cnt <= 512,
                    k < lists_count,
                    pages@.len() == lists_count,
                    forall|j: int| 0 <= j < lists_count ==> (#[trigger] pages@[j]).wf(),
                    page_k == pages@[k as int],
                    address % 4096 == 0,
                    address + bytes + 4096 <= usize::MAX,
                    4096 * n <= bytes + 4095,
                    1 + (k as int) * 511 + (cnt - 1) <= n - 1,
                    forall|q: int|
                        0 <= q < i && q < cnt ==> #[trigger] entries@[q] == prp_entry(
                            *allocator,
                            address,
                            k as int,
                            q,
                        ),
                    forall|q: int|
                        cnt <= q < i && !(q == 511 && (k as int) < lists_count - 1)
                            ==> #[trigger] entries@[q] == 0,
                    (k as int) < lists_count - 1 && 511 < i ==> entries@[511] == pages@[k + 1
                        ].phys_addr as u64,
                decreases 512 - i,
            {
                let v: u64 = if i < cnt {
                    allocator.translate(address + 4096 * (1 + k * 511 + i)) as u64
                } else if i == 511 && k + 1 < lists_count {
                    pages[k + 1].phys_addr as u64
                } else {
                    0
                };
                bus.write_u64(page_k.addr + 8 * i, v);
                entries.push(v);
                i = i + 1;
            }
            prp_lists.push(PrpList { dma: page_k, entries });
            k = k + 1;
        }

        proof {
            assert(lists_ok(*allocator, address, n as int, prp_lists@));
        }
        Ok(PrpResult::List(prp1, prp_lists))
    }

    /// How many of `n` released pages fit into a pool that holds `len` of
    /// `cap` entries: all of them while there is room, the rest are handed
    /// back to the allocator.
    pub open spec fn pool_intake(len: int, cap: int, n: int) -> int {
        if len + n <= cap {
            n
        } else {
            cap - len
        }
    }

    /// Releases the resources of a PRP result this manager built: each list
    /// page goes back to the pool, oldest first, while the pool has room,
    /// and is returned to the allocator once it is full. `Single` and
    /// `Double` own nothing, so releasing them changes nothing.
    pub fn release<A: NvmeAllocator>(&mut self, prp_result: PrpResult, allocator: &A)
        requires
            old(self).wf(),
            prp_result.wf(),
        ensures
            final(self).wf(),
            final(self).list_pool.capacity == old(self).list_pool.capacity,
            !(prp_result is List) ==> *final(self) == *old(self),
            prp_result matches PrpResult::List(p, ls) ==> final(self).list_pool.queue@ == old(self).list_pool.queue@ + ls@.subrange(
                0,
                Self::pool_intake(
                    old(self).list_pool.queue@.len() as int,
                    old(self).list_pool.capacity as int,
                    ls@.len() as int,
                ),
            ).map_values(|l: PrpList| l.dma),
    {
        if let PrpResult::List(_, prp_lists) = prp_result {
            let mut idx: usize = 0;
            let count = prp_lists.len();
            while idx < count
                invariant
                    self.wf(),
                    self.list_pool.capacity == old(self).list_pool.capacity,
                    count == prp_lists@.len(),
                    idx <= count,
                    forall|j: int| 0 <= j < count ==> (#[trigger] prp_lists@[j].dma).wf(),
                    self.list_pool.queue@ == old(self).list_pool.queue@ + prp_lists@.subrange(
                        0,
                        Self::pool_intake(
                            old(self).list_pool.queue@.len() as int,
                            old(self).list_pool.capacity as int,
                            idx as int,
                        ),
                    ).map_values(|l: PrpList| l.dma),
                decreases count - idx,
            {
                let page = prp_lists[idx].dma;
                if self.list_pool.is_full() {
                    page.deallocate(allocator);
                } else {
                    let _ = self.list_pool.push(page);
                }
                proof {
                    let pre = old(self).list_pool.queue@;
                    let cap = old(self).list_pool.capacity as int;
                    let kept = Self::pool_intake(pre.len() as int, cap, idx as int);
                    let kept_next = Self::pool_intake(pre.len() as int, cap, idx + 1);
                    if kept_next == kept + 1 {
                        assert(prp_lists@.subrange(0, kept_next).map_values(
                            |l: PrpList| l.dma,
                        ) =~= prp_lists@.subrange(0, kept).map_values(|l: PrpList| l.dma).push(
                            prp_lists@[idx as int].dma,
                        ));
                        assert(self.list_pool.queue@ =~= pre + prp_lists@.subrange(
                            0,
                            kept_next,
                        ).map_values(|l: PrpList| l.dma));
                    } else {
                        assert(kept_next == kept);
                    }
                }
                idx = idx + 1;
            }
        }
    }
}

} // verus!
