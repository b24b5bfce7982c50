use std::cell::RefCell;
use std::collections::HashMap;
use std::rc::Rc;

use nvme_driver::bus::NvmeBus;
use nvme_driver::cmd::Command;
use nvme_driver::error::NvmeError;
use nvme_driver::memory::{Dma, NvmeAllocator, PrpManager, PrpResult};
use nvme_driver::queues::{CompQueue, Completion, SubQueue};

const PHYS_OFFSET: usize = 0x7000_0000;

struct FakeMemInner {
    bytes: HashMap<usize, u8>,
    commands: HashMap<usize, Command>,
    completions: HashMap<usize, Completion>,
    next_alloc: usize,
}

/// Plain shared memory: a byte store for DMA pages, typed slot stores for
/// command and completion entries, and a bump allocator.
#[derive(Clone)]
struct FakeMem(Rc<RefCell<FakeMemInner>>);

impl FakeMem {
    fn new() -> FakeMem {
        FakeMem(Rc::new(RefCell::new(FakeMemInner {
            bytes: HashMap::new(),
            commands: HashMap::new(),
            completions: HashMap::new(),
            next_alloc: 0x10_0000,
        })))
    }

    fn put_completion(&self, addr: usize, entry: Completion) {
        self.0.borrow_mut().completions.insert(addr, entry);
    }

    fn command_at(&self, addr: usize) -> Option<Command> {
        self.0.borrow().commands.get(&addr).copied()
    }

    fn mem_u64(&self, addr: usize) -> u64 {
        let inner = self.0.borrow();
        let mut v: u64 = 0;
        for i in 0..8 {
            v |= (*inner.bytes.get(&(addr + i)).unwrap_or(&0) as u64) << (8 * i);
        }
        v
    }

    fn allocated(&self) -> usize {
        self.0.borrow().next_alloc
    }
}

impl NvmeAllocator for FakeMem {
    // Erased spec item; mirrors `translate` and is never called at runtime.
    fn spec_translate(&self, addr: usize) -> usize {
        addr + PHYS_OFFSET
    }

    fn translate(&self, addr: usize) -> usize {
        addr + PHYS_OFFSET
    }

    fn allocate(&self, size: usize) -> usize {
        let mut inner = self.0.borrow_mut();
        let addr = inner.next_alloc;
        inner.next_alloc += size.max(4096);
        addr
    }

    fn deallocate(&self, _addr: usize) {}
}

impl NvmeBus for FakeMem {
    fn read_u8(&self, addr: usize) -> u8 {
        *self.0.borrow().bytes.get(&addr).unwrap_or(&0)
    }

    fn read_u32(&self, addr: usize) -> u32 {
        let inner = self.0.borrow();
        let mut v: u32 = 0;
        for i in 0..4 {
            v |= (*inner.bytes.get(&(addr + i)).unwrap_or(&0) as u32) << (8 * i);
        }
        v
    }

    fn read_u64(&self, addr: usize) -> u64 {
        self.mem_u64(addr)
    }

    fn write_u32(&self, addr: usize, value: u32) {
        let mut inner = self.0.borrow_mut();
        for i in 0..4 {
            inner.bytes.insert(addr + i, (value >> (8 * i)) as u8);
        }
    }

    fn write_u64(&self, addr: usize, value: u64) {
        let mut inner = self.0.borrow_mut();
        for i in 0..8 {
            inner.bytes.insert(addr + i, (value >> (8 * i)) as u8);
        }
    }

    fn write_command(&self, addr: usize, entry: &Command) {
        self.0.borrow_mut().commands.insert(addr, *entry);
    }

    fn read_completion(&self, addr: usize) -> Completion {
        *self.0.borrow().completions.get(&addr).unwrap_or(&Completion {
            command_specific: 0,
            reserved: 0,
            sq_head: 0,
            sq_id: 0,
            cmd_id: 0,
            status: 0,
        })
    }
}

fn t(addr: usize) -> u64 {
    (addr + PHYS_OFFSET) as u64
}

#[test]
fn dma_buffer_invariant() {
    let mem = FakeMem::new();
    let dma = Dma::allocate(&mem, 100);
    assert_eq!(dma.addr % 4096, 0);
    assert_eq!(dma.phys_addr, dma.addr + PHYS_OFFSET);
    assert_eq!(dma.size, 4096);
}

#[test]
fn submission_ring_capacity_boundary() {
    let mem = FakeMem::new();
    let mut sq = SubQueue::new(4, &mem, &mem);
    let cmd = Command::read_write(0, 1, 0, 0, [0, 0], false);
    // A ring of capacity N holds N-1 commands.
    assert_eq!(sq.try_push(cmd, &mem), Ok(1));
    assert_eq!(sq.try_push(cmd, &mem), Ok(2));
    assert_eq!(sq.try_push(cmd, &mem), Ok(3));
    assert_eq!(sq.try_push(cmd, &mem), Err(NvmeError::QueueFull));
    assert_eq!(sq.push(cmd, &mem), Err(NvmeError::QueueFull));
    // Once completions move the head, one more slot frees up.
    sq.head = 1;
    assert_eq!(sq.try_push(cmd, &mem), Ok(0));
    assert_eq!(sq.tail, 0);
    assert!(sq.head < 4 && sq.tail < 4);
}

#[test]
fn submission_ring_writes_slots() {
    let mem = FakeMem::new();
    let mut sq = SubQueue::new(4, &mem, &mem);
    let base = sq.data.addr;
    let cmd = Command::read_write(5, 1, 9, 0, [0x123, 0], true);
    sq.try_push(cmd, &mem).unwrap();
    let written = mem.command_at(base).expect("slot 0 written");
    assert_eq!(written.cmd_id, 5);
    assert_eq!(written.cmd_10, 9);
    assert_eq!(written.opcode, 1);
}

fn completion_with(status: u16, sq_head: u16) -> Completion {
    Completion { command_specific: 0, reserved: 0, sq_head, sq_id: 0, cmd_id: 0, status }
}

#[test]
fn completion_ring_phase_over_full_wrap() {
    let mem = FakeMem::new();
    let mut cq = CompQueue::new(4, &mem, &mem);
    let base = cq.data.addr;
    // Nothing fresh yet: all slots read as zero, phase is true.
    assert_eq!(cq.try_pop(&mem), None);
    // The controller writes the first pass with the phase bit set.
    for slot in 0..4 {
        mem.put_completion(base + 16 * slot, completion_with(1, slot as u16 + 1));
    }
    for want_head in [1usize, 2, 3, 0] {
        let (head, entry) = cq.try_pop(&mem).expect("fresh entry");
        assert_eq!(head, want_head);
        assert_eq!(entry.status & 1, 1);
    }
    // One full traversal flipped the phase exactly once.
    assert_eq!(cq.head, 0);
    assert_eq!(cq.phase, false);
    // A stale first-pass entry at slot 0 is not consumed again...
    assert_eq!(cq.try_pop(&mem), None);
    // ...but a second-pass entry, with status bit 0 clear, is.
    mem.put_completion(base, completion_with(0, 1));
    let (head, entry) = cq.try_pop(&mem).expect("second pass entry");
    assert_eq!(head, 1);
    assert_eq!(entry.status & 1, 0);
}

#[test]
fn completion_ring_pop_n_returns_final_entry() {
    let mem = FakeMem::new();
    let mut cq = CompQueue::new(8, &mem, &mem);
    let base = cq.data.addr;
    for slot in 0..3 {
        mem.put_completion(base + 16 * slot, completion_with(1, slot as u16 + 1));
    }
    let (head, entry) = cq.pop_n(3, &mem).expect("final completion");
    assert_eq!(head, 3);
    assert_eq!(entry.sq_head, 3);
    assert_eq!(cq.head, 3);
    assert_eq!(cq.phase, true);
}

#[test]
fn completion_ring_pop_n_toggles_phase_across_wrap() {
    let mem = FakeMem::new();
    let mut cq = CompQueue::new(4, &mem, &mem);
    let base = cq.data.addr;
    // Consume two first-pass entries so head sits at 2.
    for slot in 0..2 {
        mem.put_completion(base + 16 * slot, completion_with(1, slot as u16 + 1));
    }
    cq.try_pop(&mem).expect("slot 0");
    cq.try_pop(&mem).expect("slot 1");
    assert_eq!(cq.head, 2);
    // The controller finishes the first pass and starts the second: the
    // entry at slot 0 carries a cleared phase bit.
    for slot in 2..4 {
        mem.put_completion(base + 16 * slot, completion_with(1, slot as u16 + 1));
    }
    mem.put_completion(base, completion_with(0, 1));
    // Skipping two consumed slots crosses the ring boundary, so the jump
    // itself toggles the phase; the final entry is read from slot 0.
    let (head, entry) = cq.pop_n(3, &mem).expect("final completion");
    assert_eq!(head, 1);
    assert_eq!(entry.status & 1, 0);
    assert_eq!(cq.head, 1);
    assert_eq!(cq.phase, false);
}

#[test]
fn prp_single_page() {
    let mem = FakeMem::new();
    let mut mgr = PrpManager::default();
    // An unaligned buffer inside one page needs only PRP1.
    match mgr.create(&mem, &mem, 0x10200, 512).unwrap() {
        PrpResult::Single(prp1) => assert_eq!(prp1 as u64, t(0x10200)),
        _ => panic!("expected Single"),
    }
}

#[test]
fn prp_double_page() {
    let mem = FakeMem::new();
    let mut mgr = PrpManager::default();
    match mgr.create(&mem, &mem, 0x10000, 8192).unwrap() {
        PrpResult::Double(prp1, prp2) => {
            assert_eq!(prp1 as u64, t(0x10000));
            assert_eq!(prp2 as u64, t(0x11000));
        }
        _ => panic!("expected Double"),
    }
}

#[test]
fn prp_alignment_errors() {
    let mem = FakeMem::new();
    let mut mgr = PrpManager::default();
    // Not 4-byte aligned: refused even within one page.
    assert!(matches!(
        mgr.create(&mem, &mem, 0x10002, 16),
        Err(NvmeError::NotAlignedToDword)
    ));
    // Dword-aligned but crossing pages without page alignment.
    assert!(matches!(
        mgr.create(&mem, &mem, 0x10008, 8192),
        Err(NvmeError::NotAlignedToPage)
    ));
}

#[test]
fn prp_three_page_list() {
    let mem = FakeMem::new();
    let mut mgr = PrpManager::default();
    let r = mgr.create(&mem, &mem, 0x10000, 3 * 4096).unwrap();
    match &r {
        PrpResult::List(prp1, lists) => {
            assert_eq!(*prp1 as u64, t(0x10000));
            assert_eq!(lists.len(), 1);
            let page = &lists[0];
            assert_eq!(page.entries[0], t(0x11000));
            assert_eq!(page.entries[1], t(0x12000));
            for i in 2..512 {
                assert_eq!(page.entries[i], 0);
            }
            // The same entries were stored into the page itself.
            assert_eq!(mem.mem_u64(page.dma.addr), t(0x11000));
            assert_eq!(mem.mem_u64(page.dma.addr + 8), t(0x12000));
            assert_eq!(mem.mem_u64(page.dma.addr + 8 * 511), 0);
            assert_eq!(r.get_prp(), ((t(0x10000)) as usize, page.dma.phys_addr));
        }
        _ => panic!("expected List"),
    }
}

#[test]
fn prp_1024_page_list_chains() {
    let mem = FakeMem::new();
    let mut mgr = PrpManager::default();
    let base = 0x40_0000;
    let r = mgr.create(&mem, &mem, base, 1024 * 4096).unwrap();
    match &r {
        PrpResult::List(prp1, lists) => {
            assert_eq!(*prp1 as u64, t(base));
            assert_eq!(lists.len(), 2);
            let (page0, page1) = (&lists[0], &lists[1]);
            // 1023 remaining pages split 511 + 512.
            assert_eq!(page0.entries[0], t(base + 4096));
            assert_eq!(page0.entries[510], t(base + 4096 * 511));
            assert_eq!(page0.entries[511], page1.dma.phys_addr as u64);
            assert_eq!(page1.entries[0], t(base + 4096 * 512));
            assert_eq!(page1.entries[511], t(base + 4096 * 1023));
            // The chain pointer is in the page's memory too.
            assert_eq!(mem.mem_u64(page0.dma.addr + 8 * 511), page1.dma.phys_addr as u64);
        }
        _ => panic!("expected List"),
    }
}

#[test]
fn prp_pool_reuses_released_pages() {
    let mem = FakeMem::new();
    let mut mgr = PrpManager::default();
    let r = mgr.create(&mem, &mem, 0x10000, 3 * 4096).unwrap();
    let page_addr = match &r {
        PrpResult::List(_, lists) => lists[0].dma.addr,
        _ => panic!("expected List"),
    };
    mgr.release(r, &mem);
    let watermark = mem.allocated();
    let r2 = mgr.create(&mem, &mem, 0x10000, 4 * 4096).unwrap();
    match &r2 {
        PrpResult::List(_, lists) => assert_eq!(lists[0].dma.addr, page_addr),
        _ => panic!("expected List"),
    }
    // Nothing new was allocated for the second build.
    assert_eq!(mem.allocated(), watermark);
    // Releasing a Single returns nothing to the pool and allocates nothing.
    let single = mgr.create(&mem, &mem, 0x10000, 512).unwrap();
    mgr.release(single, &mem);
    assert_eq!(mem.allocated(), watermark);
}
