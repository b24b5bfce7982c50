use vstd::prelude::*;
use crate::bus::NvmeBus;
use crate::cmd::{Command, IdentifyType};
use crate::error::NvmeError;
use crate::identify::{parse_cap, parse_controller_data, parse_namespace_data, parse_namespace_list};
use crate::io::{IoQueueId, IoQueuePair};
use crate::memory::{Dma, NvmeAllocator};
use crate::queues::{CompQueue, Completion, SubQueue, POLL_LIMIT, QUEUE_LENGTH};

verus! {

/// NVMe controller registers, by offset from the MMIO base.
#[derive(Debug, Clone, Copy, PartialEq, Eq, Structural)]
pub enum Register {
    /// Controller Capabilities, 8 bytes at 0x0.
    CAP,
    /// Version, 4 bytes at 0x8.
    VS,
    /// Interrupt Mask Set, 4 bytes at 0xC.
    INTMS,
    /// Interrupt Mask Clear, 4 bytes at 0x10.
    INTMC,
    /// Controller Configuration, 4 bytes at 0x14.
    CC,
    /// Controller Status, 4 bytes at 0x1C.
    CSTS,
    /// NVM Subsystem Reset, 4 bytes at 0x20.
    NSSR,
    /// Admin Queue Attributes, 4 bytes at 0x24.
    AQA,
    /// Admin Submission Queue base physical address, 8 bytes at 0x28.
    ASQ,
    /// Admin Completion Queue base physical address, 8 bytes at 0x30.
    ACQ,
}

impl Register {
    /// The register's offset from the MMIO base.
    pub open spec fn spec_offset(self) -> usize {
        match self {
            Register::CAP => 0x0usize,
            Register::VS => 0x8usize,
            Register::INTMS => 0xCusize,
            Register::INTMC => 0x10usize,
            Register::CC => 0x14usize,
            Register::CSTS => 0x1Cusize,
            Register::NSSR => 0x20usize,
            Register::AQA => 0x24usize,
            Register::ASQ => 0x28usize,
            Register::ACQ => 0x30usize,
        }
    }

    /// The register's offset from the MMIO base.
    pub fn offset(self) -> (r: usize)
        ensures
            r == self.spec_offset(),
    {
        match self {
            Register::CAP => 0x0,
            Register::VS => 0x8,
            Register::INTMS => 0xC,
            Register::INTMC => 0x10,
            Register::CC => 0x14,
            Register::CSTS => 0x1C,
            Register::NSSR => 0x20,
            Register::AQA => 0x24,
            Register::ASQ => 0x28,
            Register::ACQ => 0x30,
        }
    }
}

/// One doorbell register: the submission tail or completion head doorbell
/// of a queue pair.
#[derive(Debug, Clone, Copy, PartialEq, Eq, Structural)]
pub enum Doorbell {
    /// The submission queue tail doorbell of the named queue.
    SubTail(u16),
    /// The completion queue head doorbell of the named queue.
    CompHead(u16),
}

impl Doorbell {
    /// The doorbell's index in the doorbell array: queue `q` owns slots
    /// `2q` (submission tail) and `2q + 1` (completion head).
    pub open spec fn spec_index(self) -> int {
        match self {
            Doorbell::SubTail(qid) => 2 * qid,
            Doorbell::CompHead(qid) => 2 * qid + 1,
        }
    }
}

/// Computes doorbell addresses from the MMIO base and the controller's
/// doorbell stride: the doorbell array starts at base + 0x1000 and each
/// doorbell is `4 << stride` bytes wide.
#[derive(Debug, Clone, Copy, PartialEq, Eq, Structural)]
pub struct DoorbellHelper {
    /// The MMIO base address.
    pub base: usize,
    /// The CAP.DSTRD stride exponent.
    pub stride: u8,
}

impl DoorbellHelper {
    /// The helper can address every doorbell without leaving the address
    /// space: the largest offset is `0x1000 + 131071 * (4 << 15)`.
    pub open spec fn wf(self) -> bool {
        &&& self.stride <= 15
        &&& self.base + 0x4_0000_0000 <= usize::MAX
    }

    /// The MMIO address of a doorbell.
    pub open spec fn spec_address(self, bell: Doorbell) -> int {
        self.base + 0x1000 + bell.spec_index() * ((4usize << self.stride) as int)
    }

    /// A helper for the given MMIO base and stride exponent.
    pub fn new(base: usize, stride: u8) -> (r: DoorbellHelper)
        requires
            stride <= 15,
            base + 0x4_0000_0000 <= usize::MAX,
        ensures
            r.wf(),
            r.base == base,
            r.stride == stride,
    {
        DoorbellHelper { base, stride }
    }

    /// Computes the MMIO address of `bell`.
    pub fn address(&self, bell: Doorbell) -> (r: usize)
        requires
            self.wf(),
        ensures
            r == self.spec_address(bell),
    {
        let width: usize = 4usize << self.stride;
        proof {
            let st = self.stride;
            assert(st <= 15 ==> 4usize << st <= 0x2_0000) by (bit_vector);
        }
        let index: usize = match bell {
            Doorbell::SubTail(qid) => 2 * (qid as usize),
            Doorbell::CompHead(qid) => 2 * (qid as usize) + 1,
        };
        proof {
            assert(index * width <= 131071 * 0x20000) by (nonlinear_arith)
                requires
                    index <= 131071 && width <= 0x2_0000,
            ;
        }
        self.base + 0x1000 + index * width
    }

    /// Rings `bell` with `value` through the bus.
    pub fn write<B: NvmeBus>(&self, bus: &B, bell: Doorbell, value: u32)
        requires
            self.wf(),
    {
        let addr = self.address(bell);
        bus.write_u32(addr, value);
    }
}

/// The CC word that clears the enable bit, everything else kept.
pub fn cc_disabled(cc: u32) -> (r: u32)
    ensures
        r == (cc & !1u32),
{
    cc & !1u32
}

/// The CC word that sets the enable bit, everything else kept.
pub fn cc_enabled(cc: u32) -> (r: u32)
    ensures
        r == (cc | 1u32),
{
    cc | 1
}

/// The CC word programmed before enabling: the reserved bits of the current
/// value (mask 0xFF00_000F), IOCQES = 4 (16-byte completion entries) and
/// IOSQES = 6 (64-byte submission entries).
pub fn cc_io_entry_sizes(cc: u32) -> (r: u32)
    ensures
        r == ((cc & 0xFF00_000F) | (4u32 << 20) | (6u32 << 16)),
{
    (cc & 0xFF00_000F) | (4u32 << 20) | (6u32 << 16)
}

/// The AQA word: the admin rings' zero-based depth in both halves.
pub fn aqa_word() -> (r: u32)
    ensures
        r == ((((QUEUE_LENGTH - 1) as u32) << 16) | ((QUEUE_LENGTH - 1) as u32)),
{
    (((QUEUE_LENGTH - 1) as u32) << 16) | ((QUEUE_LENGTH - 1) as u32)
}

/// What Identify-Controller reported, trimmed and decoded, together with
/// the capability limits the core works from.
#[derive(Debug, Clone)]
pub struct NvmeControllerData {
    /// Serial number, up to 20 ASCII characters.
    pub serial_number: String,
    /// Model number, up to 40 ASCII characters.
    pub model_number: String,
    /// Firmware revision, up to 8 ASCII characters.
    pub firmware_revision: String,
    /// Largest transfer one command may move, in bytes.
    pub max_transfer_size: u64,
    /// The controller's minimum page size in bytes.
    pub min_pagesize: u64,
    /// The deepest queue the controller supports, in entries (MQES + 1).
    pub max_queue_entries: u32,
}

/// One namespace: an independent logical-block address space.
#[derive(Debug, Clone, Copy, PartialEq, Eq, Structural)]
pub struct NvmeNamespace {
    /// The namespace identifier; zero never names a namespace.
    pub id: u32,
    /// Number of logical blocks.
    pub block_count: u64,
    /// Bytes per logical block, a power of two.
    pub block_size: u64,
}

/// The controller facade: the MMIO base, the admin queue pair, a scratch
/// page for Identify responses, the limits read from CAP, and the data
/// Identify-Controller reported. It orchestrates reset, enable, discovery
/// and the I/O queue pair lifecycle.
pub struct NvmeDevice<A: NvmeAllocator, B: NvmeBus> {
    /// The MMIO base address.
    pub address: usize,
    /// The DMA allocator handle.
    pub allocator: A,
    /// The bus handle.
    pub bus: B,
    /// Doorbell addressing for this controller.
    pub doorbell_helper: DoorbellHelper,
    /// The controller's minimum page size in bytes.
    pub min_pagesize: u64,
    /// The minimum page size as a power-of-two exponent.
    pub page_shift: u8,
    /// The deepest queue the controller supports, in entries.
    pub max_queue_entries: u32,
    /// The identifier the next I/O queue pair will get; 0 is the admin
    /// pair's forever.
    pub next_queue_id: u16,
    /// The admin submission ring.
    pub admin_sq: SubQueue,
    /// The admin completion ring.
    pub admin_cq: CompQueue,
    /// One page for Identify responses.
    pub admin_buffer: Dma,
    /// What Identify-Controller reported.
    pub controller_data: NvmeControllerData,
}

impl<A: NvmeAllocator, B: NvmeBus> NvmeDevice<A, B> {
    /// The facade's invariant: sound admin rings of the fixed admin depth,
    /// an addressable scratch page, and doorbell addressing that stays in
    /// the address space.
    pub open spec fn wf(self) -> bool {
        &&& self.admin_sq.wf()
        &&& self.admin_sq.len == QUEUE_LENGTH
        &&& self.admin_cq.wf()
        &&& self.admin_cq.len == QUEUE_LENGTH
        &&& self.admin_buffer.wf()
        &&& self.admin_buffer.size >= 4096
        &&& self.doorbell_helper.wf()
        &&& self.doorbell_helper.base == self.address
        &&& 1 <= self.next_queue_id
        &&& 12 <= self.page_shift <= 27
    }

    /// The fields no admin command changes.
    pub open spec fn same_config(self, other: Self) -> bool {
        &&& self.address == other.address
        &&& self.allocator == other.allocator
        &&& self.bus == other.bus
        &&& self.doorbell_helper == other.doorbell_helper
        &&& self.min_pagesize == other.min_pagesize
        &&& self.page_shift == other.page_shift
        &&& self.max_queue_entries == other.max_queue_entries
        &&& self.admin_buffer == other.admin_buffer
        &&& self.admin_sq.data == other.admin_sq.data
        &&& self.admin_sq.len == other.admin_sq.len
        &&& self.admin_cq.data == other.admin_cq.data
        &&& self.admin_cq.len == other.admin_cq.len
    }

    /// Reads a 32-bit register.
    fn read_reg32(&self, reg: Register) -> (r: u32)
        requires
            self.wf(),
    {
        self.bus.read_u32(self.address + reg.offset())
    }

    /// Writes a 32-bit register.
    fn write_reg32(&self, reg: Register, value: u32)
        requires
            self.wf(),
    {
        self.bus.write_u32(self.address + reg.offset(), value);
    }

    /// Reads a 64-bit register.
    fn read_reg64(&self, reg: Register) -> (r: u64)
        requires
            self.wf(),
    {
        self.bus.read_u64(self.address + reg.offset())
    }

    /// Writes a 64-bit register.
    fn write_reg64(&self, reg: Register, value: u64)
        requires
            self.wf(),
    {
        self.bus.write_u64(self.address + reg.offset(), value);
    }

    /// Rings a doorbell.
    pub fn write_doorbell(&self, bell: Doorbell, value: u32)
        requires
            self.wf(),
    {
        self.doorbell_helper.write(&self.bus, bell, value);
    }

    /// Polls CSTS until its ready bit equals `want`, up to `POLL_LIMIT`
    /// rereads.
    fn wait_ready(&self, want: bool) -> (r: Result<(), NvmeError>)
        requires
            self.wf(),
        ensures
            r is Ok || r == Err::<(), NvmeError>(NvmeError::Timeout),
    {
        let mut attempts: u64 = 0;
        while attempts < POLL_LIMIT
            invariant
                self.wf(),
            decreases POLL_LIMIT - attempts,
        {
            let csts = self.read_reg32(Register::CSTS);
            if ((csts & 1) == 1) == want {
                return Ok(());
            }
            attempts = attempts + 1;
        }
        Err(NvmeError::Timeout)
    }

    /// Reads the 4096-byte Identify scratch page out of DMA memory.
    fn read_admin_buffer(&self) -> (r: Vec<u8>)
        requires
            self.wf(),
        ensures
            r@.len() == 4096,
    {
        let mut bytes: Vec<u8> = Vec::new();
        let mut i: usize = 0;
        while i < 4096
            invariant
                self.wf(),
                i <= 4096,
                bytes@.len() == i,
            decreases 4096 - i,
        {
            bytes.push(self.bus.read_u8(self.admin_buffer.addr + i));
            i = i + 1;
        }
        bytes
    }

    /// What one admin command did with the completion entry `e` it
    /// consumed: `e` carried the phase of the current admin pass, the admin
    /// completion ring advanced one slot (toggling its phase on wrap), the
    /// admin submission ring's `head` was set from `e.sq_head` when that
    /// lay inside the ring, and the call's result reflects `e`'s status
    /// field.
    pub open spec fn admin_outcome(
        pre: Self,
        post: Self,
        r: Result<Completion, NvmeError>,
        e: Completion,
    ) -> bool {
        let new_head = (pre.admin_cq.head + 1) as int % (QUEUE_LENGTH as int);
        &&& ((e.status & 1) == 1) == pre.admin_cq.phase
        &&& post.admin_cq.head == new_head
        &&& post.admin_cq.phase == if new_head == 0 {
            !pre.admin_cq.phase
        } else {
            pre.admin_cq.phase
        }
        &&& post.admin_sq.head == if e.sq_head < QUEUE_LENGTH {
            e.sq_head as int
        } else {
            pre.admin_sq.head as int
        }
        &&& r is Ok <==> ((e.status >> 1) & 0xFF) == 0
        &&& (r matches Ok(x) ==> x == e)
        &&& (r matches Err(NvmeError::CommandFailed(c)) ==> c == ((e.status >> 1) & 0xFF) && c
            != 0)
    }

    /// Runs one admin command to completion: pushes it, rings the admin
    /// submission doorbell, waits for its completion, rings the admin
    /// completion doorbell, records the reported `sq_head`, and turns a
    /// nonzero status into `CommandFailed`.
    pub fn exec_admin(&mut self, cmd: Command) -> (r: Result<Completion, NvmeError>)
        requires
            old(self).wf(),
        ensures
            final(self).wf(),
            final(self).same_config(*old(self)),
            final(self).next_queue_id == old(self).next_queue_id,
            final(self).controller_data == old(self).controller_data,
            old(self).admin_sq.is_full() ==> r == Err::<Completion, NvmeError>(
                NvmeError::QueueFull,
            ) && *final(self) == *old(self),
            !old(self).admin_sq.is_full() ==> (r is Ok || r == Err::<Completion, NvmeError>(
                NvmeError::Timeout,
            ) || (r matches Err(NvmeError::CommandFailed(c)) && c != 0)),
            r == Err::<Completion, NvmeError>(NvmeError::Timeout) ==> final(self).admin_cq == old(self).admin_cq && final(self).admin_sq.head == old(self).admin_sq.head,
            !(r == Err::<Completion, NvmeError>(NvmeError::QueueFull)) ==> final(self).admin_sq.tail == (old(self).admin_sq.tail + 1) as int % (QUEUE_LENGTH as int),
            r is Ok || (r matches Err(NvmeError::CommandFailed(_))) ==> {
                let new_head = (old(self).admin_cq.head + 1) as int % (QUEUE_LENGTH as int);
                &&& final(self).admin_cq.head == new_head
                &&& final(self).admin_cq.phase == if new_head == 0 {
                    !old(self).admin_cq.phase
                } else {
                    old(self).admin_cq.phase
                }
            },
            r matches Ok(e) ==> ((e.status >> 1) & 0xFF) == 0 && ((e.status & 1) == 1) == old(self).admin_cq.phase && final(self).admin_sq.head == if e.sq_head < QUEUE_LENGTH {
                e.sq_head as int
            } else {
                old(self).admin_sq.head as int
            },
            r is Ok || (r matches Err(NvmeError::CommandFailed(_))) ==> exists|e: Completion|
                #[trigger] Self::admin_outcome(*old(self), *final(self), r, e),
    {
        let tail = match self.admin_sq.push(cmd, &self.bus) {
            Ok(t) => t,
            Err(e) => {
                return Err(e);
            },
        };
        self.write_doorbell(Doorbell::SubTail(0), tail as u32);
        let (head, entry) = match self.admin_cq.pop(&self.bus) {
            Some(v) => v,
            None => {
                return Err(NvmeError::Timeout);
            },
        };
        self.write_doorbell(Doorbell::CompHead(0), head as u32);
        // A conforming controller reports sq_head inside the ring; an
        // out-of-range value is ignored to keep the ring sound.
        if (entry.sq_head as usize) < QUEUE_LENGTH {
            self.admin_sq.head = entry.sq_head as usize;
        }
        let status = (entry.status >> 1) & 0xFF;
        if status != 0 {
            proof {
                assert(Self::admin_outcome(
                    *old(self),
                    *self,
                    Err::<Completion, NvmeError>(NvmeError::CommandFailed(status)),
                    entry,
                ));
            }
            return Err(NvmeError::CommandFailed(status));
        }
        proof {
            assert(Self::admin_outcome(
                *old(self),
                *self,
                Ok::<Completion, NvmeError>(entry),
                entry,
            ));
        }
        Ok(entry)
    }

    /// Issues Identify-Controller into the scratch page and decodes the
    /// response.
    fn identify_controller(&mut self) -> (r: Result<NvmeControllerData, NvmeError>)
        requires
            old(self).wf(),
        ensures
            final(self).wf(),
            final(self).same_config(*old(self)),
            final(self).next_queue_id == old(self).next_queue_id,
            final(self).controller_data == old(self).controller_data,
            r matches Ok(d) ==> d.min_pagesize == 1u64 << (old(self).page_shift as u64)
                && d.max_queue_entries == old(self).max_queue_entries && d.max_transfer_size >= 1,
    {
        let cmd_id = self.admin_sq.tail as u16;
        let cmd = Command::identify(cmd_id, self.admin_buffer.phys_addr, IdentifyType::Controller);
        match self.exec_admin(cmd) {
            Ok(_) => (),
            Err(e) => {
                return Err(e);
            },
        }
        let bytes = self.read_admin_buffer();
        Ok(parse_controller_data(&bytes, self.page_shift, self.max_queue_entries))
    }

    /// Brings the controller from reset to ready: reads CAP, disables the
    /// controller, programs the admin queue registers, sets the I/O entry
    /// sizes, enables it, and runs Identify-Controller.
    pub fn init(address: usize, allocator: A, bus: B) -> (r: Result<NvmeDevice<A, B>, NvmeError>)
        requires
            address + 0x4_0000_0000 <= usize::MAX,
        ensures
            r matches Ok(d) ==> {
                &&& d.wf()
                &&& d.address == address
                &&& d.next_queue_id == 1
                &&& d.min_pagesize == 1u64 << (d.page_shift as u64)
                &&& d.controller_data.min_pagesize == d.min_pagesize
                &&& d.controller_data.max_queue_entries == d.max_queue_entries
            },
    {
        let admin_sq = SubQueue::new(QUEUE_LENGTH, &allocator, &bus);
        let admin_cq = CompQueue::new(QUEUE_LENGTH, &allocator, &bus);
        let admin_buffer = Dma::allocate(&allocator, 4096);

        let cap = bus.read_u64(address + 0x0);
        let caps = parse_cap(cap);

        let empty_data = NvmeControllerData {
            serial_number: String::new(),
            model_number: String::new(),
            firmware_revision: String::new(),
            max_transfer_size: 0,
            min_pagesize: caps.min_pagesize,
            max_queue_entries: caps.max_queue_entries,
        };
        let mut device = NvmeDevice {
            address,
            allocator,
            bus,
            doorbell_helper: DoorbellHelper::new(address, caps.doorbell_stride),
            min_pagesize: caps.min_pagesize,
            page_shift: caps.page_shift,
            max_queue_entries: caps.max_queue_entries,
            next_queue_id: 1,
            admin_sq,
            admin_cq,
            admin_buffer,
            controller_data: empty_data,
        };

        // Clear CC.EN and wait for CSTS.RDY to drop.
        let cc = device.read_reg32(Register::CC);
        device.write_reg32(Register::CC, cc_disabled(cc));
        match device.wait_ready(false) {
            Ok(_) => (),
            Err(e) => {
                return Err(e);
            },
        }

        // Wire the admin rings and their depth.
        device.write_reg64(Register::ASQ, device.admin_sq.address() as u64);
        device.write_reg64(Register::ACQ, device.admin_cq.address() as u64);
        device.write_reg32(Register::AQA, aqa_word());

        // Preserve the reserved CC bits and set the I/O entry sizes:
        // 2^4 = 16-byte completion entries, 2^6 = 64-byte submission
        // entries.
        let cc = device.read_reg32(Register::CC);
        device.write_reg32(Register::CC, cc_io_entry_sizes(cc));

        // Set CC.EN and wait for CSTS.RDY.
        let cc = device.read_reg32(Register::CC);
        device.write_reg32(Register::CC, cc_enabled(cc));
        match device.wait_ready(true) {
            Ok(_) => (),
            Err(e) => {
                return Err(e);
            },
        }

        let data = match device.identify_controller() {
            Ok(d) => d,
            Err(e) => {
                return Err(e);
            },
        };
        device.controller_data = data;
        Ok(device)
    }

    /// Issues Identify-Namespace-List for identifiers above `base`, then
    /// Identify-Namespace for each active identifier, and decodes each
    /// response into a namespace descriptor.
    pub fn identify_namespaces(&mut self, base: u32) -> (r: Result<Vec<NvmeNamespace>, NvmeError>)
        requires
            old(self).wf(),
        ensures
            final(self).wf(),
            final(self).same_config(*old(self)),
            final(self).next_queue_id == old(self).next_queue_id,
            final(self).controller_data == old(self).controller_data,
            r matches Ok(v) ==> {
                &&& v@.len() <= 1024
                &&& forall|i: int| 0 <= i < v@.len() ==> (#[trigger] v@[i]).id != 0
                &&& forall|i: int| 0 <= i < v@.len() ==> (#[trigger] v@[i]).block_size >= 1
            },
    {
        let cmd_id = self.admin_sq.tail as u16;
        let cmd = Command::identify(
            cmd_id,
            self.admin_buffer.phys_addr,
            IdentifyType::NamespaceList(base),
        );
        match self.exec_admin(cmd) {
            Ok(_) => (),
            Err(e) => {
                return Err(e);
            },
        }
        let bytes = self.read_admin_buffer();
        let ids = parse_namespace_list(&bytes);
        let mut result: Vec<NvmeNamespace> = Vec::new();
        let mut i: usize = 0;
        while i < ids.len()
            invariant
                self.wf(),
                self.same_config(*old(self)),
                self.next_queue_id == old(self).next_queue_id,
                self.controller_data == old(self).controller_data,
                i <= ids@.len() <= 1024,
                forall|j: int| 0 <= j < ids@.len() ==> #[trigger] ids@[j] != 0,
                result@.len() == i,
                forall|j: int| 0 <= j < result@.len() ==> (#[trigger] result@[j]).id != 0,
                forall|j: int| 0 <= j < result@.len() ==> (#[trigger] result@[j]).block_size >= 1,
            decreases ids@.len() - i,
        {
            let id = ids[i];
            let cmd_id = self.admin_sq.tail as u16;
            let cmd = Command::identify(
                cmd_id,
                self.admin_buffer.phys_addr,
                IdentifyType::Namespace(id),
            );
            match self.exec_admin(cmd) {
                Ok(_) => (),
                Err(e) => {
                    return Err(e);
                },
            }
            let ns_bytes = self.read_admin_buffer();
            result.push(parse_namespace_data(id, &ns_bytes));
            i = i + 1;
        }
        Ok(result)
    }
}

impl<A: NvmeAllocator + Clone, B: NvmeBus + Clone> NvmeDevice<A, B> {
    /// Creates an I/O queue pair of `len` slots on `namespace`: allocates
    /// both rings, issues Create-CQ then Create-SQ, and hands the pair its
    /// own allocator and bus handles. If Create-SQ fails after Create-CQ
    /// succeeded, the completion queue is deleted again, best effort.
    pub fn create_io_queue_pair(&mut self, namespace: &NvmeNamespace, len: usize) -> (r: Result<
        IoQueuePair<A, B>,
        NvmeError,
    >)
        requires
            old(self).wf(),
            namespace.block_size >= 1,
        ensures
            final(self).wf(),
            final(self).same_config(*old(self)),
            final(self).controller_data == old(self).controller_data,
            len < 2 ==> r == Err::<IoQueuePair<A, B>, NvmeError>(NvmeError::QueueSizeTooSmall)
                && *final(self) == *old(self),
            2 <= len && (len > old(self).max_queue_entries || len > 4096) ==> r == Err::<
                IoQueuePair<A, B>,
                NvmeError,
            >(NvmeError::QueueSizeExceedsMqes) && *final(self) == *old(self),
            r matches Ok(q) ==> {
                &&& q.wf()
                &&& q.namespace == *namespace
                &&& q.sub_queue.len == len
                &&& q.comp_queue.len == len
                &&& q.sub_queue.head == 0 && q.sub_queue.tail == 0
                &&& q.comp_queue.head == 0 && q.comp_queue.phase == true
                &&& q.submitted@.len() == 0
                &&& q.prp_manager.list_pool.queue@.len() == 0
                &&& q.max_transfer_size == old(self).controller_data.max_transfer_size
                &&& q.id.0 == old(self).next_queue_id
                &&& final(self).next_queue_id == if old(self).next_queue_id == 0xFFFF {
                    1int
                } else {
                    old(self).next_queue_id + 1
                }
                &&& q.doorbell_helper == old(self).doorbell_helper
                &&& final(self).admin_sq.tail == (old(self).admin_sq.tail + 2) as int % (
                QUEUE_LENGTH as int)
                &&& final(self).admin_cq.head == (old(self).admin_cq.head + 2) as int % (
                QUEUE_LENGTH as int)
                &&& final(self).admin_cq.phase == if old(self).admin_cq.head + 2 >= QUEUE_LENGTH {
                    !old(self).admin_cq.phase
                } else {
                    old(self).admin_cq.phase
                }
            },
            r is Err ==> final(self).next_queue_id == old(self).next_queue_id,
            r is Err ==> final(self).admin_sq.tail == old(self).admin_sq.tail as int || final(self).admin_sq.tail == (old(self).admin_sq.tail + 1) as int % (QUEUE_LENGTH as int) || final(self).admin_sq.tail == (old(self).admin_sq.tail + 2) as int % (QUEUE_LENGTH as int) || final(self).admin_sq.tail == (old(self).admin_sq.tail + 3) as int % (QUEUE_LENGTH as int),
    {
        if len < 2 {
            return Err(NvmeError::QueueSizeTooSmall);
        }
        if (len as u64) > (self.max_queue_entries as u64) || len > 4096 {
            return Err(NvmeError::QueueSizeExceedsMqes);
        }
        let qid = self.next_queue_id;

        let comp_queue = CompQueue::new(len, &self.allocator, &self.bus);
        let cmd_id = self.admin_sq.tail as u16;
        let cmd = Command::create_completion_queue(
            cmd_id,
            qid,
            comp_queue.address(),
            (len - 1) as u16,
        );
        match self.exec_admin(cmd) {
            Ok(_) => (),
            Err(e) => {
                return Err(e);
            },
        }

        let sub_queue = SubQueue::new(len, &self.allocator, &self.bus);
        let cmd_id = self.admin_sq.tail as u16;
        let cmd = Command::create_submission_queue(
            cmd_id,
            qid,
            sub_queue.address(),
            (len - 1) as u16,
            qid,
        );
        match self.exec_admin(cmd) {
            Ok(_) => (),
            Err(e) => {
                // Do not leave the completion queue dangling.
                let cmd_id = self.admin_sq.tail as u16;
                let _ = self.exec_admin(Command::delete_completion_queue(cmd_id, qid));
                return Err(e);
            },
        }

        self.next_queue_id = if qid == 0xFFFF {
            1
        } else {
            qid + 1
        };
        Ok(
            IoQueuePair::new(
                IoQueueId::new(qid),
                *namespace,
                self.doorbell_helper,
                sub_queue,
                comp_queue,
                self.allocator.clone(),
                self.bus.clone(),
                self.controller_data.max_transfer_size,
            ),
        )
    }

    /// Deletes an I/O queue pair: Delete-SQ first, then Delete-CQ, as the
    /// protocol requires.
    pub fn delete_io_queue_pair(&mut self, qpair: IoQueuePair<A, B>) -> (r: Result<(), NvmeError>)
        requires
            old(self).wf(),
        ensures
            final(self).wf(),
            final(self).same_config(*old(self)),
            final(self).next_queue_id == old(self).next_queue_id,
            final(self).controller_data == old(self).controller_data,
            r is Ok ==> final(self).admin_sq.tail == (old(self).admin_sq.tail + 2) as int % (
            QUEUE_LENGTH as int),
            r is Ok ==> final(self).admin_cq.head == (old(self).admin_cq.head + 2) as int % (
            QUEUE_LENGTH as int) && final(self).admin_cq.phase == if old(self).admin_cq.head + 2
                >= QUEUE_LENGTH {
                !old(self).admin_cq.phase
            } else {
                old(self).admin_cq.phase
            },
    {
        let cmd_id = self.admin_sq.tail as u16;
        let qid = qpair.id.0;
        match self.exec_admin(Command::delete_submission_queue(cmd_id, qid)) {
            Ok(_) => (),
            Err(e) => {
                return Err(e);
            },
        }
        let cmd_id = self.admin_sq.tail as u16;
        match self.exec_admin(Command::delete_completion_queue(cmd_id, qid)) {
            Ok(_) => (),
            Err(e) => {
                return Err(e);
            },
        }
        Ok(())
    }
}

} // verus!
