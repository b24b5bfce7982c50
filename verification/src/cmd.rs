use vstd::prelude::*;

verus! {

/// One 64-byte Submission Queue Entry.
///
/// The fields mirror the wire layout dword for dword; how a field is read
/// depends on the opcode. The bus implementation is responsible for storing
/// the record little-endian and packed when it writes a slot.
#[derive(Debug, Clone, Copy)]
pub struct Command {
    /// Opcode.
    pub opcode: u8,
    /// FUSE (2 bits) | reserved (4 bits) | PSDT (2 bits).
    pub flags: u8,
    /// Command identifier, echoed back in the completion.
    pub cmd_id: u16,
    /// Namespace identifier.
    pub ns_id: u32,
    /// Reserved dwords 2-3.
    pub reserved: u64,
    /// Metadata pointer.
    pub md_ptr: u64,
    /// PRP1 and PRP2.
    pub data_ptr: [u64; 2],
    /// Command dword 10.
    pub cmd_10: u32,
    /// Command dword 11.
    pub cmd_11: u32,
    /// Command dword 12.
    pub cmd_12: u32,
    /// Command dword 13.
    pub cmd_13: u32,
    /// Command dword 14.
    pub cmd_14: u32,
    /// Command dword 15.
    pub cmd_15: u32,
}

/// What an Identify admin command asks the controller to describe.
#[derive(Debug, Clone, Copy, PartialEq, Eq, Structural)]
pub enum IdentifyType {
    /// One namespace, by its identifier.
    Namespace(u32),
    /// The controller itself.
    Controller,
    /// The list of active namespace identifiers above a base.
    NamespaceList(u32),
}

pub const OPCODE_READ: u8 = 2;

pub const OPCODE_WRITE: u8 = 1;

pub const OPCODE_IDENTIFY: u8 = 6;

pub const OPCODE_SUB_QUEUE_CREATE: u8 = 1;

pub const OPCODE_COMP_QUEUE_CREATE: u8 = 5;

pub const OPCODE_SUB_QUEUE_DELETE: u8 = 0;

pub const OPCODE_COMP_QUEUE_DELETE: u8 = 4;

impl Command {
    /// True of a command whose fields outside the given ones are all zero.
    pub open spec fn rest_is_zero(self) -> bool {
        self.flags == 0 && self.reserved == 0 && self.md_ptr == 0 && self.cmd_13 == 0
            && self.cmd_14 == 0 && self.cmd_15 == 0
    }

    /// An I/O read or write: dwords 10-11 carry the starting LBA,
    /// dword 12 the zero-based block count.
    pub fn read_write(
        cmd_id: u16,
        ns_id: u32,
        lba: u64,
        block_count: u16,
        data_ptr: [u64; 2],
        is_write: bool,
    ) -> (r: Command)
        ensures
            r.opcode == if is_write {
                OPCODE_WRITE
            } else {
                OPCODE_READ
            },
            r.cmd_id == cmd_id,
            r.ns_id == ns_id,
            r.data_ptr@ == data_ptr@,
            r.cmd_10 == lba as u32,
            r.cmd_11 == (lba >> 32) as u32,
            r.cmd_12 == block_count as u32,
            r.rest_is_zero(),
    {
        Command {
            opcode: if is_write {
                OPCODE_WRITE
            } else {
                OPCODE_READ
            },
            flags: 0,
            cmd_id,
            ns_id,
            reserved: 0,
            md_ptr: 0,
            data_ptr,
            cmd_10: lba as u32,
            cmd_11: (lba >> 32) as u32,
            cmd_12: block_count as u32,
            cmd_13: 0,
            cmd_14: 0,
            cmd_15: 0,
        }
    }

    /// Create-SQ admin command: PRP1 holds the ring's physical base, dword 10
    /// packs the zero-based size with the queue id, dword 11 pairs the queue
    /// with its completion queue and sets the physically-contiguous bit.
    pub fn create_submission_queue(
        cmd_id: u16,
        queue_id: u16,
        address: usize,
        size: u16,
        cqueue_id: u16,
    ) -> (r: Command)
        ensures
            r.opcode == OPCODE_SUB_QUEUE_CREATE,
            r.cmd_id == cmd_id,
            r.ns_id == 0,
            r.data_ptr@ == seq![address as u64, 0u64],
            r.cmd_10 == ((size as u32) << 16) | (queue_id as u32),
            r.cmd_11 == ((cqueue_id as u32) << 16) | 1,
            r.cmd_12 == 0,
            r.rest_is_zero(),
    {
        let r = Command {
            opcode: OPCODE_SUB_QUEUE_CREATE,
            flags: 0,
            cmd_id,
            ns_id: 0,
            reserved: 0,
            md_ptr: 0,
            data_ptr: [address as u64, 0],
            cmd_10: ((size as u32) << 16) | (queue_id as u32),
            cmd_11: ((cqueue_id as u32) << 16) | 1,
            cmd_12: 0,
            cmd_13: 0,
            cmd_14: 0,
            cmd_15: 0,
        };
        proof {
            assert(r.data_ptr@ =~= seq![address as u64, 0u64]);
        }
        r
    }

    /// Create-CQ admin command: PRP1 holds the ring's physical base, dword 10
    /// packs the zero-based size with the queue id, dword 11 sets the
    /// physically-contiguous bit and leaves interrupts disabled.
    pub fn create_completion_queue(cmd_id: u16, queue_id: u16, address: usize, size: u16) -> (r:
        Command)
        ensures
            r.opcode == OPCODE_COMP_QUEUE_CREATE,
            r.cmd_id == cmd_id,
            r.ns_id == 0,
            r.data_ptr@ == seq![address as u64, 0u64],
            r.cmd_10 == ((size as u32) << 16) | (queue_id as u32),
            r.cmd_11 == 1,
            r.cmd_12 == 0,
            r.rest_is_zero(),
    {
        let r = Command {
            opcode: OPCODE_COMP_QUEUE_CREATE,
            flags: 0,
            cmd_id,
            ns_id: 0,
            reserved: 0,
            md_ptr: 0,
            data_ptr: [address as u64, 0],
            cmd_10: ((size as u32) << 16) | (queue_id as u32),
            cmd_11: 1,
            cmd_12: 0,
            cmd_13: 0,
            cmd_14: 0,
            cmd_15: 0,
        };
        proof {
            assert(r.data_ptr@ =~= seq![address as u64, 0u64]);
        }
        r
    }

    /// Delete-CQ admin command: dword 10 names the queue.
    pub fn delete_completion_queue(cmd_id: u16, queue_id: u16) -> (r: Command)
        ensures
            r.opcode == OPCODE_COMP_QUEUE_DELETE,
            r.cmd_id == cmd_id,
            r.ns_id == 0,
            r.data_ptr@ == seq![0u64, 0u64],
            r.cmd_10 == queue_id as u32,
            r.cmd_11 == 0,
            r.cmd_12 == 0,
            r.rest_is_zero(),
    {
        let r = Command {
            opcode: OPCODE_COMP_QUEUE_DELETE,
            flags: 0,
            cmd_id,
            ns_id: 0,
            reserved: 0,
            md_ptr: 0,
            data_ptr: [0, 0],
            cmd_10: queue_id as u32,
            cmd_11: 0,
            cmd_12: 0,
            cmd_13: 0,
            cmd_14: 0,
            cmd_15: 0,
        };
        proof {
            assert(r.data_ptr@ =~= seq![0u64, 0u64]);
        }
        r
    }

    /// Delete-SQ admin command: dword 10 names the queue.
    pub fn delete_submission_queue(cmd_id: u16, queue_id: u16) -> (r: Command)
        ensures
            r.opcode == OPCODE_SUB_QUEUE_DELETE,
            r.cmd_id == cmd_id,
            r.ns_id == 0,
            r.data_ptr@ == seq![0u64, 0u64],
            r.cmd_10 == queue_id as u32,
            r.cmd_11 == 0,
            r.cmd_12 == 0,
            r.rest_is_zero(),
    {
        let r = Command {
            opcode: OPCODE_SUB_QUEUE_DELETE,
            flags: 0,
            cmd_id,
            ns_id: 0,
            reserved: 0,
            md_ptr: 0,
            data_ptr: [0, 0],
            cmd_10: queue_id as u32,
            cmd_11: 0,
            cmd_12: 0,
            cmd_13: 0,
            cmd_14: 0,
            cmd_15: 0,
        };
        proof {
            assert(r.data_ptr@ =~= seq![0u64, 0u64]);
        }
        r
    }

    /// Identify admin command: PRP1 holds the response buffer's physical
    /// address; the target picks the CNS value in dword 10 and the NSID.
    pub fn identify(cmd_id: u16, address: usize, target: IdentifyType) -> (r: Command)
        ensures
            r.opcode == OPCODE_IDENTIFY,
            r.cmd_id == cmd_id,
            r.ns_id == match target {
                IdentifyType::Namespace(id) => id,
                IdentifyType::Controller => 0,
                IdentifyType::NamespaceList(base) => base,
            },
            r.data_ptr@ == seq![address as u64, 0u64],
            r.cmd_10 == match target {
                IdentifyType::Namespace(_) => 0u32,
                IdentifyType::Controller => 1u32,
                IdentifyType::NamespaceList(_) => 2u32,
            },
            r.cmd_11 == 0,
            r.cmd_12 == 0,
            r.rest_is_zero(),
    {
        let (ns_id, cmd_10): (u32, u32) = match target {
            IdentifyType::Namespace(id) => (id, 0),
            IdentifyType::Controller => (0, 1),
            IdentifyType::NamespaceList(base) => (base, 2),
        };
        let r = Command {
            opcode: OPCODE_IDENTIFY,
            flags: 0,
            cmd_id,
            ns_id,
            reserved: 0,
            md_ptr: 0,
            data_ptr: [address as u64, 0],
            cmd_10,
            cmd_11: 0,
            cmd_12: 0,
            cmd_13: 0,
            cmd_14: 0,
            cmd_15: 0,
        };
        proof {
            assert(r.data_ptr@ =~= seq![address as u64, 0u64]);
        }
        r
    }
}

} // verus!
