use vstd::prelude::*;
use crate::bus::NvmeBus;
use crate::cmd::Command;
use crate::device::{Doorbell, DoorbellHelper, NvmeNamespace};
use crate::error::NvmeError;
use crate::memory::{page_count, prp_ok, FixedSizeQueue, NvmeAllocator, PrpManager, PrpResult,
    PRP_POOL_CAPACITY};
use crate::queues::{CompQueue, Completion, SubQueue};

verus! {

/// The identifier of one I/O queue pair. Zero is reserved for the admin
/// queue pair; the facade hands out identifiers from 1 upward.
#[derive(Debug, Clone, Copy, PartialEq, Eq, Structural)]
pub struct IoQueueId(pub u16);

impl IoQueueId {
    /// Wraps a raw queue identifier.
    pub fn new(value: u16) -> (r: IoQueueId)
        ensures
            r.0 == value,
    {
        IoQueueId(value)
    }

    /// The raw identifier.
    pub fn value(&self) -> (r: u16)
        ensures
            r == self.0,
    {
        self.0
    }
}

/// A namespace-bound submit/complete channel.
///
/// `read` and `write` only submit: they build the PRP descriptors, encode
/// the command, place it in the submission ring and ring the doorbell,
/// keeping the PRP resources on an in-flight list. `flush` waits for as
/// many completions as are in flight, releases the PRP resources, and
/// reports the final completion's status. This is the batched shape: the
/// wire contract is the same as submitting one command at a time, but the
/// ring can be filled before waiting.
pub struct IoQueuePair<A: NvmeAllocator, B: NvmeBus> {
    /// This pair's queue identifier.
    pub id: IoQueueId,
    /// The allocator handle, shared with the facade.
    pub allocator: A,
    /// The bus handle, shared with the facade.
    pub bus: B,
    /// The namespace this pair reads and writes.
    pub namespace: NvmeNamespace,
    /// Doorbell addressing, copied from the facade.
    pub doorbell_helper: DoorbellHelper,
    /// The submission ring.
    pub sub_queue: SubQueue,
    /// The completion ring.
    pub comp_queue: CompQueue,
    /// Builds and recycles PRP descriptors.
    pub prp_manager: PrpManager,
    /// The controller's per-command transfer bound in bytes.
    pub max_transfer_size: u64,
    /// PRP resources of the commands submitted and not yet flushed.
    pub submitted: Vec<PrpResult>,
}

impl<A: NvmeAllocator, B: NvmeBus> IoQueuePair<A, B> {
    /// The pair's invariant: sound rings of equal depth, a sound pool, and
    /// never more commands in flight than the ring can hold.
    pub open spec fn wf(self) -> bool {
        &&& self.sub_queue.wf()
        &&& self.comp_queue.wf()
        &&& self.comp_queue.len == self.sub_queue.len
        &&& self.prp_manager.wf()
        &&& self.doorbell_helper.wf()
        &&& self.namespace.block_size >= 1
        &&& self.submitted@.len() <= self.sub_queue.len - 1
        &&& forall|i: int| 0 <= i < self.submitted@.len() ==> (#[trigger] self.submitted@[i]).wf()
    }

    /// The fields that submitting and flushing never touch.
    pub open spec fn same_handles(self, other: Self) -> bool {
        &&& self.id == other.id
        &&& self.allocator == other.allocator
        &&& self.bus == other.bus
        &&& self.namespace == other.namespace
        &&& self.doorbell_helper == other.doorbell_helper
        &&& self.max_transfer_size == other.max_transfer_size
        &&& self.sub_queue.len == other.sub_queue.len
        &&& self.sub_queue.data == other.sub_queue.data
        &&& self.comp_queue.len == other.comp_queue.len
        &&& self.comp_queue.data == other.comp_queue.data
        &&& self.prp_manager.list_pool.capacity == other.prp_manager.list_pool.capacity
    }

    /// Assembles a queue pair from its parts, with nothing in flight and an
    /// empty PRP pool.
    pub fn new(
        id: IoQueueId,
        namespace: NvmeNamespace,
        doorbell_helper: DoorbellHelper,
        sub_queue: SubQueue,
        comp_queue: CompQueue,
        allocator: A,
        bus: B,
        max_transfer_size: u64,
    ) -> (r: IoQueuePair<A, B>)
        requires
            sub_queue.wf(),
            comp_queue.wf(),
            comp_queue.len == sub_queue.len,
            doorbell_helper.wf(),
            namespace.block_size >= 1,
        ensures
            r.wf(),
            r.id == id,
            r.namespace == namespace,
            r.doorbell_helper == doorbell_helper,
            r.sub_queue == sub_queue,
            r.comp_queue == comp_queue,
            r.allocator == allocator,
            r.bus == bus,
            r.max_transfer_size == max_transfer_size,
            r.submitted@.len() == 0,
            r.prp_manager.list_pool.queue@.len() == 0,
            r.prp_manager.list_pool.capacity == PRP_POOL_CAPACITY,
    {
        IoQueuePair {
            id,
            allocator,
            bus,
            namespace,
            doorbell_helper,
            sub_queue,
            comp_queue,
            prp_manager: PrpManager { list_pool: FixedSizeQueue::new(PRP_POOL_CAPACITY) },
            max_transfer_size,
            submitted: Vec::new(),
        }
    }

    /// The pair's queue identifier.
    pub fn id(&self) -> (r: IoQueueId)
        ensures
            r == self.id,
    {
        self.id
    }

    /// Why a transfer of `bytes` at `address` is refused before anything is
    /// posted, if it is: too large for the controller or for the 16-bit
    /// block-count field, not a whole number of blocks, or misaligned.
    pub open spec fn submit_error(self, address: usize, bytes: usize) -> Option<NvmeError> {
        if bytes > self.max_transfer_size {
            Some(NvmeError::IoSizeExceedsMdts)
        } else if bytes == 0 || bytes as u64 % self.namespace.block_size != 0 {
            Some(NvmeError::InvalidBufferSize)
        } else if bytes as u64 / self.namespace.block_size > 0x10000 {
            Some(NvmeError::IoSizeExceedsMdts)
        } else if address % 4 != 0 {
            Some(NvmeError::NotAlignedToDword)
        } else if page_count(address, bytes) >= 2 && address % 4096 != 0 {
            Some(NvmeError::NotAlignedToPage)
        } else {
            None
        }
    }

    /// Validates one read or write, builds its PRP descriptors, encodes the
    /// command with the current tail as command id, pushes it and rings the
    /// submission doorbell, tracking the PRP resources until `flush`.
    fn submit_and_track(&mut self, bytes: usize, lba: u64, address: usize, write: bool) -> (r:
        Result<(), NvmeError>)
        requires
            old(self).wf(),
            bytes <= usize::MAX - 8192,
            address + bytes + 4096 <= usize::MAX,
        ensures
            final(self).wf(),
            final(self).same_handles(*old(self)),
            old(self).submit_error(address, bytes) matches Some(e) ==> r == Err::<(), NvmeError>(e)
                && final(self).sub_queue == old(self).sub_queue && final(self).submitted@ == old(self).submitted@,
            old(self).submit_error(address, bytes) is None ==> (r is Ok || r == Err::<(),
                NvmeError,
            >(NvmeError::QueueFull)),
            old(self).submit_error(address, bytes) is None && !old(self).sub_queue.is_full() && old(self).submitted@.len() < old(self).sub_queue.len - 1 ==> r is Ok,
            r == Err::<(), NvmeError>(NvmeError::QueueFull) ==> old(self).sub_queue.is_full()
                || old(self).submitted@.len() >= old(self).sub_queue.len - 1,
            r == Err::<(), NvmeError>(NvmeError::QueueFull) ==> final(self).sub_queue == old(self).sub_queue && final(self).submitted@ == old(self).submitted@,
            r is Ok ==> {
                &&& old(self).submit_error(address, bytes) is None
                &&& final(self).submitted@.len() == old(self).submitted@.len() + 1
                &&& final(self).submitted@.drop_last() == old(self).submitted@
                &&& prp_ok(old(self).allocator, address, bytes, final(self).submitted@.last())
                &&& final(self).sub_queue.tail == (old(self).sub_queue.tail + 1) as int % (old(self).sub_queue.len as int)
                &&& final(self).sub_queue.head == old(self).sub_queue.head
            },
    {
        if bytes as u64 > self.max_transfer_size {
            return Err(NvmeError::IoSizeExceedsMdts);
        }
        if bytes == 0 || (bytes as u64) % self.namespace.block_size != 0 {
            return Err(NvmeError::InvalidBufferSize);
        }
        let blocks: u64 = (bytes as u64) / self.namespace.block_size;
        proof {
            let b = bytes as int;
            let s = self.namespace.block_size as int;
            assert(b > 0 && b % s == 0 && s >= 1 ==> b / s >= 1) by (nonlinear_arith);
        }
        if blocks > 0x10000 {
            return Err(NvmeError::IoSizeExceedsMdts);
        }
        let prp_result = match self.prp_manager.create(&self.allocator, &self.bus, address, bytes) {
            Ok(p) => p,
            Err(e) => {
                return Err(e);
            },
        };
        if self.submitted.len() >= self.sub_queue.len - 1 {
            self.prp_manager.release(prp_result, &self.allocator);
            return Err(NvmeError::QueueFull);
        }
        let prp = prp_result.get_prp();
        let command = Command::read_write(
            self.sub_queue.tail as u16,
            self.namespace.id,
            lba,
            (blocks - 1) as u16,
            [prp.0 as u64, prp.1 as u64],
            write,
        );
        match self.sub_queue.try_push(command, &self.bus) {
            Ok(new_tail) => {
                self.doorbell_helper.write(&self.bus, Doorbell::SubTail(self.id.0), new_tail as u32);
                self.submitted.push(prp_result);
                Ok(())
            },
            Err(_) => {
                self.prp_manager.release(prp_result, &self.allocator);
                Err(NvmeError::QueueFull)
            },
        }
    }

    /// Submits a read of `bytes` bytes from `lba` into the host buffer at
    /// `dest`; `flush` waits for it. `QueueFull` means flush first.
    pub fn read(&mut self, dest: usize, bytes: usize, lba: u64) -> (r: Result<(), NvmeError>)
        requires
            old(self).wf(),
            bytes <= usize::MAX - 8192,
            dest + bytes + 4096 <= usize::MAX,
        ensures
            final(self).wf(),
            final(self).same_handles(*old(self)),
            old(self).submit_error(dest, bytes) matches Some(e) ==> r == Err::<(), NvmeError>(e)
                && final(self).sub_queue == old(self).sub_queue && final(self).submitted@ == old(self).submitted@,
            old(self).submit_error(dest, bytes) is None ==> (r is Ok || r == Err::<(), NvmeError>(
                NvmeError::QueueFull,
            )),
            old(self).submit_error(dest, bytes) is None && !old(self).sub_queue.is_full() && old(self).submitted@.len() < old(self).sub_queue.len - 1 ==> r is Ok,
            r == Err::<(), NvmeError>(NvmeError::QueueFull) ==> (old(self).sub_queue.is_full()
                || old(self).submitted@.len() >= old(self).sub_queue.len - 1) && final(self).sub_queue == old(self).sub_queue && final(self).submitted@ == old(self).submitted@,
            r is Ok ==> {
                &&& final(self).submitted@.len() == old(self).submitted@.len() + 1
                &&& final(self).submitted@.drop_last() == old(self).submitted@
                &&& prp_ok(old(self).allocator, dest, bytes, final(self).submitted@.last())
                &&& final(self).sub_queue.tail == (old(self).sub_queue.tail + 1) as int % (old(self).sub_queue.len as int)
                &&& final(self).sub_queue.head == old(self).sub_queue.head
            },
    {
        self.submit_and_track(bytes, lba, dest, false)
    }

    /// Submits a write of `bytes` bytes from the host buffer at `src` to
    /// `lba`; `flush` waits for it. `QueueFull` means flush first.
    pub fn write(&mut self, src: usize, bytes: usize, lba: u64) -> (r: Result<(), NvmeError>)
        requires
            old(self).wf(),
            bytes <= usize::MAX - 8192,
            src + bytes + 4096 <= usize::MAX,
        ensures
            final(self).wf(),
            final(self).same_handles(*old(self)),
            old(self).submit_error(src, bytes) matches Some(e) ==> r == Err::<(), NvmeError>(e)
                && final(self).sub_queue == old(self).sub_queue && final(self).submitted@ == old(self).submitted@,
            old(self).submit_error(src, bytes) is None ==> (r is Ok || r == Err::<(), NvmeError>(
                NvmeError::QueueFull,
            )),
            old(self).submit_error(src, bytes) is None && !old(self).sub_queue.is_full() && old(self).submitted@.len() < old(self).sub_queue.len - 1 ==> r is Ok,
            r == Err::<(), NvmeError>(NvmeError::QueueFull) ==> (old(self).sub_queue.is_full()
                || old(self).submitted@.len() >= old(self).sub_queue.len - 1) && final(self).sub_queue == old(self).sub_queue && final(self).submitted@ == old(self).submitted@,
            r is Ok ==> {
                &&& final(self).submitted@.len() == old(self).submitted@.len() + 1
                &&& final(self).submitted@.drop_last() == old(self).submitted@
                &&& prp_ok(old(self).allocator, src, bytes, final(self).submitted@.last())
                &&& final(self).sub_queue.tail == (old(self).sub_queue.tail + 1) as int % (old(self).sub_queue.len as int)
                &&& final(self).sub_queue.head == old(self).sub_queue.head
            },
    {
        self.submit_and_track(bytes, lba, src, true)
    }

    /// What flushing `n` in-flight commands did with the final completion
    /// entry `e` it consumed: the completion ring stepped over all `n`
    /// slots (with the phase toggling when the walk crossed the ring
    /// boundary), `e` carried the phase of the pass it was read in, the
    /// submission ring's `head` was set from `e.sq_head` when that lay
    /// inside the ring, and the call's result reflects `e`'s status field.
    pub open spec fn flush_outcome(
        pre: Self,
        post: Self,
        r: Result<(), NvmeError>,
        e: Completion,
    ) -> bool {
        let n = pre.submitted@.len() as int;
        let len = pre.comp_queue.len as int;
        &&& ((e.status & 1) == 1) == if pre.comp_queue.head + n - 1 >= len {
            !pre.comp_queue.phase
        } else {
            pre.comp_queue.phase
        }
        &&& post.comp_queue.head == if pre.comp_queue.head + n >= len {
            pre.comp_queue.head + n - len
        } else {
            pre.comp_queue.head + n
        }
        &&& post.comp_queue.phase == if pre.comp_queue.head + n >= len {
            !pre.comp_queue.phase
        } else {
            pre.comp_queue.phase
        }
        &&& post.sub_queue.head == if e.sq_head < pre.sub_queue.len {
            e.sq_head as int
        } else {
            pre.sub_queue.head as int
        }
        &&& post.sub_queue.tail == pre.sub_queue.tail
        &&& r is Ok <==> ((e.status >> 1) & 0xFF) == 0
        &&& (r matches Err(NvmeError::CommandFailed(c)) ==> c == ((e.status >> 1) & 0xFF))
    }

    /// Waits for every in-flight command to complete, rings the completion
    /// doorbell once, releases all tracked PRP resources, records the
    /// completion's `sq_head` in the submission ring, and reports the final
    /// completion's status. With nothing in flight it returns at once.
    pub fn flush(&mut self) -> (r: Result<(), NvmeError>)
        requires
            old(self).wf(),
        ensures
            final(self).wf(),
            final(self).same_handles(*old(self)),
            old(self).submitted@.len() == 0 ==> r is Ok && *final(self) == *old(self),
            r is Ok ==> final(self).submitted@.len() == 0,
            r matches Err(e) ==> (e matches NvmeError::CommandFailed(c) && c != 0) || e
                == NvmeError::Timeout,
            r matches Err(NvmeError::CommandFailed(c)) ==> final(self).submitted@.len() == 0,
            r == Err::<(), NvmeError>(NvmeError::Timeout) ==> *final(self) == *old(self),
            old(self).submitted@.len() > 0 && !(r == Err::<(), NvmeError>(NvmeError::Timeout))
                ==> exists|e: Completion|
                #[trigger] Self::flush_outcome(*old(self), *final(self), r, e),
    {
        let num = self.submitted.len();
        if num == 0 {
            return Ok(());
        }
        let head0 = self.comp_queue.head;
        let phase0 = self.comp_queue.phase;
        match self.comp_queue.pop_n(num, &self.bus) {
            None => {
                // Undo the head jump so a later flush starts from the same
                // slot again.
                self.comp_queue.head = head0;
                self.comp_queue.phase = phase0;
                Err(NvmeError::Timeout)
            },
            Some((tail_pos, entry)) => {
                self.doorbell_helper.write(
                    &self.bus,
                    Doorbell::CompHead(self.id.0),
                    tail_pos as u32,
                );
                let ghost pre = *self;
                while self.submitted.len() > 0
                    invariant
                        self.prp_manager.wf(),
                        forall|i: int|
                            0 <= i < self.submitted@.len() ==> (
                            #[trigger] self.submitted@[i]).wf(),
                        self.prp_manager.list_pool.capacity == pre.prp_manager.list_pool.capacity,
                        self.id == pre.id,
                        self.allocator == pre.allocator,
                        self.bus == pre.bus,
                        self.namespace == pre.namespace,
                        self.doorbell_helper == pre.doorbell_helper,
                        self.sub_queue == pre.sub_queue,
                        self.comp_queue == pre.comp_queue,
                        self.max_transfer_size == pre.max_transfer_size,
                    decreases self.submitted@.len(),
                {
                    let prp = self.submitted.pop().unwrap();
                    self.prp_manager.release(prp, &self.allocator);
                }
                // A conforming controller reports sq_head inside the ring;
                // an out-of-range value is ignored to keep the ring sound.
                if (entry.sq_head as usize) < self.sub_queue.len {
                    self.sub_queue.head = entry.sq_head as usize;
                }
                let status = (entry.status >> 1) & 0xFF;
                if status != 0 {
                    proof {
                        assert(Self::flush_outcome(
                            *old(self),
                            *self,
                            Err::<(), NvmeError>(NvmeError::CommandFailed(status)),
                            entry,
                        ));
                    }
                    return Err(NvmeError::CommandFailed(status));
                }
                proof {
                    assert(Self::flush_outcome(*old(self), *self, Ok::<(), NvmeError>(()), entry));
                }
                Ok(())
            },
        }
    }
}

} // verus!
