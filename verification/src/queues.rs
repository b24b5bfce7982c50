use vstd::prelude::*;
use crate::bus::NvmeBus;
use crate::cmd::Command;
use crate::error::NvmeError;
use crate::memory::{Dma, NvmeAllocator};

verus! {

/// One 16-byte Completion Queue Entry, field for field as it lies in memory.
///
/// Bit 0 of `status` is the phase tag; bits 1..16 are the status field.
#[derive(Debug, Clone, Copy, PartialEq, Eq, Structural)]
pub struct Completion {
    /// Command-specific result dword.
    pub command_specific: u32,
    /// Reserved dword.
    pub reserved: u32,
    /// The submission queue head pointer as the controller last consumed it.
    pub sq_head: u16,
    /// The submission queue this completion answers.
    pub sq_id: u16,
    /// The command identifier the submission carried.
    pub cmd_id: u16,
    /// Phase tag in bit 0, status field in bits 1..16.
    pub status: u16,
}

/// The admin queue pair's ring size in slots.
pub const QUEUE_LENGTH: usize = 64;

/// How many times a poll rereads the bus before giving up with `Timeout`.
/// A responsive controller answers within a handful of polls; the budget
/// exists only because every loop in the core must terminate.
pub const POLL_LIMIT: u64 = 0x1000_0000;

/// An NVMe submission ring: a DMA slot array of 64-byte commands, a `tail`
/// the host advances, and a `head` the controller advances (observed through
/// completion entries). `head == tail` means empty; the ring is full when
/// `head == (tail + 1) % len`, so it holds at most `len - 1` commands.
pub struct SubQueue {
    /// The slot array.
    pub data: Dma,
    /// Number of slots.
    pub len: usize,
    /// Index of the oldest slot the controller has not yet consumed.
    pub head: usize,
    /// Index of the next slot to write.
    pub tail: usize,
}

impl SubQueue {
    /// The ring invariant: sound indices and an addressable slot array.
    pub open spec fn wf(self) -> bool {
        &&& 2 <= self.len <= 4096
        &&& self.head < self.len
        &&& self.tail < self.len
        &&& self.data.wf()
        &&& self.data.size >= 64 * self.len
    }

    /// True when one more push would collide with `head`.
    pub open spec fn is_full(self) -> bool {
        self.head == (self.tail + 1) % (self.len as int)
    }

    /// A full ring is never mistaken for an empty one: with at least two
    /// slots, `head == (tail + 1) % len` and `head == tail` cannot hold at
    /// the same time, so `head == tail` unambiguously means empty and the
    /// usable depth is `len - 1`.
    pub proof fn lemma_full_is_not_empty(self)
        requires
            self.wf(),
        ensures
            self.is_full() ==> self.head != self.tail,
    {
        let t = self.tail as int;
        let l = self.len as int;
        assert((t + 1) % l != t) by (nonlinear_arith)
            requires
                0 <= t < l && 2 <= l,
        ;
    }

    /// Creates a submission ring of `len` slots with all slots zeroed and
    /// `head == tail == 0`.
    pub fn new<A: NvmeAllocator, B: NvmeBus>(len: usize, allocator: &A, bus: &B) -> (r: SubQueue)
        requires
            2 <= len <= 4096,
        ensures
            r.wf(),
            r.len == len,
            r.head == 0,
            r.tail == 0,
            r.data.phys_addr == allocator.spec_translate(r.data.addr),
    {
        let data = Dma::allocate(allocator, 64 * len);
        let mut i: usize = 0;
        while i < 8 * len
            invariant
                len <= 4096,
                data.wf(),
                data.size >= 64 * len,
                i <= 8 * len,
            decreases 8 * len - i,
        {
            bus.write_u64(data.addr + 8 * i, 0);
            i = i + 1;
        }
        SubQueue { data, len, head: 0, tail: 0 }
    }

    /// The physical address of the ring's base, as the controller must be
    /// told it.
    pub fn address(&self) -> (r: usize)
        ensures
            r == self.data.phys_addr,
    {
        self.data.phys_addr
    }

    /// Writes `entry` into slot `tail` and advances `tail`, unless the ring
    /// is full. Returns the new tail for doorbell programming.
    pub fn try_push<B: NvmeBus>(&mut self, entry: Command, bus: &B) -> (r: Result<
        usize,
        NvmeError,
    >)
        requires
            old(self).wf(),
        ensures
            final(self).wf(),
            final(self).len == old(self).len,
            final(self).data == old(self).data,
            final(self).head == old(self).head,
            old(self).is_full() ==> r == Err::<usize, NvmeError>(NvmeError::QueueFull)
                && *final(self) == *old(self),
            !old(self).is_full() ==> {
                &&& r == Ok::<usize, NvmeError>(((old(self).tail + 1) as int % (old(self).len
                    as int)) as usize)
                &&& final(self).tail == (old(self).tail + 1) as int % (old(self).len as int)
            },
    {
        if self.head == (self.tail + 1) % self.len {
            Err(NvmeError::QueueFull)
        } else {
            bus.write_command(self.data.addr + 64 * self.tail, &entry);
            self.tail = (self.tail + 1) % self.len;
            Ok(self.tail)
        }
    }

    /// Pushes like `try_push`. The ring's `head` only moves when this
    /// queue's owner records a completion, which cannot happen while this
    /// call runs, so a full ring is reported at once as `QueueFull` instead
    /// of being spun on.
    pub fn push<B: NvmeBus>(&mut self, entry: Command, bus: &B) -> (r: Result<usize, NvmeError>)
        requires
            old(self).wf(),
        ensures
            final(self).wf(),
            final(self).len == old(self).len,
            final(self).data == old(self).data,
            final(self).head == old(self).head,
            old(self).is_full() ==> r == Err::<usize, NvmeError>(NvmeError::QueueFull)
                && *final(self) == *old(self),
            !old(self).is_full() ==> {
                &&& r == Ok::<usize, NvmeError>(((old(self).tail + 1) as int % (old(self).len
                    as int)) as usize)
                &&& final(self).tail == (old(self).tail + 1) as int % (old(self).len as int)
            },
    {
        self.try_push(entry, bus)
    }
}

/// An NVMe completion ring: a DMA slot array of 16-byte entries, a `head`
/// the host advances, and a phase bit that distinguishes fresh entries from
/// stale ones. The controller writes each entry with the phase of the
/// current pass; the host's `phase` starts `true` and toggles every time
/// `head` wraps to 0.
pub struct CompQueue {
    /// The slot array.
    pub data: Dma,
    /// Number of slots.
    pub len: usize,
    /// Index of the next slot to examine.
    pub head: usize,
    /// The phase tag value a fresh entry carries at the moment.
    pub phase: bool,
}

impl CompQueue {
    /// The ring invariant: a sound index and an addressable slot array.
    pub open spec fn wf(self) -> bool {
        &&& 2 <= self.len <= 4096
        &&& self.head < self.len
        &&& self.data.wf()
        &&& self.data.size >= 16 * self.len
    }

    /// Creates a completion ring of `len` slots with all slots zeroed,
    /// `head == 0` and `phase == true`.
    pub fn new<A: NvmeAllocator, B: NvmeBus>(len: usize, allocator: &A, bus: &B) -> (r: CompQueue)
        requires
            2 <= len <= 4096,
        ensures
            r.wf(),
            r.len == len,
            r.head == 0,
            r.phase == true,
            r.data.phys_addr == allocator.spec_translate(r.data.addr),
    {
        let data = Dma::allocate(allocator, 16 * len);
        let mut i: usize = 0;
        while i < 2 * len
            invariant
                len <= 4096,
                data.wf(),
                data.size >= 16 * len,
                i <= 2 * len,
            decreases 2 * len - i,
        {
            bus.write_u64(data.addr + 8 * i, 0);
            i = i + 1;
        }
        CompQueue { data, len, head: 0, phase: true }
    }

    /// The physical address of the ring's base, as the controller must be
    /// told it.
    pub fn address(&self) -> (r: usize)
        ensures
            r == self.data.phys_addr,
    {
        self.data.phys_addr
    }

    /// Examines slot `head`. The entry is fresh exactly when bit 0 of its
    /// status equals the current phase; then `head` advances by one and the
    /// phase toggles when `head` wraps to 0. A stale entry changes nothing.
    pub fn try_pop<B: NvmeBus>(&mut self, bus: &B) -> (r: Option<(usize, Completion)>)
        requires
            old(self).wf(),
        ensures
            final(self).wf(),
            final(self).len == old(self).len,
            final(self).data == old(self).data,
            r is None ==> *final(self) == *old(self),
            r matches Some((new_head, entry)) ==> {
                &&& ((entry.status & 1) == 1) == old(self).phase
                &&& new_head == (old(self).head + 1) as int % (old(self).len as int)
                &&& final(self).head == new_head
                &&& final(self).phase == if new_head == 0 {
                    !old(self).phase
                } else {
                    old(self).phase
                }
            },
    {
        let entry = bus.read_completion(self.data.addr + 16 * self.head);
        if ((entry.status & 1) == 1) == self.phase {
            self.head = (self.head + 1) % self.len;
            if self.head == 0 {
                self.phase = !self.phase;
            }
            Some((self.head, entry))
        } else {
            None
        }
    }

    /// Polls slot `head` until a fresh entry appears, up to `POLL_LIMIT`
    /// rereads; `None` means the budget ran out with the ring unchanged.
    pub fn pop<B: NvmeBus>(&mut self, bus: &B) -> (r: Option<(usize, Completion)>)
        requires
            old(self).wf(),
        ensures
            final(self).wf(),
            final(self).len == old(self).len,
            final(self).data == old(self).data,
            r is None ==> *final(self) == *old(self),
            r matches Some((new_head, entry)) ==> {
                &&& ((entry.status & 1) == 1) == old(self).phase
                &&& new_head == (old(self).head + 1) as int % (old(self).len as int)
                &&& final(self).head == new_head
                &&& final(self).phase == if new_head == 0 {
                    !old(self).phase
                } else {
                    old(self).phase
                }
            },
    {
        let mut attempts: u64 = 0;
        while attempts < POLL_LIMIT
            invariant
                self.wf(),
                *self == *old(self),
            decreases POLL_LIMIT - attempts,
        {
            if let Some(val) = self.try_pop(bus) {
                return Some(val);
            }
            attempts = attempts + 1;
        }
        None
    }

    /// Steps over `step - 1` already-consumed slots and pops the final one:
    /// the batching primitive for a caller that posted `step` commands and
    /// wants only the cumulative completion. The caller must know that the
    /// controller has produced all `step` completions; the skipped entries
    /// are never read.
    pub fn pop_n<B: NvmeBus>(&mut self, step: usize, bus: &B) -> (r: Option<(usize, Completion)>)
        requires
            old(self).wf(),
            1 <= step <= old(self).len,
        ensures
            final(self).wf(),
            final(self).len == old(self).len,
            final(self).data == old(self).data,
            r matches Some((new_head, entry)) ==> {
                &&& new_head == if old(self).head + step >= old(self).len {
                    old(self).head + step - old(self).len
                } else {
                    old(self).head + step
                }
                &&& final(self).head == new_head
                &&& final(self).phase == if old(self).head + step >= old(self).len {
                    !old(self).phase
                } else {
                    old(self).phase
                }
                &&& ((entry.status & 1) == 1) == if old(self).head + step - 1 >= old(self).len {
                    !old(self).phase
                } else {
                    old(self).phase
                }
            },
            r is None ==> {
                &&& final(self).head == if old(self).head + step - 1 >= old(self).len {
                    old(self).head + step - 1 - old(self).len
                } else {
                    old(self).head + step - 1
                }
                &&& final(self).phase == if old(self).head + step - 1 >= old(self).len {
                    !old(self).phase
                } else {
                    old(self).phase
                }
            },
    {
        self.head = self.head + step - 1;
        if self.head >= self.len {
            self.phase = !self.phase;
            self.head = self.head - self.len;
        }
        let ghost jumped = *self;
        let r = self.pop(bus);
        proof {
            let j = jumped.head as int;
            let l = jumped.len as int;
            assert((j + 1) % l == if j + 1 == l {
                0int
            } else {
                j + 1
            }) by (nonlinear_arith)
                requires
                    0 <= j < l,
            ;
        }
        r
    }
}

} // verus!
