use vstd::prelude::*;
use crate::cmd::Command;
use crate::queues::Completion;

verus! {

/// Raw access to controller registers and to the DMA memory that the
/// controller shares with the host.
///
/// The driver core computes every address, register value, command and PRP
/// entry itself, but it never dereferences memory: each load and store goes
/// through this trait, so the core stays free of raw pointers. An
/// implementation performs the access with volatile semantics at the given
/// host-virtual address (for real hardware), or against a simulated
/// controller (for tests).
///
/// Nothing is promised about what a read returns: the controller owns the
/// other side of this memory, so the core treats every value read as
/// arbitrary and validates it before relying on it.
pub trait NvmeBus {
    /// Loads one byte.
    fn read_u8(&self, addr: usize) -> u8;

    /// Loads a 32-bit little-endian word.
    fn read_u32(&self, addr: usize) -> u32;

    /// Loads a 64-bit little-endian word.
    fn read_u64(&self, addr: usize) -> u64;

    /// Stores a 32-bit little-endian word.
    fn write_u32(&self, addr: usize, value: u32);

    /// Stores a 64-bit little-endian word.
    fn write_u64(&self, addr: usize, value: u64);

    /// Stores one 64-byte submission queue entry, packed little-endian.
    fn write_command(&self, addr: usize, entry: &Command);

    /// Loads one 16-byte completion queue entry, packed little-endian.
    fn read_completion(&self, addr: usize) -> Completion;
}

} // verus!
