use vstd::prelude::*;

verus! {

/// Every failure the driver core can report to its caller.
///
/// Errors are surfaced immediately and never recovered internally.
#[derive(Debug, Clone, Copy, PartialEq, Eq, Structural)]
pub enum NvmeError {
    /// The submission ring is one slot short of `head`, or as many commands
    /// are in flight as the ring can hold.
    QueueFull,
    /// A transfer length of zero, or one that is not a multiple of the
    /// namespace block size.
    InvalidBufferSize,
    /// The host buffer is not 4-byte aligned.
    NotAlignedToDword,
    /// A transfer that crosses a page boundary starts at an address that is
    /// not 4096-byte aligned.
    NotAlignedToPage,
    /// The transfer is larger than the controller's maximum data transfer
    /// size, or needs more blocks than the 16-bit block-count field can name.
    IoSizeExceedsMdts,
    /// A requested I/O queue size below the minimum of 2.
    QueueSizeTooSmall,
    /// A requested I/O queue size above what the controller supports.
    QueueSizeExceedsMqes,
    /// A register or completion poll ran through its whole polling budget
    /// without the controller responding.
    Timeout,
    /// The controller completed a command with a nonzero status; the payload
    /// is bits 1..9 of the completion status word.
    CommandFailed(u16),
}

} // verus!
