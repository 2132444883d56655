use vstd::prelude::*;

verus! {

/// File offset at which the submission-queue region is mapped.
pub const OFF_SQ_RING: i64 = 0;

/// File offset at which the completion-queue region is mapped.
pub const OFF_CQ_RING: i64 = 0x8000000;

/// File offset at which the submission-entry array is mapped.
pub const OFF_SQES: i64 = 0x10000000;

/// Bytes of one slot of the submission queue's index array.
pub const SQ_INDEX_SIZE: usize = 4;

/// Bytes of one submission entry.
pub const SQE_SIZE: usize = 64;

/// Bytes of one completion entry.
pub const CQE_SIZE: usize = 16;

/// Byte count of the kernel's own signal set (65 signals, rounded down to
/// whole bytes), which the enter call expects in place of the size of the
/// process's `sigset_t`.
pub const KERNEL_SIGSET_SIZE: u32 = 65 / 8;

/// Byte offsets, from the start of the submission-queue region, of the
/// fields that region holds.
#[derive(Clone, Copy, Debug, PartialEq, Eq, Structural)]
pub struct SqRingOffsets {
    pub head: u32,
    pub tail: u32,
    pub ring_mask: u32,
    pub ring_entries: u32,
    pub flags: u32,
    pub dropped: u32,
    pub array: u32,
}

/// Byte offsets, from the start of the completion-queue region, of the
/// fields that region holds.
#[derive(Clone, Copy, Debug, PartialEq, Eq, Structural)]
pub struct CqRingOffsets {
    pub head: u32,
    pub tail: u32,
    pub ring_mask: u32,
    pub ring_entries: u32,
    pub overflow: u32,
    pub cqes: u32,
}

/// The parameter block that the create-ring call fills: the actual depths
/// of both queues, the flags and hints, and the two offset tables. The
/// reserved words of the wire format carry nothing and are not kept.
#[derive(Clone, Copy, Debug, PartialEq, Eq, Structural)]
pub struct Params {
    pub sq_entries: u32,
    pub cq_entries: u32,
    pub flags: u32,
    pub sq_thread_cpu: u32,
    pub sq_thread_idle: u32,
    pub sq_off: SqRingOffsets,
    pub cq_off: CqRingOffsets,
}

} // verus!
