//! Userspace bootstrap of a kernel asynchronous I/O ring: the kernel's
//! parameter layout, the geometry of the three shared regions, the setup
//! sequence with its rollback, and the handle that owns the result.
//!
//! The library itself never touches the kernel. Every outside step (the
//! create-ring system call, a mapping, a read of mapped memory, a release)
//! is an `Action` that the caller performs and answers with an `Event`.

mod abi;
mod entry;
mod gateway;
mod geometry;
mod lifecycle;
mod ring;
mod setup;

pub use abi::{
    CqRingOffsets, Params, SqRingOffsets, CQE_SIZE, KERNEL_SIGSET_SIZE, OFF_CQ_RING, OFF_SQES,
    OFF_SQ_RING, SQE_SIZE, SQ_INDEX_SIZE,
};
pub use geometry::{
    cq_fields_at, cq_ring_len, cq_ring_size, resolve_cq_fields, resolve_sq_fields, sq_fields_at, sq_ring_len,
    sq_ring_size, sqes_len, sqes_size, CqFields, SqFields,
};
pub use ring::{teardown_of, CompletionQueue, IoUring, Mapping, Release, SubmissionQueue};
pub use setup::{initial, ring_of, step, Action, Event, Phase, Region, Setup, SetupError, SetupModel};
pub use lifecycle::{
    lemma_entries_agree, lemma_failure_gives_back_all, lemma_initial_wf, lemma_map_sizes,
    lemma_ready_only_after_check, lemma_step_keeps_wf, lemma_teardown_gives_back_all, lemma_unwinding_drains,
    released, releases_of, run, wf,
};
pub use gateway::{call_count, created_event, mapped_event, setup_fd, MAP_FAILED_ADDR};
pub use entry::{cqe_of, lemma_u64_le_round_trip, lemma_user_tag_echo, sqe_bytes, Cqe, OpArg, Sqe};
