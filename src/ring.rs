use vstd::prelude::*;

use crate::geometry::{CqFields, SqFields};

verus! {

/// A live mapped region: its base address and its length in bytes.
#[derive(Clone, Copy, Debug, PartialEq, Eq, Structural)]
pub struct Mapping {
    pub addr: usize,
    pub len: usize,
}

/// One resource to give back: a region to unmap, or the ring's descriptor
/// to close.
#[derive(Clone, Copy, Debug, PartialEq, Eq, Structural)]
pub enum Release {
    Unmap(Mapping),
    Close(i32),
}

/// The submission side of a ring: where each of its fields lies in the
/// mapped submission-queue region, the mapped entry array, and the two
/// process-local cursors over that array.
#[derive(Clone, Copy, Debug, PartialEq, Eq, Structural)]
pub struct SubmissionQueue {
    pub fields: SqFields,
    pub sqes: Mapping,
    pub sqe_head: u32,
    pub sqe_tail: u32,
    pub ring: Mapping,
}

/// The completion side of a ring: where each of its fields lies in the
/// mapped completion-queue region.
#[derive(Clone, Copy, Debug, PartialEq, Eq, Structural)]
pub struct CompletionQueue {
    pub fields: CqFields,
    pub ring: Mapping,
}

/// A constructed ring: its descriptor and both queues, with every region
/// they live in.
#[derive(Clone, Copy, Debug, PartialEq, Eq, Structural)]
pub struct IoUring {
    pub fd: i32,
    pub sq: SubmissionQueue,
    pub cq: CompletionQueue,
}

/// What tearing a ring down gives back, in order: the completion-queue
/// region, the entry array, the submission-queue region, the descriptor.
pub open spec fn teardown_of(r: IoUring) -> Seq<Release> {
    seq![Release::Unmap(r.cq.ring), Release::Unmap(r.sq.sqes), Release::Unmap(r.sq.ring), Release::Close(r.fd)]
}

impl IoUring {
    /// The releases that tear this ring down, each of them to be carried
    /// out whatever became of the ones before it.
    pub fn teardown(&self) -> (r: Vec<Release>)
        ensures
            r@ == teardown_of(*self),
    {
        let mut r: Vec<Release> = Vec::new();
        r.push(Release::Unmap(self.cq.ring));
        r.push(Release::Unmap(self.sq.sqes));
        r.push(Release::Unmap(self.sq.ring));
        r.push(Release::Close(self.fd));
        proof {
            assert(r@ =~= teardown_of(*self));
        }
        r
    }
}

} // verus!
