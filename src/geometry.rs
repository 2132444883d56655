use vstd::prelude::*;

use crate::abi::{CqRingOffsets, Params, SqRingOffsets, CQE_SIZE, SQE_SIZE, SQ_INDEX_SIZE};

verus! {

/// Bytes of the submission-queue region: its index array ends it.
pub open spec fn sq_ring_len(p: Params) -> int {
    p.sq_off.array + p.sq_entries * SQ_INDEX_SIZE
}

/// Bytes of the submission-entry array.
pub open spec fn sqes_len(p: Params) -> int {
    p.sq_entries * SQE_SIZE
}

/// Bytes of the completion-queue region: its entry array ends it.
pub open spec fn cq_ring_len(p: Params) -> int {
    p.cq_off.cqes + p.cq_entries * CQE_SIZE
}

/// The size of the submission-queue region, or `None` where it does not fit
/// in the address space.
pub fn sq_ring_size(p: &Params) -> (r: Option<usize>)
    ensures
        r == (if sq_ring_len(*p) <= usize::MAX { Some(sq_ring_len(*p) as usize) } else { None::<usize> }),
{
    match (p.sq_entries as usize).checked_mul(SQ_INDEX_SIZE) {
        Some(idx) => (p.sq_off.array as usize).checked_add(idx),
        None => None,
    }
}

/// The size of the submission-entry array, or `None` where it does not fit
/// in the address space.
pub fn sqes_size(p: &Params) -> (r: Option<usize>)
    ensures
        r == (if sqes_len(*p) <= usize::MAX { Some(sqes_len(*p) as usize) } else { None::<usize> }),
{
    (p.sq_entries as usize).checked_mul(SQE_SIZE)
}

/// The size of the completion-queue region, or `None` where it does not fit
/// in the address space.
pub fn cq_ring_size(p: &Params) -> (r: Option<usize>)
    ensures
        r == (if cq_ring_len(*p) <= usize::MAX { Some(cq_ring_len(*p) as usize) } else { None::<usize> }),
{
    match (p.cq_entries as usize).checked_mul(CQE_SIZE) {
        Some(entries) => (p.cq_off.cqes as usize).checked_add(entries),
        None => None,
    }
}

/// Addresses of the submission queue's fields inside its mapped region.
#[derive(Clone, Copy, Debug, PartialEq, Eq, Structural)]
pub struct SqFields {
    pub head: usize,
    pub tail: usize,
    pub ring_mask: usize,
    pub ring_entries: usize,
    pub flags: usize,
    pub dropped: usize,
    pub array: usize,
}

/// Addresses of the completion queue's fields inside its mapped region.
#[derive(Clone, Copy, Debug, PartialEq, Eq, Structural)]
pub struct CqFields {
    pub head: usize,
    pub tail: usize,
    pub ring_mask: usize,
    pub ring_entries: usize,
    pub overflow: usize,
    pub cqes: usize,
}

/// `base + off`, where that is an address.
pub open spec fn addr_at(base: usize, off: u32) -> Option<usize> {
    if base + off <= usize::MAX {
        Some((base + off) as usize)
    } else {
        None
    }
}

/// The largest offset of the submission table.
pub open spec fn sq_max_off(o: SqRingOffsets) -> u32 {
    let a = if o.head >= o.tail { o.head } else { o.tail };
    let b = if a >= o.ring_mask { a } else { o.ring_mask };
    let c = if b >= o.ring_entries { b } else { o.ring_entries };
    let d = if c >= o.flags { c } else { o.flags };
    let e = if d >= o.dropped { d } else { o.dropped };
    if e >= o.array { e } else { o.array }
}

/// Each field of the submission table placed at `base`; `None` where one of
/// them would lie past the end of the address space.
pub open spec fn sq_fields_at(base: usize, o: SqRingOffsets) -> Option<SqFields> {
    if base + sq_max_off(o) <= usize::MAX {
        Some(SqFields {
            head: (base + o.head) as usize,
            tail: (base + o.tail) as usize,
            ring_mask: (base + o.ring_mask) as usize,
            ring_entries: (base + o.ring_entries) as usize,
            flags: (base + o.flags) as usize,
            dropped: (base + o.dropped) as usize,
            array: (base + o.array) as usize,
        })
    } else {
        None
    }
}

/// The largest offset of the completion table.
pub open spec fn cq_max_off(o: CqRingOffsets) -> u32 {
    let a = if o.head >= o.tail { o.head } else { o.tail };
    let b = if a >= o.ring_mask { a } else { o.ring_mask };
    let c = if b >= o.ring_entries { b } else { o.ring_entries };
    let d = if c >= o.overflow { c } else { o.overflow };
    if d >= o.cqes { d } else { o.cqes }
}

/// Each field of the completion table placed at `base`; `None` where one of
/// them would lie past the end of the address space.
pub open spec fn cq_fields_at(base: usize, o: CqRingOffsets) -> Option<CqFields> {
    if base + cq_max_off(o) <= usize::MAX {
        Some(CqFields {
            head: (base + o.head) as usize,
            tail: (base + o.tail) as usize,
            ring_mask: (base + o.ring_mask) as usize,
            ring_entries: (base + o.ring_entries) as usize,
            overflow: (base + o.overflow) as usize,
            cqes: (base + o.cqes) as usize,
        })
    } else {
        None
    }
}

fn offset_addr(base: usize, off: u32) -> (r: Option<usize>)
    ensures
        r == addr_at(base, off),
{
    base.checked_add(off as usize)
}

/// Resolves the submission table against the region mapped at `base`.
pub fn resolve_sq_fields(base: usize, o: &SqRingOffsets) -> (r: Option<SqFields>)
    ensures
        r == sq_fields_at(base, *o),
{
    let head = offset_addr(base, o.head);
    let tail = offset_addr(base, o.tail);
    let ring_mask = offset_addr(base, o.ring_mask);
    let ring_entries = offset_addr(base, o.ring_entries);
    let flags = offset_addr(base, o.flags);
    let dropped = offset_addr(base, o.dropped);
    let array = offset_addr(base, o.array);
    match (head, tail, ring_mask, ring_entries, flags, dropped, array) {
        (Some(head), Some(tail), Some(ring_mask), Some(ring_entries), Some(flags), Some(dropped), Some(array)) => {
            Some(SqFields { head, tail, ring_mask, ring_entries, flags, dropped, array })
        },
        _ => None,
    }
}

/// Resolves the completion table against the region mapped at `base`.
pub fn resolve_cq_fields(base: usize, o: &CqRingOffsets) -> (r: Option<CqFields>)
    ensures
        r == cq_fields_at(base, *o),
{
    let head = offset_addr(base, o.head);
    let tail = offset_addr(base, o.tail);
    let ring_mask = offset_addr(base, o.ring_mask);
    let ring_entries = offset_addr(base, o.ring_entries);
    let overflow = offset_addr(base, o.overflow);
    let cqes = offset_addr(base, o.cqes);
    match (head, tail, ring_mask, ring_entries, overflow, cqes) {
        (Some(head), Some(tail), Some(ring_mask), Some(ring_entries), Some(overflow), Some(cqes)) => {
            Some(CqFields { head, tail, ring_mask, ring_entries, overflow, cqes })
        },
        _ => None,
    }
}

} // verus!
