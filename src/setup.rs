use vstd::prelude::*;

use crate::abi::{CqRingOffsets, Params, SqRingOffsets, OFF_CQ_RING, OFF_SQES, OFF_SQ_RING};
use crate::geometry::{
    cq_fields_at, cq_ring_len, cq_ring_size, resolve_cq_fields, resolve_sq_fields, sq_fields_at,
    sq_ring_len, sq_ring_size, sqes_len, sqes_size, CqFields, SqFields,
};
use crate::ring::{CompletionQueue, IoUring, Mapping, Release, SubmissionQueue};

verus! {

/// The three regions a ring lives in.
#[derive(Clone, Copy, Debug, PartialEq, Eq, Structural)]
pub enum Region {
    SqRing,
    Sqes,
    CqRing,
}

/// Why a ring could not be set up.
#[derive(Clone, Copy, Debug, PartialEq, Eq, Structural)]
pub enum SetupError {
    /// The kernel refused the create-ring call or a mapping, with this error
    /// number.
    Os { errno: i32 },
    /// A size or an address that the reported offsets call for does not fit
    /// in the address space.
    Geometry,
    /// The depth read from the mapped ring disagrees with the reported one.
    EntriesMismatch { reported: u32, observed: u32 },
    /// An event came that the step under way does not answer to.
    UnexpectedEvent,
}

/// What the caller is to do next.
#[derive(Clone, Copy, Debug, PartialEq, Eq, Structural)]
pub enum Action {
    /// Ask the kernel for a ring of at least `entries` submission slots.
    CreateRing { entries: u32 },
    /// Map `len` bytes of `fd`, shared and populated, at file offset `offset`.
    MapRegion { region: Region, fd: i32, len: usize, offset: i64 },
    /// Read the 32-bit word at `addr` of a mapped region.
    ReadU32 { addr: usize },
    /// Give back one resource; its outcome does not change what follows.
    Release(Release),
    /// The ring stands; take it with `into_ring`.
    Ready,
    /// Setup failed and holds nothing any more.
    Fail(SetupError),
}

/// What came of the last action.
#[derive(Clone, Copy, Debug, PartialEq, Eq, Structural)]
pub enum Event {
    /// The ring was created: its descriptor and the filled parameter block.
    Created { fd: i32, params: Params },
    /// The create-ring call or the mapping failed with this error number.
    Failed { errno: i32 },
    /// The region was mapped at `addr`.
    Mapped { addr: usize },
    /// The word read holds `value`.
    Value { value: u32 },
    /// A release was carried out (or attempted).
    Released,
}

/// Where setup stands.
#[derive(Clone, Copy, Debug, PartialEq, Eq, Structural)]
pub enum Phase {
    Creating,
    MapSqRing,
    MapSqes,
    CheckEntries,
    MapCqRing,
    Unwinding,
    Ready,
    Failed,
}

/// The construction of a ring, one outside step at a time. Each resource
/// acquired is recorded in `held` as the release that gives it back; on a
/// failure they are given back from the last to the first.
pub struct Setup {
    pub entries: u32,
    pub phase: Phase,
    pub fd: i32,
    pub params: Params,
    pub sq_ring: Mapping,
    pub sqes: Mapping,
    pub cq_ring: Mapping,
    pub sq_fields: SqFields,
    pub cq_fields: CqFields,
    pub held: Vec<Release>,
    pub error: SetupError,
}

/// `Setup` as a value: the same fields, with the held resources as a
/// sequence.
pub struct SetupModel {
    pub entries: u32,
    pub phase: Phase,
    pub fd: i32,
    pub params: Params,
    pub sq_ring: Mapping,
    pub sqes: Mapping,
    pub cq_ring: Mapping,
    pub sq_fields: SqFields,
    pub cq_fields: CqFields,
    pub held: Seq<Release>,
    pub error: SetupError,
}

impl View for Setup {
    type V = SetupModel;

    open spec fn view(&self) -> SetupModel {
        SetupModel {
            entries: self.entries,
            phase: self.phase,
            fd: self.fd,
            params: self.params,
            sq_ring: self.sq_ring,
            sqes: self.sqes,
            cq_ring: self.cq_ring,
            sq_fields: self.sq_fields,
            cq_fields: self.cq_fields,
            held: self.held@,
            error: self.error,
        }
    }
}

pub open spec fn zero_params() -> Params {
    Params {
        sq_entries: 0,
        cq_entries: 0,
        flags: 0,
        sq_thread_cpu: 0,
        sq_thread_idle: 0,
        sq_off: SqRingOffsets { head: 0, tail: 0, ring_mask: 0, ring_entries: 0, flags: 0, dropped: 0, array: 0 },
        cq_off: CqRingOffsets { head: 0, tail: 0, ring_mask: 0, ring_entries: 0, overflow: 0, cqes: 0 },
    }
}

pub open spec fn no_mapping() -> Mapping {
    Mapping { addr: 0, len: 0 }
}

pub open spec fn zero_sq_fields() -> SqFields {
    SqFields { head: 0, tail: 0, ring_mask: 0, ring_entries: 0, flags: 0, dropped: 0, array: 0 }
}

pub open spec fn zero_cq_fields() -> CqFields {
    CqFields { head: 0, tail: 0, ring_mask: 0, ring_entries: 0, overflow: 0, cqes: 0 }
}

/// The state in which setup for `entries` slots starts: nothing held, the
/// create-ring call under way.
pub open spec fn initial(entries: u32) -> SetupModel {
    SetupModel {
        entries,
        phase: Phase::Creating,
        fd: -1i32,
        params: zero_params(),
        sq_ring: no_mapping(),
        sqes: no_mapping(),
        cq_ring: no_mapping(),
        sq_fields: zero_sq_fields(),
        cq_fields: zero_cq_fields(),
        held: Seq::empty(),
        error: SetupError::UnexpectedEvent,
    }
}

/// Gives back the most recently acquired resource still held, or, with
/// nothing held, ends in failure with `err`.
pub open spec fn unwind(m: SetupModel, err: SetupError) -> (SetupModel, Action) {
    if m.held.len() == 0 {
        (SetupModel { phase: Phase::Failed, error: err, ..m }, Action::Fail(err))
    } else {
        (
            SetupModel { phase: Phase::Unwinding, error: err, held: m.held.drop_last(), ..m },
            Action::Release(m.held.last()),
        )
    }
}

/// One step of setup: the state after `ev`, and the action to perform next.
pub open spec fn step(m: SetupModel, ev: Event) -> (SetupModel, Action) {
    match m.phase {
        Phase::Creating => match ev {
            Event::Created { fd, params } => {
                let m1 = SetupModel { fd, params, held: m.held.push(Release::Close(fd)), ..m };
                if sq_ring_len(params) <= usize::MAX {
                    (
                        SetupModel { phase: Phase::MapSqRing, sq_ring: Mapping { addr: 0, len: sq_ring_len(params) as usize }, ..m1 },
                        Action::MapRegion { region: Region::SqRing, fd, len: sq_ring_len(params) as usize, offset: OFF_SQ_RING },
                    )
                } else {
                    unwind(m1, SetupError::Geometry)
                }
            },
            Event::Failed { errno } => unwind(m, SetupError::Os { errno }),
            _ => unwind(m, SetupError::UnexpectedEvent),
        },
        Phase::MapSqRing => match ev {
            Event::Mapped { addr } => {
                let ring = Mapping { addr, len: m.sq_ring.len };
                let m1 = SetupModel { sq_ring: ring, held: m.held.push(Release::Unmap(ring)), ..m };
                if sqes_len(m.params) <= usize::MAX {
                    (
                        SetupModel { phase: Phase::MapSqes, sqes: Mapping { addr: 0, len: sqes_len(m.params) as usize }, ..m1 },
                        Action::MapRegion { region: Region::Sqes, fd: m.fd, len: sqes_len(m.params) as usize, offset: OFF_SQES },
                    )
                } else {
                    unwind(m1, SetupError::Geometry)
                }
            },
            Event::Failed { errno } => unwind(m, SetupError::Os { errno }),
            _ => unwind(m, SetupError::UnexpectedEvent),
        },
        Phase::MapSqes => match ev {
            Event::Mapped { addr } => {
                let sqes = Mapping { addr, len: m.sqes.len };
                let m1 = SetupModel { sqes, held: m.held.push(Release::Unmap(sqes)), ..m };
                match sq_fields_at(m.sq_ring.addr, m.params.sq_off) {
                    Some(f) => (
                        SetupModel { phase: Phase::CheckEntries, sq_fields: f, ..m1 },
                        Action::ReadU32 { addr: f.ring_entries },
                    ),
                    None => unwind(m1, SetupError::Geometry),
                }
            },
            Event::Failed { errno } => unwind(m, SetupError::Os { errno }),
            _ => unwind(m, SetupError::UnexpectedEvent),
        },
        Phase::CheckEntries => match ev {
            Event::Value { value } => {
                if value != m.params.sq_entries {
                    unwind(m, SetupError::EntriesMismatch { reported: m.params.sq_entries, observed: value })
                } else if cq_ring_len(m.params) <= usize::MAX {
                    (
                        SetupModel { phase: Phase::MapCqRing, cq_ring: Mapping { addr: 0, len: cq_ring_len(m.params) as usize }, ..m },
                        Action::MapRegion { region: Region::CqRing, fd: m.fd, len: cq_ring_len(m.params) as usize, offset: OFF_CQ_RING },
                    )
                } else {
                    unwind(m, SetupError::Geometry)
                }
            },
            _ => unwind(m, SetupError::UnexpectedEvent),
        },
        Phase::MapCqRing => match ev {
            Event::Mapped { addr } => {
                let ring = Mapping { addr, len: m.cq_ring.len };
                let m1 = SetupModel { cq_ring: ring, held: m.held.push(Release::Unmap(ring)), ..m };
                match cq_fields_at(ring.addr, m.params.cq_off) {
                    Some(f) => (SetupModel { phase: Phase::Ready, cq_fields: f, ..m1 }, Action::Ready),
                    None => unwind(m1, SetupError::Geometry),
                }
            },
            Event::Failed { errno } => unwind(m, SetupError::Os { errno }),
            _ => unwind(m, SetupError::UnexpectedEvent),
        },
        Phase::Unwinding => unwind(m, m.error),
        Phase::Ready => (m, Action::Ready),
        Phase::Failed => (m, Action::Fail(m.error)),
    }
}

/// The ring that a finished setup holds.
pub open spec fn ring_of(m: SetupModel) -> IoUring {
    IoUring {
        fd: m.fd,
        sq: SubmissionQueue { fields: m.sq_fields, sqes: m.sqes, sqe_head: 0, sqe_tail: 0, ring: m.sq_ring },
        cq: CompletionQueue { fields: m.cq_fields, ring: m.cq_ring },
    }
}

impl Setup {
    /// Starts setting up a ring of at least `entries` submission slots; the
    /// action returned is the create-ring call.
    pub fn begin(entries: u32) -> (r: (Setup, Action))
        ensures
            r.0@ == initial(entries),
            r.1 == (Action::CreateRing { entries }),
    {
        let s = Setup {
            entries,
            phase: Phase::Creating,
            fd: -1,
            params: Params {
                sq_entries: 0,
                cq_entries: 0,
                flags: 0,
                sq_thread_cpu: 0,
                sq_thread_idle: 0,
                sq_off: SqRingOffsets { head: 0, tail: 0, ring_mask: 0, ring_entries: 0, flags: 0, dropped: 0, array: 0 },
                cq_off: CqRingOffsets { head: 0, tail: 0, ring_mask: 0, ring_entries: 0, overflow: 0, cqes: 0 },
            },
            sq_ring: Mapping { addr: 0, len: 0 },
            sqes: Mapping { addr: 0, len: 0 },
            cq_ring: Mapping { addr: 0, len: 0 },
            sq_fields: SqFields { head: 0, tail: 0, ring_mask: 0, ring_entries: 0, flags: 0, dropped: 0, array: 0 },
            cq_fields: CqFields { head: 0, tail: 0, ring_mask: 0, ring_entries: 0, overflow: 0, cqes: 0 },
            held: Vec::new(),
            error: SetupError::UnexpectedEvent,
        };
        proof {
            assert(s.held@ =~= Seq::<Release>::empty());
        }
        (s, Action::CreateRing { entries })
    }

    fn unwind(&mut self, err: SetupError) -> (a: Action)
        ensures
            (final(self)@, a) == unwind(old(self)@, err),
    {
        self.error = err;
        match self.held.pop() {
            Some(r) => {
                self.phase = Phase::Unwinding;
                Action::Release(r)
            },
            None => {
                self.phase = Phase::Failed;
                Action::Fail(err)
            },
        }
    }

    /// Takes in what came of the last action and returns the next one.
    pub fn next(&mut self, ev: Event) -> (a: Action)
        ensures
            (final(self)@, a) == step(old(self)@, ev),
    {
        match self.phase {
            Phase::Creating => match ev {
                Event::Created { fd, params } => {
                    self.fd = fd;
                    self.params = params;
                    self.held.push(Release::Close(fd));
                    match sq_ring_size(&params) {
                        Some(len) => {
                            self.sq_ring = Mapping { addr: 0, len };
                            self.phase = Phase::MapSqRing;
                            Action::MapRegion { region: Region::SqRing, fd, len, offset: OFF_SQ_RING }
                        },
                        None => self.unwind(SetupError::Geometry),
                    }
                },
                Event::Failed { errno } => self.unwind(SetupError::Os { errno }),
                _ => self.unwind(SetupError::UnexpectedEvent),
            },
            Phase::MapSqRing => match ev {
                Event::Mapped { addr } => {
                    let ring = Mapping { addr, len: self.sq_ring.len };
                    self.sq_ring = ring;
                    self.held.push(Release::Unmap(ring));
                    match sqes_size(&self.params) {
                        Some(len) => {
                            self.sqes = Mapping { addr: 0, len };
                            self.phase = Phase::MapSqes;
                            Action::MapRegion { region: Region::Sqes, fd: self.fd, len, offset: OFF_SQES }
                        },
                        None => self.unwind(SetupError::Geometry),
                    }
                },
                Event::Failed { errno } => self.unwind(SetupError::Os { errno }),
                _ => self.unwind(SetupError::UnexpectedEvent),
            },
            Phase::MapSqes => match ev {
                Event::Mapped { addr } => {
                    let sqes = Mapping { addr, len: self.sqes.len };
                    self.sqes = sqes;
                    self.held.push(Release::Unmap(sqes));
                    match resolve_sq_fields(self.sq_ring.addr, &self.params.sq_off) {
                        Some(f) => {
                            self.sq_fields = f;
                            self.phase = Phase::CheckEntries;
                            Action::ReadU32 { addr: f.ring_entries }
                        },
                        None => self.unwind(SetupError::Geometry),
                    }
                },
                Event::Failed { errno } => self.unwind(SetupError::Os { errno }),
                _ => self.unwind(SetupError::UnexpectedEvent),
            },
            Phase::CheckEntries => match ev {
                Event::Value { value } => {
                    if value != self.params.sq_entries {
                        let reported = self.params.sq_entries;
                        self.unwind(SetupError::EntriesMismatch { reported, observed: value })
                    } else {
                        match cq_ring_size(&self.params) {
                            Some(len) => {
                                self.cq_ring = Mapping { addr: 0, len };
                                self.phase = Phase::MapCqRing;
                                Action::MapRegion { region: Region::CqRing, fd: self.fd, len, offset: OFF_CQ_RING }
                            },
                            None => self.unwind(SetupError::Geometry),
                        }
                    }
                },
                _ => self.unwind(SetupError::UnexpectedEvent),
            },
            Phase::MapCqRing => match ev {
                Event::Mapped { addr } => {
                    let ring = Mapping { addr, len: self.cq_ring.len };
                    self.cq_ring = ring;
                    self.held.push(Release::Unmap(ring));
                    match resolve_cq_fields(addr, &self.params.cq_off) {
                        Some(f) => {
                            self.cq_fields = f;
                            self.phase = Phase::Ready;
                            Action::Ready
                        },
                        None => self.unwind(SetupError::Geometry),
                    }
                },
                Event::Failed { errno } => self.unwind(SetupError::Os { errno }),
                _ => self.unwind(SetupError::UnexpectedEvent),
            },
            Phase::Unwinding => {
                let err = self.error;
                self.unwind(err)
            },
            Phase::Ready => Action::Ready,
            Phase::Failed => Action::Fail(self.error),
        }
    }

    /// The constructed ring, once setup is ready; `None` before that or
    /// after a failure.
    pub fn into_ring(&self) -> (r: Option<IoUring>)
        ensures
            r == (if self@.phase is Ready { Some(ring_of(self@)) } else { None::<IoUring> }),
    {
        match self.phase {
            Phase::Ready => Some(IoUring {
                fd: self.fd,
                sq: SubmissionQueue { fields: self.sq_fields, sqes: self.sqes, sqe_head: 0, sqe_tail: 0, ring: self.sq_ring },
                cq: CompletionQueue { fields: self.cq_fields, ring: self.cq_ring },
            }),
            _ => None,
        }
    }
}

} // verus!
