use uring_setup::{
    call_count, created_event, cq_ring_size, mapped_event, resolve_cq_fields, resolve_sq_fields, setup_fd,
    sq_ring_size, sqes_size, Action, CqRingOffsets, Event, Mapping, Params, Phase, Region, Release, Setup,
    SetupError, SqRingOffsets, KERNEL_SIGSET_SIZE, MAP_FAILED_ADDR, OFF_CQ_RING, OFF_SQES, OFF_SQ_RING,
};

const FD: i32 = 7;
const SQ_BASE: usize = 0x7f00_0000_0000;
const SQES_BASE: usize = 0x7f00_0001_0000;
const CQ_BASE: usize = 0x7f00_0002_0000;

fn params(sq_entries: u32, cq_entries: u32) -> Params {
    Params {
        sq_entries,
        cq_entries,
        flags: 0,
        sq_thread_cpu: 0,
        sq_thread_idle: 0,
        sq_off: SqRingOffsets { head: 0, tail: 64, ring_mask: 256, ring_entries: 264, flags: 276, dropped: 272, array: 576 },
        cq_off: CqRingOffsets { head: 128, tail: 192, ring_mask: 260, ring_entries: 268, overflow: 284, cqes: 320 },
    }
}

/// Runs setup for 8 slots up to the depth check.
fn up_to_check() -> Setup {
    let (mut s, a) = Setup::begin(8);
    assert_eq!(a, Action::CreateRing { entries: 8 });
    let a = s.next(Event::Created { fd: FD, params: params(8, 16) });
    assert_eq!(a, Action::MapRegion { region: Region::SqRing, fd: FD, len: 608, offset: OFF_SQ_RING });
    let a = s.next(Event::Mapped { addr: SQ_BASE });
    assert_eq!(a, Action::MapRegion { region: Region::Sqes, fd: FD, len: 512, offset: OFF_SQES });
    let a = s.next(Event::Mapped { addr: SQES_BASE });
    assert_eq!(a, Action::ReadU32 { addr: SQ_BASE + 264 });
    s
}

fn sq_ring() -> Mapping {
    Mapping { addr: SQ_BASE, len: 608 }
}

fn sqes() -> Mapping {
    Mapping { addr: SQES_BASE, len: 512 }
}

fn cq_ring() -> Mapping {
    Mapping { addr: CQ_BASE, len: 576 }
}

#[test]
fn region_sizes_follow_offset_tables() {
    let p = params(8, 16);
    assert_eq!(sq_ring_size(&p), Some(576 + 8 * 4));
    assert_eq!(sqes_size(&p), Some(8 * 64));
    assert_eq!(cq_ring_size(&p), Some(320 + 16 * 16));
    let big = params(u32::MAX, u32::MAX);
    assert_eq!(sq_ring_size(&big), Some(576 + (u32::MAX as usize) * 4));
    assert_eq!(sqes_size(&big), Some((u32::MAX as usize) * 64));
    assert_eq!(cq_ring_size(&big), Some(320 + (u32::MAX as usize) * 16));
}

#[test]
fn field_addresses_are_base_plus_offset() {
    let p = params(8, 16);
    let sq = resolve_sq_fields(SQ_BASE, &p.sq_off).unwrap();
    assert_eq!(sq.head, SQ_BASE);
    assert_eq!(sq.tail, SQ_BASE + 64);
    assert_eq!(sq.ring_mask, SQ_BASE + 256);
    assert_eq!(sq.ring_entries, SQ_BASE + 264);
    assert_eq!(sq.flags, SQ_BASE + 276);
    assert_eq!(sq.dropped, SQ_BASE + 272);
    assert_eq!(sq.array, SQ_BASE + 576);
    let cq = resolve_cq_fields(CQ_BASE, &p.cq_off).unwrap();
    assert_eq!(cq.head, CQ_BASE + 128);
    assert_eq!(cq.overflow, CQ_BASE + 284);
    assert_eq!(cq.cqes, CQ_BASE + 320);
    assert_eq!(resolve_sq_fields(usize::MAX - 100, &p.sq_off), None);
    assert_eq!(resolve_cq_fields(usize::MAX - 200, &p.cq_off), None);
}

#[test]
fn full_setup_yields_ring() {
    let mut s = up_to_check();
    let a = s.next(Event::Value { value: 8 });
    assert_eq!(a, Action::MapRegion { region: Region::CqRing, fd: FD, len: 576, offset: OFF_CQ_RING });
    assert!(s.into_ring().is_none());
    let a = s.next(Event::Mapped { addr: CQ_BASE });
    assert_eq!(a, Action::Ready);
    assert_eq!(s.phase, Phase::Ready);
    let ring = s.into_ring().unwrap();
    assert_eq!(ring.fd, FD);
    assert_eq!(ring.sq.ring, sq_ring());
    assert_eq!(ring.sq.sqes, sqes());
    assert_eq!(ring.sq.sqe_head, 0);
    assert_eq!(ring.sq.sqe_tail, 0);
    assert_eq!(ring.sq.fields.array, SQ_BASE + 576);
    assert_eq!(ring.cq.ring, cq_ring());
    assert_eq!(ring.cq.fields.tail, CQ_BASE + 192);
    assert_eq!(
        s.held,
        vec![Release::Close(FD), Release::Unmap(sq_ring()), Release::Unmap(sqes()), Release::Unmap(cq_ring())]
    );
}

#[test]
fn teardown_releases_everything_in_reverse() {
    let mut s = up_to_check();
    s.next(Event::Value { value: 8 });
    s.next(Event::Mapped { addr: CQ_BASE });
    let ring = s.into_ring().unwrap();
    assert_eq!(
        ring.teardown(),
        vec![Release::Unmap(cq_ring()), Release::Unmap(sqes()), Release::Unmap(sq_ring()), Release::Close(FD)]
    );
}

#[test]
fn create_failure_holds_nothing() {
    let (mut s, _) = Setup::begin(0);
    let a = s.next(Event::Failed { errno: 22 });
    assert_eq!(a, Action::Fail(SetupError::Os { errno: 22 }));
    assert_eq!(s.phase, Phase::Failed);
    assert!(s.held.is_empty());
    assert!(s.into_ring().is_none());
    assert_eq!(s.next(Event::Released), Action::Fail(SetupError::Os { errno: 22 }));
}

#[test]
fn sq_ring_map_failure_closes_descriptor() {
    let (mut s, _) = Setup::begin(8);
    s.next(Event::Created { fd: FD, params: params(8, 16) });
    assert_eq!(s.next(Event::Failed { errno: 12 }), Action::Release(Release::Close(FD)));
    assert_eq!(s.next(Event::Released), Action::Fail(SetupError::Os { errno: 12 }));
    assert!(s.held.is_empty());
}

#[test]
fn sqes_map_failure_unmaps_sq_ring() {
    let (mut s, _) = Setup::begin(8);
    s.next(Event::Created { fd: FD, params: params(8, 16) });
    s.next(Event::Mapped { addr: SQ_BASE });
    assert_eq!(s.next(Event::Failed { errno: 12 }), Action::Release(Release::Unmap(sq_ring())));
    assert_eq!(s.phase, Phase::Unwinding);
    assert_eq!(s.next(Event::Released), Action::Release(Release::Close(FD)));
    assert_eq!(s.next(Event::Released), Action::Fail(SetupError::Os { errno: 12 }));
    assert_eq!(s.phase, Phase::Failed);
}

#[test]
fn cq_ring_map_failure_unmaps_both_regions() {
    let mut s = up_to_check();
    s.next(Event::Value { value: 8 });
    assert_eq!(s.next(Event::Failed { errno: 12 }), Action::Release(Release::Unmap(sqes())));
    assert_eq!(s.next(Event::Released), Action::Release(Release::Unmap(sq_ring())));
    assert_eq!(s.next(Event::Released), Action::Release(Release::Close(FD)));
    assert_eq!(s.next(Event::Released), Action::Fail(SetupError::Os { errno: 12 }));
    assert!(s.held.is_empty());
}

#[test]
fn depth_mismatch_unwinds() {
    let mut s = up_to_check();
    assert_eq!(s.next(Event::Value { value: 16 }), Action::Release(Release::Unmap(sqes())));
    assert_eq!(s.error, SetupError::EntriesMismatch { reported: 8, observed: 16 });
    s.next(Event::Released);
    s.next(Event::Released);
    assert_eq!(s.next(Event::Released), Action::Fail(SetupError::EntriesMismatch { reported: 8, observed: 16 }));
}

#[test]
fn unexpected_event_unwinds() {
    let (mut s, _) = Setup::begin(8);
    s.next(Event::Created { fd: FD, params: params(8, 16) });
    assert_eq!(s.next(Event::Value { value: 3 }), Action::Release(Release::Close(FD)));
    assert_eq!(s.next(Event::Released), Action::Fail(SetupError::UnexpectedEvent));
}

#[test]
fn oversized_geometry_fails() {
    let mut p = params(8, 16);
    p.sq_off.array = u32::MAX;
    let (mut s, _) = Setup::begin(8);
    let a = s.next(Event::Created { fd: FD, params: p });
    if usize::MAX as u64 == u64::MAX {
        assert_eq!(a, Action::MapRegion { region: Region::SqRing, fd: FD, len: u32::MAX as usize + 32, offset: OFF_SQ_RING });
    } else {
        assert_eq!(a, Action::Release(Release::Close(FD)));
        assert_eq!(s.error, SetupError::Geometry);
    }
    let (mut s, _) = Setup::begin(8);
    s.next(Event::Created { fd: FD, params: params(8, 16) });
    assert_eq!(s.next(Event::Mapped { addr: usize::MAX - 8 }), Action::MapRegion { region: Region::Sqes, fd: FD, len: 512, offset: OFF_SQES });
    assert_eq!(s.next(Event::Mapped { addr: SQES_BASE }), Action::Release(Release::Unmap(Mapping { addr: SQES_BASE, len: 512 })));
    assert_eq!(s.error, SetupError::Geometry);
}

#[test]
fn syscall_returns_become_events() {
    assert_eq!(setup_fd(5), Some(5));
    assert_eq!(setup_fd(-1), None);
    assert_eq!(setup_fd(i32::MAX as i64 + 1), None);
    assert_eq!(call_count(3), Some(3));
    assert_eq!(call_count(-1), None);
    assert_eq!(KERNEL_SIGSET_SIZE, 8);
    let p = params(8, 16);
    assert_eq!(created_event(4, p, 0), Event::Created { fd: 4, params: p });
    assert_eq!(created_event(-1, p, 24), Event::Failed { errno: 24 });
    assert_eq!(mapped_event(SQ_BASE, 0), Event::Mapped { addr: SQ_BASE });
    assert_eq!(mapped_event(MAP_FAILED_ADDR, 12), Event::Failed { errno: 12 });
}
