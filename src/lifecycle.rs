use vstd::prelude::*;

use crate::abi::{OFF_CQ_RING, OFF_SQES, OFF_SQ_RING};
use crate::geometry::{cq_fields_at, cq_ring_len, sq_fields_at, sq_ring_len, sqes_len};
use crate::ring::{teardown_of, Release};
use crate::setup::{initial, ring_of, step, Action, Event, Phase, Region, SetupError, SetupModel};

verus! {

/// Runs setup from `m` through the events `evs`: the state reached and the
/// actions emitted on the way.
pub open spec fn run(m: SetupModel, evs: Seq<Event>) -> (SetupModel, Seq<Action>)
    decreases evs.len(),
{
    if evs.len() == 0 {
        (m, Seq::empty())
    } else {
        let (m1, a) = step(m, evs[0]);
        let (m2, rest) = run(m1, evs.drop_first());
        (m2, seq![a] + rest)
    }
}

/// `n` acknowledgements of releases.
pub open spec fn released(n: nat) -> Seq<Event> {
    Seq::new(n, |i: int| Event::Released)
}

/// The releases of the resources `h` holds, from the last acquired to the
/// first.
pub open spec fn releases_of(h: Seq<Release>) -> Seq<Action> {
    Seq::new(h.len(), |i: int| Action::Release(h[h.len() - 1 - i]))
}

/// What setup holds in each phase, in the order it acquired it: the
/// descriptor first, then the regions as they were mapped, each with the
/// length its offset table calls for.
pub open spec fn wf(m: SetupModel) -> bool {
    let close = Release::Close(m.fd);
    let sq = Release::Unmap(m.sq_ring);
    let sqes = Release::Unmap(m.sqes);
    let cq = Release::Unmap(m.cq_ring);
    let sq_len_ok = m.sq_ring.len == sq_ring_len(m.params);
    let sqes_len_ok = m.sqes.len == sqes_len(m.params);
    let cq_len_ok = m.cq_ring.len == cq_ring_len(m.params);
    let sq_fields_ok = sq_fields_at(m.sq_ring.addr, m.params.sq_off) == Some(m.sq_fields);
    let cq_fields_ok = cq_fields_at(m.cq_ring.addr, m.params.cq_off) == Some(m.cq_fields);
    match m.phase {
        Phase::Creating => m.held.len() == 0,
        Phase::MapSqRing => m.held == seq![close] && sq_len_ok,
        Phase::MapSqes => m.held == seq![close, sq] && sq_len_ok && sqes_len_ok,
        Phase::CheckEntries => m.held == seq![close, sq, sqes] && sq_len_ok && sqes_len_ok && sq_fields_ok,
        Phase::MapCqRing => m.held == seq![close, sq, sqes] && sq_len_ok && sqes_len_ok && sq_fields_ok
            && cq_len_ok,
        Phase::Ready => m.held == seq![close, sq, sqes, cq] && sq_len_ok && sqes_len_ok && sq_fields_ok
            && cq_len_ok && cq_fields_ok,
        Phase::Unwinding => true,
        Phase::Failed => m.held.len() == 0,
    }
}

/// Setup starts well formed.
pub proof fn lemma_initial_wf(entries: u32)
    ensures
        wf(initial(entries)),
{
}

/// Every step keeps setup well formed.
pub proof fn lemma_step_keeps_wf(m: SetupModel, ev: Event)
    requires
        wf(m),
    ensures
        wf(step(m, ev).0),
{
    let m1 = step(m, ev).0;
    let close = Release::Close(m1.fd);
    if m1.phase is MapSqRing {
        assert(m1.held =~= seq![close]);
    } else if m1.phase is MapSqes {
        assert(m1.held =~= seq![close, Release::Unmap(m1.sq_ring)]);
    } else if m1.phase is CheckEntries {
        assert(m1.held =~= seq![close, Release::Unmap(m1.sq_ring), Release::Unmap(m1.sqes)]);
    } else if m1.phase is Ready && m.phase is MapCqRing {
        assert(m1.held =~= seq![
            close,
            Release::Unmap(m1.sq_ring),
            Release::Unmap(m1.sqes),
            Release::Unmap(m1.cq_ring),
        ]);
    }
}

/// Each region is asked for with the size its offset table gives: the
/// offset of the array that ends it plus the actual depth times the size of
/// one element of that array, at the region's own file offset.
pub proof fn lemma_map_sizes(m: SetupModel, ev: Event)
    ensures
        ({
            let (m1, a) = step(m, ev);
            a matches Action::MapRegion { region, fd, len, offset } ==> {
                &&& fd == m1.fd
                &&& region is SqRing ==> len == m1.params.sq_off.array + m1.params.sq_entries * 4
                    && offset == OFF_SQ_RING
                &&& region is Sqes ==> len == m1.params.sq_entries * 64 && offset == OFF_SQES
                &&& region is CqRing ==> len == m1.params.cq_off.cqes + m1.params.cq_entries * 16
                    && offset == OFF_CQ_RING
            }
        }),
{
}

/// Setup moves past the depth check only when the depth read from the
/// mapped ring equals the depth the kernel reported; otherwise it unwinds
/// with both depths in its error.
pub proof fn lemma_entries_agree(m: SetupModel, value: u32)
    requires
        wf(m),
        m.phase is CheckEntries,
    ensures
        ({
            let (m1, a) = step(m, Event::Value { value });
            &&& m1.phase is MapCqRing ==> value == m.params.sq_entries
            &&& value != m.params.sq_entries ==> a == Action::Release(Release::Unmap(m.sqes)) && m1.phase
                is Unwinding && m1.error == (SetupError::EntriesMismatch {
                reported: m.params.sq_entries,
                observed: value,
            })
        }),
{
}

/// The only way into the final mapping step is a depth check that read
/// the reported depth, and the only way to a ready ring is through that
/// step; the reported parameters never change once the ring is created.
pub proof fn lemma_ready_only_after_check(m: SetupModel, ev: Event)
    ensures
        ({
            let m1 = step(m, ev).0;
            &&& m1.phase is MapCqRing && !(m.phase is MapCqRing) ==> m.phase is CheckEntries && ev == (Event::Value {
                value: m.params.sq_entries,
            })
            &&& m1.phase is Ready && !(m.phase is Ready) ==> m.phase is MapCqRing
            &&& !(m.phase is Creating) ==> m1.params == m.params
        }),
{
}

/// While unwinding, each further event gives back one more resource, from
/// the last acquired to the first, and the event after the last release
/// ends setup in failure with the error that started the unwinding.
pub proof fn lemma_unwinding_drains(m: SetupModel)
    requires
        m.phase is Unwinding,
    ensures
        run(m, released(m.held.len() + 1)) == (SetupModel {
            phase: Phase::Failed,
            held: Seq::empty(),
            ..m
        }, releases_of(m.held) + seq![Action::Fail(m.error)]),
    decreases m.held.len(),
{
    reveal_with_fuel(run, 2);
    let evs = released(m.held.len() + 1);
    let (m1, a) = step(m, evs[0]);
    assert(evs.drop_first() =~= released(m.held.len()));
    if m.held.len() == 0 {
        assert(m.held =~= Seq::empty());
        assert(released(0) =~= Seq::empty());
        assert(releases_of(m.held) + seq![Action::Fail(m.error)] =~= seq![a]);
    } else {
        lemma_unwinding_drains(m1);
        let (m2, rest) = run(m1, evs.drop_first());
        assert(seq![a] + rest =~= releases_of(m.held) + seq![Action::Fail(m.error)]);
        assert(m2 == SetupModel { phase: Phase::Failed, held: Seq::empty(), ..m });
    }
}

/// A failure of the create-ring call or of a mapping gives back everything
/// acquired before it, the last acquired first, and then reports the
/// failure: nothing stays open or mapped. Refused at creation, setup holds
/// nothing and fails at once; refused the entry array, it unmaps the
/// submission-queue region and closes the descriptor; refused the
/// completion-queue region, it unmaps both earlier regions and closes the
/// descriptor.
pub proof fn lemma_failure_gives_back_all(m: SetupModel, errno: i32)
    requires
        wf(m),
        m.phase is Creating || m.phase is MapSqRing || m.phase is MapSqes || m.phase is MapCqRing,
    ensures
        ({
            let err = SetupError::Os { errno };
            let (m1, acts) = run(m, seq![Event::Failed { errno }] + released(m.held.len()));
            &&& m1.phase is Failed
            &&& m1.held.len() == 0
            &&& acts == releases_of(m.held) + seq![Action::Fail(err)]
            &&& m.phase is Creating ==> acts == seq![Action::Fail(err)]
            &&& m.phase is MapSqes ==> acts == seq![
                Action::Release(Release::Unmap(m.sq_ring)),
                Action::Release(Release::Close(m.fd)),
                Action::Fail(err),
            ]
            &&& m.phase is MapCqRing ==> acts == seq![
                Action::Release(Release::Unmap(m.sqes)),
                Action::Release(Release::Unmap(m.sq_ring)),
                Action::Release(Release::Close(m.fd)),
                Action::Fail(err),
            ]
        }),
{
    reveal_with_fuel(run, 2);
    let err = SetupError::Os { errno };
    let evs = seq![Event::Failed { errno }] + released(m.held.len());
    assert(evs[0] == Event::Failed { errno });
    assert(evs.drop_first() =~= released(m.held.len()));
    let (m1, a) = step(m, evs[0]);
    if m.held.len() == 0 {
        assert(released(0) =~= Seq::empty());
        assert(releases_of(m.held) + seq![Action::Fail(err)] =~= seq![a]);
    } else {
        lemma_unwinding_drains(m1);
        let (m2, rest) = run(m1, evs.drop_first());
        assert(seq![a] + rest =~= releases_of(m.held) + seq![Action::Fail(err)]);
    }
    let acts = run(m, evs).1;
    if m.phase is MapSqes {
        assert(acts =~= seq![
            Action::Release(Release::Unmap(m.sq_ring)),
            Action::Release(Release::Close(m.fd)),
            Action::Fail(err),
        ]);
    }
    if m.phase is MapCqRing {
        assert(acts =~= seq![
            Action::Release(Release::Unmap(m.sqes)),
            Action::Release(Release::Unmap(m.sq_ring)),
            Action::Release(Release::Close(m.fd)),
            Action::Fail(err),
        ]);
    }
}

/// A finished ring lives in regions of the sizes its offset tables call
/// for, and tearing it down gives back exactly what setup acquired, in the
/// reverse order: the three regions and the descriptor.
pub proof fn lemma_teardown_gives_back_all(m: SetupModel)
    requires
        wf(m),
        m.phase is Ready,
    ensures
        teardown_of(ring_of(m)) == m.held.reverse(),
        ring_of(m).sq.ring.len == sq_ring_len(m.params),
        ring_of(m).sq.sqes.len == sqes_len(m.params),
        ring_of(m).cq.ring.len == cq_ring_len(m.params),
{
    assert(teardown_of(ring_of(m)) =~= m.held.reverse());
}

} // verus!
