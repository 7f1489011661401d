//! What the phase of a run tells about the events that led to it.

use vstd::prelude::*;
use crate::error::FileError;
use crate::phase::{requested, step, Event, Phase};

verus! {

/// The phase a fresh run is in after it has taken in `events` in order.
pub open spec fn replay(events: Seq<Event>) -> Phase
    decreases events.len(),
{
    if events.len() == 0 {
        Phase::Start
    } else {
        step(replay(events.drop_last()), events.last())
    }
}

/// The event at position `i` says that the input exists.
pub open spec fn confirmed_at(events: Seq<Event>, i: int) -> bool {
    0 <= i < events.len() && events[i] == Event::Existence(true)
}

/// The event at position `i` says that the copy went through.
pub open spec fn copied_at(events: Seq<Event>, i: int) -> bool {
    0 <= i < events.len() && events[i] is CopyOutcome && events[i]->CopyOutcome_0 is Ok
}

/// The event at position `i` says that the source was removed.
pub open spec fn deleted_at(events: Seq<Event>, i: int) -> bool {
    0 <= i < events.len() && events[i] is DeleteOutcome && events[i]->DeleteOutcome_0 is Ok
}

/// The input was confirmed and, later, the copy went through.
pub open spec fn copy_witnessed(events: Seq<Event>) -> bool {
    exists|i: int, j: int| i < j && confirmed_at(events, i) && copied_at(events, j)
}

/// The input was confirmed, later the copy went through, and later still the
/// source was removed.
pub open spec fn removal_witnessed(events: Seq<Event>) -> bool {
    exists|i: int, j: int, k: int|
        i < j < k && confirmed_at(events, i) && copied_at(events, j) && deleted_at(events, k)
}

/// What each phase owes to the past.
spec fn accounted_for(events: Seq<Event>) -> bool {
    match replay(events) {
        Phase::Start => true,
        Phase::Validated => exists|i: int| confirmed_at(events, i),
        Phase::Copied => copy_witnessed(events),
        Phase::Deleted => removal_witnessed(events),
        Phase::Failed(FileError::NoFileSpecified) => true,
        Phase::Failed(FileError::CopyError(_)) => exists|i: int| confirmed_at(events, i),
        Phase::Failed(FileError::DeleteError(_)) => copy_witnessed(events),
    }
}

proof fn lemma_accounted_for(events: Seq<Event>)
    ensures
        accounted_for(events),
    decreases events.len(),
{
    if events.len() > 0 {
        let earlier = events.drop_last();
        let last: int = events.len() - 1;
        lemma_accounted_for(earlier);
        match replay(earlier) {
            Phase::Start => {
                if replay(events) is Validated {
                    assert(confirmed_at(events, last));
                }
            },
            Phase::Validated | Phase::Failed(FileError::CopyError(_)) => {
                let i: int = choose|i: int| confirmed_at(earlier, i);
                assert(confirmed_at(events, i));
                if replay(events) is Copied {
                    assert(i < last && copied_at(events, last));
                }
            },
            Phase::Copied | Phase::Failed(FileError::DeleteError(_)) => {
                let (i, j): (int, int) = choose|i: int, j: int|
                    i < j && confirmed_at(earlier, i) && copied_at(earlier, j);
                assert(i < j && confirmed_at(events, i) && copied_at(events, j));
                if replay(events) is Deleted {
                    assert(j < last && deleted_at(events, last));
                }
            },
            Phase::Deleted => {
                let (i, j, k): (int, int, int) = choose|i: int, j: int, k: int|
                    i < j < k && confirmed_at(earlier, i) && copied_at(earlier, j) && deleted_at(
                        earlier,
                        k,
                    );
                assert(i < j < k && confirmed_at(events, i) && copied_at(events, j) && deleted_at(
                    events,
                    k,
                ));
            },
            Phase::Failed(FileError::NoFileSpecified) => {},
        }
    }
}

/// The source is never asked to be removed, and never reported removed, unless
/// an earlier event said that its copy went through.
pub proof fn lemma_delete_only_after_copy(file: Seq<char>, events: Seq<Event>)
    requires
        requested(file, replay(events)) is Delete || replay(events) is Deleted || (replay(
            events,
        ) matches Phase::Failed(e) && e is DeleteError),
    ensures
        exists|j: int| copied_at(events, j),
{
    lemma_accounted_for(events);
    if replay(events) is Deleted {
        let (i, j, k): (int, int, int) = choose|i: int, j: int, k: int|
            i < j < k && confirmed_at(events, i) && copied_at(events, j) && deleted_at(events, k);
        assert(copied_at(events, j));
    } else {
        let (i, j): (int, int) = choose|i: int, j: int|
            i < j && confirmed_at(events, i) && copied_at(events, j);
        assert(copied_at(events, j));
    }
}

/// A run ends in success only if it was told, in this order, that the input
/// exists, that the copy went through and that the source was removed.
pub proof fn lemma_success_has_full_history(events: Seq<Event>)
    requires
        replay(events) is Deleted,
    ensures
        removal_witnessed(events),
{
    lemma_accounted_for(events);
}

/// A run fails on the copy only after the input was confirmed, and on the
/// removal only after the copy went through.
pub proof fn lemma_failure_has_history(events: Seq<Event>)
    requires
        replay(events) is Failed,
    ensures
        replay(events)->Failed_0 is CopyError ==> exists|i: int| confirmed_at(events, i),
        replay(events)->Failed_0 is DeleteError ==> copy_witnessed(events),
{
    lemma_accounted_for(events);
}

} // verus!
