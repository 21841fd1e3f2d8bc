//! Laws of adoptions.

use crate::media_cache::adoption;
use crate::media_cache::adoption::{AdoptEvent, AdoptProgress, AdoptStep, Adoption};
use crate::media_cache::error::{IoFailure, MediaCacheError};
use crate::media_cache::listing::FileMeta;
use crate::path::FilePath;
use vstd::prelude::*;

verus! {

/// An adoption begins by looking for the file. It is over if there is one with at
/// least one byte; otherwise the source is measured.
pub proof fn a_playable_file_is_not_copied_again(
    new: AdoptProgress,
    p: &mut AdoptProgress,
    found: Option<FileMeta>,
)
    requires
        call_ensures(AdoptProgress::new, (), new),
        old(p).step is Probe,
        call_ensures(AdoptProgress::advance, (p, AdoptEvent::Probed(found)), ()),
    ensures
        new.step is Probe,
        found is Some && found->0.is_file && found->0.len >= 1 ==> final(p).step is Finished,
        !(found is Some && found->0.is_file && found->0.len >= 1) ==> final(p).step is Measure,
{
}

/// An empty source fails the adoption as truncated, and one that is larger than
/// the capacity as too large; any other is copied.
pub proof fn only_a_source_that_fits_is_taken(p: &mut AdoptProgress, size: u64, capacity: u64)
    requires
        old(p).step is Measure,
        call_ensures(AdoptProgress::advance, (p, AdoptEvent::Measured { size, capacity }), ()),
    ensures
        size == 0 ==> final(p).step == AdoptStep::Failed(
            MediaCacheError::Truncated { expected: 0, got: 0 },
        ),
        size >= 1 && size > capacity ==> final(p).step == AdoptStep::Failed(
            MediaCacheError::TooLarge { size, capacity },
        ),
        1 <= size <= capacity ==> final(p).step is CreateRoot && final(p).size == size,
{
}

/// A copy of another length than was measured fails the adoption as truncated;
/// any other is made durable.
pub proof fn only_whole_copies_are_taken(p: &mut AdoptProgress, n: u64)
    requires
        old(p).step is Copy,
        call_ensures(AdoptProgress::advance, (p, AdoptEvent::Copied(n)), ()),
    ensures
        n != old(p).size ==> final(p).step == AdoptStep::Failed(
            MediaCacheError::Truncated { expected: old(p).size, got: n },
        ),
        n == old(p).size ==> final(p).step is Sync,
        final(p).size == old(p).size,
{
}

/// The other steps follow one upon another: the root, the temporary file, the
/// copy; durable contents, the rename, the eviction, the end.
pub proof fn steps_follow_one_another(p: &mut AdoptProgress, e: AdoptEvent)
    requires
        old(p).accepts(e),
        call_ensures(AdoptProgress::advance, (p, e), ()),
    ensures
        e is RootCreated ==> old(p).step is CreateRoot && final(p).step is CreateTemp,
        e is TempCreated ==> old(p).step is CreateTemp && final(p).step is Copy,
        e is Synced ==> old(p).step is Sync && final(p).step is Persist,
        e is Persisted ==> old(p).step is Persist && final(p).step is Evict,
        e is Evicted ==> old(p).step is Evict && final(p).step is Finished,
        !(e is Measured) ==> final(p).size == old(p).size,
{
}

/// Whatever was to be done, an operation that failed fails the adoption in its
/// own words.
pub proof fn failed_operations_fail_the_adoption(p: &mut AdoptProgress, words: String)
    requires
        old(p).accepts(AdoptEvent::IoFailed(words)),
        call_ensures(AdoptProgress::advance, (p, AdoptEvent::IoFailed(words)), ()),
    ensures
        final(p).step == AdoptStep::Failed(MediaCacheError::Io(IoFailure::Reported(words))),
{
}

/// Each step takes what may come of it, and nothing else.
pub proof fn each_step_takes_what_may_come_of_it(p: AdoptProgress, e: AdoptEvent)
    ensures
        p.accepts(e) <==> {
            ||| p.step is Probe && e is Probed
            ||| p.step is Measure && (e is Measured || e is IoFailed)
            ||| p.step is CreateRoot && (e is RootCreated || e is IoFailed)
            ||| p.step is CreateTemp && (e is TempCreated || e is IoFailed)
            ||| p.step is Copy && (e is Copied || e is IoFailed)
            ||| p.step is Sync && (e is Synced || e is IoFailed)
            ||| p.step is Persist && (e is Persisted || e is IoFailed)
            ||| p.step is Evict && e is Evicted
        },
{
}

/// An adoption is for one track: advancing it changes how far it has come, in the
/// way in which its progress advances, and nothing else.
pub proof fn adoptions_keep_to_their_track(
    a: &mut Adoption,
    p: &mut AdoptProgress,
    e: AdoptEvent,
)
    requires
        *old(p) == old(a)@.progress,
        call_ensures(Adoption::advance, (a, e), ()),
        call_ensures(AdoptProgress::advance, (p, e), ()),
    ensures
        final(a)@.progress == *final(p),
        final(a)@.source == old(a)@.source,
        final(a)@.song_id == old(a)@.song_id,
        final(a)@.dest == old(a)@.dest,
{
}

/// An adoption tells what it is about.
pub proof fn adoptions_tell_what_they_are_about(
    a: &Adoption,
    source: &FilePath,
    song_id: &str,
    dest: &FilePath,
    progress: &AdoptProgress,
)
    requires
        call_ensures(Adoption::source, (a,), source),
        call_ensures(Adoption::song_id, (a,), song_id),
        call_ensures(Adoption::dest, (a,), dest),
        call_ensures(Adoption::progress, (a,), progress),
    ensures
        source@ == a@.source,
        song_id@ == a@.song_id,
        dest@ == a@.dest,
        *progress == a@.progress,
{
}

/// An adoption comes to the path of its track if it is finished, and to its
/// error if it failed.
pub proof fn adoptions_come_to_a_path_or_an_error(
    a: Adoption,
    r: Result<FilePath, MediaCacheError>,
)
    requires
        a@.progress.step is Finished || a@.progress.step is Failed,
        call_ensures(Adoption::into_result, (a,), r),
    ensures
        a@.progress.step is Finished ==> r is Ok && (r->Ok_0)@ == a@.dest,
        a@.progress.step matches AdoptStep::Failed(e) ==> r == Err::<FilePath, MediaCacheError>(e),
{
}

/// A history goes on as an adoption advances.
pub proof fn histories_go_on(events: Seq<AdoptEvent>, p: &mut AdoptProgress, e: AdoptEvent)
    requires
        *old(p) == adoption::run(events),
        call_ensures(AdoptProgress::advance, (p, e), ()),
    ensures
        adoption::run(Seq::empty()).step is Probe,
        adoption::run(events.push(e)) == *final(p),
        adoption::is_history(events.push(e)) <==> adoption::is_history(events) && old(p).accepts(e),
{
    assert(events.push(e).drop_last() =~= events);
}

/// Every failure has the one cause that it names, and that came last.
pub proof fn failures_name_their_cause(events: Seq<AdoptEvent>, error: MediaCacheError)
    requires
        adoption::is_history(events),
        adoption::run(events).step == AdoptStep::Failed(error),
    ensures
        events.len() > 0,
        ({
            let last = events.last();
            match error {
                MediaCacheError::Io(IoFailure::Reported(words)) => last == AdoptEvent::IoFailed(
                    words,
                ),
                MediaCacheError::TooLarge { size, capacity } => size > capacity && last == (
                AdoptEvent::Measured { size, capacity }),
                MediaCacheError::Truncated { expected, got } => {
                    ||| expected == 0 && got == 0 && last is Measured && last->size == 0
                    ||| expected != got && last == AdoptEvent::Copied(got)
                },
                _ => false,
            }
        }),
{
}

/// Behind every published copy stands one measurement: the source had at least
/// one byte, was no larger than the capacity at that time, and as many bytes were
/// copied as it had.
pub proof fn published_copies_are_whole(events: Seq<AdoptEvent>)
    requires
        adoption::is_history(events),
        events.contains(AdoptEvent::Persisted),
    ensures
        forall|i: int|
            0 <= i < events.len() && #[trigger] events[i] is Measured ==> 1 <= events[i]->size
                <= events[i]->capacity,
        forall|i: int, j: int|
            0 <= i < events.len() && 0 <= j < events.len() && #[trigger] events[i] is Measured
                && #[trigger] events[j] is Copied ==> events[j]->Copied_0 == events[i]->size,
        exists|i: int| 0 <= i < events.len() && #[trigger] events[i] is Measured,
        exists|i: int| 0 <= i < events.len() && #[trigger] events[i] is Copied,
        events.contains(AdoptEvent::Synced),
{
    histories_are_in_order(events);
}

/// Whether no failure and no early end came about, from the measurement on.
spec fn is_under_way(step: AdoptStep) -> bool {
    match step {
        AdoptStep::CreateRoot
        | AdoptStep::CreateTemp
        | AdoptStep::Copy
        | AdoptStep::Sync
        | AdoptStep::Persist
        | AdoptStep::Evict
        | AdoptStep::Finished => true,
        _ => false,
    }
}

/// What a history holds.
proof fn histories_are_in_order(events: Seq<AdoptEvent>)
    requires
        adoption::is_history(events),
    ensures
        ({
            let p = adoption::run(events);
            // measured sources fit, or the adoption failed
            &&& forall|i: int|
                0 <= i < events.len() && #[trigger] events[i] is Measured ==> {
                    &&& !(p.step is Probe || p.step is Measure)
                    &&& is_under_way(p.step) ==> 1 <= events[i]->size <= events[i]->capacity
                        && events[i]->size == p.size
                }
            // copies are whole, or the adoption failed
            &&& forall|i: int|
                0 <= i < events.len() && #[trigger] events[i] is Copied ==> {
                    &&& !(p.step is Probe || p.step is Measure || p.step is CreateRoot || p.step
                        is CreateTemp || p.step is Copy)
                    &&& is_under_way(p.step) ==> events[i]->Copied_0 == p.size
                }
            &&& p.step is CreateRoot || p.step is CreateTemp || p.step is Copy || p.step is Sync
                || p.step is Persist || p.step is Evict ==> exists|i: int|
                0 <= i < events.len() && #[trigger] events[i] is Measured
            &&& p.step is Sync || p.step is Persist || p.step is Evict ==> exists|i: int|
                0 <= i < events.len() && #[trigger] events[i] is Copied
            &&& p.step is Persist || p.step is Evict ==> events.contains(AdoptEvent::Synced)
            &&& events.contains(AdoptEvent::Persisted) ==> {
                &&& p.step is Evict || p.step is Finished
                &&& exists|i: int| 0 <= i < events.len() && #[trigger] events[i] is Measured
                &&& exists|i: int| 0 <= i < events.len() && #[trigger] events[i] is Copied
                &&& events.contains(AdoptEvent::Synced)
            }
        }),
    decreases events.len(),
{
    if events.len() > 0 {
        let front = events.drop_last();
        let e = events.last();
        histories_are_in_order(front);
        let q = adoption::run(front);
        let p = adoption::run(events);
        assert(events[events.len() - 1] == e);
        assert(events.contains(e));
        assert forall|x: AdoptEvent| front.contains(x) implies events.contains(x) by {
            let i = choose|i: int| 0 <= i < front.len() && front[i] == x;
            assert(events[i] == x);
        }
        if events.contains(AdoptEvent::Persisted) && e != AdoptEvent::Persisted {
            let i = choose|i: int| 0 <= i < events.len() && events[i] == AdoptEvent::Persisted;
            assert(front[i] == AdoptEvent::Persisted);
        }
        if exists|i: int| 0 <= i < front.len() && #[trigger] front[i] is Measured {
            let i = choose|i: int| 0 <= i < front.len() && #[trigger] front[i] is Measured;
            assert(events[i] is Measured);
        }
        if exists|i: int| 0 <= i < front.len() && #[trigger] front[i] is Copied {
            let i = choose|i: int| 0 <= i < front.len() && #[trigger] front[i] is Copied;
            assert(events[i] is Copied);
        }
        assert forall|i: int| 0 <= i < events.len() && #[trigger] events[i] is Measured implies {
            &&& !(p.step is Probe || p.step is Measure)
            &&& is_under_way(p.step) ==> 1 <= events[i]->size <= events[i]->capacity
                && events[i]->size == p.size
        } by {
            if i < front.len() {
                assert(front[i] == events[i]);
            }
        }
        assert forall|i: int| 0 <= i < events.len() && #[trigger] events[i] is Copied implies {
            &&& !(p.step is Probe || p.step is Measure || p.step is CreateRoot || p.step
                is CreateTemp || p.step is Copy)
            &&& is_under_way(p.step) ==> events[i]->Copied_0 == p.size
        } by {
            if i < front.len() {
                assert(front[i] == events[i]);
            }
        }
    }
}

/// One event more.
proof fn one_more(events: Seq<AdoptEvent>, e: AdoptEvent)
    ensures
        adoption::run(events.push(e)) == adoption::run(events).after(e),
        adoption::is_history(events.push(e)) <==> adoption::is_history(events) && adoption::run(
            events,
        ).accepts(e),
{
    assert(events.push(e).drop_last() =~= events);
}

/// Success is owed: where no playable file is there, the source has at least one
/// byte and fits the capacity, all of it is copied, and no operation fails, the
/// adoption ends well.
pub proof fn good_adoptions_succeed(found: Option<FileMeta>, size: u64, capacity: u64)
    requires
        !(found is Some && found->0.is_file && found->0.len >= 1),
        1 <= size <= capacity,
    ensures
        ({
            let events = seq![
                AdoptEvent::Probed(found),
                AdoptEvent::Measured { size, capacity },
                AdoptEvent::RootCreated,
                AdoptEvent::TempCreated,
                AdoptEvent::Copied(size),
                AdoptEvent::Synced,
                AdoptEvent::Persisted,
                AdoptEvent::Evicted,
            ];
            &&& adoption::is_history(events)
            &&& adoption::run(events).step is Finished
            &&& adoption::run(events).size == size
        }),
{
    let e0 = Seq::<AdoptEvent>::empty();
    let e1 = e0.push(AdoptEvent::Probed(found));
    let e2 = e1.push(AdoptEvent::Measured { size, capacity });
    let e3 = e2.push(AdoptEvent::RootCreated);
    let e4 = e3.push(AdoptEvent::TempCreated);
    let e5 = e4.push(AdoptEvent::Copied(size));
    let e6 = e5.push(AdoptEvent::Synced);
    let e7 = e6.push(AdoptEvent::Persisted);
    let e8 = e7.push(AdoptEvent::Evicted);
    one_more(e0, AdoptEvent::Probed(found));
    one_more(e1, AdoptEvent::Measured { size, capacity });
    one_more(e2, AdoptEvent::RootCreated);
    one_more(e3, AdoptEvent::TempCreated);
    one_more(e4, AdoptEvent::Copied(size));
    one_more(e5, AdoptEvent::Synced);
    one_more(e6, AdoptEvent::Persisted);
    one_more(e7, AdoptEvent::Evicted);
    let events = seq![
        AdoptEvent::Probed(found),
        AdoptEvent::Measured { size, capacity },
        AdoptEvent::RootCreated,
        AdoptEvent::TempCreated,
        AdoptEvent::Copied(size),
        AdoptEvent::Synced,
        AdoptEvent::Persisted,
        AdoptEvent::Evicted,
    ];
    assert(events =~= e8);
}

} // verus!
