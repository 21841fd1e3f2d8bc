//! Laws of downloads.

use crate::media_cache::error::{IoFailure, MediaCacheError};
use crate::media_cache::listing::FileMeta;
use crate::media_cache::transfer;
use crate::media_cache::transfer::{Event, Progress, Step, Transfer};
use crate::path::FilePath;
use vstd::prelude::*;

verus! {

/// A download is stalled after thirty seconds without a byte.
pub proof fn stalls_are_bounded()
    ensures
        transfer::STALL_TIMEOUT_SECS == 30,
{
}

/// Whether two stages of a download have the same counts.
pub open spec fn same_counts(a: Progress, b: Progress) -> bool {
    a.expected == b.expected && a.capacity == b.capacity && a.written == b.written
}

/// A download begins by looking for the file. It is over if there is one with at
/// least one byte; otherwise the root is created and the server asked.
pub proof fn a_playable_file_is_not_fetched_again(
    new: Progress,
    p: &mut Progress,
    found: Option<FileMeta>,
)
    requires
        call_ensures(Progress::new, (), new),
        old(p).step is Probe,
        call_ensures(Progress::advance, (p, Event::Probed(found)), ()),
    ensures
        new.step is Probe,
        new.written == 0,
        found is Some && found->0.is_file && found->0.len >= 1 ==> final(p).step is Finished,
        !(found is Some && found->0.is_file && found->0.len >= 1) ==> final(p).step is CreateRoot,
        same_counts(*old(p), *final(p)),
{
}

/// The server decides: an answer whose status is below 200 or at least 300 fails
/// the download with that status. With any other status, a promised length that
/// is more than the capacity fails it as too large; otherwise the temporary file
/// is created, and the promise and the capacity are remembered.
pub proof fn only_an_answer_of_success_is_taken(
    p: &mut Progress,
    status: u16,
    content_length: Option<u64>,
    capacity: u64,
)
    requires
        old(p).step is Request,
        call_ensures(
            Progress::advance,
            (p, Event::Answered { status, content_length, capacity }),
            (),
        ),
    ensures
        status < 200 || status >= 300 ==> final(p).step == Step::Failed(
            MediaCacheError::Status(status),
        ),
        200 <= status <= 299 && content_length is Some && content_length->0 > capacity
            ==> final(p).step == Step::Failed(
            MediaCacheError::TooLarge { size: content_length->0, capacity },
        ),
        200 <= status <= 299 && !(content_length is Some && content_length->0 > capacity) ==> {
            &&& final(p).step is CreateTemp
            &&& final(p).expected == content_length
            &&& final(p).capacity == capacity
            &&& final(p).written == 0
        },
{
}

/// Before a chunk is awaited the caller is asked, and cancelling fails the
/// download.
pub proof fn the_caller_may_cancel(p: &mut Progress, cancelled: bool)
    requires
        old(p).step is PollCancel,
        call_ensures(Progress::advance, (p, Event::CancelPolled(cancelled)), ()),
    ensures
        cancelled ==> final(p).step == Step::Failed(MediaCacheError::Cancelled),
        !cancelled ==> final(p).step is Read,
        same_counts(*old(p), *final(p)),
{
}

/// The very bytes of a chunk are to be appended.
pub proof fn chunks_are_appended_as_they_come(p: &mut Progress, bytes: Vec<u8>)
    requires
        old(p).step is Read,
        call_ensures(Progress::advance, (p, Event::Chunk(bytes)), ()),
    ensures
        final(p).step == Step::Append(bytes),
        same_counts(*old(p), *final(p)),
{
}

/// Each byte that is appended counts, and the download fails as too large once
/// they are more than the capacity.
pub proof fn appended_bytes_count(p: &mut Progress, bytes: Vec<u8>)
    requires
        old(p).step == Step::Append(bytes),
        old(p).written + bytes@.len() <= u64::MAX,
        call_ensures(Progress::advance, (p, Event::Appended), ()),
    ensures
        final(p).written == old(p).written + bytes@.len(),
        final(p).expected == old(p).expected,
        final(p).capacity == old(p).capacity,
        final(p).written > old(p).capacity ==> final(p).step == Step::Failed(
            MediaCacheError::TooLarge { size: final(p).written, capacity: old(p).capacity },
        ),
        final(p).written <= old(p).capacity ==> final(p).step is PollCancel,
{
}

/// The end of the stream leads on, and a stall fails the download.
pub proof fn streams_end_or_stall(p: &mut Progress, q: &mut Progress)
    requires
        old(p).step is Read,
        old(q).step is Read,
        call_ensures(Progress::advance, (p, Event::StreamEnded), ()),
        call_ensures(Progress::advance, (q, Event::Stalled), ()),
    ensures
        final(p).step is Flush,
        same_counts(*old(p), *final(p)),
        final(q).step == Step::Failed(MediaCacheError::Io(IoFailure::Stalled)),
{
}

/// A stream of another length than was promised, or without any bytes, fails the
/// download as truncated; any other is made durable.
pub proof fn only_whole_streams_are_taken(p: &mut Progress)
    requires
        old(p).step is Flush,
        call_ensures(Progress::advance, (p, Event::Flushed), ()),
    ensures
        old(p).expected is Some && old(p).expected->0 != old(p).written ==> final(p).step
            == Step::Failed(
            MediaCacheError::Truncated { expected: old(p).expected->0, got: old(p).written },
        ),
        old(p).written == 0 && (old(p).expected is None || old(p).expected->0 == 0)
            ==> final(p).step == Step::Failed(
            MediaCacheError::Truncated { expected: 0, got: 0 },
        ),
        old(p).written >= 1 && (old(p).expected is None || old(p).expected->0 == old(p).written)
            ==> final(p).step is Sync,
        same_counts(*old(p), *final(p)),
{
}

/// The other steps follow one upon another: the root, the request; the temporary
/// file, the first poll; durable contents, the rename, the eviction, the end.
pub proof fn steps_follow_one_another(p: &mut Progress, e: Event)
    requires
        old(p).accepts(e),
        call_ensures(Progress::advance, (p, e), ()),
    ensures
        e is RootCreated ==> old(p).step is CreateRoot && final(p).step is Request,
        e is TempCreated ==> old(p).step is CreateTemp && final(p).step is PollCancel,
        e is Synced ==> old(p).step is Sync && final(p).step is Persist,
        e is Persisted ==> old(p).step is Persist && final(p).step is Evict,
        e is Evicted ==> old(p).step is Evict && final(p).step is Finished,
        e is RootCreated || e is TempCreated || e is Synced || e is Persisted || e is Evicted
            ==> same_counts(*old(p), *final(p)),
{
}

/// Whatever was to be done, an operation that failed fails the download in its
/// own words.
pub proof fn failed_operations_fail_the_download(
    p: &mut Progress,
    q: &mut Progress,
    words: String,
)
    requires
        old(p).accepts(Event::IoFailed(words)),
        old(q).accepts(Event::HttpFailed(words)),
        call_ensures(Progress::advance, (p, Event::IoFailed(words)), ()),
        call_ensures(Progress::advance, (q, Event::HttpFailed(words)), ()),
    ensures
        final(p).step == Step::Failed(MediaCacheError::Io(IoFailure::Reported(words))),
        final(q).step == Step::Failed(MediaCacheError::Http(words)),
{
}

/// Each step takes what may come of it, and nothing else.
pub proof fn each_step_takes_what_may_come_of_it(p: Progress, e: Event)
    ensures
        p.accepts(e) <==> {
            ||| p.step is Probe && e is Probed
            ||| p.step is CreateRoot && (e is RootCreated || e is IoFailed)
            ||| p.step is Request && (e is Answered || e is HttpFailed)
            ||| p.step is CreateTemp && (e is TempCreated || e is IoFailed)
            ||| p.step is PollCancel && e is CancelPolled
            ||| p.step is Read && (e is Chunk || e is StreamEnded || e is Stalled || e
                is HttpFailed)
            ||| p.step is Append && (e is IoFailed || (e is Appended && p.written
                + p.step->Append_0@.len() <= 18446744073709551615))
            ||| p.step is Flush && (e is Flushed || e is IoFailed)
            ||| p.step is Sync && (e is Synced || e is IoFailed)
            ||| p.step is Persist && (e is Persisted || e is IoFailed)
            ||| p.step is Evict && e is Evicted
        },
{
}

/// A download is for one track: advancing it changes how far it has come, in the
/// way in which its progress advances, and nothing else.
pub proof fn downloads_keep_to_their_track(t: &mut Transfer, p: &mut Progress, e: Event)
    requires
        *old(p) == old(t)@.progress,
        call_ensures(Transfer::advance, (t, e), ()),
        call_ensures(Progress::advance, (p, e), ()),
    ensures
        final(t)@.progress == *final(p),
        final(t)@.url == old(t)@.url,
        final(t)@.song_id == old(t)@.song_id,
        final(t)@.dest == old(t)@.dest,
{
}

/// A download tells what it is about.
pub proof fn downloads_tell_what_they_are_about(
    t: &Transfer,
    url: &str,
    song_id: &str,
    dest: &FilePath,
    progress: &Progress,
)
    requires
        call_ensures(Transfer::url, (t,), url),
        call_ensures(Transfer::song_id, (t,), song_id),
        call_ensures(Transfer::dest, (t,), dest),
        call_ensures(Transfer::progress, (t,), progress),
    ensures
        url@ == t@.url,
        song_id@ == t@.song_id,
        dest@ == t@.dest,
        *progress == t@.progress,
{
}

/// A download comes to the path of its track if it is finished, and to its error
/// if it failed.
pub proof fn downloads_come_to_a_path_or_an_error(
    t: Transfer,
    r: Result<FilePath, MediaCacheError>,
)
    requires
        t@.progress.step is Finished || t@.progress.step is Failed,
        call_ensures(Transfer::into_result, (t,), r),
    ensures
        t@.progress.step is Finished ==> r is Ok && (r->Ok_0)@ == t@.dest,
        t@.progress.step matches Step::Failed(e) ==> r == Err::<FilePath, MediaCacheError>(e),
{
}

/// A history goes on as a download advances.
pub proof fn histories_go_on(events: Seq<Event>, p: &mut Progress, e: Event)
    requires
        *old(p) == transfer::run(events),
        call_ensures(Progress::advance, (p, e), ()),
    ensures
        transfer::run(Seq::empty()).step is Probe,
        transfer::run(events.push(e)) == *final(p),
        transfer::is_history(events.push(e)) <==> transfer::is_history(events) && old(p).accepts(e),
{
    assert(events.push(e).drop_last() =~= events);
}

/// Whatever happened earlier did not end the download.
proof fn only_the_last_event_ends(events: Seq<Event>, i: int)
    requires
        transfer::is_history(events),
        0 <= i < events.len(),
    ensures
        transfer::is_history(events.take(i)),
        transfer::run(events.take(i)).accepts(events[i]),
        transfer::run(events.take(i + 1)) == transfer::run(events.take(i)).after(events[i]),
    decreases events.len(),
{
    let front = events.drop_last();
    assert(events.take(i + 1).drop_last() =~= events.take(i));
    assert(events.take(i + 1).last() == events[i]);
    if i == events.len() - 1 {
        assert(events.take(i) =~= front);
    } else {
        only_the_last_event_ends(front, i);
        assert(front.take(i) =~= events.take(i));
        assert(front.take(i + 1) =~= events.take(i + 1));
    }
}

/// A download that came to a failure was over: nothing happened behind it.
proof fn nothing_follows_a_failure(events: Seq<Event>, i: int)
    requires
        transfer::is_history(events),
        0 <= i < events.len(),
        transfer::run(events.take(i + 1)).step is Failed,
    ensures
        i == events.len() - 1,
        events.take(i + 1) == events,
{
    if i + 1 < events.len() {
        only_the_last_event_ends(events, i + 1);
    }
    assert(events.take(i + 1) =~= events);
}

/// A download whose server answered with a status below 200 or at least 300 ends
/// there, with that status: no temporary file is created, and nothing is
/// published.
pub proof fn a_refused_download_publishes_nothing(
    events: Seq<Event>,
    i: int,
    status: u16,
    content_length: Option<u64>,
    capacity: u64,
)
    requires
        transfer::is_history(events),
        0 <= i < events.len(),
        events[i] == (Event::Answered { status, content_length, capacity }),
        status < 200 || status >= 300,
    ensures
        i == events.len() - 1,
        transfer::run(events).step == Step::Failed(MediaCacheError::Status(status)),
        !events.contains(Event::TempCreated),
        !events.contains(Event::Persisted),
{
    only_the_last_event_ends(events, i);
    nothing_follows_a_failure(events, i);
    transfer::failed_downloads_publish_nothing(events);
    if events.contains(Event::TempCreated) {
        let j = choose|j: int| 0 <= j < events.len() && events[j] == Event::TempCreated;
        only_the_last_event_ends(events, j);
        request_comes_before_the_file(events.take(i), j);
        assert(events.take(i)[j] == Event::TempCreated);
    }
}

/// Until the server was asked, no temporary file was created.
proof fn request_comes_before_the_file(events: Seq<Event>, j: int)
    requires
        transfer::is_history(events),
        0 <= j < events.len(),
        events[j] == Event::TempCreated,
    ensures
        !(transfer::run(events).step is Probe),
        !(transfer::run(events).step is CreateRoot),
        !(transfer::run(events).step is Request),
    decreases events.len(),
{
    let front = events.drop_last();
    if j < events.len() - 1 {
        assert(front[j] == events[j]);
        request_comes_before_the_file(front, j);
    }
}

/// Behind every published download stands an answer with a status from 200 to
/// 299, and no other answer. What was published is what arrived; it is as long as
/// was promised, where a length was; it has at least one byte; and it was within
/// the capacity at that time.
pub proof fn published_downloads_are_whole(events: Seq<Event>)
    requires
        transfer::is_history(events),
        events.contains(Event::Persisted),
    ensures
        forall|i: int|
            0 <= i < events.len() && #[trigger] events[i] is Answered ==> {
                &&& 200 <= events[i]->status <= 299
                &&& events[i]->content_length is Some ==> events[i]->content_length->0
                    == transfer::stream(events).len()
                &&& 1 <= transfer::stream(events).len() <= events[i]->Answered_capacity
            },
        exists|i: int| 0 <= i < events.len() && #[trigger] events[i] is Answered,
        events.contains(Event::StreamEnded),
        transfer::contents(events) == transfer::stream(events),
{
    publication_is_recorded(events);
    assert forall|i: int| 0 <= i < events.len() && #[trigger] events[i] is Answered implies {
        &&& 200 <= events[i]->status <= 299
        &&& events[i]->content_length is Some ==> events[i]->content_length->0 == transfer::stream(
            events,
        ).len()
        &&& 1 <= transfer::stream(events).len() <= events[i]->Answered_capacity
    } by {
        the_answer_is_remembered(events, i);
        only_the_last_event_ends(events, i);
        if events[i]->status < 200 || events[i]->status >= 300 {
            a_refused_download_publishes_nothing(
                events,
                i,
                events[i]->status,
                events[i]->content_length,
                events[i]->Answered_capacity,
            );
        }
    }
}

/// The answer of the server is what a download goes by to its end.
proof fn the_answer_is_remembered(events: Seq<Event>, i: int)
    requires
        transfer::is_history(events),
        0 <= i < events.len(),
        events[i] is Answered,
    ensures
        ({
            let p = transfer::run(events);
            &&& !(p.step is Probe || p.step is CreateRoot || p.step is Request)
            &&& !(p.step is Failed) ==> p.expected == events[i]->content_length && p.capacity
                == events[i]->Answered_capacity
        }),
    decreases events.len(),
{
    let front = events.drop_last();
    if i < events.len() - 1 {
        assert(front[i] == events[i]);
        the_answer_is_remembered(front, i);
    }
}

/// What is known once the file is in place.
proof fn publication_is_recorded(events: Seq<Event>)
    requires
        transfer::is_history(events),
        events.contains(Event::Persisted),
    ensures
        ({
            let p = transfer::run(events);
            &&& p.step is Evict || p.step is Finished
            &&& transfer::contents(events) == transfer::stream(events)
            &&& 1 <= transfer::stream(events).len() <= p.capacity
            &&& p.expected is Some ==> p.expected->0 == transfer::stream(events).len()
            &&& events.contains(Event::StreamEnded)
            &&& exists|i: int| 0 <= i < events.len() && #[trigger] events[i] is Answered
        }),
    decreases events.len(),
{
    let front = events.drop_last();
    let e = events.last();
    let none = Seq::<u8>::empty();
    assert(transfer::stream(front) + none =~= transfer::stream(front));
    assert(transfer::contents(front) + none =~= transfer::contents(front));
    assert forall|x: Event| front.contains(x) implies events.contains(x) by {
        let i = choose|i: int| 0 <= i < front.len() && front[i] == x;
        assert(events[i] == x);
    }
    if e == Event::Persisted {
        transfer::only_complete_downloads_are_published(front);
        let status = choose|status: u16|
            transfer::is_success(status) && #[trigger] transfer::was_answered(
                front,
                status,
                transfer::run(front).expected,
                transfer::run(front).capacity,
            );
        let answer = Event::Answered {
            status,
            content_length: transfer::run(front).expected,
            capacity: transfer::run(front).capacity,
        };
        let i = choose|i: int| 0 <= i < front.len() && front[i] == answer;
        assert(events[i] is Answered);
    } else {
        let j = choose|j: int| 0 <= j < events.len() && events[j] == Event::Persisted;
        assert(front[j] == Event::Persisted);
        publication_is_recorded(front);
        let i = choose|i: int| 0 <= i < front.len() && #[trigger] front[i] is Answered;
        assert(events[i] is Answered);
    }
}

/// Every failure has the one cause that it names, and that came last.
pub proof fn failures_name_their_cause(events: Seq<Event>, error: MediaCacheError)
    requires
        transfer::is_history(events),
        transfer::run(events).step == Step::Failed(error),
    ensures
        events.len() > 0,
        ({
            let last = events.last();
            match error {
                MediaCacheError::Disabled => false,
                MediaCacheError::AlreadyInFlight => false,
                MediaCacheError::Io(IoFailure::Stalled) => last is Stalled,
                MediaCacheError::Io(IoFailure::Reported(words)) => last == Event::IoFailed(words),
                MediaCacheError::Http(words) => last == Event::HttpFailed(words),
                MediaCacheError::Status(code) => last is Answered && last->status == code && (code
                    < 200 || code >= 300),
                MediaCacheError::TooLarge { size, capacity } => size > capacity && {
                    ||| last is Answered && last->content_length == Some(size)
                        && last->Answered_capacity == capacity
                    ||| last is Appended && transfer::contents(events).len() == size
                },
                MediaCacheError::Truncated { expected, got } => {
                    &&& last is Flushed
                    &&& transfer::contents(events) == transfer::stream(events)
                    &&& got == transfer::stream(events).len()
                    &&& got != expected || got == 0
                },
                MediaCacheError::Cancelled => last == Event::CancelPolled(true),
            }
        }),
{
    let front = events.drop_last();
    transfer::history_is_counted(front);
    let none = Seq::<u8>::empty();
    assert(transfer::stream(front) + none =~= transfer::stream(front));
    assert(transfer::contents(front) + none =~= transfer::contents(front));
}

/// The history of fetching `chunks` one by one.
pub open spec fn fetching(chunks: Seq<Vec<u8>>) -> Seq<Event>
    decreases chunks.len(),
{
    if chunks.len() == 0 {
        Seq::empty()
    } else {
        fetching(chunks.drop_last()) + seq![
            Event::CancelPolled(false),
            Event::Chunk(chunks.last()),
            Event::Appended,
        ]
    }
}

/// The bytes of `chunks`, one after another.
pub open spec fn joined(chunks: Seq<Vec<u8>>) -> Seq<u8>
    decreases chunks.len(),
{
    if chunks.len() == 0 {
        Seq::empty()
    } else {
        joined(chunks.drop_last()) + chunks.last()@
    }
}

/// With one event more a download is one step further. What arrived grows by the
/// bytes of a chunk, and the temporary file by what was to be appended, once it
/// is.
pub proof fn one_more(events: Seq<Event>, e: Event)
    ensures
        transfer::run(events.push(e)) == transfer::run(events).after(e),
        transfer::is_history(events.push(e)) <==> transfer::is_history(events) && transfer::run(
            events,
        ).accepts(e),
        transfer::stream(events.push(e)) == transfer::stream(events) + match e {
            Event::Chunk(bytes) => bytes@,
            _ => Seq::empty(),
        },
        transfer::contents(events.push(e)) == transfer::contents(events) + if transfer::run(
            events,
        ).step is Append && e is Appended {
            transfer::run(events).step->Append_0@
        } else {
            Seq::empty()
        },
        transfer::stream(Seq::empty()).len() == 0,
        transfer::contents(Seq::empty()).len() == 0,
{
    assert(events.push(e).drop_last() =~= events);
}

/// A download goes through a stream that fits.
proof fn fetching_goes_on(start: Seq<Event>, chunks: Seq<Vec<u8>>)
    requires
        transfer::is_history(start),
        transfer::run(start).step is PollCancel,
        transfer::run(start).written == 0,
        transfer::stream(start).len() == 0,
        joined(chunks).len() <= transfer::run(start).capacity,
    ensures
        ({
            let events = start + fetching(chunks);
            &&& transfer::is_history(events)
            &&& transfer::run(events).step is PollCancel
            &&& transfer::run(events).written == joined(chunks).len()
            &&& transfer::run(events).capacity == transfer::run(start).capacity
            &&& transfer::run(events).expected == transfer::run(start).expected
            &&& transfer::stream(events) == joined(chunks)
        }),
    decreases chunks.len(),
{
    if chunks.len() == 0 {
        assert(start + fetching(chunks) =~= start);
        assert(transfer::stream(start) =~= joined(chunks));
    } else {
        fetching_goes_on(start, chunks.drop_last());
        let a = start + fetching(chunks.drop_last());
        let b = a.push(Event::CancelPolled(false));
        let c = b.push(Event::Chunk(chunks.last()));
        let d = c.push(Event::Appended);
        one_more(a, Event::CancelPolled(false));
        one_more(b, Event::Chunk(chunks.last()));
        one_more(c, Event::Appended);
        assert(start + fetching(chunks) =~= d);
        assert(transfer::stream(d) =~= joined(chunks));
    }
}

/// Success is owed: where no playable file is there, the server answers with a
/// status from 200 to 299, no operation fails, the caller does not cancel, and
/// the stream has at least one byte, fits the capacity and is as long as was
/// promised, where a length was, the download ends well, with all the bytes of
/// the stream in the file.
pub proof fn good_downloads_succeed(
    found: Option<FileMeta>,
    status: u16,
    content_length: Option<u64>,
    capacity: u64,
    chunks: Seq<Vec<u8>>,
)
    requires
        !(found is Some && found->0.is_file && found->0.len >= 1),
        200 <= status <= 299,
        1 <= joined(chunks).len() <= capacity,
        content_length is Some ==> content_length->0 == joined(chunks).len(),
    ensures
        ({
            let events = seq![
                Event::Probed(found),
                Event::RootCreated,
                Event::Answered { status, content_length, capacity },
                Event::TempCreated,
            ] + fetching(chunks) + seq![
                Event::CancelPolled(false),
                Event::StreamEnded,
                Event::Flushed,
                Event::Synced,
                Event::Persisted,
                Event::Evicted,
            ];
            &&& transfer::is_history(events)
            &&& transfer::run(events).step is Finished
            &&& transfer::contents(events) == joined(chunks)
        }),
{
    let e0 = Seq::<Event>::empty();
    let e1 = e0.push(Event::Probed(found));
    let e2 = e1.push(Event::RootCreated);
    let answer = Event::Answered { status, content_length, capacity };
    let e3 = e2.push(answer);
    let e4 = e3.push(Event::TempCreated);
    one_more(e0, Event::Probed(found));
    one_more(e1, Event::RootCreated);
    one_more(e2, answer);
    one_more(e3, Event::TempCreated);
    fetching_goes_on(e4, chunks);
    let f0 = e4 + fetching(chunks);
    let f1 = f0.push(Event::CancelPolled(false));
    let f2 = f1.push(Event::StreamEnded);
    let f3 = f2.push(Event::Flushed);
    let f4 = f3.push(Event::Synced);
    let f5 = f4.push(Event::Persisted);
    let f6 = f5.push(Event::Evicted);
    one_more(f0, Event::CancelPolled(false));
    one_more(f1, Event::StreamEnded);
    one_more(f2, Event::Flushed);
    one_more(f3, Event::Synced);
    one_more(f4, Event::Persisted);
    one_more(f5, Event::Evicted);
    let events = seq![Event::Probed(found), Event::RootCreated, answer, Event::TempCreated]
        + fetching(chunks) + seq![
        Event::CancelPolled(false),
        Event::StreamEnded,
        Event::Flushed,
        Event::Synced,
        Event::Persisted,
        Event::Evicted,
    ];
    assert(events =~= f6);
    transfer::history_is_counted(f6);
    assert(transfer::stream(f6) =~= joined(chunks));
}

} // verus!
