//! Downloading a track into the cache.
//!
//! A file under the cache root is always complete. A download lands in a
//! temporary file in the same directory and is renamed into place only after
//! the transfer has finished and matches the length that the server promised.
//! A partial download is never observable, so the player can never read a
//! truncated file and mistake its early end for the end of the track.
//!
//! A [`Transfer`] says what to do next; the caller does it and reports how it
//! went.

use crate::media_cache::error::{IoFailure, MediaCacheError};
use crate::media_cache::eviction::Eviction;
use crate::media_cache::listing;
use crate::media_cache::listing::{FileMeta, Listing};
use crate::media_cache::MediaCache;
use crate::path::FilePath;
use vstd::prelude::*;

verus! {

/// Seconds without a byte from the stream after which a download is stalled.
/// Bounds a stalled fill without capping the total time that a large lossless
/// file may take.
pub const STALL_TIMEOUT_SECS: u64 = 30;

/// What a download is to do next.
#[derive(Debug, PartialEq, Eq)]
pub enum Step {
    /// Look for a file at the destination: a transfer that finished in the
    /// meantime leaves nothing to do.
    Probe,
    /// Create the cache root.
    CreateRoot,
    /// Ask the server for the track.
    Request,
    /// Create a temporary file in the cache root.
    CreateTemp,
    /// See whether the caller has cancelled.
    PollCancel,
    /// Wait for the next chunk, for as long as the stall timeout.
    Read,
    /// Append these bytes to the temporary file.
    Append(Vec<u8>),
    /// Flush the temporary file.
    Flush,
    /// Make the contents of the temporary file durable. They must be before
    /// the file becomes visible.
    Sync,
    /// Rename the temporary file to the destination.
    Persist,
    /// Carry out [`Transfer::eviction`].
    Evict,
    /// Nothing: the destination holds the track.
    Finished,
    /// Nothing but to discard the temporary file: the download failed.
    Failed(MediaCacheError),
}

/// How a step went.
#[derive(Debug, PartialEq, Eq)]
pub enum Event {
    /// What was found at the destination.
    Probed(Option<FileMeta>),
    /// The cache root exists.
    RootCreated,
    /// The server answered.
    Answered {
        /// The status of the answer.
        status: u16,
        /// The length that it promises, if it does.
        content_length: Option<u64>,
        /// The capacity of the cache at this time.
        capacity: u64,
    },
    /// The temporary file exists.
    TempCreated,
    /// Whether the caller has cancelled.
    CancelPolled(bool),
    /// These bytes arrived.
    Chunk(Vec<u8>),
    /// The stream is over.
    StreamEnded,
    /// Nothing arrived within the stall timeout.
    Stalled,
    /// The chunk was appended.
    Appended,
    /// The temporary file was flushed.
    Flushed,
    /// The contents of the temporary file are durable.
    Synced,
    /// The temporary file was renamed to the destination.
    Persisted,
    /// Eviction is over.
    Evicted,
    /// A filesystem operation failed, in these words.
    IoFailed(String),
    /// The transfer failed, in these words.
    HttpFailed(String),
}

/// How far a download has come.
#[derive(Debug, PartialEq, Eq)]
pub struct Progress {
    /// What to do next.
    pub step: Step,
    /// The length that the server promised, if it did.
    pub expected: Option<u64>,
    /// The capacity of the cache when the server answered.
    pub capacity: u64,
    /// The bytes in the temporary file.
    pub written: u64,
}

/// Whether a status says that the request succeeded.
pub open spec fn is_success(status: u16) -> bool {
    200 <= status < 300
}

impl Progress {
    /// The beginning.
    pub open spec fn start() -> Progress {
        Progress { step: Step::Probe, expected: None, capacity: 0, written: 0 }
    }

    /// Whether `e` says how the next step went.
    pub open spec fn accepts(self, e: Event) -> bool {
        match (self.step, e) {
            (Step::Probe, Event::Probed(_)) => true,
            (Step::CreateRoot, Event::RootCreated) => true,
            (Step::CreateRoot, Event::IoFailed(_)) => true,
            (Step::Request, Event::Answered { .. }) => true,
            (Step::Request, Event::HttpFailed(_)) => true,
            (Step::CreateTemp, Event::TempCreated) => true,
            (Step::CreateTemp, Event::IoFailed(_)) => true,
            (Step::PollCancel, Event::CancelPolled(_)) => true,
            (Step::Read, Event::Chunk(_)) => true,
            (Step::Read, Event::StreamEnded) => true,
            (Step::Read, Event::Stalled) => true,
            (Step::Read, Event::HttpFailed(_)) => true,
            (Step::Append(bytes), Event::Appended) => self.written + bytes@.len() <= u64::MAX,
            (Step::Append(_), Event::IoFailed(_)) => true,
            (Step::Flush, Event::Flushed) => true,
            (Step::Flush, Event::IoFailed(_)) => true,
            (Step::Sync, Event::Synced) => true,
            (Step::Sync, Event::IoFailed(_)) => true,
            (Step::Persist, Event::Persisted) => true,
            (Step::Persist, Event::IoFailed(_)) => true,
            (Step::Evict, Event::Evicted) => true,
            _ => false,
        }
    }

    /// This download with `step` to do next.
    pub open spec fn to(self, step: Step) -> Progress {
        Progress { step, ..self }
    }

    /// This download, failed with `error`.
    pub open spec fn fail(self, error: MediaCacheError) -> Progress {
        self.to(Step::Failed(error))
    }

    /// This download after the server answered.
    pub open spec fn answered(
        self,
        status: u16,
        content_length: Option<u64>,
        capacity: u64,
    ) -> Progress {
        if !is_success(status) {
            self.fail(MediaCacheError::Status(status))
        } else if content_length is Some && content_length->0 > capacity {
            self.fail(MediaCacheError::TooLarge { size: content_length->0, capacity })
        } else {
            Progress { step: Step::CreateTemp, expected: content_length, capacity, written: 0 }
        }
    }

    /// This download after `n` bytes more are in the temporary file.
    pub open spec fn appended(self, n: nat) -> Progress {
        let size = (self.written + n) as u64;
        let p = Progress { written: size, ..self };
        if size > self.capacity {
            p.fail(MediaCacheError::TooLarge { size, capacity: self.capacity })
        } else {
            p.to(Step::PollCancel)
        }
    }

    /// This download after its whole stream is in the temporary file.
    pub open spec fn flushed(self) -> Progress {
        if self.expected is Some && self.expected->0 != self.written {
            self.fail(
                MediaCacheError::Truncated { expected: self.expected->0, got: self.written },
            )
        } else if self.written == 0 {
            self.fail(MediaCacheError::Truncated { expected: 0, got: 0 })
        } else {
            self.to(Step::Sync)
        }
    }

    /// This download after the next step went as `e` says.
    pub open spec fn after(self, e: Event) -> Progress {
        match (self.step, e) {
            (Step::Probe, Event::Probed(m)) => if listing::found_playable(m) {
                self.to(Step::Finished)
            } else {
                self.to(Step::CreateRoot)
            },
            (Step::CreateRoot, Event::RootCreated) => self.to(Step::Request),
            (Step::Request, Event::Answered { status, content_length, capacity }) => self.answered(
                status,
                content_length,
                capacity,
            ),
            (Step::CreateTemp, Event::TempCreated) => self.to(Step::PollCancel),
            (Step::PollCancel, Event::CancelPolled(cancelled)) => if cancelled {
                self.fail(MediaCacheError::Cancelled)
            } else {
                self.to(Step::Read)
            },
            (Step::Read, Event::Chunk(bytes)) => self.to(Step::Append(bytes)),
            (Step::Read, Event::StreamEnded) => self.to(Step::Flush),
            (Step::Read, Event::Stalled) => self.fail(MediaCacheError::Io(IoFailure::Stalled)),
            (Step::Append(bytes), Event::Appended) => self.appended(bytes@.len()),
            (Step::Flush, Event::Flushed) => self.flushed(),
            (Step::Sync, Event::Synced) => self.to(Step::Persist),
            (Step::Persist, Event::Persisted) => self.to(Step::Evict),
            (Step::Evict, Event::Evicted) => self.to(Step::Finished),
            (_, Event::IoFailed(words)) => self.fail(
                MediaCacheError::Io(IoFailure::Reported(words)),
            ),
            (_, Event::HttpFailed(words)) => self.fail(MediaCacheError::Http(words)),
            _ => self,
        }
    }

    /// The beginning.
    pub fn new() -> (r: Progress)
        ensures
            r == Progress::start(),
    {
        Progress { step: Step::Probe, expected: None, capacity: 0, written: 0 }
    }

    /// Takes note of how the next step went.
    pub fn advance(&mut self, e: Event)
        requires
            old(self).accepts(e),
        ensures
            *final(self) == old(self).after(e),
    {
        match e {
            Event::Probed(m) => {
                if listing::is_found_playable(&m) {
                    self.step = Step::Finished;
                } else {
                    self.step = Step::CreateRoot;
                }
            },
            Event::RootCreated => {
                self.step = Step::Request;
            },
            Event::Answered { status, content_length, capacity } => {
                self.answer(status, content_length, capacity);
            },
            Event::TempCreated => {
                self.step = Step::PollCancel;
            },
            Event::CancelPolled(cancelled) => {
                if cancelled {
                    self.step = Step::Failed(MediaCacheError::Cancelled);
                } else {
                    self.step = Step::Read;
                }
            },
            Event::Chunk(bytes) => {
                self.step = Step::Append(bytes);
            },
            Event::StreamEnded => {
                self.step = Step::Flush;
            },
            Event::Stalled => {
                self.step = Step::Failed(MediaCacheError::Io(IoFailure::Stalled));
            },
            Event::Appended => {
                let n: usize = match &self.step {
                    Step::Append(bytes) => bytes.len(),
                    _ => 0,
                };
                self.append(n as u64);
            },
            Event::Flushed => {
                self.judge();
            },
            Event::Synced => {
                self.step = Step::Persist;
            },
            Event::Persisted => {
                self.step = Step::Evict;
            },
            Event::Evicted => {
                self.step = Step::Finished;
            },
            Event::IoFailed(words) => {
                self.step = Step::Failed(MediaCacheError::Io(IoFailure::Reported(words)));
            },
            Event::HttpFailed(words) => {
                self.step = Step::Failed(MediaCacheError::Http(words));
            },
        }
    }

    /// Refuses an answer that is no success, and an oversized track up front,
    /// so that no bandwidth is spent on a file that does not fit.
    fn answer(&mut self, status: u16, content_length: Option<u64>, capacity: u64)
        ensures
            *final(self) == old(self).answered(status, content_length, capacity),
    {
        if !(200 <= status && status < 300) {
            self.step = Step::Failed(MediaCacheError::Status(status));
            return;
        }
        if let Some(len) = content_length {
            if len > capacity {
                self.step = Step::Failed(MediaCacheError::TooLarge { size: len, capacity });
                return;
            }
        }
        self.step = Step::CreateTemp;
        self.expected = content_length;
        self.capacity = capacity;
        self.written = 0;
    }

    /// Counts an appended chunk, and stops an answer without a promised length
    /// from overrunning the cache.
    fn append(&mut self, n: u64)
        requires
            old(self).written + n <= u64::MAX,
        ensures
            *final(self) == old(self).appended(n as nat),
    {
        self.written = self.written + n;
        if self.written > self.capacity {
            self.step = Step::Failed(
                MediaCacheError::TooLarge { size: self.written, capacity: self.capacity },
            );
        } else {
            self.step = Step::PollCancel;
        }
    }

    /// Refuses a stream that ended early, which is the one failure that could
    /// otherwise be published as a good entry.
    fn judge(&mut self)
        ensures
            *final(self) == old(self).flushed(),
    {
        if let Some(len) = self.expected {
            if self.written != len {
                self.step = Step::Failed(
                    MediaCacheError::Truncated { expected: len, got: self.written },
                );
                return;
            }
        }
        if self.written == 0 {
            self.step = Step::Failed(MediaCacheError::Truncated { expected: 0, got: 0 });
        } else {
            self.step = Step::Sync;
        }
    }
}

/// A download of one track into the cache.
#[derive(Debug)]
pub struct Transfer {
    url: String,
    song_id: String,
    dest: FilePath,
    progress: Progress,
}

/// The mathematical content of a `Transfer`.
pub struct TransferModel {
    /// Where the track is fetched from.
    pub url: Seq<char>,
    /// The song that is claimed while the download runs.
    pub song_id: Seq<char>,
    /// Where the track is stored.
    pub dest: Seq<u8>,
    /// How far the download has come.
    pub progress: Progress,
}

impl View for Transfer {
    type V = TransferModel;

    closed spec fn view(&self) -> TransferModel {
        TransferModel {
            url: self.url@,
            song_id: self.song_id@,
            dest: self.dest@,
            progress: self.progress,
        }
    }
}

impl Transfer {
    /// A download of `url` to `dest`, for a song that the caller has claimed.
    pub(crate) fn new(url: &str, song_id: &str, dest: FilePath) -> (r: Transfer)
        ensures
            r@ == (TransferModel {
                url: url@,
                song_id: song_id@,
                dest: dest@,
                progress: Progress::start(),
            }),
    {
        Transfer {
            url: url.to_owned(),
            song_id: song_id.to_owned(),
            dest,
            progress: Progress::new(),
        }
    }

    /// Where the track is fetched from.
    pub fn url(&self) -> (r: &str)
        ensures
            r@ == self@.url,
    {
        self.url.as_str()
    }

    /// The song that is claimed while the download runs.
    pub fn song_id(&self) -> (r: &str)
        ensures
            r@ == self@.song_id,
    {
        self.song_id.as_str()
    }

    /// Where the track is stored.
    pub fn dest(&self) -> (r: &FilePath)
        ensures
            r@ == self@.dest,
    {
        &self.dest
    }

    /// How far the download has come.
    pub fn progress(&self) -> (r: &Progress)
        ensures
            *r == self@.progress,
    {
        &self.progress
    }

    /// Takes note of how the next step went.
    pub fn advance(&mut self, e: Event)
        requires
            old(self)@.progress.accepts(e),
        ensures
            final(self)@ == (TransferModel {
                progress: old(self)@.progress.after(e),
                ..old(self)@
            }),
    {
        self.progress.advance(e);
    }

    /// Starts the eviction that follows the download, which spares the track
    /// just stored. `found` is what the directory of the cache holds.
    pub fn eviction(&self, cache: &MediaCache, found: &Listing) -> (r: Eviction)
        requires
            listing::total(cache.entries_in(found)) <= u64::MAX,
        ensures
            r.wf(),
            r@ == cache.eviction_in(found, Some(self@.dest)),
    {
        cache.evict_to_capacity_excluding(found, Some(self.dest.clone()))
    }

    /// What the download came to: the path of the track, or why it was not
    /// stored.
    pub fn into_result(self) -> (r: Result<FilePath, MediaCacheError>)
        requires
            self@.progress.step is Finished || self@.progress.step is Failed,
        ensures
            match self@.progress.step {
                Step::Failed(e) => r == Err::<FilePath, MediaCacheError>(e),
                _ => r is Ok && (r->Ok_0)@ == self@.dest,
            },
    {
        match self.progress.step {
            Step::Failed(e) => Err(e),
            _ => Ok(self.dest),
        }
    }
}

/// How far a download has come after `events`.
pub open spec fn run(events: Seq<Event>) -> Progress
    decreases events.len(),
{
    if events.len() == 0 {
        Progress::start()
    } else {
        run(events.drop_last()).after(events.last())
    }
}

/// Whether each of `events` says how the step went that was next when it came.
pub open spec fn is_history(events: Seq<Event>) -> bool
    decreases events.len(),
{
    events.len() == 0 || (is_history(events.drop_last()) && run(events.drop_last()).accepts(
        events.last(),
    ))
}

/// The bytes that arrived in `events`, one after another.
pub open spec fn stream(events: Seq<Event>) -> Seq<u8>
    decreases events.len(),
{
    if events.len() == 0 {
        Seq::empty()
    } else {
        stream(events.drop_last()) + match events.last() {
            Event::Chunk(bytes) => bytes@,
            _ => Seq::empty(),
        }
    }
}

/// What is in the temporary file after `events`: the bytes of each append that
/// was asked for and done, one after another.
pub open spec fn contents(events: Seq<Event>) -> Seq<u8>
    decreases events.len(),
{
    if events.len() == 0 {
        Seq::empty()
    } else {
        contents(events.drop_last()) + match (run(events.drop_last()).step, events.last()) {
            (Step::Append(bytes), Event::Appended) => bytes@,
            _ => Seq::empty(),
        }
    }
}

/// Whether the server answered with `status`, promising `content_length`, while
/// the capacity of the cache was `capacity`.
pub open spec fn was_answered(
    events: Seq<Event>,
    status: u16,
    content_length: Option<u64>,
    capacity: u64,
) -> bool {
    events.contains(Event::Answered { status, content_length, capacity })
}

/// Whether the download is under way: the server has answered, and the file is
/// not in place yet.
pub open spec fn is_fetching(step: Step) -> bool {
    match step {
        Step::CreateTemp | Step::PollCancel | Step::Read | Step::Append(_) | Step::Flush
        | Step::Sync | Step::Persist | Step::Evict => true,
        _ => false,
    }
}

/// Whether the stream was judged complete.
pub open spec fn is_judged(step: Step) -> bool {
    match step {
        Step::Sync | Step::Persist | Step::Evict => true,
        _ => false,
    }
}

/// What the counters of a download say of its history.
pub proof fn history_is_counted(events: Seq<Event>)
    requires
        is_history(events),
    ensures
        ({
            let p = run(events);
            &&& match p.step {
                Step::Failed(_) => true,
                Step::Append(bytes) => stream(events) == contents(events) + bytes@,
                _ => stream(events) == contents(events),
            }
            &&& match p.step {
                Step::Probe | Step::CreateRoot | Step::Request => contents(events).len() == 0,
                Step::Finished | Step::Failed(_) => true,
                _ => contents(events).len() == p.written,
            }
            &&& is_fetching(p.step) ==> {
                &&& p.written <= p.capacity
                &&& exists|status: u16|
                    is_success(status) && #[trigger] was_answered(
                        events,
                        status,
                        p.expected,
                        p.capacity,
                    )
            }
            &&& is_judged(p.step) ==> {
                &&& p.written > 0
                &&& p.expected is Some ==> p.expected->0 == p.written
            }
            &&& p.step is Flush || is_judged(p.step) ==> events.contains(Event::StreamEnded)
            &&& p.step is Persist || p.step is Evict ==> events.contains(Event::Synced)
            &&& events.contains(Event::Persisted) ==> p.step is Evict || p.step is Finished
            &&& p.step is Evict ==> events.contains(Event::Persisted)
        }),
    decreases events.len(),
{
    if events.len() > 0 {
        let front = events.drop_last();
        let e = events.last();
        history_is_counted(front);
        let q = run(front);
        let p = run(events);
        let nothing = Seq::<u8>::empty();
        assert(stream(front) + nothing =~= stream(front));
        assert(contents(front) + nothing =~= contents(front));
        assert(events[events.len() - 1] == e);
        assert(events.contains(e));
        assert forall|x: Event| front.contains(x) implies events.contains(x) by {
            let i = choose|i: int| 0 <= i < front.len() && front[i] == x;
            assert(events[i] == x);
        }
        if events.contains(Event::Persisted) && e != Event::Persisted {
            let i = choose|i: int| 0 <= i < events.len() && events[i] == Event::Persisted;
            assert(front[i] == Event::Persisted);
            assert(front.contains(Event::Persisted));
        }
        if is_fetching(p.step) {
            if is_fetching(q.step) {
                let status = choose|status: u16|
                    is_success(status) && #[trigger] was_answered(
                        front,
                        status,
                        q.expected,
                        q.capacity,
                    );
                assert(was_answered(events, status, p.expected, p.capacity));
            } else {
                assert(is_success(e->status));
                assert(was_answered(events, e->status, p.expected, p.capacity));
            }
        }
    }
}

/// A published download is complete: when the file is renamed into place, the
/// stream is over and the file holds exactly the bytes that arrived, in their
/// order; there is at least one;
/// they fit the capacity; they are as many as the server promised where it
/// promised a length; the server had answered with success; and the bytes are
/// durable.
pub proof fn only_complete_downloads_are_published(events: Seq<Event>)
    requires
        is_history(events),
        run(events).step is Persist,
    ensures
        events.contains(Event::StreamEnded),
        contents(events) == stream(events),
        0 < contents(events).len() <= run(events).capacity,
        run(events).expected is Some ==> contents(events).len() == run(events).expected->0,
        exists|status: u16|
            is_success(status) && #[trigger] was_answered(
                events,
                status,
                run(events).expected,
                run(events).capacity,
            ),
        events.contains(Event::Synced),
{
    history_is_counted(events);
}

/// A failed download leaves the cache exactly as it was: nothing was renamed
/// into place.
pub proof fn failed_downloads_publish_nothing(events: Seq<Event>)
    requires
        is_history(events),
        run(events).step is Failed,
    ensures
        !events.contains(Event::Persisted),
{
    history_is_counted(events);
}

/// A download that ends well has put all of the stream in place, unless a
/// playable file was there from the start, in which case the server was not
/// asked at all; either way no temporary file is left.
pub proof fn finished_downloads_are_in_place(events: Seq<Event>)
    requires
        is_history(events),
        run(events).step is Finished,
    ensures
        events.len() > 0,
        events[0] is Probed,
        if listing::found_playable(events[0]->Probed_0) {
            events.len() == 1
        } else {
            &&& events.contains(Event::Persisted)
            &&& events.contains(Event::StreamEnded)
            &&& events.contains(Event::Synced)
            &&& contents(events) == stream(events)
            &&& 0 < contents(events).len() <= run(events).capacity
            &&& run(events).expected is Some ==> contents(events).len() == run(events).expected->0
            &&& exists|status: u16|
                is_success(status) && #[trigger] was_answered(
                    events,
                    status,
                    run(events).expected,
                    run(events).capacity,
                )
        },
        events.contains(Event::TempCreated) ==> events.contains(Event::Persisted),
{
    let front = events.drop_last();
    history_is_counted(front);
    history_is_counted(events);
    probe_comes_first(events);
    if run(front).step is Evict {
        assert forall|x: Event| front.contains(x) implies events.contains(x) by {
            let i = choose|i: int| 0 <= i < front.len() && front[i] == x;
            assert(events[i] == x);
        }
        let status = choose|status: u16|
            is_success(status) && #[trigger] was_answered(
                front,
                status,
                run(front).expected,
                run(front).capacity,
            );
        assert(was_answered(events, status, run(events).expected, run(events).capacity));
        assert(contents(front) + Seq::<u8>::empty() =~= contents(front));
    }
    if front.len() > 0 {
        probe_comes_first(front);
    }
}

/// The destination is probed first, and what is found there decides whether
/// there is more to do.
proof fn probe_comes_first(events: Seq<Event>)
    requires
        is_history(events),
        events.len() > 0,
    ensures
        events[0] is Probed,
        listing::found_playable(events[0]->Probed_0) ==> events.len() == 1
            && run(events).step is Finished,
        !(run(events).step is Probe),
    decreases events.len(),
{
    let front = events.drop_last();
    if front.len() > 0 {
        probe_comes_first(front);
        assert(events[0] == front[0]);
    } else {
        assert(events[0] == events.last());
    }
}

/// A download that has ended stays as it ended.
pub proof fn ended_downloads_take_no_more_steps(p: Progress, e: Event)
    requires
        p.step is Finished || p.step is Failed,
    ensures
        !p.accepts(e),
{
}

/// Cancelling is polled between chunks: whenever a chunk is awaited, the caller
/// was asked just before, and had not cancelled.
pub proof fn cancel_is_polled_between_chunks(events: Seq<Event>)
    requires
        is_history(events),
        run(events).step is Read,
    ensures
        events.len() > 0,
        events.last() == Event::CancelPolled(false),
{
}

/// A cancelled download fails as such and publishes nothing.
pub proof fn cancelling_ends_the_download(events: Seq<Event>)
    requires
        is_history(events),
        events.len() > 0,
        events.last() == Event::CancelPolled(true),
    ensures
        run(events).step == Step::Failed(MediaCacheError::Cancelled),
        !events.contains(Event::Persisted),
{
    failed_downloads_publish_nothing(events);
}

} // verus!
