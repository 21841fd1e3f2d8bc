//! Adopting an already-downloaded file into the cache by copying it in.
//!
//! A track that was fetched whole before it is played is already local, so
//! downloading it again to fill the cache would compete with playback for the
//! same link. A local copy costs disk traffic instead of a second transfer.
//!
//! An [`Adoption`] says what to do next; the caller does it and reports how it
//! went. The source is left untouched.

use crate::media_cache::error::{IoFailure, MediaCacheError};
use crate::media_cache::eviction::Eviction;
use crate::media_cache::listing;
use crate::media_cache::listing::{FileMeta, Listing};
use crate::media_cache::MediaCache;
use crate::path::FilePath;
use vstd::prelude::*;

verus! {

/// What an adoption is to do next.
#[derive(Debug, PartialEq, Eq)]
pub enum AdoptStep {
    /// Look for a file at the destination.
    Probe,
    /// Take the length of the source.
    Measure,
    /// Create the cache root.
    CreateRoot,
    /// Create a temporary file in the cache root.
    CreateTemp,
    /// Copy the source to the temporary file.
    Copy,
    /// Make the contents of the temporary file durable.
    Sync,
    /// Rename the temporary file to the destination.
    Persist,
    /// Carry out [`Adoption::eviction`].
    Evict,
    /// Nothing: the destination holds the track.
    Finished,
    /// Nothing but to discard the temporary file: the adoption failed.
    Failed(MediaCacheError),
}

/// How a step went.
#[derive(Debug, PartialEq, Eq)]
pub enum AdoptEvent {
    /// What was found at the destination.
    Probed(Option<FileMeta>),
    /// The source was measured.
    Measured {
        /// Its length.
        size: u64,
        /// The capacity of the cache at this time.
        capacity: u64,
    },
    /// The cache root exists.
    RootCreated,
    /// The temporary file exists.
    TempCreated,
    /// This many bytes were copied.
    Copied(u64),
    /// The contents of the temporary file are durable.
    Synced,
    /// The temporary file was renamed to the destination.
    Persisted,
    /// Eviction is over.
    Evicted,
    /// A filesystem operation failed, in these words.
    IoFailed(String),
}

/// How far an adoption has come.
#[derive(Debug, PartialEq, Eq)]
pub struct AdoptProgress {
    /// What to do next.
    pub step: AdoptStep,
    /// The length of the source, once measured.
    pub size: u64,
}

impl AdoptProgress {
    /// The beginning.
    pub open spec fn start() -> AdoptProgress {
        AdoptProgress { step: AdoptStep::Probe, size: 0 }
    }

    /// Whether `e` says how the next step went.
    pub open spec fn accepts(self, e: AdoptEvent) -> bool {
        match (self.step, e) {
            (AdoptStep::Probe, AdoptEvent::Probed(_)) => true,
            (AdoptStep::Measure, AdoptEvent::Measured { .. }) => true,
            (AdoptStep::Measure, AdoptEvent::IoFailed(_)) => true,
            (AdoptStep::CreateRoot, AdoptEvent::RootCreated) => true,
            (AdoptStep::CreateRoot, AdoptEvent::IoFailed(_)) => true,
            (AdoptStep::CreateTemp, AdoptEvent::TempCreated) => true,
            (AdoptStep::CreateTemp, AdoptEvent::IoFailed(_)) => true,
            (AdoptStep::Copy, AdoptEvent::Copied(_)) => true,
            (AdoptStep::Copy, AdoptEvent::IoFailed(_)) => true,
            (AdoptStep::Sync, AdoptEvent::Synced) => true,
            (AdoptStep::Sync, AdoptEvent::IoFailed(_)) => true,
            (AdoptStep::Persist, AdoptEvent::Persisted) => true,
            (AdoptStep::Persist, AdoptEvent::IoFailed(_)) => true,
            (AdoptStep::Evict, AdoptEvent::Evicted) => true,
            _ => false,
        }
    }

    /// This adoption with `step` to do next.
    pub open spec fn to(self, step: AdoptStep) -> AdoptProgress {
        AdoptProgress { step, ..self }
    }

    /// This adoption, failed with `error`.
    pub open spec fn fail(self, error: MediaCacheError) -> AdoptProgress {
        self.to(AdoptStep::Failed(error))
    }

    /// This adoption after the source was measured.
    pub open spec fn measured(self, size: u64, capacity: u64) -> AdoptProgress {
        if size == 0 {
            self.fail(MediaCacheError::Truncated { expected: 0, got: 0 })
        } else if size > capacity {
            self.fail(MediaCacheError::TooLarge { size, capacity })
        } else {
            AdoptProgress { step: AdoptStep::CreateRoot, size }
        }
    }

    /// This adoption after the next step went as `e` says.
    pub open spec fn after(self, e: AdoptEvent) -> AdoptProgress {
        match (self.step, e) {
            (AdoptStep::Probe, AdoptEvent::Probed(m)) => if listing::found_playable(m) {
                self.to(AdoptStep::Finished)
            } else {
                self.to(AdoptStep::Measure)
            },
            (AdoptStep::Measure, AdoptEvent::Measured { size, capacity }) => self.measured(
                size,
                capacity,
            ),
            (AdoptStep::CreateRoot, AdoptEvent::RootCreated) => self.to(AdoptStep::CreateTemp),
            (AdoptStep::CreateTemp, AdoptEvent::TempCreated) => self.to(AdoptStep::Copy),
            (AdoptStep::Copy, AdoptEvent::Copied(n)) => if n != self.size {
                self.fail(MediaCacheError::Truncated { expected: self.size, got: n })
            } else {
                self.to(AdoptStep::Sync)
            },
            (AdoptStep::Sync, AdoptEvent::Synced) => self.to(AdoptStep::Persist),
            (AdoptStep::Persist, AdoptEvent::Persisted) => self.to(AdoptStep::Evict),
            (AdoptStep::Evict, AdoptEvent::Evicted) => self.to(AdoptStep::Finished),
            (_, AdoptEvent::IoFailed(words)) => self.fail(
                MediaCacheError::Io(IoFailure::Reported(words)),
            ),
            _ => self,
        }
    }

    /// The beginning.
    pub fn new() -> (r: AdoptProgress)
        ensures
            r == AdoptProgress::start(),
    {
        AdoptProgress { step: AdoptStep::Probe, size: 0 }
    }

    /// Takes note of how the next step went.
    pub fn advance(&mut self, e: AdoptEvent)
        requires
            old(self).accepts(e),
        ensures
            *final(self) == old(self).after(e),
    {
        match e {
            AdoptEvent::Probed(m) => {
                if listing::is_found_playable(&m) {
                    self.step = AdoptStep::Finished;
                } else {
                    self.step = AdoptStep::Measure;
                }
            },
            AdoptEvent::Measured { size, capacity } => {
                if size == 0 {
                    self.step = AdoptStep::Failed(
                        MediaCacheError::Truncated { expected: 0, got: 0 },
                    );
                } else if size > capacity {
                    self.step = AdoptStep::Failed(MediaCacheError::TooLarge { size, capacity });
                } else {
                    self.step = AdoptStep::CreateRoot;
                    self.size = size;
                }
            },
            AdoptEvent::RootCreated => {
                self.step = AdoptStep::CreateTemp;
            },
            AdoptEvent::TempCreated => {
                self.step = AdoptStep::Copy;
            },
            AdoptEvent::Copied(n) => {
                // A short copy means that the source was truncated meanwhile;
                // publishing it would keep a partial track forever.
                if n != self.size {
                    self.step = AdoptStep::Failed(
                        MediaCacheError::Truncated { expected: self.size, got: n },
                    );
                } else {
                    self.step = AdoptStep::Sync;
                }
            },
            AdoptEvent::Synced => {
                self.step = AdoptStep::Persist;
            },
            AdoptEvent::Persisted => {
                self.step = AdoptStep::Evict;
            },
            AdoptEvent::Evicted => {
                self.step = AdoptStep::Finished;
            },
            AdoptEvent::IoFailed(words) => {
                self.step = AdoptStep::Failed(MediaCacheError::Io(IoFailure::Reported(words)));
            },
        }
    }
}

/// The adoption of one file into the cache.
#[derive(Debug)]
pub struct Adoption {
    source: FilePath,
    song_id: String,
    dest: FilePath,
    progress: AdoptProgress,
}

/// The mathematical content of an `Adoption`.
pub struct AdoptionModel {
    /// The file to copy.
    pub source: Seq<u8>,
    /// The song that is claimed while the adoption runs.
    pub song_id: Seq<char>,
    /// Where the track is stored.
    pub dest: Seq<u8>,
    /// How far the adoption has come.
    pub progress: AdoptProgress,
}

impl View for Adoption {
    type V = AdoptionModel;

    closed spec fn view(&self) -> AdoptionModel {
        AdoptionModel {
            source: self.source@,
            song_id: self.song_id@,
            dest: self.dest@,
            progress: self.progress,
        }
    }
}

impl Adoption {
    /// An adoption of `source` as `dest`, for a song that the caller has
    /// claimed.
    pub(crate) fn new(source: &FilePath, song_id: &str, dest: FilePath) -> (r: Adoption)
        ensures
            r@ == (AdoptionModel {
                source: source@,
                song_id: song_id@,
                dest: dest@,
                progress: AdoptProgress::start(),
            }),
    {
        Adoption {
            source: source.clone(),
            song_id: song_id.to_owned(),
            dest,
            progress: AdoptProgress::new(),
        }
    }

    /// The file to copy.
    pub fn source(&self) -> (r: &FilePath)
        ensures
            r@ == self@.source,
    {
        &self.source
    }

    /// The song that is claimed while the adoption runs.
    pub fn song_id(&self) -> (r: &str)
        ensures
            r@ == self@.song_id,
    {
        self.song_id.as_str()
    }

    /// Where the track is stored.
    pub fn dest(&self) -> (r: &FilePath)
        ensures
            r@ == self@.dest,
    {
        &self.dest
    }

    /// How far the adoption has come.
    pub fn progress(&self) -> (r: &AdoptProgress)
        ensures
            *r == self@.progress,
    {
        &self.progress
    }

    /// Takes note of how the next step went.
    pub fn advance(&mut self, e: AdoptEvent)
        requires
            old(self)@.progress.accepts(e),
        ensures
            final(self)@ == (AdoptionModel {
                progress: old(self)@.progress.after(e),
                ..old(self)@
            }),
    {
        self.progress.advance(e);
    }

    /// Starts the eviction that follows the adoption, which spares the track
    /// just stored. `found` is what the directory of the cache holds.
    pub fn eviction(&self, cache: &MediaCache, found: &Listing) -> (r: Eviction)
        requires
            listing::total(cache.entries_in(found)) <= u64::MAX,
        ensures
            r.wf(),
            r@ == cache.eviction_in(found, Some(self@.dest)),
    {
        cache.evict_to_capacity_excluding(found, Some(self.dest.clone()))
    }

    /// What the adoption came to: the path of the track, or why it was not
    /// stored.
    pub fn into_result(self) -> (r: Result<FilePath, MediaCacheError>)
        requires
            self@.progress.step is Finished || self@.progress.step is Failed,
        ensures
            match self@.progress.step {
                AdoptStep::Failed(e) => r == Err::<FilePath, MediaCacheError>(e),
                _ => r is Ok && (r->Ok_0)@ == self@.dest,
            },
    {
        match self.progress.step {
            AdoptStep::Failed(e) => Err(e),
            _ => Ok(self.dest),
        }
    }
}

/// How far an adoption has come after `events`.
pub open spec fn run(events: Seq<AdoptEvent>) -> AdoptProgress
    decreases events.len(),
{
    if events.len() == 0 {
        AdoptProgress::start()
    } else {
        run(events.drop_last()).after(events.last())
    }
}

/// Whether each of `events` says how the step went that was next when it came.
pub open spec fn is_history(events: Seq<AdoptEvent>) -> bool
    decreases events.len(),
{
    events.len() == 0 || (is_history(events.drop_last()) && run(events.drop_last()).accepts(
        events.last(),
    ))
}

/// Whether the source was measured at `size` bytes while the capacity of the
/// cache was `capacity`.
pub open spec fn was_measured(events: Seq<AdoptEvent>, size: u64, capacity: u64) -> bool {
    events.contains(AdoptEvent::Measured { size, capacity })
}

/// What an adoption knows of its history.
proof fn history_is_kept(events: Seq<AdoptEvent>)
    requires
        is_history(events),
    ensures
        ({
            let p = run(events);
            &&& match p.step {
                AdoptStep::CreateRoot
                | AdoptStep::CreateTemp
                | AdoptStep::Copy
                | AdoptStep::Sync
                | AdoptStep::Persist
                | AdoptStep::Evict => 0 < p.size && exists|capacity: u64|
                    p.size <= capacity && #[trigger] was_measured(events, p.size, capacity),
                _ => true,
            }
            &&& match p.step {
                AdoptStep::Sync | AdoptStep::Persist | AdoptStep::Evict => events.contains(
                    AdoptEvent::Copied(p.size),
                ),
                _ => true,
            }
            &&& p.step is Persist || p.step is Evict ==> events.contains(AdoptEvent::Synced)
            &&& events.contains(AdoptEvent::Persisted) ==> p.step is Evict || p.step is Finished
            &&& p.step is Evict ==> events.contains(AdoptEvent::Persisted)
            &&& p.step is Probe ==> events.len() == 0
        }),
    decreases events.len(),
{
    if events.len() > 0 {
        let front = events.drop_last();
        let e = events.last();
        history_is_kept(front);
        let q = run(front);
        let p = run(events);
        assert(events[events.len() - 1] == e);
        assert(events.contains(e));
        assert forall|x: AdoptEvent| front.contains(x) implies events.contains(x) by {
            let i = choose|i: int| 0 <= i < front.len() && front[i] == x;
            assert(events[i] == x);
        }
        assert forall|size: u64, capacity: u64| #[trigger]
            was_measured(front, size, capacity) implies was_measured(events, size, capacity) by {}
        if events.contains(AdoptEvent::Persisted) && e != AdoptEvent::Persisted {
            let i = choose|i: int| 0 <= i < events.len() && events[i] == AdoptEvent::Persisted;
            assert(front[i] == AdoptEvent::Persisted);
            assert(front.contains(AdoptEvent::Persisted));
        }
        if e is Measured && p.step is CreateRoot {
            assert(was_measured(events, p.size, e->capacity));
        }
    }
}

/// An adopted file is complete: when it is renamed into place, as many bytes
/// were copied as the source was measured to have, there is at least one, they
/// fit the capacity, and they are durable.
pub proof fn only_complete_copies_are_published(events: Seq<AdoptEvent>)
    requires
        is_history(events),
        run(events).step is Persist,
    ensures
        0 < run(events).size,
        events.contains(AdoptEvent::Copied(run(events).size)),
        exists|capacity: u64|
            run(events).size <= capacity && #[trigger] was_measured(
                events,
                run(events).size,
                capacity,
            ),
        events.contains(AdoptEvent::Synced),
{
    history_is_kept(events);
}

/// A failed adoption leaves the cache exactly as it was.
pub proof fn failed_adoptions_publish_nothing(events: Seq<AdoptEvent>)
    requires
        is_history(events),
        run(events).step is Failed,
    ensures
        !events.contains(AdoptEvent::Persisted),
{
    history_is_kept(events);
}

/// An adoption that ends well has put the whole file in place, unless a playable
/// file was there from the start; either way no temporary file is left.
pub proof fn finished_adoptions_are_in_place(events: Seq<AdoptEvent>)
    requires
        is_history(events),
        run(events).step is Finished,
    ensures
        events.len() > 0,
        events[0] is Probed,
        if listing::found_playable(events[0]->Probed_0) {
            events.len() == 1
        } else {
            &&& events.contains(AdoptEvent::Persisted)
            &&& events.contains(AdoptEvent::Synced)
            &&& events.contains(AdoptEvent::Copied(run(events).size))
            &&& 0 < run(events).size
            &&& exists|capacity: u64|
                run(events).size <= capacity && #[trigger] was_measured(
                    events,
                    run(events).size,
                    capacity,
                )
        },
        events.contains(AdoptEvent::TempCreated) ==> events.contains(AdoptEvent::Persisted),
{
    let front = events.drop_last();
    history_is_kept(front);
    probe_comes_first(events);
    if run(front).step is Evict {
        assert forall|x: AdoptEvent| front.contains(x) implies events.contains(x) by {
            let i = choose|i: int| 0 <= i < front.len() && front[i] == x;
            assert(events[i] == x);
        }
        let capacity = choose|capacity: u64|
            run(events).size <= capacity && #[trigger] was_measured(
                front,
                run(events).size,
                capacity,
            );
        assert(was_measured(events, run(events).size, capacity));
        probe_comes_first(front);
    }
}

/// The destination is probed first, and what is found there decides whether
/// there is more to do.
proof fn probe_comes_first(events: Seq<AdoptEvent>)
    requires
        is_history(events),
        events.len() > 0,
    ensures
        events[0] is Probed,
        listing::found_playable(events[0]->Probed_0) ==> events.len() == 1
            && run(events).step is Finished,
    decreases events.len(),
{
    let front = events.drop_last();
    if front.len() > 0 {
        probe_comes_first(front);
        assert(events[0] == front[0]);
    } else {
        assert(events[0] == events.last());
    }
}

/// An adoption that has ended stays as it ended.
pub proof fn ended_adoptions_take_no_more_steps(p: AdoptProgress, e: AdoptEvent)
    requires
        p.step is Finished || p.step is Failed,
    ensures
        !p.accepts(e),
{
}

} // verus!
