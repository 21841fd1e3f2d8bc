//! Media-cache integration: resolve each play to a local file or a stream URL,
//! and fill the cache in the background on a miss.

use crate::media_cache;
use crate::media_cache::eviction::Eviction;
use crate::media_cache::listing;
use crate::media_cache::listing::{FileMeta, Listing};
use crate::media_cache::name;
use crate::media_cache::{Lookup, MediaCache, MediaCacheError};
use crate::path::FilePath;
use vstd::prelude::*;

verus! {

/// A song of the queue.
#[derive(Debug, PartialEq, Eq)]
pub struct Child {
    /// The ID that the server gave it.
    pub id: String,
    /// Its title.
    pub title: String,
    /// The suffix of its file, if the server reports one.
    pub suffix: Option<String>,
}

/// The characters of a suffix that may be missing.
pub open spec fn suffix_of(suffix: Option<String>) -> Option<Seq<char>> {
    match suffix {
        Some(s) => Some(s@),
        None => None,
    }
}

/// Where a song is played from.
#[derive(Debug, PartialEq, Eq)]
pub enum PlaybackSource {
    /// Streamed from this URL.
    Remote(String),
    /// Read from this file.
    Cached(FilePath),
}

/// A background download to start.
#[derive(Debug, PartialEq, Eq)]
pub struct CacheFill {
    /// Where the track is fetched from.
    pub url: String,
    /// The ID of the song.
    pub song_id: String,
    /// The suffix of its file.
    pub suffix: Option<String>,
    /// Its title.
    pub title: String,
}

/// What playing a song comes to.
#[derive(Debug, PartialEq, Eq)]
pub struct Resolution {
    /// Where the song is played from.
    pub source: PlaybackSource,
    /// What the lookup came to.
    pub lookup: Lookup,
    /// The background download to start.
    pub fill: Option<CacheFill>,
}

/// How to report what a background download came to.
#[derive(Debug, Clone, Copy, PartialEq, Eq)]
pub enum FillReport {
    /// The track was cached.
    Cached,
    /// A routine outcome on a busy queue, not worth a line in the log: a
    /// preload and a play of the same track, or the feature switched off.
    Routine,
    /// The download was cancelled.
    Cancelled,
    /// The track could not be cached.
    Problem,
}

/// The part of the daemon that plays through the media cache.
pub struct DaemonCore {
    /// The cache.
    pub media_cache: MediaCache,
    /// Whether the daemon is shutting down.
    pub shutdown: bool,
}

/// A copy of a suffix that may be missing.
fn copy_suffix(suffix: &Option<String>) -> (r: Option<String>)
    ensures
        suffix_of(r) == suffix_of(*suffix),
{
    match suffix {
        Some(s) => Some(s.clone()),
        None => None,
    }
}

/// A suffix that may be missing, borrowed.
fn borrow_suffix(suffix: &Option<String>) -> (r: Option<&str>)
    ensures
        name::reported(r) == suffix_of(*suffix),
{
    match suffix {
        Some(s) => Some(s.as_str()),
        None => None,
    }
}

impl DaemonCore {
    /// Whether a background download may start.
    pub open spec fn may_fill(&self) -> bool {
        self.media_cache@.is_active() && !self.shutdown
    }

    /// Whether `fill` is the background download of `song` from `url`, if one
    /// may start.
    pub open spec fn is_fill(&self, song: Child, url: Seq<char>, fill: Option<CacheFill>) -> bool {
        &&& fill is Some <==> self.may_fill()
        &&& fill matches Some(f) ==> {
            &&& f.url@ == url
            &&& f.song_id@ == song.id@
            &&& suffix_of(f.suffix) == suffix_of(song.suffix)
            &&& f.title@ == song.title@
        }
    }

    /// What looking up `song` comes to, where `probe` is what was found at its
    /// path in the cache.
    pub open spec fn lookup_for(
        &self,
        song: Child,
        probe: Option<FileMeta>,
    ) -> media_cache::LookupModel {
        media_cache::lookup_of(
            self.media_cache@.is_active(),
            self.media_cache@.path_of(song.id@, suffix_of(song.suffix)),
            probe,
        )
    }

    /// Picks the source for `song`, whose signed stream URL is `stream_url`,
    /// where `probe` is what was found at its path in the cache.
    ///
    /// A hit is played from the local file and starts nothing else. A miss is
    /// streamed and starts a background download, so that playback begins at
    /// once over the network while the copy lands on disk for next time.
    pub fn resolve_playback_source(
        &self,
        song: &Child,
        stream_url: String,
        probe: Option<FileMeta>,
    ) -> (r: Resolution)
        ensures
            r.lookup@ == self.lookup_for(*song, probe),
            match r.lookup@ {
                media_cache::LookupModel::Hit(p) => {
                    &&& r.source is Cached
                    &&& (r.source->Cached_0)@ == p
                    &&& r.fill is None
                },
                _ => {
                    &&& r.source == PlaybackSource::Remote(stream_url)
                    &&& self.is_fill(*song, stream_url@, r.fill)
                },
            },
    {
        if !self.media_cache.is_enabled() {
            return Resolution {
                source: PlaybackSource::Remote(stream_url),
                lookup: Lookup::Miss,
                fill: None,
            };
        }
        let lookup = self.media_cache.lookup(
            song.id.as_str(),
            borrow_suffix(&song.suffix),
            probe,
        );
        let hit: Option<FilePath> = match &lookup {
            Lookup::Hit(p) => Some(p.clone()),
            _ => None,
        };
        match hit {
            Some(p) => Resolution { source: PlaybackSource::Cached(p), lookup, fill: None },
            None => {
                let fill = self.spawn_cache_fill(song, stream_url.as_str());
                Resolution { source: PlaybackSource::Remote(stream_url), lookup, fill }
            },
        }
    }

    /// The background download of `song` to start, unless caching is off or the
    /// daemon is shutting down.
    ///
    /// It never touches playback, so a failed fill can only cost a cache entry.
    pub fn spawn_cache_fill(&self, song: &Child, stream_url: &str) -> (r: Option<CacheFill>)
        ensures
            self.is_fill(*song, stream_url@, r),
    {
        if !self.media_cache.is_enabled() {
            return None;
        }
        if self.shutdown {
            return None;
        }
        Some(
            CacheFill {
                url: stream_url.to_owned(),
                song_id: song.id.clone(),
                suffix: copy_suffix(&song.suffix),
                title: song.title.clone(),
            },
        )
    }

    /// How to report what a background download came to.
    pub fn report_fill(result: &Result<FilePath, MediaCacheError>) -> (r: FillReport)
        ensures
            r == match *result {
                Ok(_) => FillReport::Cached,
                Err(MediaCacheError::AlreadyInFlight) => FillReport::Routine,
                Err(MediaCacheError::Disabled) => FillReport::Routine,
                Err(MediaCacheError::Cancelled) => FillReport::Cancelled,
                Err(_) => FillReport::Problem,
            },
    {
        match result {
            Ok(_) => FillReport::Cached,
            Err(e) => match e {
                MediaCacheError::AlreadyInFlight => FillReport::Routine,
                MediaCacheError::Disabled => FillReport::Routine,
                MediaCacheError::Cancelled => FillReport::Cancelled,
                _ => FillReport::Problem,
            },
        }
    }

    /// Applies changed settings to the running cache, and starts the eviction
    /// that they call for.
    ///
    /// Turning the cache off leaves the files in place, so that the user can
    /// turn it on again without downloading them anew.
    pub fn apply_media_cache_config(
        &mut self,
        enabled: bool,
        capacity_bytes: u64,
        found: &Listing,
    ) -> (r: Option<Eviction>)
        requires
            enabled ==> listing::total(old(self).media_cache.entries_in(found)) <= u64::MAX,
        ensures
            final(self).media_cache@ == (media_cache::CacheModel {
                enabled,
                capacity_bytes,
                ..old(self).media_cache@
            }),
            final(self).shutdown == old(self).shutdown,
            r is Some <==> enabled,
            r matches Some(e) ==> e.wf() && e@ == final(self).media_cache.eviction_in(found, None),
    {
        self.media_cache.set_enabled(enabled);
        self.media_cache.set_capacity_bytes(capacity_bytes);
        if enabled {
            Some(self.media_cache.evict_to_capacity(found))
        } else {
            None
        }
    }

    /// What deleting every cached media file came to: the number of files
    /// removed and the bytes freed, where `removed` says of each entry of the
    /// cache whether its file could be removed.
    pub fn clear_media_cache(&self, found: &Listing, removed: &Vec<bool>) -> (r: (usize, u64))
        requires
            removed@.len() == self.media_cache.entries_in(found).len(),
            media_cache::cleared(self.media_cache.entries_in(found), removed@).1 <= u64::MAX,
        ensures
            r.0 == media_cache::cleared(self.media_cache.entries_in(found), removed@).0,
            r.1 == media_cache::cleared(self.media_cache.entries_in(found), removed@).1,
    {
        self.media_cache.clear(found, removed)
    }

    /// Bytes currently held by the media cache.
    pub fn media_cache_usage(&self, found: &Listing) -> (r: u64)
        requires
            listing::total(self.media_cache.entries_in(found)) <= u64::MAX,
        ensures
            r == listing::total(self.media_cache.entries_in(found)),
    {
        self.media_cache.usage_bytes(found)
    }
}

} // verus!
