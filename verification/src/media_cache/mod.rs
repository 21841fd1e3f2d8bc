//! On-disk cache of downloaded media files.
//!
//! Tracks are streamed from the server unaltered, so the bytes on the wire are
//! the bytes of the original file, and a completed download is a byte-identical
//! copy of it. Handing the player the local path instead of the stream URL
//! removes the network from the path.
//!
//! This module decides; its caller acts. It is told what the filesystem and the
//! server say, and says which file to look for, fetch, publish or remove.
//!
//! - A file under the cache root is always complete: see [`transfer`] and
//!   [`adoption`].
//! - Eviction is least-recently-used: see [`eviction`].
//! - The cache is advisory: every failure degrades to a miss, and can only make
//!   playback fall back to streaming.

use crate::config::{paths, Config};
use crate::media_cache::adoption::Adoption;
pub use crate::media_cache::error::{IoFailure, MediaCacheError};
use crate::media_cache::eviction::Eviction;
use crate::media_cache::listing::{Entry, FileMeta, Listing};
pub use crate::media_cache::name::{sanitize_suffix, DEFAULT_SUFFIX, DIGEST_LEN, TEMP_PREFIX};
pub use crate::media_cache::size::format_size;
use crate::media_cache::transfer::Transfer;
use crate::path;
use crate::path::FilePath;
use vstd::hash_set::StringHashSet;
use vstd::prelude::*;
use vstd::utf8::*;

pub mod adoption;
pub mod error;
pub mod eviction;
pub mod listing;
pub mod name;
pub mod size;
pub mod transfer;

verus! {

/// A size-capped, least-recently-used directory of downloaded tracks.
pub struct MediaCache {
    root: FilePath,
    enabled: bool,
    capacity_bytes: u64,
    /// Songs with a download running, so that a preload and a play of the same
    /// track fetch it once rather than racing two identical transfers.
    in_flight: StringHashSet,
}

/// The mathematical content of a `MediaCache`.
pub struct CacheModel {
    /// The directory of the cached files.
    pub root: Seq<u8>,
    /// Whether caching is switched on.
    pub enabled: bool,
    /// The size cap.
    pub capacity_bytes: u64,
    /// The songs that are claimed by a running download.
    pub in_flight: Set<Seq<char>>,
}

impl CacheModel {
    /// A cache of which no song is claimed.
    pub open spec fn idle(root: Seq<u8>, enabled: bool, capacity_bytes: u64) -> CacheModel {
        CacheModel { root, enabled, capacity_bytes, in_flight: Set::empty() }
    }

    /// Whether lookups and stores are active: caching is switched on, and there
    /// is a directory for it.
    pub open spec fn is_active(self) -> bool {
        self.enabled && self.root.len() > 0
    }

    /// The path for a digest of a song ID and the suffix of the track.
    pub open spec fn path_for(self, digest: Seq<u8>, suffix: Option<Seq<char>>) -> Seq<u8> {
        path::join(self.root, encode_utf8(name::entry_name(digest, suffix)))
    }

    /// The path that a track occupies, whether or not it is cached.
    pub open spec fn path_of(self, song_id: Seq<char>, suffix: Option<Seq<char>>) -> Seq<u8> {
        self.path_for(name::md5_of(encode_utf8(song_id)), suffix)
    }

    /// The beginning of an eviction that never evicts `keep`, where the
    /// directory of the cache holds `items`.
    pub open spec fn eviction(
        self,
        items: Seq<Option<listing::ItemModel>>,
        keep: Option<Seq<u8>>,
    ) -> eviction::EvictionModel {
        eviction::EvictionModel {
            queue: eviction::oldest_first(listing::entries_of(self.root, items)),
            capacity: self.capacity_bytes,
            keep,
            log: Seq::empty(),
        }
    }

    /// Why a download of the song cannot start, if it cannot.
    pub open spec fn refusal(self, song_id: Seq<char>) -> Option<MediaCacheError> {
        if !self.is_active() {
            Some(MediaCacheError::Disabled)
        } else if self.in_flight.contains(song_id) {
            Some(MediaCacheError::AlreadyInFlight)
        } else {
            None
        }
    }

    /// This cache with the song claimed.
    pub open spec fn claimed(self, song_id: Seq<char>) -> CacheModel {
        CacheModel { in_flight: self.in_flight.insert(song_id), ..self }
    }

    /// This cache with the song released.
    pub open spec fn released(self, song_id: Seq<char>) -> CacheModel {
        CacheModel { in_flight: self.in_flight.remove(song_id), ..self }
    }
}

impl View for MediaCache {
    type V = CacheModel;

    closed spec fn view(&self) -> CacheModel {
        CacheModel {
            root: self.root@,
            enabled: self.enabled,
            capacity_bytes: self.capacity_bytes,
            in_flight: self.in_flight@,
        }
    }
}

/// What a lookup comes to.
#[derive(Debug, PartialEq, Eq)]
pub enum Lookup {
    /// The track is not cached.
    Miss,
    /// The track is not cached, and the empty file at this path is to be
    /// removed: it carries no audio, and the player would report a track
    /// without duration.
    Discard(FilePath),
    /// The track is cached at this path, whose modification time is to be
    /// bumped so that eviction sees it as recently used.
    Hit(FilePath),
}

/// The mathematical content of a `Lookup`.
pub enum LookupModel {
    Miss,
    Discard(Seq<u8>),
    Hit(Seq<u8>),
}

impl View for Lookup {
    type V = LookupModel;

    open spec fn view(&self) -> LookupModel {
        match *self {
            Lookup::Miss => LookupModel::Miss,
            Lookup::Discard(p) => LookupModel::Discard(p@),
            Lookup::Hit(p) => LookupModel::Hit(p@),
        }
    }
}

/// What a lookup comes to in a cache that is `active` or not, where `probe` is
/// what was found at the path of the track.
pub open spec fn lookup_of(active: bool, path: Seq<u8>, probe: Option<FileMeta>) -> LookupModel {
    match probe {
        Some(m) => if !active || !m.is_file {
            LookupModel::Miss
        } else if m.len == 0 {
            LookupModel::Discard(path)
        } else {
            LookupModel::Hit(path)
        },
        None => LookupModel::Miss,
    }
}

/// How many files a clearing removed and how many bytes that freed, where
/// `removed` says of each entry whether its file could be removed.
pub open spec fn cleared(entries: Seq<listing::EntryModel>, removed: Seq<bool>) -> (nat, nat)
    decreases entries.len(),
{
    if entries.len() == 0 {
        (0, 0)
    } else {
        let (files, bytes) = cleared(entries.drop_last(), removed.drop_last());
        if removed.last() {
            (files + 1, bytes + entries.last().size as nat)
        } else {
            (files, bytes)
        }
    }
}

impl MediaCache {
    /// The entries of the cache, where its directory holds what `found` says.
    pub open spec fn entries_in(&self, found: &Listing) -> Seq<listing::EntryModel> {
        listing::entries_of(self@.root, found@)
    }

    /// Builds a cache rooted at `root`.
    ///
    /// The directory is not created here; the first store creates it, so a
    /// disabled cache never touches the filesystem.
    pub fn new(root: FilePath, enabled: bool, capacity_bytes: u64) -> (r: MediaCache)
        ensures
            r@ == CacheModel::idle(root@, enabled, capacity_bytes),
    {
        MediaCache { root, enabled, capacity_bytes, in_flight: StringHashSet::new() }
    }

    /// Builds a cache from the persisted settings, rooted at
    /// [`paths::media_cache_dir`].
    pub fn from_config(config: &Config, override_path: Option<FilePath>) -> (r: MediaCache)
        ensures
            exists|platform: Option<Seq<u8>>|
                r@ == model_from_config(
                    *config,
                    #[trigger] paths::media_dir(path::known(override_path), platform),
                ),
    {
        let dir = paths::media_cache_dir(override_path);
        MediaCache::from_config_in(config, dir)
    }

    /// Builds a cache from the persisted settings, rooted at `dir`.
    ///
    /// Falls back to a disabled cache when no directory is known, so that a
    /// platform without one degrades to streaming.
    pub fn from_config_in(config: &Config, dir: Option<FilePath>) -> (r: MediaCache)
        ensures
            r@ == model_from_config(*config, path::known(dir)),
    {
        match dir {
            Some(root) => MediaCache::new(
                root,
                config.media_cache,
                config.media_cache_capacity_bytes,
            ),
            None => {
                let none: Vec<u8> = Vec::new();
                MediaCache::new(FilePath::new(none), false, 0)
            },
        }
    }

    /// Directory holding the cached files.
    pub fn root(&self) -> (r: &FilePath)
        ensures
            r@ == self@.root,
    {
        &self.root
    }

    /// Whether lookups and stores are active.
    pub fn is_enabled(&self) -> (r: bool)
        ensures
            r == self@.is_active(),
    {
        self.enabled && !self.root.is_empty()
    }

    /// Switches caching on or off; takes effect on the next lookup or store.
    pub fn set_enabled(&mut self, on: bool)
        ensures
            final(self)@ == (CacheModel { enabled: on, ..old(self)@ }),
    {
        self.enabled = on;
    }

    /// Current size cap in bytes.
    pub fn capacity_bytes(&self) -> (r: u64)
        ensures
            r == self@.capacity_bytes,
    {
        self.capacity_bytes
    }

    /// Sets the size cap. The caller applies it with
    /// [`Self::evict_to_capacity`]; lowering the cap deletes nothing on its own.
    pub fn set_capacity_bytes(&mut self, bytes: u64)
        ensures
            final(self)@ == (CacheModel { capacity_bytes: bytes, ..old(self)@ }),
    {
        self.capacity_bytes = bytes;
    }

    /// Path that a track occupies, whether or not it is cached: in the root
    /// itself, under a name that is never taken for an in-progress download.
    pub fn entry_path(&self, song_id: &str, suffix: Option<&str>) -> (r: FilePath)
        ensures
            r@ == self@.path_of(song_id@, name::reported(suffix)),
            ({
                let digest = name::md5_of(encode_utf8(song_id@));
                let file = encode_utf8(name::entry_name(digest, name::reported(suffix)));
                &&& digest.len() == DIGEST_LEN
                &&& r@ == path::join(self@.root, file)
                &&& path::is_component(file)
                &&& !name::is_temp(file)
            }),
    {
        let digest = name::song_digest(song_id);
        proof {
            name::entry_name_is_confined(digest@, name::reported(suffix));
        }
        self.entry_path_for(&digest, suffix)
    }

    /// Path for a digest of a song ID and the suffix of the track.
    pub fn entry_path_for(&self, digest: &[u8; DIGEST_LEN], suffix: Option<&str>) -> (r: FilePath)
        ensures
            r@ == self@.path_for(digest@, name::reported(suffix)),
    {
        let file = name::entry_file_name(digest, suffix);
        self.root.join_text(file.as_str())
    }

    /// What a lookup of a track comes to, where `probe` is what was found at
    /// its [`Self::entry_path`].
    pub fn lookup(&self, song_id: &str, suffix: Option<&str>, probe: Option<FileMeta>) -> (r:
        Lookup)
        ensures
            r@ == lookup_of(
                self@.is_active(),
                self@.path_of(song_id@, name::reported(suffix)),
                probe,
            ),
    {
        if !self.is_enabled() {
            return Lookup::Miss;
        }
        let path = self.entry_path(song_id, suffix);
        self.lookup_at(path, probe)
    }

    /// What a lookup comes to, where `probe` is what was found at `path`.
    pub fn lookup_at(&self, path: FilePath, probe: Option<FileMeta>) -> (r: Lookup)
        ensures
            r@ == lookup_of(self@.is_active(), path@, probe),
    {
        if !self.is_enabled() {
            return Lookup::Miss;
        }
        match probe {
            Some(m) => {
                if !m.is_file {
                    Lookup::Miss
                } else if m.len == 0 {
                    Lookup::Discard(path)
                } else {
                    Lookup::Hit(path)
                }
            },
            None => Lookup::Miss,
        }
    }

    /// Claims a song for a download, unless caching is off or one is running.
    fn claim(&mut self, song_id: &str) -> (r: Option<MediaCacheError>)
        ensures
            r == old(self)@.refusal(song_id@),
            final(self)@ == if r is None {
                old(self)@.claimed(song_id@)
            } else {
                old(self)@
            },
    {
        if !self.is_enabled() {
            return Some(MediaCacheError::Disabled);
        }
        let fresh = self.in_flight.insert(song_id.to_owned());
        if !fresh {
            assert(self.in_flight@ =~= old(self).in_flight@);
            return Some(MediaCacheError::AlreadyInFlight);
        }
        None
    }

    /// Releases a song when its download ends, however that was. A download
    /// that was aborted must not leave its track uncacheable.
    pub fn release(&mut self, song_id: &str)
        ensures
            final(self)@ == old(self)@.released(song_id@),
    {
        self.in_flight.remove(song_id);
    }

    /// Starts a download of `url` into the cache, which claims the song until
    /// [`Self::release`].
    pub fn store(&mut self, url: &str, song_id: &str, suffix: Option<&str>) -> (r: Result<
        Transfer,
        MediaCacheError,
    >)
        ensures
            match old(self)@.refusal(song_id@) {
                Some(e) => r == Err::<Transfer, MediaCacheError>(e) && final(self)@ == old(self)@,
                None => {
                    &&& r is Ok
                    &&& (r->Ok_0)@ == (transfer::TransferModel {
                        url: url@,
                        song_id: song_id@,
                        dest: old(self)@.path_of(song_id@, name::reported(suffix)),
                        progress: transfer::Progress::start(),
                    })
                    &&& final(self)@ == old(self)@.claimed(song_id@)
                },
            },
    {
        match self.claim(song_id) {
            Some(e) => Err(e),
            None => {
                let dest = self.entry_path(song_id, suffix);
                Ok(Transfer::new(url, song_id, dest))
            },
        }
    }

    /// Starts the adoption of the file at `source` into the cache, which claims
    /// the song until [`Self::release`].
    pub fn insert_from_file(
        &mut self,
        source: &FilePath,
        song_id: &str,
        suffix: Option<&str>,
    ) -> (r: Result<Adoption, MediaCacheError>)
        ensures
            match old(self)@.refusal(song_id@) {
                Some(e) => r == Err::<Adoption, MediaCacheError>(e) && final(self)@ == old(self)@,
                None => {
                    &&& r is Ok
                    &&& (r->Ok_0)@ == (adoption::AdoptionModel {
                        source: source@,
                        song_id: song_id@,
                        dest: old(self)@.path_of(song_id@, name::reported(suffix)),
                        progress: adoption::AdoptProgress::start(),
                    })
                    &&& final(self)@ == old(self)@.claimed(song_id@)
                },
            },
    {
        match self.claim(song_id) {
            Some(e) => Err(e),
            None => {
                let dest = self.entry_path(song_id, suffix);
                Ok(Adoption::new(source, song_id, dest))
            },
        }
    }

    /// Completed entries, in the order of the listing.
    pub fn entries(&self, found: &Listing) -> (r: Vec<Entry>)
        ensures
            listing::models(r@) == self.entries_in(found),
    {
        listing::scan_entries(&self.root, found)
    }

    /// Whether the bytes held by completed entries can be counted.
    pub fn usage_fits(&self, found: &Listing) -> (r: bool)
        ensures
            r == (listing::total(self.entries_in(found)) <= u64::MAX),
    {
        let entries = self.entries(found);
        listing::checked_total(&entries).is_some()
    }

    /// Total bytes held by completed cache entries.
    ///
    /// In-progress downloads are excluded: they are not yet cache content, and
    /// counting them would make a large fill look like a cache over its cap.
    pub fn usage_bytes(&self, found: &Listing) -> (r: u64)
        requires
            listing::total(self.entries_in(found)) <= u64::MAX,
        ensures
            r == listing::total(self.entries_in(found)),
    {
        let entries = self.entries(found);
        listing::total_size(&entries)
    }

    /// Number of completed cache entries.
    pub fn entry_count(&self, found: &Listing) -> (r: usize)
        ensures
            r == self.entries_in(found).len(),
    {
        let entries = self.entries(found);
        assert(listing::models(entries@).len() == entries@.len());
        entries.len()
    }

    /// Starts deleting least-recently-used entries until usage fits the
    /// capacity.
    pub fn evict_to_capacity(&self, found: &Listing) -> (r: Eviction)
        requires
            listing::total(self.entries_in(found)) <= u64::MAX,
        ensures
            r.wf(),
            r@ == self.eviction_in(found, None),
    {
        self.evict_to_capacity_excluding(found, None)
    }

    /// The beginning of an eviction that never evicts `keep`.
    pub open spec fn eviction_in(
        &self,
        found: &Listing,
        keep: Option<Seq<u8>>,
    ) -> eviction::EvictionModel {
        self@.eviction(found@, keep)
    }

    /// [`Self::evict_to_capacity`], but never evicts `keep`.
    ///
    /// A just-stored track is the newest entry and so the last candidate anyway;
    /// pinning it means that a cache whose capacity was lowered below the size
    /// of one track still returns a usable path rather than deleting the file
    /// that it just handed back.
    pub fn evict_to_capacity_excluding(&self, found: &Listing, keep: Option<FilePath>) -> (r:
        Eviction)
        requires
            listing::total(self.entries_in(found)) <= u64::MAX,
        ensures
            r.wf(),
            r@ == self.eviction_in(found, path::known(keep)),
    {
        let entries = self.entries(found);
        Eviction::new(entries, self.capacity_bytes, keep)
    }

    /// The number of files that a clearing removed and the bytes that it freed,
    /// where `removed` says of each of the [`Self::entries`] whether its file
    /// could be removed.
    ///
    /// In-progress downloads are no entries and are left alone.
    pub fn clear(&self, found: &Listing, removed: &Vec<bool>) -> (r: (usize, u64))
        requires
            removed@.len() == self.entries_in(found).len(),
            cleared(self.entries_in(found), removed@).1 <= u64::MAX,
        ensures
            r.0 == cleared(self.entries_in(found), removed@).0,
            r.1 == cleared(self.entries_in(found), removed@).1,
    {
        let entries = self.entries(found);
        let ghost all = listing::models(entries@);
        let mut files: usize = 0;
        let mut bytes: u64 = 0;
        let mut k: usize = 0;
        assert(all.take(0) =~= Seq::empty());
        while k < entries.len()
            invariant
                k <= entries@.len(),
                all == listing::models(entries@),
                all.len() == entries@.len(),
                removed@.len() == all.len(),
                cleared(all, removed@).1 <= u64::MAX,
                files == cleared(all.take(k as int), removed@.take(k as int)).0,
                bytes == cleared(all.take(k as int), removed@.take(k as int)).1,
                files <= k,
            decreases entries@.len() - k,
        {
            proof {
                assert(all.take(k + 1).drop_last() =~= all.take(k as int));
                assert(removed@.take(k + 1).drop_last() =~= removed@.take(k as int));
                cleared_grows(all, removed@, k + 1);
            }
            if removed[k] {
                files = files + 1;
                bytes = bytes + entries[k].size;
            }
            k = k + 1;
        }
        assert(all.take(k as int) =~= all);
        assert(removed@.take(k as int) =~= removed@);
        (files, bytes)
    }

    /// In-progress download files that a killed process left behind, which are
    /// to be removed. `now` is in nanoseconds since the Unix epoch.
    pub fn sweep_stale_downloads(&self, found: &Listing, now: i128) -> (r: Vec<FilePath>)
        ensures
            listing::path_models(r@) == listing::stale_paths(self@.root, found@, now),
    {
        listing::scan_stale(&self.root, found, now)
    }
}

/// The cache for some settings and a directory that may not be known.
pub open spec fn model_from_config(config: Config, dir: Option<Seq<u8>>) -> CacheModel {
    match dir {
        Some(root) => CacheModel::idle(
            root,
            config.media_cache,
            config.media_cache_capacity_bytes,
        ),
        None => CacheModel::idle(Seq::empty(), false, 0),
    }
}

/// Bytes held by the media cache at its default location `dir`.
///
/// For a user interface, which shows the figure but does not own the cache.
/// `None` when no directory is known.
pub fn default_usage_bytes(dir: Option<FilePath>, found: &Listing) -> (r: Option<u64>)
    requires
        dir is Some ==> listing::total(listing::entries_of((dir->0)@, found@)) <= u64::MAX,
    ensures
        match dir {
            Some(root) => r is Some && r->0 == listing::total(listing::entries_of(root@, found@)),
            None => r is None,
        },
{
    match dir {
        Some(root) => {
            let entries = listing::scan_entries(&root, found);
            Some(listing::total_size(&entries))
        },
        None => None,
    }
}

/// Removing some of the files frees no more than removing all of them.
proof fn cleared_grows(entries: Seq<listing::EntryModel>, removed: Seq<bool>, k: int)
    requires
        entries.len() == removed.len(),
        0 <= k <= entries.len(),
    ensures
        cleared(entries.take(k), removed.take(k)).1 <= cleared(entries, removed).1,
    decreases entries.len() - k,
{
    if k == entries.len() {
        assert(entries.take(k) =~= entries);
        assert(removed.take(k) =~= removed);
    } else {
        assert(entries.take(k + 1).drop_last() =~= entries.take(k));
        assert(removed.take(k + 1).drop_last() =~= removed.take(k));
        cleared_grows(entries, removed, k + 1);
    }
}

/// A clearing counts only what it removed, and all of that: no more than the
/// cache held, and exactly that where every file could be removed.
pub proof fn clearing_is_accounted_for(entries: Seq<listing::EntryModel>, removed: Seq<bool>)
    requires
        entries.len() == removed.len(),
    ensures
        cleared(entries, removed).0 <= entries.len(),
        cleared(entries, removed).1 <= listing::total(entries),
        (forall|i: int| 0 <= i < removed.len() ==> #[trigger] removed[i]) ==> cleared(
            entries,
            removed,
        ) == (entries.len(), listing::total(entries)),
        (forall|i: int| 0 <= i < removed.len() ==> !#[trigger] removed[i]) ==> cleared(
            entries,
            removed,
        ) == (0nat, 0nat),
    decreases entries.len(),
{
    if entries.len() > 0 {
        clearing_is_accounted_for(entries.drop_last(), removed.drop_last());
    }
}

/// Nothing is left after a clearing that removed every entry: the cache is empty
/// and takes up nothing, and another clearing finds nothing to remove. What is
/// no entry, such as an in-progress download, is still there.
pub proof fn clearing_leaves_nothing(root: Seq<u8>, items: Seq<Option<listing::ItemModel>>)
    ensures
        ({
            let after = items.filter(
                |i: Option<listing::ItemModel>| listing::entry_of(root, i) is None,
            );
            &&& listing::entries_of(root, after).len() == 0
            &&& listing::total(listing::entries_of(root, after)) == 0
            &&& cleared(listing::entries_of(root, after), Seq::empty()) == (0nat, 0nat)
            &&& forall|k: int|
                0 <= k < items.len() && listing::entry_of(root, #[trigger] items[k]) is None
                    ==> after.contains(items[k])
        }),
{
    let keep = |i: Option<listing::ItemModel>| listing::entry_of(root, i) is None;
    listing::no_entries_are_left(root, items);
    assert forall|k: int|
        0 <= k < items.len() && listing::entry_of(root, #[trigger] items[k]) is None implies
        items.filter(keep).contains(items[k]) by {
        items.lemma_filter_contains(keep, k);
    }
}

/// Whatever its ID, a track has its file in the cache root itself: the path is
/// the root and one component more, and is never taken for an in-progress
/// download.
pub proof fn entry_path_is_confined(
    cache: CacheModel,
    digest: Seq<u8>,
    suffix: Option<Seq<char>>,
)
    requires
        digest.len() == DIGEST_LEN,
    ensures
        cache.root.is_prefix_of(cache.path_for(digest, suffix)),
        exists|file: Seq<u8>|
            path::is_component(file) && !name::is_temp(file) && cache.path_for(digest, suffix)
                == #[trigger] path::join(cache.root, file),
{
    name::entry_name_is_confined(digest, suffix);
    let file = encode_utf8(name::entry_name(digest, suffix));
    path::join_stays_inside(cache.root, file);
    assert(cache.path_for(digest, suffix) == path::join(cache.root, file));
}

/// Paths are stable, and distinct for each song: two tracks share a path exactly
/// if their IDs share a digest and their suffixes an extension.
pub proof fn entry_paths_agree(
    cache: CacheModel,
    d1: Seq<u8>,
    s1: Option<Seq<char>>,
    d2: Seq<u8>,
    s2: Option<Seq<char>>,
)
    requires
        d1.len() == DIGEST_LEN,
        d2.len() == DIGEST_LEN,
    ensures
        cache.path_for(d1, s1) == cache.path_for(d2, s2) <==> d1 == d2 && name::extension(s1)
            == name::extension(s2),
        path::same_path(cache.path_for(d1, s1), cache.path_for(d2, s2)) <==> d1 == d2
            && name::extension(s1) == name::extension(s2),
{
    let a = name::entry_name(d1, s1);
    let b = name::entry_name(d2, s2);
    name::entry_names_agree(d1, s1, d2, s2);
    name::entry_name_is_confined(d1, s1);
    name::entry_name_is_confined(d2, s2);
    path::entries_are_told_apart(cache.root, encode_utf8(a), encode_utf8(b));
    encode_utf8_decode_utf8(a);
    encode_utf8_decode_utf8(b);
}

/// A lookup finds what a store published: it looks at the very path to which
/// the download is renamed, and is a hit there once a playable file is in place.
pub proof fn stored_track_is_found(
    cache: CacheModel,
    download: transfer::TransferModel,
    suffix: Option<Seq<char>>,
    probe: Option<FileMeta>,
)
    requires
        cache.is_active(),
        download.dest == cache.path_of(download.song_id, suffix),
        listing::found_playable(probe),
    ensures
        lookup_of(cache.is_active(), cache.path_of(download.song_id, suffix), probe)
            == LookupModel::Hit(download.dest),
{
}

/// Usage accounting sees what a store published: a regular file under the name
/// of a track is an entry, at the path of the track and with its length.
pub proof fn stored_track_is_counted(
    cache: CacheModel,
    digest: Seq<u8>,
    suffix: Option<Seq<char>>,
    items: Seq<Option<listing::ItemModel>>,
    k: int,
)
    requires
        digest.len() == DIGEST_LEN,
        0 <= k < items.len(),
        items[k] is Some,
        items[k]->0.name == encode_utf8(name::entry_name(digest, suffix)),
        items[k]->0.meta is Some,
        items[k]->0.meta->0.is_file,
    ensures
        listing::entries_of(cache.root, items).contains(
            listing::EntryModel {
                path: cache.path_for(digest, suffix),
                size: items[k]->0.meta->0.len,
                modified: items[k]->0.meta->0.age_key(),
            },
        ),
{
    name::entry_name_is_confined(digest, suffix);
    listing::file_is_counted(cache.root, items, k);
}

/// A disabled cache serves nothing, whatever files it still holds, and starts
/// no download; switching it on again makes it as it was.
pub proof fn disabled_cache_does_nothing(
    cache: CacheModel,
    path: Seq<u8>,
    probe: Option<FileMeta>,
    song_id: Seq<char>,
)
    requires
        cache.enabled,
    ensures
        ({
            let off = CacheModel { enabled: false, ..cache };
            &&& lookup_of(off.is_active(), path, probe) == LookupModel::Miss
            &&& off.refusal(song_id) == Some(MediaCacheError::Disabled)
            &&& (CacheModel { enabled: true, ..off }) == cache
        }),
{
}

/// A song that is claimed is refused until it is released, and no other song is
/// refused for it.
pub proof fn one_download_for_each_song(cache: CacheModel, song: Seq<char>, other: Seq<char>)
    requires
        cache.refusal(song) is None,
    ensures
        cache.claimed(song).refusal(song) == Some(MediaCacheError::AlreadyInFlight),
        other != song ==> cache.claimed(song).refusal(other) == cache.refusal(other),
        cache.claimed(song).released(song) == cache,
        cache.claimed(song).released(song).refusal(song) is None,
{
    assert(cache.in_flight.insert(song).remove(song) =~= cache.in_flight);
}

/// The eviction that follows a store spares the track just stored, however far
/// it has come and however little the cache may hold.
pub proof fn stored_track_survives_its_eviction(
    entries: Seq<listing::EntryModel>,
    stored: listing::EntryModel,
    m: eviction::EvictionModel,
)
    requires
        entries.contains(stored),
        m.is_valid(),
        m.queue == eviction::oldest_first(entries),
        m.keep == Some(stored.path),
    ensures
        m.survivors().contains(stored),
{
    eviction::oldest_first_is_permutation(entries);
    vstd::seq_lib::to_multiset_contains(entries, stored);
    vstd::seq_lib::to_multiset_contains(m.queue, stored);
    let i = choose|i: int| 0 <= i < m.queue.len() && m.queue[i] == stored;
    eviction::pinned_entry_survives(m, i);
}

/// Whether the directory entry `item` is the file of a track, `size` bytes long.
pub open spec fn is_track(
    item: Option<listing::ItemModel>,
    digest: Seq<u8>,
    suffix: Option<Seq<char>>,
    size: nat,
) -> bool {
    item matches Some(i) && i.name == encode_utf8(name::entry_name(digest, suffix)) && (
    i.meta matches Some(m) && m.is_file && m.len == size)
}

/// Whether `after` is what the directory `root` holds once the files that `end`
/// removed are gone and nothing else has changed: its entries are those that
/// `end` left, in any order.
pub open spec fn is_left_by(
    root: Seq<u8>,
    end: eviction::EvictionModel,
    after: Seq<Option<listing::ItemModel>>,
) -> bool {
    listing::entries_of(root, after).to_multiset() == end.survivors().to_multiset()
}

/// Storing a track that fits leaves the cache within its capacity, and the track
/// in it: the eviction that follows a store takes older entries and never the
/// track, and where every file can be removed, what the directory holds
/// afterwards is no more than the capacity.
///
/// `items` is what the directory holds when the eviction begins, with the track
/// at `k`, and `after` what it holds when the eviction is over.
pub proof fn stored_track_leaves_the_cache_within_its_capacity(
    cache: CacheModel,
    digest: Seq<u8>,
    suffix: Option<Seq<char>>,
    size: nat,
    items: Seq<Option<listing::ItemModel>>,
    k: int,
    removable: spec_fn(Seq<u8>) -> bool,
    after: Seq<Option<listing::ItemModel>>,
)
    requires
        digest.len() == DIGEST_LEN,
        size <= cache.capacity_bytes,
        listing::is_directory(items),
        listing::total(listing::entries_of(cache.root, items)) <= u64::MAX,
        0 <= k < items.len(),
        is_track(items[k], digest, suffix, size),
        forall|p: Seq<u8>| #[trigger] removable(p),
        is_left_by(
            cache.root,
            cache.eviction(items, Some(cache.path_for(digest, suffix))).finished(removable),
            after,
        ),
    ensures
        listing::total(listing::entries_of(cache.root, after)) <= cache.capacity_bytes,
        listing::entries_of(cache.root, after).contains(
            listing::EntryModel {
                path: cache.path_for(digest, suffix),
                size: size as u64,
                modified: items[k]->0.meta->0.age_key(),
            },
        ),
{
    let path = cache.path_for(digest, suffix);
    let entries = listing::entries_of(cache.root, items);
    let m = cache.eviction(items, Some(path));
    let end = m.finished(removable);
    let left = listing::entries_of(cache.root, after);
    let stored = listing::EntryModel {
        path,
        size: size as u64,
        modified: items[k]->0.meta->0.age_key(),
    };
    stored_track_is_counted(cache, digest, suffix, items, k);
    listing::entries_have_their_own_paths(cache.root, items);
    eviction::oldest_first_is_sorted(entries);
    eviction::oldest_first_has_same_total(entries);
    eviction::oldest_first_keeps_paths_apart(entries);
    eviction::oldest_first_is_permutation(entries);
    eviction::eviction_comes_to_an_end(m, removable);
    stored_track_survives_its_eviction(entries, stored, end);
    vstd::seq_lib::to_multiset_contains(end.survivors(), stored);
    vstd::seq_lib::to_multiset_contains(left, stored);
    vstd::seq_lib::to_multiset_contains(entries, stored);
    vstd::seq_lib::to_multiset_contains(m.queue, stored);
    let at = choose|i: int| 0 <= i < m.queue.len() && m.queue[i] == stored;
    assert forall|i: int| 0 <= i < m.queue.len() && #[trigger] m.is_kept(i) implies m.queue[i].size
        <= m.capacity by {
        assert(path::same_path(m.queue[i].path, m.queue[at].path));
    }
    eviction::eviction_ends_within_the_capacity(m, removable);
    listing::order_does_not_count(left, end.survivors());
}

/// An adoption does what it is for. Where no playable file was there before and
/// the capacity did not change, an adoption that ends well leaves as many bytes
/// in place as the source had; a lookup of the track finds the file; the cache
/// is within its capacity and still holds the track.
///
/// `items` is what the directory holds when the eviction begins, with the
/// adopted file at `k`, and `after` what it holds when the eviction is over.
pub proof fn adopted_track_is_kept(
    cache: CacheModel,
    adoption: adoption::AdoptionModel,
    events: Seq<adoption::AdoptEvent>,
    digest: Seq<u8>,
    suffix: Option<Seq<char>>,
    items: Seq<Option<listing::ItemModel>>,
    k: int,
    removable: spec_fn(Seq<u8>) -> bool,
    after: Seq<Option<listing::ItemModel>>,
    probe: FileMeta,
)
    requires
        cache.is_active(),
        digest.len() == DIGEST_LEN,
        adoption.dest == cache.path_for(digest, suffix),
        adoption.progress == adoption::run(events),
        adoption::is_history(events),
        adoption.progress.step is Finished,
        !listing::found_playable(events[0]->Probed_0),
        forall|size: u64, capacity: u64| #[trigger]
            adoption::was_measured(events, size, capacity) ==> capacity == cache.capacity_bytes,
        listing::is_directory(items),
        listing::total(listing::entries_of(cache.root, items)) <= u64::MAX,
        0 <= k < items.len(),
        is_track(items[k], digest, suffix, adoption.progress.size as nat),
        forall|p: Seq<u8>| #[trigger] removable(p),
        is_left_by(
            cache.root,
            cache.eviction(items, Some(adoption.dest)).finished(removable),
            after,
        ),
        probe.is_file,
        probe.len == adoption.progress.size,
    ensures
        adoption::was_measured(events, adoption.progress.size, cache.capacity_bytes),
        events.contains(adoption::AdoptEvent::Copied(adoption.progress.size)),
        events.contains(adoption::AdoptEvent::Persisted),
        lookup_of(cache.is_active(), cache.path_for(digest, suffix), Some(probe))
            == LookupModel::Hit(adoption.dest),
        listing::total(listing::entries_of(cache.root, after)) <= cache.capacity_bytes,
        listing::entries_of(cache.root, after).contains(
            listing::EntryModel {
                path: adoption.dest,
                size: adoption.progress.size,
                modified: items[k]->0.meta->0.age_key(),
            },
        ),
{
    adoption::finished_adoptions_are_in_place(events);
    stored_track_leaves_the_cache_within_its_capacity(
        cache,
        digest,
        suffix,
        adoption.progress.size as nat,
        items,
        k,
        removable,
        after,
    );
}

/// A download does what it is for. Where no playable file was there before and
/// the capacity did not change, a download that ends well leaves every byte of
/// the stream in place; a lookup of the track finds the file; the cache is
/// within its capacity and still holds the track.
///
/// `items` is what the directory holds when the eviction begins, with the
/// downloaded file at `k`, and `after` what it holds when the eviction is over.
pub proof fn downloaded_track_is_kept(
    cache: CacheModel,
    download: transfer::TransferModel,
    events: Seq<transfer::Event>,
    digest: Seq<u8>,
    suffix: Option<Seq<char>>,
    items: Seq<Option<listing::ItemModel>>,
    k: int,
    removable: spec_fn(Seq<u8>) -> bool,
    after: Seq<Option<listing::ItemModel>>,
    probe: FileMeta,
)
    requires
        cache.is_active(),
        digest.len() == DIGEST_LEN,
        download.dest == cache.path_for(digest, suffix),
        download.progress == transfer::run(events),
        transfer::is_history(events),
        download.progress.step is Finished,
        !listing::found_playable(events[0]->Probed_0),
        download.progress.capacity == cache.capacity_bytes,
        listing::is_directory(items),
        listing::total(listing::entries_of(cache.root, items)) <= u64::MAX,
        0 <= k < items.len(),
        is_track(items[k], digest, suffix, transfer::contents(events).len()),
        forall|p: Seq<u8>| #[trigger] removable(p),
        is_left_by(
            cache.root,
            cache.eviction(items, Some(download.dest)).finished(removable),
            after,
        ),
        probe.is_file,
        probe.len == transfer::contents(events).len(),
    ensures
        events.contains(transfer::Event::StreamEnded),
        transfer::contents(events) == transfer::stream(events),
        events.contains(transfer::Event::Persisted),
        lookup_of(cache.is_active(), cache.path_for(digest, suffix), Some(probe))
            == LookupModel::Hit(download.dest),
        listing::total(listing::entries_of(cache.root, after)) <= cache.capacity_bytes,
        listing::entries_of(cache.root, after).contains(
            listing::EntryModel {
                path: download.dest,
                size: probe.len,
                modified: items[k]->0.meta->0.age_key(),
            },
        ),
{
    transfer::finished_downloads_are_in_place(events);
    stored_track_leaves_the_cache_within_its_capacity(
        cache,
        digest,
        suffix,
        transfer::contents(events).len(),
        items,
        k,
        removable,
        after,
    );
}

/// A cache built from the settings is active exactly if they switch it on and a
/// directory for it is known.
pub proof fn settings_decide_where_a_directory_is_known(
    config: Config,
    override_path: Option<Seq<u8>>,
    platform: Option<Seq<u8>>,
)
    ensures
        model_from_config(config, paths::media_dir(override_path, platform)).is_active() <==> (
        config.media_cache && paths::media_dir(override_path, platform) is Some),
{
    reveal_strlit("media");
    is_ascii_chars_encode_utf8("media"@);
}

} // verus!
