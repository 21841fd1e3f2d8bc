//! Laws of playing through the cache.

use crate::daemon::media_ops::{CacheFill, Child, DaemonCore, FillReport, Resolution};
use crate::media_cache::error::MediaCacheError;
use crate::media_cache::eviction::Eviction;
use crate::media_cache::listing::{FileMeta, Listing};
use crate::media_cache::transfer::Transfer;
use crate::media_cache::{Lookup, MediaCache};
use crate::path::FilePath;
use vstd::prelude::*;

verus! {

/// Whether `borrowed` is the suffix of a song.
pub open spec fn is_suffix(owned: Option<String>, borrowed: Option<&str>) -> bool {
    match owned {
        Some(s) => borrowed is Some && (borrowed->0)@ == s@,
        None => borrowed is None,
    }
}

/// Whether two suffixes are alike.
pub open spec fn alike(a: Option<String>, b: Option<String>) -> bool {
    match a {
        Some(s) => b is Some && (b->0)@ == s@,
        None => b is None,
    }
}

/// Whether `fill` fetches `song` from `url`.
pub open spec fn fetches(fill: CacheFill, song: Child, url: Seq<char>) -> bool {
    &&& fill.url@ == url
    &&& fill.song_id@ == song.id@
    &&& fill.title@ == song.title@
    &&& alike(song.suffix, fill.suffix)
}

/// A song is played from its own path in the cache, that of its ID and its
/// suffix, exactly if the cache is active and a regular file with at least one
/// byte lies there; nothing is fetched then. Otherwise it is streamed from the
/// URL that was given, and fetched in the background if the cache is active and
/// the daemon is not shutting down. An empty file at the path is discarded.
pub proof fn songs_are_played_from_their_own_path(
    core: &DaemonCore,
    song: &Child,
    url: String,
    probe: Option<FileMeta>,
    id: &str,
    suffix: Option<&str>,
    on: bool,
    path: FilePath,
    r: Resolution,
)
    requires
        id@ == song.id@,
        is_suffix(song.suffix, suffix),
        call_ensures(MediaCache::is_enabled, (&core.media_cache,), on),
        call_ensures(MediaCache::entry_path, (&core.media_cache, id, suffix), path),
        call_ensures(DaemonCore::resolve_playback_source, (core, song, url, probe), r),
    ensures
        on && probe is Some && probe->0.is_file && probe->0.len >= 1 ==> {
            &&& r.source is Cached && (r.source->Cached_0)@ == path@
            &&& r.lookup is Hit && (r.lookup->Hit_0)@ == path@
            &&& r.fill is None
        },
        !(on && probe is Some && probe->0.is_file && probe->0.len >= 1) ==> {
            &&& r.source is Remote && (r.source->Remote_0)@ == url@
            &&& !(r.lookup is Hit)
            &&& r.fill is Some <==> on && !core.shutdown
            &&& r.fill matches Some(f) ==> fetches(f, *song, url@)
        },
        r.lookup is Discard <==> on && probe is Some && probe->0.is_file && probe->0.len == 0,
        r.lookup matches Lookup::Discard(p) ==> p@ == path@,
{
}

/// What a fill puts in place is what a later play reads: the download that was
/// started for a song goes to the very path from which the same song is played
/// once the file is there, as long as the cache keeps its root.
pub proof fn a_fill_is_what_a_later_play_reads(
    core: &DaemonCore,
    later: &DaemonCore,
    song: &Child,
    url: String,
    url2: String,
    probe: Option<FileMeta>,
    probe2: Option<FileMeta>,
    miss: Resolution,
    hit: Resolution,
    c: &mut MediaCache,
    fill_url: &str,
    fill_id: &str,
    fill_suffix: Option<&str>,
    t: Transfer,
)
    requires
        call_ensures(DaemonCore::resolve_playback_source, (core, song, url, probe), miss),
        miss.fill is Some,
        old(c)@.root == core.media_cache@.root,
        fill_url@ == miss.fill->0.url@,
        fill_id@ == miss.fill->0.song_id@,
        is_suffix(miss.fill->0.suffix, fill_suffix),
        call_ensures(
            MediaCache::store,
            (c, fill_url, fill_id, fill_suffix),
            Ok::<Transfer, MediaCacheError>(t),
        ),
        later.media_cache@.root == core.media_cache@.root,
        call_ensures(DaemonCore::resolve_playback_source, (later, song, url2, probe2), hit),
        hit.source is Cached,
    ensures
        (hit.source->Cached_0)@ == t@.dest,
        t@.url == url@,
        t@.song_id == song.id@,
{
}

/// A fill is started if the cache is active and the daemon is not shutting down,
/// and fetches the song from the URL that was given.
pub proof fn fills_fetch_the_song(
    core: &DaemonCore,
    song: &Child,
    url: &str,
    on: bool,
    r: Option<CacheFill>,
)
    requires
        call_ensures(MediaCache::is_enabled, (&core.media_cache,), on),
        call_ensures(DaemonCore::spawn_cache_fill, (core, song, url), r),
    ensures
        r is Some <==> on && !core.shutdown,
        r matches Some(f) ==> fetches(f, *song, url@),
{
}

/// A fill that stored the track is reported as such. One that did not start is
/// routine, one that was cancelled is reported as cancelled, and any other
/// failure is a problem.
pub proof fn fills_are_reported_for_what_they_are(
    result: &Result<FilePath, MediaCacheError>,
    r: FillReport,
)
    requires
        call_ensures(DaemonCore::report_fill, (result,), r),
    ensures
        r is Cached <==> *result is Ok,
        r is Routine <==> *result is Err && ((*result)->Err_0 is AlreadyInFlight || (
        *result)->Err_0 is Disabled),
        r is Cancelled <==> *result is Err && (*result)->Err_0 is Cancelled,
        r is Problem <==> *result is Err && !((*result)->Err_0 is AlreadyInFlight || (
        *result)->Err_0 is Disabled || (*result)->Err_0 is Cancelled),
{
}

/// Applied settings are the settings of the cache from then on: it is active
/// exactly if they switch it on and it has a root, and its capacity is the one
/// that they name. Its root, its claims and the daemon stay as they are. The
/// eviction that follows goes by the new capacity and spares nothing, and none
/// follows where the cache is switched off.
pub proof fn applied_settings_hold(
    core: &mut DaemonCore,
    enabled: bool,
    capacity: u64,
    found: &Listing,
    on: bool,
    cap: u64,
    root: &FilePath,
    root_after: &FilePath,
    begun: Eviction,
    r: Option<Eviction>,
)
    requires
        call_ensures(
            DaemonCore::apply_media_cache_config,
            (core, enabled, capacity, found),
            r,
        ),
        call_ensures(MediaCache::root, (&old(core).media_cache,), root),
        call_ensures(MediaCache::root, (&final(core).media_cache,), root_after),
        call_ensures(MediaCache::is_enabled, (&final(core).media_cache,), on),
        call_ensures(MediaCache::capacity_bytes, (&final(core).media_cache,), cap),
        call_ensures(MediaCache::evict_to_capacity, (&final(core).media_cache, found), begun),
    ensures
        on <==> enabled && root@.len() > 0,
        cap == capacity,
        root_after@ == root@,
        final(core).media_cache@.in_flight == old(core).media_cache@.in_flight,
        final(core).shutdown == old(core).shutdown,
        r is Some <==> enabled,
        r matches Some(e) ==> e.wf() && e@ == begun@ && e@.capacity == capacity && e@.keep is None,
{
}

/// The daemon clears its cache and tells the usage of its cache.
pub proof fn the_daemon_speaks_for_its_cache(
    core: &DaemonCore,
    found: &Listing,
    removed: &Vec<bool>,
    cleared: (usize, u64),
    cache_cleared: (usize, u64),
    usage: u64,
    cache_usage: u64,
)
    requires
        call_ensures(DaemonCore::clear_media_cache, (core, found, removed), cleared),
        call_ensures(MediaCache::clear, (&core.media_cache, found, removed), cache_cleared),
        call_ensures(DaemonCore::media_cache_usage, (core, found), usage),
        call_ensures(MediaCache::usage_bytes, (&core.media_cache, found), cache_usage),
    ensures
        cleared == cache_cleared,
        usage == cache_usage,
{
}

} // verus!
