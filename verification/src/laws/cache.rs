//! Laws of the cache.

use crate::config::Config;
use crate::media_cache;
use crate::media_cache::adoption::{AdoptEvent, AdoptProgress, Adoption};
use crate::media_cache::error::MediaCacheError;
use crate::media_cache::eviction::Eviction;
use crate::media_cache::listing;
use crate::media_cache::listing::{Entry, FileMeta, Listing};
use crate::media_cache::name;
use crate::media_cache::name::DIGEST_LEN;
use crate::media_cache::transfer::{Event, Progress, Transfer};
use crate::media_cache::{Lookup, MediaCache};
use crate::path;
use crate::path::FilePath;
use crate::text;
use vstd::prelude::*;
use vstd::utf8::*;

verus! {

/// A new cache has the root and the capacity that it was given, and is active
/// exactly if it was switched on and its root is not empty.
pub proof fn a_new_cache_is_as_it_was_asked_for(
    given: FilePath,
    enabled: bool,
    capacity: u64,
    c: MediaCache,
    root: &FilePath,
    on: bool,
    cap: u64,
)
    requires
        call_ensures(MediaCache::new, (given, enabled, capacity), c),
        call_ensures(MediaCache::root, (&c,), root),
        call_ensures(MediaCache::is_enabled, (&c,), on),
        call_ensures(MediaCache::capacity_bytes, (&c,), cap),
    ensures
        root@ == given@,
        cap == capacity,
        on <==> enabled && given@.len() > 0,
        root@ == c@.root,
        cap == c@.capacity_bytes,
{
}

/// Switching a cache on or off changes nothing else, and takes effect exactly if
/// its root is not empty.
pub proof fn switching_changes_nothing_else(
    c: &mut MediaCache,
    on: bool,
    root: &FilePath,
    after: &FilePath,
    cap: u64,
    cap_after: u64,
    active: bool,
)
    requires
        call_ensures(MediaCache::set_enabled, (c, on), ()),
        call_ensures(MediaCache::root, (&*old(c),), root),
        call_ensures(MediaCache::root, (&*final(c),), after),
        call_ensures(MediaCache::capacity_bytes, (&*old(c),), cap),
        call_ensures(MediaCache::capacity_bytes, (&*final(c),), cap_after),
        call_ensures(MediaCache::is_enabled, (&*final(c),), active),
    ensures
        active <==> on && root@.len() > 0,
        after@ == root@,
        cap_after == cap,
        final(c)@.in_flight == old(c)@.in_flight,
{
}

/// Setting the capacity sets it to the number given, and changes nothing else.
pub proof fn the_capacity_is_what_it_was_set_to(
    c: &mut MediaCache,
    bytes: u64,
    root: &FilePath,
    after: &FilePath,
    cap: u64,
    active: bool,
    active_after: bool,
)
    requires
        call_ensures(MediaCache::set_capacity_bytes, (c, bytes), ()),
        call_ensures(MediaCache::root, (&*old(c),), root),
        call_ensures(MediaCache::root, (&*final(c),), after),
        call_ensures(MediaCache::capacity_bytes, (&*final(c),), cap),
        call_ensures(MediaCache::is_enabled, (&*old(c),), active),
        call_ensures(MediaCache::is_enabled, (&*final(c),), active_after),
    ensures
        cap == bytes,
        after@ == root@,
        active_after == active,
        final(c)@.in_flight == old(c)@.in_flight,
{
}

/// A cache built from settings in a known directory has that directory for its
/// root and the capacity that the settings name, whatever it is, and is active
/// exactly if they switch it on. Without a directory it is inactive.
pub proof fn settings_make_the_cache(
    config: &Config,
    dir: Option<FilePath>,
    c: MediaCache,
    root: &FilePath,
    on: bool,
    cap: u64,
)
    requires
        call_ensures(MediaCache::from_config_in, (config, dir), c),
        call_ensures(MediaCache::root, (&c,), root),
        call_ensures(MediaCache::is_enabled, (&c,), on),
        call_ensures(MediaCache::capacity_bytes, (&c,), cap),
    ensures
        dir matches Some(d) ==> {
            &&& root@ == d@
            &&& cap == config.media_cache_capacity_bytes
            &&& on <==> config.media_cache && d@.len() > 0
        },
        dir is None ==> !on && root@.len() == 0 && cap == 0,
{
}

/// With an override, a cache built from settings lies in the directory called
/// `media` of the override, with the capacity that the settings name.
pub proof fn settings_and_an_override_make_the_cache(
    config: &Config,
    over: FilePath,
    c: MediaCache,
    root: &FilePath,
    on: bool,
    cap: u64,
)
    requires
        call_ensures(MediaCache::from_config, (config, Some(over)), c),
        call_ensures(MediaCache::root, (&c,), root),
        call_ensures(MediaCache::is_enabled, (&c,), on),
        call_ensures(MediaCache::capacity_bytes, (&c,), cap),
    ensures
        root@ == path::join(over@, encode_utf8("media"@)),
        cap == config.media_cache_capacity_bytes,
        on <==> config.media_cache,
{
    reveal_strlit("media");
    is_ascii_chars_encode_utf8("media"@);
}

/// Without an override, a cache built from settings lies in the application's
/// directory for them, with the capacity that the settings name, or is inactive.
pub proof fn settings_alone_make_the_cache(
    config: &Config,
    c: MediaCache,
    root: &FilePath,
    on: bool,
    cap: u64,
)
    requires
        call_ensures(MediaCache::from_config, (config, None), c),
        call_ensures(MediaCache::root, (&c,), root),
        call_ensures(MediaCache::is_enabled, (&c,), on),
        call_ensures(MediaCache::capacity_bytes, (&c,), cap),
    ensures
        root@.len() == 0 ==> !on && cap == 0,
        root@.len() > 0 ==> {
            &&& cap == config.media_cache_capacity_bytes
            &&& on <==> config.media_cache
            &&& exists|platform: Seq<u8>|
                root@ == path::join(
                    #[trigger] path::join(platform, encode_utf8("ferrosonic"@)),
                    encode_utf8("media"@),
                )
        },
{
    reveal_strlit("media");
    is_ascii_chars_encode_utf8("media"@);
}

/// A track no larger than the capacity that the settings name is not refused as
/// too large, neither when it is promised nor when it is measured.
pub proof fn what_fits_the_settings_is_not_too_large(
    config: &Config,
    dir: FilePath,
    c: MediaCache,
    cap: u64,
    size: u64,
    p: &mut Progress,
    a: &mut AdoptProgress,
)
    requires
        1 <= size <= config.media_cache_capacity_bytes,
        call_ensures(MediaCache::from_config_in, (config, Some(dir)), c),
        call_ensures(MediaCache::capacity_bytes, (&c,), cap),
        old(p).step is Request,
        call_ensures(
            Progress::advance,
            (p, Event::Answered { status: 200, content_length: Some(size), capacity: cap }),
            (),
        ),
        old(a).step is Measure,
        call_ensures(AdoptProgress::advance, (a, AdoptEvent::Measured { size, capacity: cap }), ()),
    ensures
        final(p).step is CreateTemp,
        final(a).step is CreateRoot,
{
}

/// A track lies in the root, under the MD5 digest of its ID in hexadecimal, a
/// dot, and its sanitized suffix, whatever else holds of the cache.
pub proof fn tracks_lie_under_their_digest_and_suffix(
    c: &MediaCache,
    song_id: &str,
    suffix: Option<&str>,
    root: &FilePath,
    digest: [u8; DIGEST_LEN],
    bytes: &[u8],
    hex: String,
    clean: String,
    r: FilePath,
    q: FilePath,
)
    requires
        call_ensures(MediaCache::root, (c,), root),
        call_ensures(name::song_digest, (song_id,), digest),
        bytes@ == digest@,
        call_ensures(text::hex_text, (bytes,), hex),
        call_ensures(name::sanitize_suffix, (suffix,), clean),
        call_ensures(MediaCache::entry_path, (c, song_id, suffix), r),
        call_ensures(MediaCache::entry_path_for, (c, &digest, suffix), q),
    ensures
        digest@ == name::md5_of(encode_utf8(song_id@)),
        r@ == path::join(root@, encode_utf8(hex@ + seq!['.'] + clean@)),
        q@ == r@,
        r@ == c@.path_of(song_id@, name::reported(suffix)),
{
    assert(name::entry_name(digest@, name::reported(suffix)) =~= hex@ + seq!['.'] + clean@);
}

/// A lookup is a hit exactly if the cache is active and a regular file with at
/// least one byte lies at the path of the track, and then it gives that path. An
/// empty file there is to be discarded. Anything else is a miss.
pub proof fn lookups_find_what_lies_at_the_path(
    c: &MediaCache,
    song_id: &str,
    suffix: Option<&str>,
    probe: Option<FileMeta>,
    on: bool,
    path: FilePath,
    r: Lookup,
)
    requires
        call_ensures(MediaCache::is_enabled, (c,), on),
        call_ensures(MediaCache::entry_path, (c, song_id, suffix), path),
        call_ensures(MediaCache::lookup, (c, song_id, suffix, probe), r),
    ensures
        r is Hit <==> on && probe is Some && probe->0.is_file && probe->0.len >= 1,
        r is Discard <==> on && probe is Some && probe->0.is_file && probe->0.len == 0,
        r matches Lookup::Hit(p) ==> p@ == path@,
        r matches Lookup::Discard(p) ==> p@ == path@,
{
}

/// The same, of a path that is given.
pub proof fn lookups_go_by_what_lies_there(
    c: &MediaCache,
    path: FilePath,
    probe: Option<FileMeta>,
    on: bool,
    r: Lookup,
)
    requires
        call_ensures(MediaCache::is_enabled, (c,), on),
        call_ensures(MediaCache::lookup_at, (c, path, probe), r),
    ensures
        r is Hit <==> on && probe is Some && probe->0.is_file && probe->0.len >= 1,
        r is Discard <==> on && probe is Some && probe->0.is_file && probe->0.len == 0,
        r matches Lookup::Hit(p) ==> p@ == path@,
        r matches Lookup::Discard(p) ==> p@ == path@,
{
}

/// Whether the settings of a cache are as they were.
pub open spec fn same_settings(a: MediaCache, b: MediaCache) -> bool {
    a@.root == b@.root && a@.enabled == b@.enabled && a@.capacity_bytes == b@.capacity_bytes
}

/// A store that starts is of the track that was asked for: it fetches the URL,
/// claims the song, puts the file at the path of the track, and begins at the
/// beginning. The settings stay as they are, whatever comes of it, and a store
/// that does not start claims nothing.
pub proof fn stores_are_of_the_track_asked_for(
    c: &mut MediaCache,
    url: &str,
    song_id: &str,
    suffix: Option<&str>,
    on: bool,
    path: FilePath,
    r: Result<Transfer, MediaCacheError>,
)
    requires
        call_ensures(MediaCache::is_enabled, (&*old(c),), on),
        call_ensures(MediaCache::entry_path, (&*old(c), song_id, suffix), path),
        call_ensures(MediaCache::store, (c, url, song_id, suffix), r),
    ensures
        same_settings(*old(c), *final(c)),
        !on ==> r == Err::<Transfer, MediaCacheError>(MediaCacheError::Disabled),
        on && r is Err ==> r == Err::<Transfer, MediaCacheError>(MediaCacheError::AlreadyInFlight),
        r is Err ==> final(c)@.in_flight == old(c)@.in_flight,
        r matches Ok(t) ==> {
            &&& t@.url == url@
            &&& t@.song_id == song_id@
            &&& t@.dest == path@
            &&& t@.progress.step is Probe
            &&& t@.progress.written == 0
        },
{
}

/// An adoption that starts is of the track that was asked for, and from the
/// source that was given, in the same way.
pub proof fn adoptions_are_of_the_track_asked_for(
    c: &mut MediaCache,
    source: &FilePath,
    song_id: &str,
    suffix: Option<&str>,
    on: bool,
    path: FilePath,
    r: Result<Adoption, MediaCacheError>,
)
    requires
        call_ensures(MediaCache::is_enabled, (&*old(c),), on),
        call_ensures(MediaCache::entry_path, (&*old(c), song_id, suffix), path),
        call_ensures(MediaCache::insert_from_file, (c, source, song_id, suffix), r),
    ensures
        same_settings(*old(c), *final(c)),
        !on ==> r == Err::<Adoption, MediaCacheError>(MediaCacheError::Disabled),
        on && r is Err ==> r == Err::<Adoption, MediaCacheError>(MediaCacheError::AlreadyInFlight),
        r is Err ==> final(c)@.in_flight == old(c)@.in_flight,
        r matches Ok(a) ==> {
            &&& a@.source == source@
            &&& a@.song_id == song_id@
            &&& a@.dest == path@
            &&& a@.progress.step is Probe
        },
{
}

/// A new cache that is active starts a store of any song, and an adoption.
pub proof fn a_new_cache_stores_any_song(
    given: FilePath,
    capacity: u64,
    c: MediaCache,
    d: &mut MediaCache,
    e: &mut MediaCache,
    url: &str,
    source: &FilePath,
    song_id: &str,
    suffix: Option<&str>,
    r: Result<Transfer, MediaCacheError>,
    q: Result<Adoption, MediaCacheError>,
)
    requires
        given@.len() > 0,
        call_ensures(MediaCache::new, (given, true, capacity), c),
        old(d)@ == c@,
        old(e)@ == c@,
        call_ensures(MediaCache::store, (d, url, song_id, suffix), r),
        call_ensures(MediaCache::insert_from_file, (e, source, song_id, suffix), q),
    ensures
        r is Ok,
        q is Ok,
{
}

/// While a song is claimed by a store, another store of it and an adoption are
/// refused as already in flight.
pub proof fn a_claimed_song_is_refused(
    c: &mut MediaCache,
    d: &mut MediaCache,
    e: &mut MediaCache,
    url: &str,
    source: &FilePath,
    song_id: &str,
    suffix: Option<&str>,
    suffix2: Option<&str>,
    first: Result<Transfer, MediaCacheError>,
    r: Result<Transfer, MediaCacheError>,
    q: Result<Adoption, MediaCacheError>,
)
    requires
        call_ensures(MediaCache::store, (c, url, song_id, suffix), first),
        first is Ok,
        old(d)@ == final(c)@,
        old(e)@ == final(c)@,
        call_ensures(MediaCache::store, (d, url, song_id, suffix2), r),
        call_ensures(MediaCache::insert_from_file, (e, source, song_id, suffix2), q),
    ensures
        r == Err::<Transfer, MediaCacheError>(MediaCacheError::AlreadyInFlight),
        q == Err::<Adoption, MediaCacheError>(MediaCacheError::AlreadyInFlight),
{
}

/// The same, while a song is claimed by an adoption.
pub proof fn an_adopted_song_is_refused(
    c: &mut MediaCache,
    d: &mut MediaCache,
    e: &mut MediaCache,
    url: &str,
    source: &FilePath,
    song_id: &str,
    suffix: Option<&str>,
    suffix2: Option<&str>,
    first: Result<Adoption, MediaCacheError>,
    r: Result<Transfer, MediaCacheError>,
    q: Result<Adoption, MediaCacheError>,
)
    requires
        call_ensures(MediaCache::insert_from_file, (c, source, song_id, suffix), first),
        first is Ok,
        old(d)@ == final(c)@,
        old(e)@ == final(c)@,
        call_ensures(MediaCache::store, (d, url, song_id, suffix2), r),
        call_ensures(MediaCache::insert_from_file, (e, source, song_id, suffix2), q),
    ensures
        r == Err::<Transfer, MediaCacheError>(MediaCacheError::AlreadyInFlight),
        q == Err::<Adoption, MediaCacheError>(MediaCacheError::AlreadyInFlight),
{
}

/// A claim on one song does not stand in the way of another: storing the other
/// song starts exactly if it would have started before.
pub proof fn other_songs_are_not_refused(
    c: &mut MediaCache,
    d: &mut MediaCache,
    e: &mut MediaCache,
    url: &str,
    song_id: &str,
    other_id: &str,
    suffix: Option<&str>,
    first: Result<Transfer, MediaCacheError>,
    r: Result<Transfer, MediaCacheError>,
    q: Result<Transfer, MediaCacheError>,
)
    requires
        song_id@ != other_id@,
        call_ensures(MediaCache::store, (c, url, song_id, suffix), first),
        old(d)@ == final(c)@,
        old(e)@ == old(c)@,
        call_ensures(MediaCache::store, (d, url, other_id, suffix), r),
        call_ensures(MediaCache::store, (e, url, other_id, suffix), q),
    ensures
        r is Ok <==> q is Ok,
{
}

/// Releasing a song makes it free for a store again, and for an adoption,
/// changes no setting, and leaves the claims on other songs.
pub proof fn a_released_song_can_be_stored_again(
    c: &mut MediaCache,
    d: &mut MediaCache,
    e: &mut MediaCache,
    f: &mut MediaCache,
    g: &mut MediaCache,
    source: &FilePath,
    song_id: &str,
    other_id: &str,
    url: &str,
    suffix: Option<&str>,
    on: bool,
    r: Result<Transfer, MediaCacheError>,
    q: Result<Transfer, MediaCacheError>,
    s: Result<Transfer, MediaCacheError>,
    adopted: Result<Adoption, MediaCacheError>,
)
    requires
        song_id@ != other_id@,
        call_ensures(MediaCache::is_enabled, (&*old(c),), on),
        call_ensures(MediaCache::release, (c, song_id), ()),
        old(d)@ == final(c)@,
        old(e)@ == final(c)@,
        old(f)@ == old(c)@,
        old(g)@ == final(c)@,
        call_ensures(MediaCache::store, (d, url, song_id, suffix), r),
        call_ensures(MediaCache::store, (e, url, other_id, suffix), q),
        call_ensures(MediaCache::store, (f, url, other_id, suffix), s),
        call_ensures(MediaCache::insert_from_file, (g, source, song_id, suffix), adopted),
    ensures
        same_settings(*old(c), *final(c)),
        on <==> r is Ok,
        on <==> adopted is Ok,
        q is Ok <==> s is Ok,
{
}

/// The entries of a cache are the cached files in its root, its usage is their
/// lengths added up, and its count is their number.
pub proof fn usage_is_what_the_files_take_up(
    c: &MediaCache,
    found: &Listing,
    root: &FilePath,
    entries: Vec<Entry>,
    scanned: Vec<Entry>,
    total: Option<u64>,
    fits: bool,
    usage: u64,
    count: usize,
)
    requires
        call_ensures(MediaCache::root, (c,), root),
        call_ensures(MediaCache::entries, (c, found), entries),
        call_ensures(listing::scan_entries, (root, found), scanned),
        call_ensures(listing::checked_total, (&scanned,), total),
        call_ensures(MediaCache::usage_fits, (c, found), fits),
        call_ensures(MediaCache::usage_bytes, (c, found), usage),
        call_ensures(MediaCache::entry_count, (c, found), count),
    ensures
        entries@.len() == scanned@.len(),
        forall|i: int|
            0 <= i < entries@.len() ==> (#[trigger] entries@[i]).path@ == scanned@[i].path@
                && entries@[i].size == scanned@[i].size && entries@[i].modified
                == scanned@[i].modified,
        fits <==> total is Some,
        fits ==> total == Some(usage),
        count == scanned@.len(),
{
    let a = listing::models(entries@);
    let b = listing::models(scanned@);
    assert(a.len() == entries@.len() && b.len() == scanned@.len());
    assert forall|i: int| 0 <= i < entries@.len() implies (#[trigger] entries@[i]).path@
        == scanned@[i].path@ && entries@[i].size == scanned@[i].size && entries@[i].modified
        == scanned@[i].modified by {
        assert(a[i] == entries@[i]@ && b[i] == scanned@[i]@);
    }
}

/// What a user interface shows for a directory is what a cache with that root
/// uses; without a directory it shows nothing.
pub proof fn the_figure_shown_is_the_usage(
    dir: FilePath,
    found: &Listing,
    enabled: bool,
    capacity: u64,
    c: MediaCache,
    fits: bool,
    usage: u64,
    r: Option<u64>,
    q: Option<u64>,
)
    requires
        call_ensures(MediaCache::new, (dir, enabled, capacity), c),
        call_ensures(MediaCache::usage_fits, (&c, found), fits),
        fits,
        call_ensures(MediaCache::usage_bytes, (&c, found), usage),
        call_ensures(media_cache::default_usage_bytes, (Some(dir), found), r),
        call_ensures(media_cache::default_usage_bytes, (None, found), q),
    ensures
        r == Some(usage),
        q is None,
{
}

/// The sweep of a cache is that of its root.
pub proof fn the_sweep_is_of_the_root(
    c: &MediaCache,
    found: &Listing,
    now: i128,
    root: &FilePath,
    r: Vec<FilePath>,
    q: Vec<FilePath>,
)
    requires
        call_ensures(MediaCache::root, (c,), root),
        call_ensures(MediaCache::sweep_stale_downloads, (c, found, now), r),
        call_ensures(listing::scan_stale, (root, found, now), q),
    ensures
        r@.len() == q@.len(),
        forall|i: int| 0 <= i < r@.len() ==> (#[trigger] r@[i])@ == q@[i]@,
{
    let a = listing::path_models(r@);
    let b = listing::path_models(q@);
    assert(a.len() == r@.len() && b.len() == q@.len());
    assert forall|i: int| 0 <= i < r@.len() implies (#[trigger] r@[i])@ == q@[i]@ by {
        assert(a[i] == r@[i]@ && b[i] == q@[i]@);
    }
}

/// The evictions of a cache begin with its entries and its capacity. One spares
/// nothing, the other the path that it was given, and that of a download or of
/// an adoption the path of its track.
pub proof fn evictions_are_of_the_entries(
    c: &MediaCache,
    found: &Listing,
    keep: Option<FilePath>,
    t: &Transfer,
    a: &Adoption,
    cap: u64,
    entries: Vec<Entry>,
    begun: Eviction,
    r: Eviction,
    q: Eviction,
    of_download: Eviction,
    of_adoption: Eviction,
)
    requires
        call_ensures(MediaCache::capacity_bytes, (c,), cap),
        call_ensures(MediaCache::entries, (c, found), entries),
        call_ensures(Eviction::new, (entries, cap, keep), begun),
        call_ensures(MediaCache::evict_to_capacity, (c, found), r),
        call_ensures(MediaCache::evict_to_capacity_excluding, (c, found, keep), q),
        call_ensures(Transfer::eviction, (t, c, found), of_download),
        call_ensures(Adoption::eviction, (a, c, found), of_adoption),
    ensures
        q@ == begun@,
        r@.queue == begun@.queue && r@.capacity == cap && r@.log.len() == 0,
        r@.keep is None,
        of_download@.queue == begun@.queue && of_download@.capacity == cap
            && of_download@.log.len() == 0,
        of_download@.keep == Some(t@.dest),
        of_adoption@.queue == begun@.queue && of_adoption@.capacity == cap
            && of_adoption@.log.len() == 0,
        of_adoption@.keep == Some(a@.dest),
{
}

/// A clearing that removed no file counts none.
pub proof fn a_clearing_without_removals_counts_nothing(
    c: &MediaCache,
    found: &Listing,
    entries: Vec<Entry>,
    removed: &Vec<bool>,
    r: (usize, u64),
)
    requires
        call_ensures(MediaCache::entries, (c, found), entries),
        removed@.len() == entries@.len(),
        forall|i: int| 0 <= i < removed@.len() ==> !#[trigger] removed@[i],
        call_ensures(MediaCache::clear, (c, found, removed), r),
    ensures
        r.0 == 0,
        r.1 == 0,
{
    assert(listing::models(entries@).len() == entries@.len());
    media_cache::clearing_is_accounted_for(c.entries_in(found), removed@);
}

/// Removing one file more counts one file more, and its length.
proof fn cleared_with_one_more(
    entries: Seq<listing::EntryModel>,
    removed: Seq<bool>,
    k: int,
)
    requires
        entries.len() == removed.len(),
        0 <= k < entries.len(),
        !removed[k],
    ensures
        media_cache::cleared(entries, removed.update(k, true)).0 == media_cache::cleared(
            entries,
            removed,
        ).0 + 1,
        media_cache::cleared(entries, removed.update(k, true)).1 == media_cache::cleared(
            entries,
            removed,
        ).1 + entries[k].size,
    decreases entries.len(),
{
    let more = removed.update(k, true);
    if k == entries.len() - 1 {
        assert(more.drop_last() =~= removed.drop_last());
    } else {
        cleared_with_one_more(entries.drop_last(), removed.drop_last(), k);
        assert(more.drop_last() =~= removed.drop_last().update(k, true));
        assert(more.last() == removed.last());
    }
}

/// Of two clearings, of which one removed the file of one entry more, that one
/// counts one file more, and the length of that entry.
pub proof fn each_removal_counts(
    c: &MediaCache,
    found: &Listing,
    entries: Vec<Entry>,
    removed: &Vec<bool>,
    more: &Vec<bool>,
    k: int,
    r: (usize, u64),
    q: (usize, u64),
)
    requires
        call_ensures(MediaCache::entries, (c, found), entries),
        removed@.len() == entries@.len(),
        0 <= k < removed@.len(),
        !removed@[k],
        more@ == removed@.update(k, true),
        call_ensures(MediaCache::clear, (c, found, removed), r),
        call_ensures(MediaCache::clear, (c, found, more), q),
    ensures
        q.0 == r.0 + 1,
        q.1 == r.1 + entries@[k].size,
{
    let all = listing::models(entries@);
    assert(all.len() == entries@.len());
    assert(all[k] == entries@[k]@);
    cleared_with_one_more(all, removed@, k);
}

} // verus!
