use ferrosonic::daemon::media_ops::{CacheFill, Child, DaemonCore, FillReport, PlaybackSource};
use ferrosonic::media_cache::listing::{DirItem, FileMeta, Listing};
use ferrosonic::media_cache::{IoFailure, Lookup, MediaCache, MediaCacheError};
use ferrosonic::path::FilePath;

fn daemon(enabled: bool) -> DaemonCore {
    DaemonCore {
        media_cache: MediaCache::new(FilePath::from_text("/cache"), enabled, 1024),
        shutdown: false,
    }
}

fn song(id: &str, title: &str, suffix: Option<&str>) -> Child {
    Child {
        id: id.to_string(),
        title: title.to_string(),
        suffix: suffix.map(str::to_string),
    }
}

fn meta(len: u64) -> Option<FileMeta> {
    Some(FileMeta {
        is_file: true,
        len,
        modified: Some(0),
    })
}

fn file(name: &str, len: u64, modified: i128) -> Option<DirItem> {
    Some(DirItem {
        name: name.as_bytes().to_vec(),
        meta: Some(FileMeta {
            is_file: true,
            len,
            modified: Some(modified),
        }),
    })
}

#[test]
fn a_miss_is_streamed_and_filled() {
    let d = daemon(true);
    let r = d.resolve_playback_source(
        &song("abc", "Track A", Some("flac")),
        "http://host/stream".to_string(),
        None,
    );
    assert_eq!(
        r.source,
        PlaybackSource::Remote("http://host/stream".to_string())
    );
    assert_eq!(r.lookup, Lookup::Miss);
    assert_eq!(
        r.fill,
        Some(CacheFill {
            url: "http://host/stream".to_string(),
            song_id: "abc".to_string(),
            suffix: Some("flac".to_string()),
            title: "Track A".to_string(),
        })
    );
}

#[test]
fn a_hit_plays_the_local_file_and_starts_nothing() {
    let d = daemon(true);
    let cached = d.media_cache.entry_path("abc", None);
    let r = d.resolve_playback_source(
        &song("abc", "Track A", None),
        "http://host/stream".to_string(),
        meta(4096),
    );
    assert_eq!(r.source, PlaybackSource::Cached(cached.clone()));
    assert_eq!(r.lookup, Lookup::Hit(cached));
    assert_eq!(r.fill, None);
}

#[test]
fn an_empty_file_is_discarded_and_filled_anew() {
    let d = daemon(true);
    let r = d.resolve_playback_source(
        &song("abc", "Track A", None),
        "http://host/stream".to_string(),
        meta(0),
    );
    assert_eq!(
        r.source,
        PlaybackSource::Remote("http://host/stream".to_string())
    );
    assert_eq!(
        r.lookup,
        Lookup::Discard(d.media_cache.entry_path("abc", None))
    );
    assert!(r.fill.is_some());
}

#[test]
fn a_disabled_cache_streams_and_starts_nothing() {
    let d = daemon(false);
    let r = d.resolve_playback_source(
        &song("abc", "Track A", None),
        "http://host/stream".to_string(),
        meta(4096),
    );
    assert_eq!(
        r.source,
        PlaybackSource::Remote("http://host/stream".to_string())
    );
    assert_eq!(r.lookup, Lookup::Miss);
    assert_eq!(r.fill, None);
}

#[test]
fn nothing_is_filled_during_shutdown() {
    let mut d = daemon(true);
    let s = song("abc", "Track A", None);
    assert!(d.spawn_cache_fill(&s, "http://host/stream").is_some());
    d.shutdown = true;
    assert!(d.spawn_cache_fill(&s, "http://host/stream").is_none());
}

#[test]
fn fills_are_reported_by_what_they_came_to() {
    assert_eq!(
        DaemonCore::report_fill(&Ok(FilePath::from_text("/cache/x"))),
        FillReport::Cached
    );
    for (e, report) in [
        (MediaCacheError::AlreadyInFlight, FillReport::Routine),
        (MediaCacheError::Disabled, FillReport::Routine),
        (MediaCacheError::Cancelled, FillReport::Cancelled),
        (MediaCacheError::Status(500), FillReport::Problem),
        (
            MediaCacheError::Io(IoFailure::Stalled),
            FillReport::Problem,
        ),
    ] {
        assert_eq!(DaemonCore::report_fill(&Err(e)), report);
    }
}

#[test]
fn lowering_the_cap_evicts_down_to_it() {
    let mut d = daemon(true);
    let found = Listing::Items(vec![
        file("a", 80, 3),
        file("b", 80, 1),
        file("c", 80, 2),
    ]);
    assert_eq!(d.media_cache_usage(&found), 240);
    let mut e = d.apply_media_cache_config(true, 128, &found).unwrap();
    assert_eq!(d.media_cache.capacity_bytes(), 128);
    let mut gone = Vec::new();
    while let Some(p) = e.next_victim() {
        gone.push(p);
        e.record(true);
    }
    assert_eq!(
        gone,
        [FilePath::from_text("/cache/b"), FilePath::from_text("/cache/c")]
    );
    assert_eq!(e.freed(), 160);
}

#[test]
fn clearing_reports_what_it_removed() {
    let d = daemon(true);
    let found = Listing::Items(vec![file("a", 1000, 0), file("b", 2000, 0)]);

    let (files, bytes) = d.clear_media_cache(&found, &vec![true, true]);

    assert_eq!((files, bytes), (2, 3000));
    assert_eq!(d.media_cache_usage(&Listing::Items(Vec::new())), 0);
}

#[test]
fn disabling_the_cache_keeps_the_files_for_a_later_re_enable() {
    let mut d = daemon(true);
    let found = Listing::Items(vec![file("a", 1000, 0)]);

    assert!(d.apply_media_cache_config(false, 10, &found).is_none());

    assert!(!d.media_cache.is_enabled());
    assert_eq!(
        d.media_cache_usage(&found),
        1000,
        "switching off saves bandwidth, not disk; Clear Cache reclaims the space"
    );
    assert_eq!(
        d.media_cache.lookup("a", None, meta(1000)),
        Lookup::Miss,
        "a disabled cache must not serve files it still holds"
    );
}
