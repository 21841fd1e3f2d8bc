use ferrosonic::media_cache::adoption::{AdoptEvent, AdoptStep, Adoption};
use ferrosonic::media_cache::listing::{DirItem, FileMeta, Listing};
use ferrosonic::media_cache::{IoFailure, Lookup, MediaCache, MediaCacheError};
use ferrosonic::path::FilePath;

fn begin(c: &mut MediaCache) -> Adoption {
    let src = FilePath::from_text("/tmp/prebuffer");
    let a = c.insert_from_file(&src, "s1", Some("flac")).unwrap();
    assert_eq!(a.source(), &src);
    assert_eq!(a.song_id(), "s1");
    a
}

#[test]
fn a_whole_copy_is_published() {
    let mut c = MediaCache::new(FilePath::from_text("/cache"), true, 100);
    let mut a = begin(&mut c);
    let mut steps = Vec::new();
    for e in [
        AdoptEvent::Probed(None),
        AdoptEvent::Measured {
            size: 100,
            capacity: 100,
        },
        AdoptEvent::RootCreated,
        AdoptEvent::TempCreated,
        AdoptEvent::Copied(100),
        AdoptEvent::Synced,
        AdoptEvent::Persisted,
        AdoptEvent::Evicted,
    ] {
        a.advance(e);
        steps.push(format!("{:?}", a.progress().step));
    }
    assert_eq!(
        steps,
        ["Measure", "CreateRoot", "CreateTemp", "Copy", "Sync", "Persist", "Evict", "Finished"]
    );
    assert_eq!(a.into_result().unwrap(), c.entry_path("s1", Some("flac")));
}

#[test]
fn an_adopted_track_is_found_and_counted() {
    let mut c = MediaCache::new(FilePath::from_text("/cache"), true, 100);
    let mut a = begin(&mut c);
    for e in [
        AdoptEvent::Probed(None),
        AdoptEvent::Measured {
            size: 60,
            capacity: 100,
        },
        AdoptEvent::RootCreated,
        AdoptEvent::TempCreated,
        AdoptEvent::Copied(60),
        AdoptEvent::Synced,
        AdoptEvent::Persisted,
    ] {
        a.advance(e);
    }
    let adopted = FileMeta {
        is_file: true,
        len: a.progress().size,
        modified: Some(1),
    };
    let item = |p: &FilePath, meta: FileMeta| {
        Some(DirItem {
            name: p.as_bytes()["/cache/".len()..].to_vec(),
            meta: Some(meta),
        })
    };
    let older = c.entry_path("old", None);
    let meta = FileMeta {
        is_file: true,
        len: 50,
        modified: Some(5),
    };
    let found = Listing::Items(vec![item(a.dest(), adopted), item(&older, meta)]);
    let mut e = a.eviction(&c, &found);
    assert_eq!(e.next_victim(), Some(older));
    e.record(true);
    assert_eq!(e.next_victim(), None);
    assert_eq!(e.freed(), 50);
    a.advance(AdoptEvent::Evicted);
    let after = Listing::Items(vec![item(a.dest(), adopted)]);
    assert_eq!(c.usage_bytes(&after), 60);
    let dest = a.into_result().unwrap();
    assert_eq!(
        c.lookup("s1", Some("flac"), Some(adopted)),
        Lookup::Hit(dest)
    );
}

#[test]
fn an_existing_entry_is_not_copied_again() {
    let mut c = MediaCache::new(FilePath::from_text("/cache"), true, 100);
    let mut a = begin(&mut c);
    a.advance(AdoptEvent::Probed(Some(FileMeta {
        is_file: true,
        len: 1,
        modified: None,
    })));
    assert_eq!(a.progress().step, AdoptStep::Finished);
    assert_eq!(a.into_result().unwrap(), c.entry_path("s1", Some("flac")));
}

#[test]
fn an_empty_source_is_truncated() {
    let mut c = MediaCache::new(FilePath::from_text("/cache"), true, 100);
    let mut a = begin(&mut c);
    a.advance(AdoptEvent::Probed(None));
    a.advance(AdoptEvent::Measured {
        size: 0,
        capacity: 100,
    });
    assert_eq!(
        a.into_result().unwrap_err(),
        MediaCacheError::Truncated {
            expected: 0,
            got: 0
        }
    );
}

#[test]
fn a_source_that_does_not_fit_is_refused() {
    let mut c = MediaCache::new(FilePath::from_text("/cache"), true, 100);
    let mut a = begin(&mut c);
    a.advance(AdoptEvent::Probed(None));
    a.advance(AdoptEvent::Measured {
        size: 101,
        capacity: 100,
    });
    assert_eq!(
        a.into_result().unwrap_err(),
        MediaCacheError::TooLarge {
            size: 101,
            capacity: 100
        }
    );
}

#[test]
fn a_short_copy_is_truncated() {
    let mut c = MediaCache::new(FilePath::from_text("/cache"), true, 100);
    let mut a = begin(&mut c);
    a.advance(AdoptEvent::Probed(None));
    a.advance(AdoptEvent::Measured {
        size: 50,
        capacity: 100,
    });
    a.advance(AdoptEvent::RootCreated);
    a.advance(AdoptEvent::TempCreated);
    a.advance(AdoptEvent::Copied(49));
    assert_eq!(
        a.into_result().unwrap_err(),
        MediaCacheError::Truncated {
            expected: 50,
            got: 49
        }
    );
}

#[test]
fn a_source_that_cannot_be_measured_fails() {
    let mut c = MediaCache::new(FilePath::from_text("/cache"), true, 100);
    let mut a = begin(&mut c);
    a.advance(AdoptEvent::Probed(None));
    a.advance(AdoptEvent::IoFailed("gone".to_string()));
    assert_eq!(
        a.into_result().unwrap_err(),
        MediaCacheError::Io(IoFailure::Reported("gone".to_string()))
    );
}

#[test]
fn a_disabled_cache_adopts_nothing() {
    let mut c = MediaCache::new(FilePath::from_text("/cache"), false, 100);
    let src = FilePath::from_text("/tmp/prebuffer");
    assert_eq!(
        c.insert_from_file(&src, "s1", None).unwrap_err(),
        MediaCacheError::Disabled
    );
}
