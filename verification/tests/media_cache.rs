use ferrosonic::media_cache::eviction::Eviction;
use ferrosonic::media_cache::listing::{DirItem, FileMeta, Listing, TEMP_SWEEP_AGE};
use ferrosonic::media_cache::transfer::{Event, Step, Transfer, STALL_TIMEOUT_SECS};
use ferrosonic::media_cache::{
    default_usage_bytes, format_size, sanitize_suffix, IoFailure, Lookup, MediaCache,
    MediaCacheError, DEFAULT_SUFFIX, TEMP_PREFIX,
};
use ferrosonic::path::FilePath;
use std::path::{Path, PathBuf};

const SECOND: i128 = 1_000_000_000;

/// A file or directory of a pretended directory.
struct Node {
    name: String,
    is_file: bool,
    len: u64,
    modified: Option<i128>,
}

/// A pretended cache directory.
struct Disk {
    root: FilePath,
    nodes: Vec<Node>,
}

fn text(p: &FilePath) -> String {
    String::from_utf8(p.as_bytes().clone()).unwrap()
}

fn native(p: &FilePath) -> PathBuf {
    PathBuf::from(text(p))
}

impl Disk {
    fn new(root: &FilePath) -> Disk {
        Disk {
            root: root.clone(),
            nodes: Vec::new(),
        }
    }

    fn name_of(&self, p: &FilePath) -> String {
        let full = native(p);
        assert_eq!(full.parent(), Some(native(&self.root).as_path()));
        full.file_name().unwrap().to_str().unwrap().to_string()
    }

    fn write_named(&mut self, name: &str, len: u64, modified: i128) {
        self.nodes.retain(|n| n.name != name);
        self.nodes.push(Node {
            name: name.to_string(),
            is_file: true,
            len,
            modified: Some(modified),
        });
    }

    fn write(&mut self, p: &FilePath, len: u64, modified: i128) {
        let name = self.name_of(p);
        self.write_named(&name, len, modified);
    }

    fn holds(&self, p: &FilePath) -> bool {
        let name = self.name_of(p);
        self.nodes.iter().any(|n| n.name == name)
    }

    fn remove(&mut self, p: &FilePath) -> bool {
        let name = self.name_of(p);
        let before = self.nodes.len();
        self.nodes.retain(|n| n.name != name);
        self.nodes.len() < before
    }

    fn probe(&self, p: &FilePath) -> Option<FileMeta> {
        let name = self.name_of(p);
        self.nodes.iter().find(|n| n.name == name).map(|n| FileMeta {
            is_file: n.is_file,
            len: n.len,
            modified: n.modified,
        })
    }

    fn listing(&self) -> Listing {
        Listing::Items(
            self.nodes
                .iter()
                .map(|n| {
                    Some(DirItem {
                        name: n.name.clone().into_bytes(),
                        meta: Some(FileMeta {
                            is_file: n.is_file,
                            len: n.len,
                            modified: n.modified,
                        }),
                    })
                })
                .collect(),
        )
    }

    /// Carries out a lookup at time `now`.
    fn lookup(
        &mut self,
        c: &MediaCache,
        id: &str,
        suffix: Option<&str>,
        now: i128,
    ) -> Option<FilePath> {
        let probe = self.probe(&c.entry_path(id, suffix));
        match c.lookup(id, suffix, probe) {
            Lookup::Miss => None,
            Lookup::Discard(p) => {
                self.remove(&p);
                None
            }
            Lookup::Hit(p) => {
                let len = probe.unwrap().len;
                self.write(&p, len, now);
                Some(p)
            }
        }
    }

    /// Carries out an eviction in which every file can be removed.
    fn evict(&mut self, mut e: Eviction) -> u64 {
        while let Some(p) = e.next_victim() {
            let gone = self.remove(&p);
            e.record(gone);
        }
        e.freed()
    }

    /// Clears the cache, where every file can be removed.
    fn clear(&mut self, c: &MediaCache) -> (usize, u64) {
        let listing = self.listing();
        let mut removed = Vec::new();
        for e in c.entries(&listing) {
            removed.push(self.remove(&e.path));
        }
        c.clear(&listing, &removed)
    }
}

fn cache(dir: &str, capacity: u64) -> MediaCache {
    MediaCache::new(FilePath::from_text(dir), true, capacity)
}

fn meta(len: u64) -> Option<FileMeta> {
    Some(FileMeta {
        is_file: true,
        len,
        modified: Some(0),
    })
}

/// Answers the steps of a download of `chunks` up to the point at which it ends
/// or the file is in place.
fn download(t: &mut Transfer, length: Option<u64>, capacity: u64, chunks: &[&[u8]]) -> Vec<u8> {
    let mut file = Vec::new();
    let mut next = 0;
    loop {
        let event = match &t.progress().step {
            Step::Probe => Event::Probed(None),
            Step::CreateRoot => Event::RootCreated,
            Step::Request => Event::Answered {
                status: 200,
                content_length: length,
                capacity,
            },
            Step::CreateTemp => Event::TempCreated,
            Step::PollCancel => Event::CancelPolled(false),
            Step::Read => {
                if next < chunks.len() {
                    next += 1;
                    Event::Chunk(chunks[next - 1].to_vec())
                } else {
                    Event::StreamEnded
                }
            }
            Step::Append(bytes) => {
                file.extend_from_slice(bytes);
                Event::Appended
            }
            Step::Flush => Event::Flushed,
            Step::Sync => Event::Synced,
            Step::Persist => Event::Persisted,
            Step::Evict => Event::Evicted,
            Step::Finished | Step::Failed(_) => return file,
        };
        t.advance(event);
    }
}

#[test]
fn suffix_is_sanitized_to_a_safe_extension() {
    assert_eq!(sanitize_suffix(Some("FLAC")), "flac");
    assert_eq!(sanitize_suffix(Some("mp3")), "mp3");
    assert_eq!(sanitize_suffix(None), DEFAULT_SUFFIX);
    assert_eq!(sanitize_suffix(Some("")), DEFAULT_SUFFIX);
    assert_eq!(sanitize_suffix(Some("../..")), DEFAULT_SUFFIX);
    assert_eq!(sanitize_suffix(Some("a/b.c")), "abc");
    assert_eq!(
        sanitize_suffix(Some("averylongsuffix")),
        "averylon",
        "suffix is bounded so a hostile value cannot blow up the name"
    );
}

#[test]
fn suffix_keeps_only_ascii_letters_and_digits() {
    assert_eq!(DEFAULT_SUFFIX, "dat");
    assert_eq!(sanitize_suffix(Some("\u{00c4}Mp\u{0130}3\u{212a}")), "mp3");
    assert_eq!(sanitize_suffix(Some("@[`{/:")), "dat");
    assert_eq!(sanitize_suffix(Some("-a-b-c-d-e-F-G-H-I-J")), "abcdefgh");
    assert_eq!(sanitize_suffix(Some("AZaz09")), "azaz09");
    let once = sanitize_suffix(Some("Ogg/Opus.Audio"));
    assert_eq!(once, "oggopusa");
    assert_eq!(sanitize_suffix(Some(&once)), once);
}

#[test]
fn entry_path_confines_hostile_ids_to_the_cache_root() {
    let dir = tempfile::tempdir().unwrap();
    let c = cache(dir.path().to_str().unwrap(), 1024);
    for id in ["../../etc/passwd", "a/b/c", "..", "", "\0weird"] {
        let p = native(&c.entry_path(id, Some("flac")));
        assert_eq!(
            p.parent(),
            Some(dir.path()),
            "id {id:?} escaped the cache root: {}",
            p.display()
        );
    }
}

#[test]
fn entry_path_is_stable_and_distinct_per_song() {
    let dir = tempfile::tempdir().unwrap();
    let c = cache(dir.path().to_str().unwrap(), 1024);
    assert_eq!(
        c.entry_path("s1", Some("flac")),
        c.entry_path("s1", Some("flac"))
    );
    assert_ne!(
        c.entry_path("s1", Some("flac")),
        c.entry_path("s2", Some("flac"))
    );
}

#[test]
fn entry_path_is_the_hash_and_the_extension() {
    let c = cache("/tmp/fs-cache", 1024);
    assert_eq!(
        text(&c.entry_path("abc", Some("FLAC"))),
        "/tmp/fs-cache/900150983cd24fb0d6963f7d28e17f72.flac"
    );
    assert_eq!(
        text(&c.entry_path("", None)),
        "/tmp/fs-cache/d41d8cd98f00b204e9800998ecf8427e.dat"
    );
    let p = native(&c.entry_path("../../etc/passwd", Some("flac")));
    assert_eq!(p.parent(), Some(Path::new("/tmp/fs-cache")));
    assert!(p.extension().is_some_and(|e| e == "flac"));
    let digest = [0x0f; 16];
    assert_eq!(
        text(&c.entry_path_for(&digest, Some("m4a"))),
        "/tmp/fs-cache/0f0f0f0f0f0f0f0f0f0f0f0f0f0f0f0f.m4a"
    );
}

#[test]
fn tracks_share_a_path_only_with_hash_and_extension() {
    let c = cache("/tmp/fs-cache", 1024);
    let p = c.entry_path("s1", Some("flac"));
    assert_eq!(c.entry_path("s1", Some("F.L.A.C")), p);
    assert_ne!(c.entry_path("s1", Some("mp3")), p);
    assert_ne!(c.entry_path("s1 ", Some("flac")), p);
    let (a, mut b) = ([7; 16], [7; 16]);
    b[15] = 0x70;
    assert_ne!(c.entry_path_for(&a, None), c.entry_path_for(&b, None));
}

#[test]
fn lookup_misses_when_disabled() {
    let mut c = cache("/tmp/fs-cache", 1024);
    let mut disk = Disk::new(c.root());
    let p = c.entry_path("s1", Some("flac"));
    disk.write(&p, b"audio".len() as u64, 0);
    assert!(disk.lookup(&c, "s1", Some("flac"), 1).is_some());
    c.set_enabled(false);
    assert!(
        disk.lookup(&c, "s1", Some("flac"), 2).is_none(),
        "a disabled cache must not serve files it still holds"
    );
    assert!(disk.holds(&p));
    c.set_enabled(true);
    assert_eq!(disk.lookup(&c, "s1", Some("flac"), 3), Some(p));
}

#[test]
fn lookup_drops_zero_length_entries() {
    let c = cache("/tmp/fs-cache", 1024);
    let mut disk = Disk::new(c.root());
    let p = c.entry_path("s1", Some("flac"));
    disk.write(&p, 0, 0);
    assert!(disk.lookup(&c, "s1", Some("flac"), 1).is_none());
    assert!(!disk.holds(&p), "empty entry must be removed, not just skipped");
}

#[test]
fn lookup_ignores_what_is_no_file() {
    let c = cache("/tmp/fs-cache", 1024);
    let dir = FileMeta {
        is_file: false,
        len: 4096,
        modified: None,
    };
    assert_eq!(c.lookup("s1", None, Some(dir)), Lookup::Miss);
    assert_eq!(c.lookup("s1", None, None), Lookup::Miss);
    let p = c.entry_path("s1", None);
    assert_eq!(c.lookup_at(p.clone(), meta(1)), Lookup::Hit(p));
}

#[test]
fn usage_ignores_in_progress_downloads() {
    let c = cache("/tmp/fs-cache", 1024);
    let mut disk = Disk::new(c.root());
    disk.write(&c.entry_path("s1", Some("flac")), 100, 0);
    disk.write_named(&format!("{TEMP_PREFIX}abc"), 500, 0);
    assert_eq!(c.usage_bytes(&disk.listing()), 100);
    assert_eq!(c.entry_count(&disk.listing()), 1);
}

#[test]
fn usage_ignores_what_cannot_be_examined() {
    let c = cache("/tmp/fs-cache", 1024);
    let found = Listing::Items(vec![
        None,
        Some(DirItem {
            name: b"unknown".to_vec(),
            meta: None,
        }),
        Some(DirItem {
            name: b"directory".to_vec(),
            meta: Some(FileMeta {
                is_file: false,
                len: 4096,
                modified: Some(5),
            }),
        }),
        Some(DirItem {
            name: vec![0xff, 0xfe],
            meta: Some(FileMeta {
                is_file: true,
                len: 7,
                modified: None,
            }),
        }),
    ]);
    let entries = c.entries(&found);
    assert_eq!(entries.len(), 1);
    assert_eq!(
        entries[0].path.as_bytes(),
        &[b"/tmp/fs-cache/".as_slice(), [0xff, 0xfe].as_slice()].concat()
    );
    assert_eq!(entries[0].size, 7);
    assert_eq!(entries[0].modified, 0, "no time reads as the epoch");
    assert!(c.usage_fits(&found));
    assert_eq!(c.usage_bytes(&found), 7);
}

#[test]
fn usage_that_cannot_be_counted_is_told() {
    let c = cache("/tmp/fs-cache", 1024);
    let mut disk = Disk::new(c.root());
    disk.write_named("a", u64::MAX, 0);
    assert!(c.usage_fits(&disk.listing()));
    assert_eq!(c.usage_bytes(&disk.listing()), u64::MAX);
    disk.write_named("b", 1, 0);
    assert!(!c.usage_fits(&disk.listing()));
}

#[test]
fn eviction_removes_least_recently_used_first() {
    let c = cache("/tmp/fs-cache", 250);
    let mut disk = Disk::new(c.root());
    let old = c.entry_path("old", Some("flac"));
    let mid = c.entry_path("mid", Some("flac"));
    let new = c.entry_path("new", Some("flac"));
    for (p, offset) in [(&new, 120), (&old, 0), (&mid, 60)] {
        disk.write(p, 100, offset * SECOND);
    }

    let e = c.evict_to_capacity(&disk.listing());
    let freed = disk.evict(e);

    assert_eq!(freed, 100, "one 100-byte entry frees 300 -> 200 under 250");
    assert!(!disk.holds(&old), "oldest entry must be evicted first");
    assert!(disk.holds(&mid));
    assert!(disk.holds(&new));
}

#[test]
fn lookup_bumps_mtime_so_a_hit_survives_eviction() {
    let c = cache("/tmp/fs-cache", 150);
    let mut disk = Disk::new(c.root());
    let old = c.entry_path("old", Some("flac"));
    let new = c.entry_path("new", Some("flac"));
    for (p, offset) in [(&old, 0), (&new, 60)] {
        disk.write(p, 100, offset * SECOND);
    }

    assert!(disk.lookup(&c, "old", Some("flac"), 3600 * SECOND).is_some());
    let e = c.evict_to_capacity(&disk.listing());
    disk.evict(e);

    assert!(
        disk.holds(&old),
        "a cache hit must protect an entry from eviction"
    );
    assert!(
        !disk.holds(&new),
        "the now-oldest entry is the eviction target"
    );
}

#[test]
fn eviction_is_a_noop_under_capacity() {
    let c = cache("/tmp/fs-cache", 1024);
    let mut disk = Disk::new(c.root());
    let p = c.entry_path("s1", Some("flac"));
    disk.write(&p, 100, 0);
    let e = c.evict_to_capacity(&disk.listing());
    assert_eq!(disk.evict(e), 0);
    assert!(disk.holds(&p));
}

#[test]
fn eviction_stops_exactly_at_the_capacity() {
    let c = cache("/tmp/fs-cache", 200);
    let mut disk = Disk::new(c.root());
    for (name, at) in [("a", 3), ("b", 1), ("c", 2)] {
        disk.write_named(name, 100, at);
    }
    let e = c.evict_to_capacity(&disk.listing());
    assert_eq!(disk.evict(e), 100);
    let left: Vec<&str> = disk.nodes.iter().map(|n| n.name.as_str()).collect();
    assert_eq!(left, ["a", "c"]);
}

#[test]
fn eviction_passes_over_what_cannot_be_removed() {
    let c = cache("/tmp/fs-cache", 100);
    let mut disk = Disk::new(c.root());
    for (name, at) in [("a", 1), ("b", 2), ("c", 3)] {
        disk.write_named(name, 100, at);
    }
    let mut e = c.evict_to_capacity(&disk.listing());
    assert_eq!(text(&e.next_victim().unwrap()), "/tmp/fs-cache/a");
    assert_eq!(text(&e.next_victim().unwrap()), "/tmp/fs-cache/a");
    e.record(false);
    assert_eq!(e.freed(), 0);
    assert_eq!(text(&e.next_victim().unwrap()), "/tmp/fs-cache/b");
    e.record(true);
    assert_eq!(text(&e.next_victim().unwrap()), "/tmp/fs-cache/c");
    e.record(true);
    assert_eq!(e.next_victim(), None);
    assert_eq!(e.freed(), 200);
}

#[test]
fn eviction_never_takes_the_pinned_file() {
    let c = cache("/tmp/fs-cache", 10);
    let mut disk = Disk::new(c.root());
    let kept = c.entry_path("kept", None);
    disk.write(&kept, 100, 0);
    disk.write_named("other", 100, 5);
    let e = c.evict_to_capacity_excluding(&disk.listing(), Some(kept.clone()));
    assert_eq!(disk.evict(e), 100);
    assert!(disk.holds(&kept));
    assert_eq!(disk.nodes.len(), 1);
}

#[test]
fn the_pinned_file_may_be_spelled_differently() {
    let c = cache("/r", 10);
    for spelling in ["/r/a.dat", "/r//a.dat", "/r/./a.dat", "//r/a.dat/"] {
        let mut disk = Disk::new(c.root());
        disk.write_named("a.dat", 100, 0);
        disk.write_named("b.dat", 100, 5);
        let keep = FilePath::from_text(spelling);
        let e = c.evict_to_capacity_excluding(&disk.listing(), Some(keep));
        assert_eq!(disk.evict(e), 100);
        assert!(disk.holds(&FilePath::from_text("/r/a.dat")));
        assert_eq!(disk.nodes.len(), 1);
    }
    let mut disk = Disk::new(c.root());
    disk.write_named("a.dat", 100, 0);
    let elsewhere = FilePath::from_text("/r/../a.dat");
    let e = c.evict_to_capacity_excluding(&disk.listing(), Some(elsewhere));
    assert_eq!(disk.evict(e), 100);
    assert!(disk.nodes.is_empty());
}

#[test]
fn a_stored_track_leaves_the_cache_within_its_capacity() {
    let mut c = cache("/tmp/fs-cache", 250);
    let mut disk = Disk::new(c.root());
    for (id, at) in [("a", 1), ("b", 2)] {
        disk.write(&c.entry_path(id, None), 100, at * SECOND);
    }
    let mut t = c.store("http://host/c", "c", None).unwrap();
    let bytes = [7u8; 120];
    let file = download(&mut t, Some(120), c.capacity_bytes(), &[&bytes[..]]);
    let stored = t.into_result().unwrap();
    assert_eq!(file, bytes);
    disk.write(&stored, file.len() as u64, 3 * SECOND);
    let e = c.evict_to_capacity_excluding(&disk.listing(), Some(stored.clone()));
    assert_eq!(disk.evict(e), 100);
    assert_eq!(c.usage_bytes(&disk.listing()), 220);
    assert!(!disk.holds(&c.entry_path("a", None)));
    assert_eq!(disk.lookup(&c, "c", None, 4 * SECOND), Some(stored));
}

#[test]
fn the_eviction_of_a_download_spares_its_track() {
    let mut c = cache("/tmp/fs-cache", 10);
    let mut disk = Disk::new(c.root());
    let t = c.store("http://host/s", "s", None).unwrap();
    disk.write(t.dest(), 100, 0);
    disk.write_named("other", 100, 5);
    let e = t.eviction(&c, &disk.listing());
    assert_eq!(disk.evict(e), 100);
    assert!(disk.holds(t.dest()));
    assert_eq!(disk.nodes.len(), 1);
}

#[test]
fn nothing_is_left_after_a_clearing_but_downloads_in_progress() {
    let c = cache("/tmp/fs-cache", 1000);
    let mut disk = Disk::new(c.root());
    disk.write(&c.entry_path("a", None), 30, 1);
    disk.write_named(".download-1", 7, 2);
    disk.write(&c.entry_path("b", None), 12, 3);
    assert_eq!(disk.clear(&c), (2, 42));
    assert_eq!(c.usage_bytes(&disk.listing()), 0);
    assert_eq!(c.entry_count(&disk.listing()), 0);
    assert_eq!(disk.clear(&c), (0, 0));
    assert_eq!(disk.nodes.len(), 1);
    assert_eq!(disk.nodes[0].name, ".download-1");
}

#[test]
fn eviction_keeps_the_listing_order_of_equal_times() {
    let c = cache("/tmp/fs-cache", 0);
    let mut disk = Disk::new(c.root());
    for (name, at) in [("p", 7), ("q", -3), ("r", 7), ("s", -3)] {
        disk.write_named(name, 1, at);
    }
    let mut e = c.evict_to_capacity(&disk.listing());
    let mut order = Vec::new();
    while let Some(p) = e.next_victim() {
        order.push(text(&p).replace("/tmp/fs-cache/", ""));
        e.record(true);
    }
    assert_eq!(order, ["q", "s", "p", "r"]);
    assert_eq!(e.freed(), 4);
}

#[test]
fn clear_removes_everything_and_reports_totals() {
    let c = cache("/tmp/fs-cache", 1024);
    let mut disk = Disk::new(c.root());
    disk.write(&c.entry_path("s1", Some("flac")), 10, 0);
    disk.write(&c.entry_path("s2", Some("mp3")), 20, 0);

    let (files, bytes) = disk.clear(&c);

    assert_eq!((files, bytes), (2, 30));
    assert_eq!(c.usage_bytes(&disk.listing()), 0);
}

#[test]
fn clear_counts_only_what_was_removed() {
    let c = cache("/tmp/fs-cache", 1024);
    let mut disk = Disk::new(c.root());
    disk.write_named("a", 10, 0);
    disk.write_named("b", 20, 0);
    disk.write_named(".download-c", 40, 0);
    let found = disk.listing();
    assert_eq!(c.clear(&found, &vec![true, true]), (2, 30));
    assert_eq!(c.clear(&found, &vec![false, true]), (1, 20));
    assert_eq!(c.clear(&found, &vec![false, false]), (0, 0));
}

#[test]
fn missing_root_reads_as_an_empty_cache() {
    let c = MediaCache::new(
        FilePath::from_text("/nonexistent/ferrosonic-test"),
        true,
        1024,
    );
    assert_eq!(c.usage_bytes(&Listing::Unreadable), 0);
    assert_eq!(c.clear(&Listing::Unreadable, &Vec::new()), (0, 0));
    assert_eq!(c.lookup("s1", Some("flac"), None), Lookup::Miss);
    assert_eq!(c.evict_to_capacity(&Listing::Unreadable).next_victim(), None);
    assert!(c.sweep_stale_downloads(&Listing::Unreadable, 0).is_empty());
}

#[test]
fn empty_root_disables_the_cache() {
    let c = MediaCache::new(FilePath::from_text(""), true, 1024);
    assert!(
        !c.is_enabled(),
        "no resolvable cache dir must read as disabled even when configured on"
    );
}

#[test]
fn sweep_removes_only_aged_download_temporaries() {
    let c = cache("/tmp/fs-cache", 1024);
    let mut disk = Disk::new(c.root());
    let now = 100 * TEMP_SWEEP_AGE;
    let fresh = c.root().join_text(&format!("{TEMP_PREFIX}fresh"));
    let stale = c.root().join_text(&format!("{TEMP_PREFIX}stale"));
    let entry = c.entry_path("s1", Some("flac"));
    disk.write(&fresh, 1, now);
    disk.write(&stale, 1, now - TEMP_SWEEP_AGE - 60 * SECOND);
    disk.write(&entry, 1, 0);

    for p in c.sweep_stale_downloads(&disk.listing(), now) {
        disk.remove(&p);
    }

    assert!(!disk.holds(&stale), "aged temp file must be swept");
    assert!(
        disk.holds(&fresh),
        "a live transfer's temp file must survive"
    );
    assert!(disk.holds(&entry), "cache entries are not temp files");
}

#[test]
fn sweep_waits_for_more_than_an_hour() {
    assert_eq!(TEMP_SWEEP_AGE, 3600 * SECOND);
    let c = cache("/tmp/fs-cache", 1024);
    let mut disk = Disk::new(c.root());
    disk.write_named(".download-a", 1, 0);
    disk.nodes.push(Node {
        name: ".download-b".to_string(),
        is_file: false,
        len: 0,
        modified: Some(i128::MIN),
    });
    disk.nodes.push(Node {
        name: ".download-c".to_string(),
        is_file: true,
        len: 0,
        modified: None,
    });
    let names = |now: i128| -> Vec<String> {
        c.sweep_stale_downloads(&disk.listing(), now)
            .iter()
            .map(|p| disk.name_of(p))
            .collect()
    };
    assert_eq!(names(3600 * SECOND), [".download-b"]);
    assert_eq!(names(3600 * SECOND + 1), [".download-a", ".download-b"]);
    assert_eq!(names(-1), [".download-b"]);
    assert_eq!(names(i128::MAX), [".download-a", ".download-b"]);
    assert!(names(i128::MIN).is_empty());
}

#[test]
fn store_refuses_when_disabled() {
    let mut c = cache("/tmp/fs-cache", 1024);
    c.set_enabled(false);
    let err = c
        .store("http://127.0.0.1:1/x", "s1", Some("flac"))
        .unwrap_err();
    assert!(matches!(err, MediaCacheError::Disabled));
}

#[test]
fn store_returns_the_existing_path_without_refetching() {
    let mut c = cache("/tmp/fs-cache", 1024);
    let p = c.entry_path("s1", Some("flac"));

    let mut t = c.store("http://127.0.0.1:1/x", "s1", Some("flac")).unwrap();
    assert_eq!(t.progress().step, Step::Probe);
    t.advance(Event::Probed(meta("already here".len() as u64)));

    assert_eq!(t.progress().step, Step::Finished);
    assert_eq!(t.into_result().unwrap(), p);
}

#[test]
fn store_fetches_over_an_empty_file() {
    let mut c = cache("/tmp/fs-cache", 1024);
    let mut t = c.store("http://127.0.0.1:1/x", "s1", Some("flac")).unwrap();
    t.advance(Event::Probed(meta(0)));
    assert_eq!(t.progress().step, Step::CreateRoot);
}

#[test]
fn store_leaves_no_partial_file_when_the_fetch_fails() {
    let mut c = cache("/tmp/fs-cache", 1024);
    let disk = Disk::new(c.root());
    let mut t = c.store("http://127.0.0.1:1/x", "s1", Some("flac")).unwrap();
    assert_eq!(t.url(), "http://127.0.0.1:1/x");
    t.advance(Event::Probed(disk.probe(t.dest())));
    t.advance(Event::RootCreated);
    assert_eq!(t.progress().step, Step::Request);
    t.advance(Event::HttpFailed("connection refused".to_string()));
    let err = t.into_result().unwrap_err();
    assert!(matches!(err, MediaCacheError::Http(_)), "got {err:?}");
    assert!(!disk.holds(&c.entry_path("s1", Some("flac"))));
    assert_eq!(
        c.usage_bytes(&disk.listing()),
        0,
        "no temp file may be left behind"
    );
}

#[test]
fn in_flight_key_is_released_after_a_failed_store() {
    let mut c = cache("/tmp/fs-cache", 1024);
    for _ in 0..2 {
        let mut t = c.store("http://127.0.0.1:1/x", "s1", Some("flac")).unwrap();
        let again = c.store("http://127.0.0.1:1/x", "s1", None).unwrap_err();
        assert_eq!(again, MediaCacheError::AlreadyInFlight);
        t.advance(Event::Probed(None));
        t.advance(Event::IoFailed("read-only".to_string()));
        c.release(t.song_id());
        let err = t.into_result().unwrap_err();
        assert!(
            !matches!(err, MediaCacheError::AlreadyInFlight),
            "a finished store must release its key: {err:?}"
        );
    }
}

#[test]
fn songs_are_claimed_one_by_one() {
    let mut c = cache("/tmp/fs-cache", 1024);
    let src = FilePath::from_text("/tmp/prebuffer");
    assert!(c.store("http://host/a", "a", None).is_ok());
    assert!(c.insert_from_file(&src, "b", None).is_ok());
    assert_eq!(
        c.insert_from_file(&src, "a", None).unwrap_err(),
        MediaCacheError::AlreadyInFlight
    );
    c.release("a");
    assert_eq!(
        c.store("http://host/b", "b", None).unwrap_err(),
        MediaCacheError::AlreadyInFlight
    );
    assert!(c.insert_from_file(&src, "a", None).is_ok());
}

#[test]
fn a_download_is_published_byte_for_byte() {
    let mut c = cache("/tmp/fs-cache", 10);
    let mut t = c.store("http://host/x", "s1", Some("ogg")).unwrap();
    let file = download(&mut t, Some(10), 10, &[b"abc", b"", b"defg", b"hij"]);
    assert_eq!(t.progress().step, Step::Finished);
    assert_eq!(file, b"abcdefghij");
    let p = t.into_result().unwrap();
    assert_eq!(p, c.entry_path("s1", Some("ogg")));
    assert_eq!(c.lookup("s1", Some("ogg"), meta(10)), Lookup::Hit(p));
}

#[test]
fn a_download_of_unpromised_length_is_published() {
    let mut c = cache("/tmp/fs-cache", 10);
    let mut t = c.store("http://host/x", "s1", None).unwrap();
    assert_eq!(download(&mut t, None, 10, &[b"abc", b"d"]), b"abcd");
    assert_eq!(t.progress().step, Step::Finished);
}

#[test]
fn a_short_download_is_truncated() {
    let mut c = cache("/tmp/fs-cache", 10);
    for (length, chunks, expected, got) in [
        (Some(5), vec![b"abc".as_slice()], 5, 3),
        (Some(2), vec![b"abc".as_slice()], 2, 3),
        (Some(4), vec![], 4, 0),
        (Some(0), vec![], 0, 0),
        (None, vec![], 0, 0),
    ] {
        let mut t = c.store("http://host/x", "s1", None).unwrap();
        download(&mut t, length, 10, &chunks);
        c.release("s1");
        assert_eq!(
            t.into_result().unwrap_err(),
            MediaCacheError::Truncated { expected, got }
        );
    }
}

#[test]
fn an_oversized_download_is_refused() {
    let mut c = cache("/tmp/fs-cache", 10);
    let mut t = c.store("http://host/x", "s1", None).unwrap();
    assert!(download(&mut t, Some(11), 10, &[b"abc"]).is_empty());
    assert_eq!(
        t.into_result().unwrap_err(),
        MediaCacheError::TooLarge {
            size: 11,
            capacity: 10
        }
    );
    c.release("s1");
    let mut t = c.store("http://host/x", "s1", None).unwrap();
    download(&mut t, None, 10, &[b"abcdef", b"ghijklm", b"n"]);
    assert_eq!(
        t.into_result().unwrap_err(),
        MediaCacheError::TooLarge {
            size: 13,
            capacity: 10
        }
    );
}

#[test]
fn a_failed_rename_publishes_nothing() {
    let mut c = cache("/tmp/fs-cache", 10);
    let mut t = c.store("http://host/x", "s1", None).unwrap();
    for e in [
        Event::Probed(None),
        Event::RootCreated,
        Event::Answered {
            status: 206,
            content_length: Some(1),
            capacity: 1,
        },
        Event::TempCreated,
        Event::CancelPolled(false),
        Event::Chunk(vec![9]),
        Event::Appended,
        Event::CancelPolled(false),
        Event::StreamEnded,
        Event::Flushed,
        Event::Synced,
    ] {
        t.advance(e);
    }
    assert_eq!(t.progress().step, Step::Persist);
    t.advance(Event::IoFailed("cross-device".to_string()));
    assert_eq!(
        t.into_result().unwrap_err(),
        MediaCacheError::Io(IoFailure::Reported("cross-device".to_string()))
    );
}

#[test]
fn a_refused_request_keeps_its_status() {
    let mut c = cache("/tmp/fs-cache", 10);
    for (status, ok) in [(199, false), (200, true), (299, true), (300, false), (404, false)] {
        let mut t = c.store("http://host/x", "s1", None).unwrap();
        t.advance(Event::Probed(None));
        t.advance(Event::RootCreated);
        t.advance(Event::Answered {
            status,
            content_length: None,
            capacity: 10,
        });
        if ok {
            assert_eq!(t.progress().step, Step::CreateTemp);
        } else {
            assert_eq!(
                t.progress().step,
                Step::Failed(MediaCacheError::Status(status))
            );
        }
        c.release("s1");
    }
}

#[test]
fn a_download_can_be_cancelled_between_chunks() {
    let mut c = cache("/tmp/fs-cache", 10);
    let mut t = c.store("http://host/x", "s1", None).unwrap();
    t.advance(Event::Probed(None));
    t.advance(Event::RootCreated);
    t.advance(Event::Answered {
        status: 200,
        content_length: Some(6),
        capacity: 10,
    });
    t.advance(Event::TempCreated);
    t.advance(Event::CancelPolled(false));
    t.advance(Event::Chunk(b"abc".to_vec()));
    assert_eq!(t.progress().step, Step::Append(b"abc".to_vec()));
    t.advance(Event::Appended);
    assert_eq!(t.progress().written, 3);
    t.advance(Event::CancelPolled(true));
    assert_eq!(t.into_result().unwrap_err(), MediaCacheError::Cancelled);
}

#[test]
fn a_stalled_download_times_out() {
    let mut c = cache("/tmp/fs-cache", 10);
    let mut t = c.store("http://host/x", "s1", None).unwrap();
    t.advance(Event::Probed(None));
    t.advance(Event::RootCreated);
    t.advance(Event::Answered {
        status: 200,
        content_length: None,
        capacity: 10,
    });
    t.advance(Event::TempCreated);
    t.advance(Event::CancelPolled(false));
    t.advance(Event::Stalled);
    let err = t.into_result().unwrap_err();
    assert_eq!(err, MediaCacheError::Io(IoFailure::Stalled));
    assert_eq!(err.message(), "media cache IO error: media download stalled");
    assert!(IoFailure::Stalled.is_timeout());
    assert_eq!(STALL_TIMEOUT_SECS, 30);
}

#[test]
fn errors_have_their_words() {
    assert_eq!(MediaCacheError::Disabled.message(), "media cache is disabled");
    assert_eq!(
        MediaCacheError::AlreadyInFlight.message(),
        "a download for this track is already in flight"
    );
    let io = IoFailure::Reported("disk full".to_string());
    assert!(!io.is_timeout());
    assert_eq!(
        MediaCacheError::Io(io).message(),
        "media cache IO error: disk full"
    );
    assert_eq!(
        MediaCacheError::Http("refused".to_string()).message(),
        "media download failed: refused"
    );
    assert_eq!(
        MediaCacheError::Status(503).message(),
        "server returned HTTP 503"
    );
    assert_eq!(
        MediaCacheError::Truncated {
            expected: 1000,
            got: 7
        }
        .message(),
        "download truncated: expected 1000 bytes, got 7"
    );
    assert_eq!(
        MediaCacheError::TooLarge {
            size: u64::MAX,
            capacity: 0
        }
        .message(),
        "track is 18446744073709551615 bytes, larger than the 0 byte cache"
    );
    assert_eq!(MediaCacheError::Cancelled.message(), "download cancelled");
}

#[test]
fn sizes_are_readable() {
    assert_eq!(format_size(0), "0 MB");
    assert_eq!(format_size(512 * 1024 * 1024), "512 MB");
    assert_eq!(format_size(3 * 1024 * 1024 * 1024), "3.0 GB");
    assert_eq!(format_size(1024 * 1024 - 1), "0 MB");
    assert_eq!(format_size(1024 * 1024 * 1024 - 1), "1023 MB");
    assert_eq!(format_size(1024 * 1024 * 1024), "1.0 GB");
    assert_eq!(format_size(1536 * 1024 * 1024), "1.5 GB");
    assert_eq!(format_size(2 * 1024 * 1024 * 1024 - 1), "1.9 GB");
    assert_eq!(format_size(u64::MAX / 10), "1717986918.3 GB");
}

#[test]
fn default_usage_needs_a_directory() {
    let c = cache("/tmp/fs-cache", 0);
    let mut disk = Disk::new(c.root());
    disk.write_named("deadbeef.flac", 300 * 1024 * 1024, 0);
    assert_eq!(
        default_usage_bytes(Some(c.root().clone()), &disk.listing()),
        Some(300 * 1024 * 1024)
    );
    assert_eq!(
        default_usage_bytes(Some(c.root().clone()), &Listing::Unreadable),
        Some(0)
    );
    assert_eq!(default_usage_bytes(None, &disk.listing()), None);
}
