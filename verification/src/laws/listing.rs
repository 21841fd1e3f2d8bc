//! Laws of what a cache directory holds.

use crate::laws::naming;
use crate::media_cache::listing;
use crate::media_cache::listing::{DirItem, Entry, FileMeta, Listing};
use crate::path;
use crate::path::FilePath;
use vstd::prelude::*;

verus! {

/// A file can be played exactly if it is a regular file with at least one byte.
pub proof fn only_files_with_bytes_are_playable(probe: &Option<FileMeta>, r: bool)
    requires
        call_ensures(listing::is_found_playable, (probe,), r),
    ensures
        r <==> *probe is Some && (*probe)->0.is_file && (*probe)->0.len >= 1,
        r <==> listing::found_playable(*probe),
{
}

/// Whether a directory entry is a regular file that is no in-progress download,
/// as far as it could be examined.
pub open spec fn is_cached(item: Option<DirItem>) -> bool {
    item matches Some(i) && i.meta is Some && i.meta->0.is_file && !naming::is_download(i.name@)
}

/// Whether `e` says where the file of `item` lies, how long it is, and when it
/// was last used, which is at the beginning of time where that is not kept.
pub open spec fn describes(e: Entry, root: Seq<u8>, item: DirItem) -> bool {
    &&& item.meta is Some
    &&& e.path@ == path::join(root, item.name@)
    &&& e.size == item.meta->0.len
    &&& item.meta->0.modified matches Some(t) ==> e.modified == t
    &&& item.meta->0.modified is None ==> e.modified == 0
}

/// Whether two entries agree in everything.
pub open spec fn agree(a: Entry, b: Entry) -> bool {
    a.path@ == b.path@ && a.size == b.size && a.modified == b.modified
}

/// A directory without entries, or that cannot be read, holds no cached file.
pub proof fn an_empty_directory_holds_nothing(
    root: &FilePath,
    listing: &Listing,
    now: i128,
    entries: Vec<Entry>,
    stale: Vec<FilePath>,
)
    requires
        *listing matches Listing::Items(v) ==> v@.len() == 0,
        call_ensures(listing::scan_entries, (root, listing), entries),
        call_ensures(listing::scan_stale, (root, listing, now), stale),
    ensures
        entries@.len() == 0,
        stale@.len() == 0,
{
    assert(listing@.len() == 0);
    assert(listing::models(entries@).len() == entries@.len());
    assert(listing::path_models(stale@).len() == stale@.len());
}

/// One directory entry more adds one cached file, at the end, if it is a regular
/// file that is no in-progress download; otherwise it adds none. The others stay
/// as they are.
pub proof fn each_file_is_an_entry(
    root: &FilePath,
    before: &Listing,
    items: Vec<Option<DirItem>>,
    after: &Listing,
    more: Vec<Option<DirItem>>,
    item: Option<DirItem>,
    r: Vec<Entry>,
    q: Vec<Entry>,
)
    requires
        *before == Listing::Items(items),
        *after == Listing::Items(more),
        more@ == items@.push(item),
        call_ensures(listing::scan_entries, (root, before), r),
        call_ensures(listing::scan_entries, (root, after), q),
    ensures
        q@.len() == r@.len() + if is_cached(item) {
            1int
        } else {
            0
        },
        forall|j: int| 0 <= j < r@.len() ==> agree(#[trigger] r@[j], q@[j]),
        is_cached(item) ==> describes(q@[r@.len() as int], root@, item->0),
{
    assert(after@ =~= before@.push(listing::item_model(item)));
    assert(after@.drop_last() =~= before@);
    let a = listing::models(r@);
    let b = listing::models(q@);
    assert(a.len() == r@.len() && b.len() == q@.len());
    if let Some(i) = item {
        naming::temporaries_begin_so(i.name@);
    }
    assert(is_cached(item) <==> listing::entry_of(root@, after@.last()) is Some);
    assert(b =~= if is_cached(item) {
        a.push(listing::entry_of(root@, after@.last())->0)
    } else {
        a
    });
    assert forall|j: int| 0 <= j < r@.len() implies agree(#[trigger] r@[j], q@[j]) by {
        assert(a[j] == r@[j]@ && b[j] == q@[j]@);
        assert(a[j] == b[j]);
    }
    if is_cached(item) {
        assert(b[r@.len() as int] == q@[r@.len() as int]@);
    }
}

/// Whether a directory entry is an in-progress download that was last written
/// more than an hour, that is 3600000000000 nanoseconds, before `now`.
pub open spec fn is_stale(item: Option<DirItem>, now: i128) -> bool {
    item matches Some(i) && naming::is_download(i.name@) && i.meta is Some
        && i.meta->0.modified is Some && now - i.meta->0.modified->0 > 3600000000000
}

/// One directory entry more adds one path to sweep, at the end, if it is an
/// in-progress download last written more than an hour ago; otherwise it adds
/// none. The others stay as they are.
pub proof fn each_stale_download_is_swept(
    root: &FilePath,
    now: i128,
    before: &Listing,
    items: Vec<Option<DirItem>>,
    after: &Listing,
    more: Vec<Option<DirItem>>,
    item: Option<DirItem>,
    r: Vec<FilePath>,
    q: Vec<FilePath>,
)
    requires
        *before == Listing::Items(items),
        *after == Listing::Items(more),
        more@ == items@.push(item),
        call_ensures(listing::scan_stale, (root, before, now), r),
        call_ensures(listing::scan_stale, (root, after, now), q),
    ensures
        q@.len() == r@.len() + if is_stale(item, now) {
            1int
        } else {
            0
        },
        forall|j: int| 0 <= j < r@.len() ==> (#[trigger] r@[j])@ == q@[j]@,
        is_stale(item, now) ==> q@[r@.len() as int]@ == path::join(root@, (item->0).name@),
{
    assert(after@ =~= before@.push(listing::item_model(item)));
    assert(after@.drop_last() =~= before@);
    let a = listing::path_models(r@);
    let b = listing::path_models(q@);
    assert(a.len() == r@.len() && b.len() == q@.len());
    if let Some(i) = item {
        naming::temporaries_begin_so(i.name@);
    }
    assert(is_stale(item, now) <==> listing::stale_of(root@, after@.last(), now) is Some);
    assert(b =~= if is_stale(item, now) {
        a.push(listing::stale_of(root@, after@.last(), now)->0)
    } else {
        a
    });
    assert forall|j: int| 0 <= j < r@.len() implies (#[trigger] r@[j])@ == q@[j]@ by {
        assert(a[j] == r@[j]@ && b[j] == q@[j]@);
        assert(a[j] == b[j]);
    }
    if is_stale(item, now) {
        assert(b[r@.len() as int] == q@[r@.len() as int]@);
    }
}

/// Whether `p` is the path of `item`, a stale in-progress download.
pub open spec fn is_left_behind(p: Seq<u8>, root: Seq<u8>, item: Option<DirItem>, now: i128) -> bool {
    is_stale(item, now) && p == path::join(root, (item->0).name@)
}

/// What is swept is exactly what was left behind: a path is swept if and only if
/// it is that of a directory entry whose name begins with `.download-` and that
/// was last written more than an hour before `now`, whatever its length.
pub proof fn the_sweep_takes_what_was_left_behind(
    root: &FilePath,
    listing: &Listing,
    items: Vec<Option<DirItem>>,
    now: i128,
    r: Vec<FilePath>,
    p: Seq<u8>,
)
    requires
        *listing == Listing::Items(items),
        call_ensures(listing::scan_stale, (root, listing, now), r),
    ensures
        (exists|j: int| 0 <= j < r@.len() && (#[trigger] r@[j])@ == p) <==> (exists|k: int|
            0 <= k < items@.len() && is_left_behind(p, root@, #[trigger] items@[k], now)),
{
    let f = |i: Option<listing::ItemModel>| listing::stale_of(root@, i, now);
    let swept = listing::path_models(r@);
    assert(swept.len() == r@.len());
    if exists|j: int| 0 <= j < r@.len() && (#[trigger] r@[j])@ == p {
        let j = choose|j: int| 0 <= j < r@.len() && (#[trigger] r@[j])@ == p;
        assert(swept[j] == p);
        assert(swept.contains(p));
        listing@.lemma_filter_map_contains(f, p);
        let t = choose|t: Option<listing::ItemModel>| #[trigger]
            listing@.contains(t) && f(t) == Some(p);
        let k = choose|k: int| 0 <= k < listing@.len() && listing@[k] == t;
        assert(t == listing::item_model(items@[k]));
        naming::temporaries_begin_so(t->0.name);
        assert(is_left_behind(p, root@, items@[k], now));
    }
    if exists|k: int| 0 <= k < items@.len() && is_left_behind(p, root@, #[trigger] items@[k], now) {
        let k = choose|k: int|
            0 <= k < items@.len() && is_left_behind(p, root@, #[trigger] items@[k], now);
        let t = listing::item_model(items@[k]);
        assert(listing@[k] == t);
        naming::temporaries_begin_so(t->0.name);
        listing::stale_download_is_swept(root@, listing@, now, k);
        let j = choose|j: int| 0 <= j < swept.len() && swept[j] == p;
        assert(r@[j]@ == p);
    }
}

/// Nothing takes up no bytes.
pub proof fn nothing_takes_up_nothing(entries: &Vec<Entry>, r: Option<u64>)
    requires
        entries@.len() == 0,
        call_ensures(listing::checked_total, (entries,), r),
    ensures
        r == Some(0u64),
{
    assert(listing::models(entries@) =~= Seq::empty());
}

/// One entry more takes up its length more. There is no total exactly if it would
/// be more than 18446744073709551615.
pub proof fn each_entry_takes_up_its_length(
    before: &Vec<Entry>,
    after: &Vec<Entry>,
    e: Entry,
    r: Option<u64>,
    q: Option<u64>,
)
    requires
        after@ == before@.push(e),
        call_ensures(listing::checked_total, (before,), r),
        call_ensures(listing::checked_total, (after,), q),
    ensures
        r matches Some(n) ==> if n + e.size <= 18446744073709551615 {
            q is Some && q->0 == n + e.size
        } else {
            q is None
        },
        r is None ==> q is None,
{
    let a = listing::models(before@);
    let b = listing::models(after@);
    assert(b =~= a.push(e@));
    assert(b.drop_last() =~= a);
    assert(b.last() == e@);
}

/// The total is the checked total, where there is one.
pub proof fn the_total_is_the_checked_one(entries: &Vec<Entry>, r: Option<u64>, n: u64)
    requires
        r is Some,
        call_ensures(listing::checked_total, (entries,), r),
        call_ensures(listing::total_size, (entries,), n),
    ensures
        r == Some(n),
        n == listing::total(listing::models(entries@)),
{
}

} // verus!
