//! What the cache directory holds, and how much of it counts.

use crate::media_cache::name;
use crate::path;
use crate::path::FilePath;
use vstd::prelude::*;

verus! {

/// Age in nanoseconds past which a leaked in-progress download file is swept:
/// one hour.
pub const TEMP_SWEEP_AGE: i128 = 3600000000000;

/// What the filesystem reports of one file or directory.
#[derive(Debug, Clone, Copy, PartialEq, Eq)]
pub struct FileMeta {
    /// Whether it is a regular file.
    pub is_file: bool,
    /// Its length in bytes.
    pub len: u64,
    /// When it was last modified, in nanoseconds since the Unix epoch, where
    /// the filesystem keeps that.
    pub modified: Option<i128>,
}

impl FileMeta {
    /// Whether this is a file that playback can use: a regular file that is
    /// not empty.
    pub open spec fn is_playable(self) -> bool {
        self.is_file && self.len > 0
    }

    /// The time by which eviction orders: the Unix epoch where none is kept.
    pub open spec fn age_key(self) -> i128 {
        match self.modified {
            Some(t) => t,
            None => 0,
        }
    }
}

/// Whether a probe of a path found a file that playback can use.
pub open spec fn found_playable(probe: Option<FileMeta>) -> bool {
    probe matches Some(m) && m.is_playable()
}

/// Whether a probe of a path found a file that playback can use.
pub fn is_found_playable(probe: &Option<FileMeta>) -> (r: bool)
    ensures
        r == found_playable(*probe),
{
    match probe {
        Some(m) => m.is_file && m.len > 0,
        None => false,
    }
}

/// One entry of a directory.
#[derive(Debug)]
pub struct DirItem {
    /// Its name within the directory.
    pub name: Vec<u8>,
    /// What is known of it, or `None` where it could not be examined.
    pub meta: Option<FileMeta>,
}

/// The mathematical content of a `DirItem`.
pub struct ItemModel {
    pub name: Seq<u8>,
    pub meta: Option<FileMeta>,
}

impl View for DirItem {
    type V = ItemModel;

    open spec fn view(&self) -> ItemModel {
        ItemModel { name: self.name@, meta: self.meta }
    }
}

/// The content of an entry, or `None` where it could not be read.
pub open spec fn item_model(item: Option<DirItem>) -> Option<ItemModel> {
    match item {
        Some(i) => Some(i@),
        None => None,
    }
}

/// What reading a directory gave.
#[derive(Debug)]
pub enum Listing {
    /// The directory does not exist or cannot be read.
    Unreadable,
    /// Its entries in the order in which they were read, with a `None` for each
    /// entry that could not be read.
    Items(Vec<Option<DirItem>>),
}

impl View for Listing {
    type V = Seq<Option<ItemModel>>;

    open spec fn view(&self) -> Seq<Option<ItemModel>> {
        match *self {
            Listing::Unreadable => Seq::empty(),
            Listing::Items(v) => v@.map_values(|i: Option<DirItem>| item_model(i)),
        }
    }
}

/// One cached file, as seen by usage accounting and eviction.
#[derive(Debug, PartialEq, Eq)]
pub struct Entry {
    /// Where the file is.
    pub path: FilePath,
    /// Its length in bytes.
    pub size: u64,
    /// When it was last used, in nanoseconds since the Unix epoch.
    pub modified: i128,
}

/// The mathematical content of an `Entry`.
pub struct EntryModel {
    pub path: Seq<u8>,
    pub size: u64,
    pub modified: i128,
}

impl View for Entry {
    type V = EntryModel;

    open spec fn view(&self) -> EntryModel {
        EntryModel { path: self.path@, size: self.size, modified: self.modified }
    }
}

/// The contents of a sequence of entries.
pub open spec fn models(entries: Seq<Entry>) -> Seq<EntryModel> {
    entries.map_values(|e: Entry| e@)
}

/// The cached file that a directory entry is, if it is one: a regular file
/// that is not an in-progress download.
pub open spec fn entry_of(root: Seq<u8>, item: Option<ItemModel>) -> Option<EntryModel> {
    match item {
        Some(i) => match i.meta {
            Some(m) => if m.is_file && !name::is_temp(i.name) {
                Some(
                    EntryModel {
                        path: path::join(root, i.name),
                        size: m.len,
                        modified: m.age_key(),
                    },
                )
            } else {
                None
            },
            None => None,
        },
        None => None,
    }
}

/// The cached files among the entries of the directory `root`, in their order.
pub open spec fn entries_of(root: Seq<u8>, items: Seq<Option<ItemModel>>) -> Seq<EntryModel> {
    items.filter_map(|i: Option<ItemModel>| entry_of(root, i))
}

/// The bytes that `entries` take up together.
pub open spec fn total(entries: Seq<EntryModel>) -> nat
    decreases entries.len(),
{
    if entries.len() == 0 {
        0
    } else {
        total(entries.drop_last()) + entries.last().size as nat
    }
}

/// Whether `items` can be what a directory holds: each name is a single path
/// component, and no name occurs twice.
pub open spec fn is_directory(items: Seq<Option<ItemModel>>) -> bool {
    &&& forall|k: int|
        0 <= k < items.len() ==> (#[trigger] items[k] matches Some(i) ==> path::is_component(
            i.name,
        ))
    &&& forall|j: int, k: int|
        0 <= j < k < items.len() && #[trigger] items[j] is Some && #[trigger] items[k] is Some
            ==> items[j]->0.name != items[k]->0.name
}

/// Whether no two entries have equal paths.
pub open spec fn paths_differ(entries: Seq<EntryModel>) -> bool {
    forall|i: int, j: int|
        0 <= i < j < entries.len() ==> !path::same_path(
            (#[trigger] entries[i]).path,
            (#[trigger] entries[j]).path,
        )
}

/// The path to sweep, if a directory entry is an in-progress download that was
/// last written more than `TEMP_SWEEP_AGE` before `now`.
pub open spec fn stale_of(root: Seq<u8>, item: Option<ItemModel>, now: i128) -> Option<Seq<u8>> {
    match item {
        Some(i) => match i.meta {
            Some(m) => match m.modified {
                Some(t) => if name::is_temp(i.name) && now - t > TEMP_SWEEP_AGE {
                    Some(path::join(root, i.name))
                } else {
                    None
                },
                None => None,
            },
            None => None,
        },
        None => None,
    }
}

/// The paths to sweep in the directory `root`, in their order.
pub open spec fn stale_paths(
    root: Seq<u8>,
    items: Seq<Option<ItemModel>>,
    now: i128,
) -> Seq<Seq<u8>> {
    items.filter_map(|i: Option<ItemModel>| stale_of(root, i, now))
}

/// The contents of a sequence of paths.
pub open spec fn path_models(paths: Seq<FilePath>) -> Seq<Seq<u8>> {
    paths.map_values(|p: FilePath| p@)
}

/// The cached file that a directory entry is, if it is one.
fn entry_from(root: &FilePath, item: &Option<DirItem>) -> (r: Option<Entry>)
    ensures
        (match r {
            Some(e) => Some(e@),
            None => None,
        }) == entry_of(root@, item_model(*item)),
{
    let i = match item {
        Some(i) => i,
        None => {
            return None;
        },
    };
    if name::is_temp_name(&i.name) {
        return None;
    }
    match &i.meta {
        Some(m) => {
            if !m.is_file {
                return None;
            }
            let modified: i128 = match m.modified {
                Some(t) => t,
                None => 0,
            };
            Some(Entry { path: root.join(&i.name), size: m.len, modified })
        },
        None => None,
    }
}

/// Completed cache entries in the directory `root`, in the order of its
/// listing. Empty when the directory cannot be read, so that an unused cache
/// reads as empty rather than as an error.
pub fn scan_entries(root: &FilePath, listing: &Listing) -> (r: Vec<Entry>)
    ensures
        models(r@) == entries_of(root@, listing@),
{
    let mut out: Vec<Entry> = Vec::new();
    match listing {
        Listing::Unreadable => {
            assert(models(out@) =~= Seq::empty());
        },
        Listing::Items(items) => {
            let mut k: usize = 0;
            assert(listing@.take(0) =~= Seq::empty());
            assert(models(out@) =~= Seq::empty());
            while k < items.len()
                invariant
                    k <= items@.len(),
                    *listing == Listing::Items(*items),
                    listing@.len() == items@.len(),
                    models(out@) == entries_of(root@, listing@.take(k as int)),
                decreases items@.len() - k,
            {
                let found = entry_from(root, &items[k]);
                assert(listing@[k as int] == item_model(items@[k as int]));
                assert(listing@.take(k + 1).drop_last() =~= listing@.take(k as int));
                let ghost before = out@;
                match found {
                    Some(e) => {
                        out.push(e);
                        assert(models(out@) =~= models(before).push(e@));
                    },
                    None => {},
                }
                k = k + 1;
            }
            assert(listing@.take(k as int) =~= listing@);
        },
    }
    out
}

/// The path to sweep, if a directory entry is a stale in-progress download.
fn stale_from(root: &FilePath, item: &Option<DirItem>, now: i128) -> (r: Option<FilePath>)
    ensures
        path::known(r) == stale_of(root@, item_model(*item), now),
{
    let i = match item {
        Some(i) => i,
        None => {
            return None;
        },
    };
    if !name::is_temp_name(&i.name) {
        return None;
    }
    match &i.meta {
        Some(m) => match m.modified {
            Some(t) => {
                if is_older(t, now) {
                    Some(root.join(&i.name))
                } else {
                    None
                }
            },
            None => None,
        },
        None => None,
    }
}

/// Whether `t` lies more than `TEMP_SWEEP_AGE` before `now`.
fn is_older(t: i128, now: i128) -> (r: bool)
    ensures
        r == (now - t > TEMP_SWEEP_AGE),
{
    if now < t {
        return false;
    }
    match now.checked_sub(t) {
        Some(age) => age > TEMP_SWEEP_AGE,
        None => true,
    }
}

/// In-progress download files in the directory `root` that a killed process
/// left behind, in the order of its listing.
///
/// The age gate keeps a live transfer of another running instance out of the
/// result.
pub fn scan_stale(root: &FilePath, listing: &Listing, now: i128) -> (r: Vec<FilePath>)
    ensures
        path_models(r@) == stale_paths(root@, listing@, now),
{
    let mut out: Vec<FilePath> = Vec::new();
    match listing {
        Listing::Unreadable => {
            assert(path_models(out@) =~= Seq::empty());
        },
        Listing::Items(items) => {
            let mut k: usize = 0;
            assert(listing@.take(0) =~= Seq::empty());
            assert(path_models(out@) =~= Seq::empty());
            while k < items.len()
                invariant
                    k <= items@.len(),
                    *listing == Listing::Items(*items),
                    listing@.len() == items@.len(),
                    path_models(out@) == stale_paths(root@, listing@.take(k as int), now),
                decreases items@.len() - k,
            {
                let found = stale_from(root, &items[k], now);
                assert(listing@[k as int] == item_model(items@[k as int]));
                assert(listing@.take(k + 1).drop_last() =~= listing@.take(k as int));
                let ghost before = out@;
                match found {
                    Some(p) => {
                        out.push(p);
                        assert(path_models(out@) =~= path_models(before).push(p@));
                    },
                    None => {},
                }
                k = k + 1;
            }
            assert(listing@.take(k as int) =~= listing@);
        },
    }
    out
}

/// The bytes that `entries` take up together, or `None` where they are more
/// than a `u64` can count.
pub fn checked_total(entries: &Vec<Entry>) -> (r: Option<u64>)
    ensures
        match r {
            Some(n) => n == total(models(entries@)),
            None => total(models(entries@)) > u64::MAX,
        },
{
    let mut sum: u64 = 0;
    let mut k: usize = 0;
    assert(models(entries@).take(0) =~= Seq::empty());
    while k < entries.len()
        invariant
            k <= entries@.len(),
            sum == total(models(entries@).take(k as int)),
        decreases entries@.len() - k,
    {
        proof {
            total_step(models(entries@), k as int);
            total_grows(models(entries@), k + 1);
        }
        match sum.checked_add(entries[k].size) {
            Some(n) => {
                sum = n;
            },
            None => {
                return None;
            },
        }
        k = k + 1;
    }
    assert(models(entries@).take(k as int) =~= models(entries@));
    Some(sum)
}

/// The bytes that `entries` take up together.
pub fn total_size(entries: &Vec<Entry>) -> (r: u64)
    requires
        total(models(entries@)) <= u64::MAX,
    ensures
        r == total(models(entries@)),
{
    match checked_total(entries) {
        Some(n) => n,
        None => 0,
    }
}

/// One more entry adds its size.
pub proof fn total_step(entries: Seq<EntryModel>, k: int)
    requires
        0 <= k < entries.len(),
    ensures
        total(entries.take(k + 1)) == total(entries.take(k)) + entries[k].size,
{
    assert(entries.take(k + 1).drop_last() =~= entries.take(k));
}

/// Some of the entries take up no more than all of them.
pub proof fn total_grows(entries: Seq<EntryModel>, k: int)
    requires
        0 <= k <= entries.len(),
    ensures
        total(entries.take(k)) <= total(entries),
    decreases entries.len() - k,
{
    if k == entries.len() {
        assert(entries.take(k) =~= entries);
    } else {
        total_step(entries, k);
        total_grows(entries, k + 1);
    }
}

/// Without one entry, the others take up what it did not.
proof fn total_without(entries: Seq<EntryModel>, i: int)
    requires
        0 <= i < entries.len(),
    ensures
        total(entries.remove(i)) + entries[i].size == total(entries),
    decreases entries.len(),
{
    let rest = entries.drop_last();
    if i == entries.len() - 1 {
        assert(entries.remove(i) =~= rest);
    } else {
        total_without(rest, i);
        assert(entries.remove(i).drop_last() =~= rest.remove(i));
        assert(entries.remove(i).last() == entries.last());
    }
}

/// The order of the entries does not matter to what they take up.
pub proof fn order_does_not_count(a: Seq<EntryModel>, b: Seq<EntryModel>)
    requires
        a.to_multiset() == b.to_multiset(),
    ensures
        total(a) == total(b),
    decreases a.len(),
{
    broadcast use vstd::seq_lib::group_to_multiset_ensures;

    assert(a.to_multiset().len() == a.len() && b.to_multiset().len() == b.len());
    if a.len() > 0 {
        let last: int = a.len() - 1;
        assert(a.contains(a[last]));
        assert(a.to_multiset().count(a[last]) > 0);
        assert(b.contains(a[last]));
        let i = choose|i: int| 0 <= i < b.len() && b[i] == a[last];
        total_without(a, last);
        total_without(b, i);
        order_does_not_count(a.remove(last), b.remove(i));
    }
}

/// The entries of a directory have paths of their own.
pub proof fn entries_have_their_own_paths(root: Seq<u8>, items: Seq<Option<ItemModel>>)
    requires
        is_directory(items),
    ensures
        paths_differ(entries_of(root, items)),
    decreases items.len(),
{
    if items.len() > 0 {
        let rest = items.drop_last();
        let entry = |i: Option<ItemModel>| entry_of(root, i);
        let known = entries_of(root, rest);
        assert forall|k: int| 0 <= k < rest.len() implies (#[trigger] rest[k] matches Some(i)
            ==> path::is_component(i.name)) by {
            assert(rest[k] == items[k]);
        }
        entries_have_their_own_paths(root, rest);
        if let Some(e) = entry_of(root, items.last()) {
            assert(items[items.len() - 1] == items.last());
            assert forall|i: int| 0 <= i < known.len() implies !path::same_path(
                (#[trigger] known[i]).path,
                e.path,
            ) by {
                assert(known.contains(known[i]));
                rest.lemma_filter_map_contains(entry, known[i]);
                let t = choose|t: Option<ItemModel>| #[trigger]
                    rest.contains(t) && entry(t) == Some(known[i]);
                let k = choose|k: int| 0 <= k < rest.len() && rest[k] == t;
                assert(items[k] == t);
                path::entries_are_told_apart(root, t->0.name, items.last()->0.name);
            }
            assert(entries_of(root, items) =~= known.push(e));
        }
    }
}

/// In-progress downloads are not cache content: taking them out of the
/// directory changes neither the entries nor, therefore, the usage.
pub proof fn temporaries_do_not_count(root: Seq<u8>, items: Seq<Option<ItemModel>>)
    ensures
        entries_of(root, items) == entries_of(
            root,
            items.filter(|i: Option<ItemModel>| !(i matches Some(m) && name::is_temp(m.name))),
        ),
    decreases items.len(),
{
    let keep = |i: Option<ItemModel>| !(i matches Some(m) && name::is_temp(m.name));
    reveal(Seq::filter);
    if items.len() > 0 {
        let rest = items.drop_last();
        temporaries_do_not_count(root, rest);
        if keep(items.last()) {
            assert(items.filter(keep).drop_last() =~= rest.filter(keep));
        } else {
            assert(entry_of(root, items.last()) is None);
        }
    }
}

/// Without its entries, a directory holds none.
pub proof fn no_entries_are_left(root: Seq<u8>, items: Seq<Option<ItemModel>>)
    ensures
        entries_of(root, items.filter(|i: Option<ItemModel>| entry_of(root, i) is None))
            == Seq::<EntryModel>::empty(),
    decreases items.len(),
{
    let keep = |i: Option<ItemModel>| entry_of(root, i) is None;
    reveal(Seq::filter);
    if items.len() > 0 {
        let rest = items.drop_last();
        no_entries_are_left(root, rest);
        if keep(items.last()) {
            assert(items.filter(keep).drop_last() =~= rest.filter(keep));
        }
    }
}

/// A regular file of the directory that is no in-progress download is among its
/// entries, at its path and with its length.
pub proof fn file_is_counted(root: Seq<u8>, items: Seq<Option<ItemModel>>, k: int)
    requires
        0 <= k < items.len(),
        entry_of(root, items[k]) is Some,
    ensures
        entries_of(root, items).contains(entry_of(root, items[k])->0),
    decreases items.len(),
{
    let e = entry_of(root, items[k])->0;
    let rest = items.drop_last();
    let all = entries_of(root, items);
    if k == items.len() - 1 {
        assert(all[all.len() - 1] == e);
    } else {
        file_is_counted(root, rest, k);
        let j = choose|j: int| 0 <= j < entries_of(root, rest).len() && entries_of(root, rest)[j] == e;
        assert(all[j] == e);
    }
}

/// A stale in-progress download is among what is swept.
pub proof fn stale_download_is_swept(
    root: Seq<u8>,
    items: Seq<Option<ItemModel>>,
    now: i128,
    k: int,
)
    requires
        0 <= k < items.len(),
        stale_of(root, items[k], now) is Some,
    ensures
        stale_paths(root, items, now).contains(stale_of(root, items[k], now)->0),
    decreases items.len(),
{
    let p = stale_of(root, items[k], now)->0;
    let rest = items.drop_last();
    let known = stale_paths(root, rest, now);
    let all = stale_paths(root, items, now);
    if k == items.len() - 1 {
        assert(all[all.len() - 1] == p);
    } else {
        stale_download_is_swept(root, rest, now, k);
        let j = choose|j: int| 0 <= j < known.len() && known[j] == p;
        assert(all[j] == p);
    }
}

/// The sweep never takes a cached file: no path that is swept is the path of an
/// entry of the directory.
pub proof fn sweep_spares_entries(
    root: Seq<u8>,
    items: Seq<Option<ItemModel>>,
    now: i128,
    p: Seq<u8>,
    e: EntryModel,
)
    requires
        forall|k: int|
            0 <= k < items.len() ==> (#[trigger] items[k] matches Some(i) ==> path::is_component(
                i.name,
            )),
        stale_paths(root, items, now).contains(p),
        entries_of(root, items).contains(e),
    ensures
        !path::same_path(p, e.path),
{
    let stale = |i: Option<ItemModel>| stale_of(root, i, now);
    let entry = |i: Option<ItemModel>| entry_of(root, i);
    items.lemma_filter_map_contains(stale, p);
    items.lemma_filter_map_contains(entry, e);
    let a = choose|t: Option<ItemModel>| #[trigger] items.contains(t) && stale(t) == Some(p);
    let b = choose|t: Option<ItemModel>| #[trigger] items.contains(t) && entry(t) == Some(e);
    path::entries_are_told_apart(root, a->0.name, b->0.name);
}

} // verus!
