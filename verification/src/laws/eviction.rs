//! Laws of eviction.

use crate::media_cache::eviction;
use crate::media_cache::eviction::{Eviction, EvictionModel, Outcome};
use crate::media_cache::listing;
use crate::media_cache::listing::{Entry, EntryModel};
use crate::path;
use crate::path::FilePath;
use vstd::prelude::*;

verus! {

/// Whether an eviction is to spare the file at `p`.
pub open spec fn spares(m: EvictionModel, p: Seq<u8>) -> bool {
    m.keep is Some && path::same_path(m.keep->0, p)
}

/// An eviction begins with all the entries and nothing else, the least recently
/// used first, and those used at the same time `t` in the order in which they
/// came. It goes by the capacity and spares the file that it was given, and has
/// freed nothing yet.
pub proof fn an_eviction_begins_with_the_oldest(
    entries: Vec<Entry>,
    capacity: u64,
    keep: Option<FilePath>,
    r: Eviction,
    freed: u64,
    t: i128,
)
    requires
        call_ensures(Eviction::new, (entries, capacity, keep), r),
        call_ensures(Eviction::freed, (&r,), freed),
    ensures
        ({
            let all = Seq::new(
                entries@.len(),
                |i: int|
                    EntryModel {
                        path: entries@[i].path@,
                        size: entries@[i].size,
                        modified: entries@[i].modified,
                    },
            );
            &&& r@.queue.len() == entries@.len()
            &&& r@.queue.to_multiset() == all.to_multiset()
            &&& forall|i: int, j: int|
                0 <= i <= j < r@.queue.len() ==> (#[trigger] r@.queue[i]).modified <= (
                #[trigger] r@.queue[j]).modified
            &&& r@.queue.filter(|e: EntryModel| e.modified == t) == all.filter(
                |e: EntryModel| e.modified == t,
            )
        }),
        r@.capacity == capacity,
        keep matches Some(k) ==> r@.keep == Some(k@),
        keep is None ==> r@.keep is None,
        r@.log.len() == 0,
        freed == 0,
{
    let all = Seq::new(
        entries@.len(),
        |i: int|
            EntryModel {
                path: entries@[i].path@,
                size: entries@[i].size,
                modified: entries@[i].modified,
            },
    );
    assert(all =~= listing::models(entries@));
    eviction::oldest_first_is_permutation(all);
    eviction::oldest_first_is_sorted(all);
    eviction::oldest_first_has_same_total(all);
    eviction::oldest_first_is_stable(all, t);
}

/// What passing over pinned entries comes to.
proof fn settling_passes_over_pinned_entries(m: EvictionModel)
    requires
        m.log.len() <= m.queue.len(),
    ensures
        ({
            let s = m.settled();
            &&& s.queue == m.queue && s.capacity == m.capacity && s.keep == m.keep
            &&& m.log.len() <= s.log.len() <= m.queue.len()
            &&& m.log.is_prefix_of(s.log)
            &&& forall|i: int|
                m.log.len() <= i < s.log.len() ==> #[trigger] s.log[i] is Kept && m.is_kept(i)
            &&& s.freed() == m.freed()
        }),
    decreases m.queue.len() - m.log.len(),
{
    if !m.is_done() && m.is_kept(m.log.len() as int) {
        let n = m.with(Outcome::Kept);
        settling_passes_over_pinned_entries(n);
        let s = m.settled();
        assert(n.log.drop_last() =~= m.log);
        assert(m.log =~= n.log.subrange(0, m.log.len() as int));
        assert(n.log =~= s.log.subrange(0, n.log.len() as int));
        assert(m.log =~= s.log.subrange(0, m.log.len() as int));
        assert(s.log[m.log.len() as int] == n.log[m.log.len() as int]);
    } else {
        assert(m.log =~= m.log.subrange(0, m.log.len() as int));
    }
}

/// The file named for removal is that of the entry whose outcome is recorded
/// next. No entry that remains was used earlier, it is not the file to spare, and
/// what remains does not fit the capacity. Where none is named, what remains fits
/// the capacity, or nothing remains. What was passed over on the way is to be
/// spared, and nothing was freed by asking.
pub proof fn the_least_recently_used_is_named(
    e: &mut Eviction,
    r: Option<FilePath>,
    before: u64,
    after: u64,
)
    requires
        old(e).wf(),
        call_ensures(Eviction::next_victim, (e,), r),
        call_ensures(Eviction::freed, (&*old(e),), before),
        call_ensures(Eviction::freed, (&*final(e),), after),
    ensures
        final(e).wf(),
        after == before,
        ({
            let o = old(e)@;
            let m = final(e)@;
            let next = m.log.len() as int;
            &&& m.queue == o.queue && m.capacity == o.capacity && m.keep == o.keep
            &&& o.log.is_prefix_of(m.log)
            &&& next <= m.queue.len()
            &&& forall|i: int|
                o.log.len() <= i < next ==> #[trigger] m.log[i] is Kept && spares(
                    m,
                    m.queue[i].path,
                )
            &&& r matches Some(p) ==> {
                &&& next < m.queue.len()
                &&& p@ == m.queue[next].path
                &&& !spares(m, p@)
                &&& forall|j: int|
                    next <= j < m.queue.len() ==> m.queue[next].modified <= (
                    #[trigger] m.queue[j]).modified
                &&& listing::total(m.queue) - after > m.capacity
            }
            &&& r is None ==> listing::total(m.queue) - after <= m.capacity || next
                == m.queue.len()
        }),
{
    old(e).wf_is_valid();
    final(e).wf_is_valid();
    settling_passes_over_pinned_entries(old(e)@);
    let m = final(e)@;
    assert forall|i: int| old(e)@.log.len() <= i < m.log.len() implies #[trigger] m.log[i] is Kept
        && spares(m, m.queue[i].path) by {
        assert(old(e)@.is_kept(i));
    }
    settling_ends(old(e)@);
}

/// Passing over pinned entries ends where the entries fit, none is left, or one
/// that is not pinned comes.
proof fn settling_ends(m: EvictionModel)
    ensures
        m.settled().is_done() || !m.settled().is_kept(m.settled().log.len() as int),
    decreases m.queue.len() - m.log.len(),
{
    if !m.is_done() && m.is_kept(m.log.len() as int) {
        settling_ends(m.with(Outcome::Kept));
    }
}

/// Reporting on the file that was named moves on to the next entry, and adds the
/// length of the file to what was freed exactly if it was removed.
pub proof fn removals_free_the_length_of_the_file(
    e: &mut Eviction,
    removed: bool,
    before: u64,
    after: u64,
)
    requires
        old(e).wf(),
        old(e)@.log.len() < old(e)@.queue.len(),
        call_ensures(Eviction::record, (e, removed), ()),
        call_ensures(Eviction::freed, (&*old(e),), before),
        call_ensures(Eviction::freed, (&*final(e),), after),
    ensures
        ({
            let o = old(e)@;
            let m = final(e)@;
            &&& m.queue == o.queue && m.capacity == o.capacity && m.keep == o.keep
            &&& m.log.len() == o.log.len() + 1
            &&& o.log.is_prefix_of(m.log)
            &&& removed ==> m.log.last() is Removed && after == before
                + o.queue[o.log.len() as int].size
            &&& !removed ==> m.log.last() is Failed && after == before
        }),
{
    let o = old(e)@;
    let m = final(e)@;
    assert(m.log.drop_last() =~= o.log);
    assert(o.log =~= m.log.subrange(0, o.log.len() as int));
}

/// Whatever has happened, no file that was to be spared was removed, each file
/// was removed while what was left did not fit the capacity, and nothing that
/// was used earlier was left to be tried.
pub proof fn evictions_are_justified(e: Eviction, i: int)
    requires
        e.wf(),
        0 <= i < e@.log.len(),
        e@.log[i] is Removed,
    ensures
        i < e@.queue.len(),
        !spares(e@, e@.queue[i].path),
        listing::total(e@.queue) - eviction::freed_of(e@.queue, e@.log.take(i)) > e@.capacity,
        forall|j: int|
            i <= j < e@.queue.len() ==> e@.queue[i].modified <= (#[trigger] e@.queue[j]).modified,
{
    e.wf_is_valid();
    assert(e@.log[i] is Kept <==> e@.is_kept(i));
}

/// What was freed is the lengths of the removed files, added up.
pub proof fn what_was_freed_adds_up(queue: Seq<EntryModel>, log: Seq<Outcome>, outcome: Outcome)
    requires
        log.len() < queue.len(),
    ensures
        eviction::freed_of(queue, Seq::empty()) == 0,
        eviction::freed_of(queue, log.push(outcome)) == eviction::freed_of(queue, log)
            + if outcome is Removed {
            queue[log.len() as int].size as int
        } else {
            0
        },
{
    assert(log.push(outcome).drop_last() =~= log);
}

/// What survives is what was not removed: an entry is still there exactly if it
/// stands in a place of the queue whose file was not removed.
pub proof fn survivors_were_not_removed(m: EvictionModel, e: EntryModel)
    requires
        m.log.len() <= m.queue.len(),
    ensures
        m.survivors().contains(e) <==> exists|i: int|
            0 <= i < m.queue.len() && #[trigger] m.queue[i] == e && !(i < m.log.len()
                && m.log[i] is Removed),
{
    left_is_what_was_not_removed(m.queue, m.log, m.queue.len(), e);
}

/// `survivors_were_not_removed`, of the first `n` entries.
proof fn left_is_what_was_not_removed(
    queue: Seq<EntryModel>,
    log: Seq<Outcome>,
    n: nat,
    e: EntryModel,
)
    requires
        log.len() <= queue.len(),
        n <= queue.len(),
    ensures
        eviction::left_of(queue, log, n).contains(e) <==> exists|i: int|
            0 <= i < n && #[trigger] queue[i] == e && !(i < log.len() && log[i] is Removed),
    decreases n,
{
    let all = eviction::left_of(queue, log, n);
    if n > 0 {
        let k = (n - 1) as nat;
        let rest = eviction::left_of(queue, log, k);
        left_is_what_was_not_removed(queue, log, k, e);
        if all.contains(e) {
            let j = choose|j: int| 0 <= j < all.len() && all[j] == e;
            if j < rest.len() {
                assert(rest[j] == e);
                assert(rest.contains(e));
            } else {
                assert(queue[k as int] == e);
            }
        }
        if exists|i: int|
            0 <= i < n && #[trigger] queue[i] == e && !(i < log.len() && log[i] is Removed) {
            let i = choose|i: int|
                0 <= i < n && #[trigger] queue[i] == e && !(i < log.len() && log[i] is Removed);
            if i < k {
                let j = choose|j: int| 0 <= j < rest.len() && rest[j] == e;
                assert(all[j] == e);
            } else {
                assert(all[all.len() - 1] == e);
            }
        }
    }
}

} // verus!
