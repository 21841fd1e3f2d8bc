//! Least-recently-used eviction.
//!
//! Eviction is least-recently-used, approximated by modification time, which a
//! cache hit bumps. An [`Eviction`] decides which file goes next; the caller
//! removes it and reports how that went.

use crate::media_cache::listing;
use crate::media_cache::listing::{Entry, EntryModel};
use crate::path;
use crate::path::FilePath;
use vstd::prelude::*;

verus! {

/// `sorted` with `e` put behind every entry that was used no later.
pub open spec fn insert_by_age(sorted: Seq<EntryModel>, e: EntryModel) -> Seq<EntryModel>
    decreases sorted.len(),
{
    if sorted.len() == 0 || sorted.last().modified <= e.modified {
        sorted.push(e)
    } else {
        insert_by_age(sorted.drop_last(), e).push(sorted.last())
    }
}

/// `entries` with the least recently used first; entries used at the same time
/// keep their order.
pub open spec fn oldest_first(entries: Seq<EntryModel>) -> Seq<EntryModel>
    decreases entries.len(),
{
    if entries.len() == 0 {
        Seq::empty()
    } else {
        insert_by_age(oldest_first(entries.drop_last()), entries.last())
    }
}

/// Whether no entry comes before one that was used earlier.
pub open spec fn is_sorted(queue: Seq<EntryModel>) -> bool {
    forall|i: int, j: int|
        0 <= i <= j < queue.len() ==> (#[trigger] queue[i]).modified <= (
        #[trigger] queue[j]).modified
}

/// What became of an entry that eviction came to.
#[derive(Debug, Clone, Copy, PartialEq, Eq)]
pub enum Outcome {
    /// It is pinned, and was passed over.
    Kept,
    /// Its file was removed.
    Removed,
    /// Its file could not be removed.
    Failed,
}

/// The bytes freed by the removals in `log`, whose outcomes are those of the
/// first entries of `queue`.
pub open spec fn freed_of(queue: Seq<EntryModel>, log: Seq<Outcome>) -> nat
    decreases log.len(),
{
    if log.len() == 0 {
        0
    } else {
        freed_of(queue, log.drop_last()) + if log.last() is Removed {
            queue[log.len() - 1].size as nat
        } else {
            0
        }
    }
}

/// The first `n` entries of `queue` that are still there after `log`.
pub open spec fn left_of(queue: Seq<EntryModel>, log: Seq<Outcome>, n: nat) -> Seq<EntryModel>
    decreases n,
{
    if n == 0 {
        Seq::empty()
    } else {
        let rest = left_of(queue, log, (n - 1) as nat);
        if n <= log.len() && log[n - 1] is Removed {
            rest
        } else {
            rest.push(queue[n - 1])
        }
    }
}

/// The mathematical content of an `Eviction`.
pub struct EvictionModel {
    /// The entries, least recently used first.
    pub queue: Seq<EntryModel>,
    /// The size to get down to.
    pub capacity: u64,
    /// The path that is never evicted.
    pub keep: Option<Seq<u8>>,
    /// What became of the first entries.
    pub log: Seq<Outcome>,
}

impl EvictionModel {
    /// The bytes freed so far.
    pub open spec fn freed(self) -> nat {
        freed_of(self.queue, self.log)
    }

    /// The bytes that the entries still take up.
    pub open spec fn usage(self) -> int {
        listing::total(self.queue) - self.freed()
    }

    /// Whether there is nothing left to do: the entries fit, or there are no
    /// more of them.
    pub open spec fn is_done(self) -> bool {
        self.usage() <= self.capacity || self.log.len() >= self.queue.len()
    }

    /// Whether entry `i` is pinned, however its path is spelled.
    pub open spec fn is_kept(self, i: int) -> bool {
        self.keep matches Some(k) && path::same_path(k, self.queue[i].path)
    }

    /// This eviction with `outcome` recorded of the next entry.
    pub open spec fn with(self, outcome: Outcome) -> EvictionModel {
        EvictionModel { log: self.log.push(outcome), ..self }
    }

    /// Whether the next entry is to be removed.
    pub open spec fn is_waiting(self) -> bool {
        !self.is_done() && !self.is_kept(self.log.len() as int)
    }

    /// This eviction after passing over the pinned entries that come next.
    pub open spec fn settled(self) -> EvictionModel
        decreases self.queue.len() - self.log.len(),
    {
        if !self.is_done() && self.is_kept(self.log.len() as int) {
            self.with(Outcome::Kept).settled()
        } else {
            self
        }
    }

    /// The path of the next file to remove, if any.
    pub open spec fn victim(self) -> Option<Seq<u8>> {
        let s = self.settled();
        if s.is_done() {
            None
        } else {
            Some(s.queue[s.log.len() as int].path)
        }
    }

    /// This eviction when it is over, where the file at a path can be removed
    /// exactly if `removable` says so.
    pub open spec fn finished(self, removable: spec_fn(Seq<u8>) -> bool) -> EvictionModel
        decreases self.queue.len() - self.log.len(),
    {
        if self.is_done() {
            self
        } else if self.is_kept(self.log.len() as int) {
            self.with(Outcome::Kept).finished(removable)
        } else if removable(self.queue[self.log.len() as int].path) {
            self.with(Outcome::Removed).finished(removable)
        } else {
            self.with(Outcome::Failed).finished(removable)
        }
    }

    /// The entries that are still there.
    pub open spec fn survivors(self) -> Seq<EntryModel> {
        left_of(self.queue, self.log, self.queue.len())
    }

    /// What holds of every eviction, however far it has come.
    pub open spec fn is_valid(self) -> bool {
        &&& is_sorted(self.queue)
        &&& listing::total(self.queue) <= u64::MAX
        &&& self.log.len() <= self.queue.len()
        // exactly the pinned entries were passed over
        &&& forall|i: int|
            0 <= i < self.log.len() ==> (#[trigger] self.log[i] is Kept <==> self.is_kept(i))
        // the entries did not fit yet when an entry was come to
        &&& forall|i: int|
            0 <= i < self.log.len() ==> listing::total(self.queue) - #[trigger] freed_of(
                self.queue,
                self.log.take(i),
            ) > self.capacity
    }
}

/// The place of `e` among `sorted`: what is before it was used no later, what
/// is behind it was used later.
proof fn insert_by_age_at(sorted: Seq<EntryModel>, e: EntryModel, j: int)
    requires
        0 <= j <= sorted.len(),
        j > 0 ==> sorted[j - 1].modified <= e.modified,
        forall|k: int| j <= k < sorted.len() ==> (#[trigger] sorted[k]).modified > e.modified,
    ensures
        insert_by_age(sorted, e) == sorted.insert(j, e),
    decreases sorted.len(),
{
    if j == sorted.len() {
        assert(sorted.insert(j, e) =~= sorted.push(e));
    } else {
        assert(sorted[sorted.len() - 1].modified > e.modified);
        insert_by_age_at(sorted.drop_last(), e, j);
        assert(sorted.insert(j, e) =~= sorted.drop_last().insert(j, e).push(sorted.last()));
    }
}

/// Puts `entries` into the order in which they are evicted.
fn sort_by_age(entries: Vec<Entry>) -> (r: Vec<Entry>)
    ensures
        listing::models(r@) == oldest_first(listing::models(entries@)),
{
    let mut queue = entries;
    let ghost all = listing::models(entries@);
    let mut i: usize = 0;
    assert(all.take(0) =~= Seq::empty());
    assert(oldest_first(all.take(0)) + all.skip(0) =~= all);
    while i < queue.len()
        invariant
            i <= queue@.len(),
            queue@.len() == all.len(),
            oldest_first(all.take(i as int)).len() == i,
            listing::models(queue@) == oldest_first(all.take(i as int)) + all.skip(i as int),
        decreases queue@.len() - i,
    {
        let ghost before = listing::models(queue@);
        let ghost front = oldest_first(all.take(i as int));
        let e = queue.remove(i);
        assert(listing::models(queue@) =~= before.remove(i as int));
        assert(before.remove(i as int) =~= front + all.skip(i + 1));
        assert(e@ == before[i as int]);
        assert(e@ == all[i as int]);
        let mut j: usize = i;
        while j > 0 && queue[j - 1].modified > e.modified
            invariant
                j <= i,
                i <= queue@.len(),
                listing::models(queue@) == front + all.skip(i + 1),
                front.len() == i,
                forall|k: int| j <= k < i ==> (#[trigger] front[k]).modified > e.modified,
            decreases j,
        {
            assert(front[j - 1] == listing::models(queue@)[j - 1]);
            j = j - 1;
        }
        proof {
            if j > 0 {
                assert(front[j - 1] == listing::models(queue@)[j - 1]);
            }
            insert_by_age_at(front, e@, j as int);
            assert(all.take(i + 1).drop_last() =~= all.take(i as int));
            assert(oldest_first(all.take(i + 1)) == front.insert(j as int, e@));
        }
        let ghost rest = listing::models(queue@);
        queue.insert(j, e);
        assert(listing::models(queue@) =~= rest.insert(j as int, e@));
        assert(listing::models(queue@) =~= front.insert(j as int, e@) + all.skip(i + 1));
        i = i + 1;
    }
    assert(all.take(i as int) =~= all);
    assert(oldest_first(all) + all.skip(i as int) =~= oldest_first(all));
    queue
}

/// An eviction under way.
pub struct Eviction {
    queue: Vec<Entry>,
    next: usize,
    usage: u64,
    capacity: u64,
    freed: u64,
    keep: Option<FilePath>,
    log: Ghost<Seq<Outcome>>,
}

impl View for Eviction {
    type V = EvictionModel;

    closed spec fn view(&self) -> EvictionModel {
        EvictionModel {
            queue: listing::models(self.queue@),
            capacity: self.capacity,
            keep: path::known(self.keep),
            log: self.log@,
        }
    }
}

impl Eviction {
    /// The counters agree with the log, and the log is that of a run.
    pub closed spec fn wf(&self) -> bool {
        &&& self@.is_valid()
        &&& self.next == self.log@.len()
        &&& self.usage == self@.usage()
        &&& self.freed == self@.freed()
    }

    /// Starts bringing `entries` down to `capacity` bytes, never evicting
    /// `keep`.
    pub fn new(entries: Vec<Entry>, capacity: u64, keep: Option<FilePath>) -> (r: Eviction)
        requires
            listing::total(listing::models(entries@)) <= u64::MAX,
        ensures
            r.wf(),
            r@ == (EvictionModel {
                queue: oldest_first(listing::models(entries@)),
                capacity,
                keep: path::known(keep),
                log: Seq::empty(),
            }),
    {
        let usage: u64 = listing::total_size(&entries);
        proof {
            oldest_first_is_sorted(listing::models(entries@));
            oldest_first_has_same_total(listing::models(entries@));
        }
        let queue = sort_by_age(entries);
        Eviction { queue, next: 0, usage, capacity, freed: 0, keep, log: Ghost(Seq::empty()) }
    }

    /// The file to remove next, or `None` when eviction is over. The answer
    /// stays the same until [`Self::record`] is called.
    pub fn next_victim(&mut self) -> (r: Option<FilePath>)
        requires
            old(self).wf(),
        ensures
            final(self).wf(),
            final(self)@ == old(self)@.settled(),
            path::known(r) == old(self)@.victim(),
            r is Some ==> final(self)@.is_waiting(),
    {
        while self.usage > self.capacity && self.next < self.queue.len()
            invariant
                self.wf(),
                self@.settled() == old(self)@.settled(),
            ensures
                self.wf(),
                self@ == old(self)@.settled(),
                self@.is_done(),
            decreases self.queue@.len() - self.next,
        {
            let entry = &self.queue[self.next];
            assert(self@.queue[self.next as int] == entry@);
            let pinned = match &self.keep {
                Some(k) => k.same(&entry.path),
                None => false,
            };
            if !pinned {
                return Some(entry.path.clone());
            }
            self.pass(Outcome::Kept);
        }
        None
    }

    /// Reports whether the file that [`Self::next_victim`] named was removed.
    pub fn record(&mut self, removed: bool)
        requires
            old(self).wf(),
            old(self)@.is_waiting(),
        ensures
            final(self).wf(),
            final(self)@ == old(self)@.with(
                if removed {
                    Outcome::Removed
                } else {
                    Outcome::Failed
                },
            ),
    {
        if removed {
            self.pass(Outcome::Removed);
        } else {
            self.pass(Outcome::Failed);
        }
    }

    /// The bytes freed so far.
    pub fn freed(&self) -> (r: u64)
        requires
            self.wf(),
        ensures
            r == self@.freed(),
    {
        self.freed
    }

    /// Records the outcome of the next entry.
    fn pass(&mut self, outcome: Outcome)
        requires
            old(self).wf(),
            !old(self)@.is_done(),
            outcome is Kept <==> old(self)@.is_kept(old(self)@.log.len() as int),
        ensures
            final(self).wf(),
            final(self)@ == old(self)@.with(outcome),
            final(self).queue == old(self).queue,
            final(self).next == old(self).next + 1,
    {
        let ghost model = self@;
        assert(self.next < self.queue.len());
        let size: u64 = self.queue[self.next].size;
        proof {
            let more = model.log.push(outcome);
            assert(model.queue[self.next as int] == self.queue@[self.next as int]@);
            assert(more.drop_last() =~= model.log);
            freed_is_bounded(model.queue, more);
            listing::total_grows(model.queue, more.len() as int);
        }
        match outcome {
            Outcome::Removed => {
                self.usage = self.usage - size;
                self.freed = self.freed + size;
            },
            Outcome::Kept => {},
            Outcome::Failed => {},
        }
        self.next = self.next + 1;
        self.log = Ghost(self.log@.push(outcome));
        proof {
            let after = self@;
            assert forall|i: int| 0 <= i < after.log.len() implies listing::total(after.queue)
                - #[trigger] freed_of(after.queue, after.log.take(i)) > after.capacity by {
                if i < model.log.len() {
                    assert(after.log.take(i) =~= model.log.take(i));
                } else {
                    assert(after.log.take(i) =~= model.log);
                }
            }
        }
    }
}

/// No more is freed than the entries come to took up.
proof fn freed_is_bounded(queue: Seq<EntryModel>, log: Seq<Outcome>)
    requires
        log.len() <= queue.len(),
    ensures
        freed_of(queue, log) <= listing::total(queue.take(log.len() as int)),
    decreases log.len(),
{
    if log.len() > 0 {
        freed_is_bounded(queue, log.drop_last());
        listing::total_step(queue, log.len() - 1);
    }
}

/// Putting an entry in its place keeps the order and adds its size.
proof fn insert_by_age_keeps(sorted: Seq<EntryModel>, e: EntryModel)
    requires
        is_sorted(sorted),
    ensures
        is_sorted(insert_by_age(sorted, e)),
        insert_by_age(sorted, e).len() == sorted.len() + 1,
        listing::total(insert_by_age(sorted, e)) == listing::total(sorted) + e.size,
        forall|k: int|
            0 <= k <= sorted.len() ==> (#[trigger] insert_by_age(sorted, e)[k]).modified
                <= e.modified || (sorted.len() > 0 && insert_by_age(sorted, e)[k].modified
                <= sorted.last().modified),
    decreases sorted.len(),
{
    if sorted.len() == 0 || sorted.last().modified <= e.modified {
        assert(sorted.push(e).drop_last() =~= sorted);
    } else {
        let front = sorted.drop_last();
        let r = insert_by_age(front, e);
        insert_by_age_keeps(front, e);
        assert(r.push(sorted.last()).drop_last() =~= r);
        if front.len() > 0 {
            assert(front.last() == sorted[sorted.len() - 2]);
        }
    }
}

/// Eviction order puts earlier use first.
pub proof fn oldest_first_is_sorted(entries: Seq<EntryModel>)
    ensures
        is_sorted(oldest_first(entries)),
    decreases entries.len(),
{
    if entries.len() > 0 {
        oldest_first_is_sorted(entries.drop_last());
        insert_by_age_keeps(oldest_first(entries.drop_last()), entries.last());
    }
}

/// Ordering the entries does not change what they take up.
pub proof fn oldest_first_has_same_total(entries: Seq<EntryModel>)
    ensures
        oldest_first(entries).len() == entries.len(),
        listing::total(oldest_first(entries)) == listing::total(entries),
    decreases entries.len(),
{
    if entries.len() > 0 {
        oldest_first_has_same_total(entries.drop_last());
        oldest_first_is_sorted(entries.drop_last());
        insert_by_age_keeps(oldest_first(entries.drop_last()), entries.last());
    }
}

impl Eviction {
    /// What is said of valid evictions holds of every well-formed one.
    pub proof fn wf_is_valid(&self)
        requires
            self.wf(),
        ensures
            self@.is_valid(),
    {
    }
}

/// Eviction order loses no entry and invents none.
pub proof fn oldest_first_is_permutation(entries: Seq<EntryModel>)
    ensures
        oldest_first(entries).to_multiset() =~= entries.to_multiset(),
    decreases entries.len(),
{
    broadcast use vstd::seq_lib::group_to_multiset_ensures;

    if entries.len() > 0 {
        let front = entries.drop_last();
        oldest_first_is_permutation(front);
        insert_by_age_is_permutation(oldest_first(front), entries.last());
        assert(front.push(entries.last()) =~= entries);
    }
}

/// Putting an entry in its place adds that entry and nothing else.
proof fn insert_by_age_is_permutation(sorted: Seq<EntryModel>, e: EntryModel)
    ensures
        insert_by_age(sorted, e).to_multiset() =~= sorted.to_multiset().insert(e),
    decreases sorted.len(),
{
    broadcast use vstd::seq_lib::group_to_multiset_ensures;

    if sorted.len() == 0 || sorted.last().modified <= e.modified {
    } else {
        insert_by_age_is_permutation(sorted.drop_last(), e);
        assert(sorted.drop_last().push(sorted.last()) =~= sorted);
    }
}

/// Entries that were last used at the same time `t` are evicted in the order in
/// which the directory lists them.
pub proof fn oldest_first_is_stable(entries: Seq<EntryModel>, t: i128)
    ensures
        oldest_first(entries).filter(|e: EntryModel| e.modified == t) == entries.filter(
            |e: EntryModel| e.modified == t,
        ),
    decreases entries.len(),
{
    reveal(Seq::filter);
    if entries.len() > 0 {
        oldest_first_is_stable(entries.drop_last(), t);
        oldest_first_is_sorted(entries.drop_last());
        insert_by_age_is_stable(oldest_first(entries.drop_last()), entries.last(), t);
    }
}

/// Putting an entry in its place puts it last among those used when it was.
proof fn insert_by_age_is_stable(sorted: Seq<EntryModel>, e: EntryModel, t: i128)
    requires
        is_sorted(sorted),
    ensures
        insert_by_age(sorted, e).filter(|e: EntryModel| e.modified == t) == if e.modified == t {
            sorted.filter(|e: EntryModel| e.modified == t).push(e)
        } else {
            sorted.filter(|e: EntryModel| e.modified == t)
        },
    decreases sorted.len(),
{
    reveal(Seq::filter);
    let at = |e: EntryModel| e.modified == t;
    if sorted.len() == 0 || sorted.last().modified <= e.modified {
        assert(sorted.push(e).drop_last() =~= sorted);
    } else {
        let r = insert_by_age(sorted.drop_last(), e);
        insert_by_age_is_stable(sorted.drop_last(), e, t);
        assert(r.push(sorted.last()).drop_last() =~= r);
        assert(r.push(sorted.last()).last() == sorted.last());
        if e.modified == t {
            assert(!at(sorted.last()));
        }
    }
}

/// A pinned entry is never removed: what was just stored is still there when
/// its path is handed back, even in a cache that it does not fit.
pub proof fn pinned_entry_survives(m: EvictionModel, i: int)
    requires
        m.is_valid(),
        0 <= i < m.queue.len(),
        m.is_kept(i),
    ensures
        m.survivors().contains(m.queue[i]),
{
    if i < m.log.len() {
        assert(m.log[i] is Kept);
    }
    left_contains(m.queue, m.log, m.queue.len(), i);
}

/// An entry that was not removed is still there.
proof fn left_contains(queue: Seq<EntryModel>, log: Seq<Outcome>, n: nat, i: int)
    requires
        0 <= i < n <= queue.len(),
        i < log.len() ==> !(log[i] is Removed),
    ensures
        left_of(queue, log, n).contains(queue[i]),
    decreases n,
{
    let rest = left_of(queue, log, (n - 1) as nat);
    let all = left_of(queue, log, n);
    if i == n - 1 {
        assert(all[all.len() - 1] == queue[i]);
    } else {
        left_contains(queue, log, (n - 1) as nat, i);
        let j = choose|j: int| 0 <= j < rest.len() && rest[j] == queue[i];
        assert(all[j] == queue[i]);
    }
}

/// The least recently used goes first: before an entry is removed, every entry
/// last used earlier was removed too, unless it is pinned or could not be.
pub proof fn least_recently_used_goes_first(m: EvictionModel, i: int, j: int)
    requires
        m.is_valid(),
        0 <= i < m.queue.len(),
        0 <= j < m.log.len(),
        m.log[j] is Removed,
        m.queue[i].modified < m.queue[j].modified,
    ensures
        i < j,
        m.log[i] is Removed || m.log[i] is Failed || m.is_kept(i),
{
    if j <= i {
        assert(m.queue[j].modified <= m.queue[i].modified);
    }
    assert(m.log[i] is Kept <==> m.is_kept(i));
}

/// No more is evicted than needed: when an entry was removed, those that were
/// still there did not fit.
pub proof fn evicts_no_more_than_needed(m: EvictionModel, j: int)
    requires
        m.is_valid(),
        0 <= j < m.log.len(),
        m.log[j] is Removed,
    ensures
        listing::total(m.queue) - freed_of(m.queue, m.log.take(j)) > m.capacity,
{
}

/// What was freed and what is still there add up to what there was.
pub proof fn freed_is_accounted_for(m: EvictionModel)
    requires
        m.is_valid(),
    ensures
        listing::total(m.survivors()) + m.freed() == listing::total(m.queue),
        m.usage() == listing::total(m.survivors()),
{
    left_is_accounted_for(m.queue, m.log, m.queue.len());
    assert(m.log.take(m.log.len() as int) =~= m.log);
    assert(m.queue.take(m.queue.len() as int) =~= m.queue);
}

/// `freed_is_accounted_for`, of the first `n` entries.
proof fn left_is_accounted_for(queue: Seq<EntryModel>, log: Seq<Outcome>, n: nat)
    requires
        log.len() <= queue.len(),
        n <= queue.len(),
    ensures
        listing::total(left_of(queue, log, n)) + freed_of(
            queue,
            log.take(if n <= log.len() { n as int } else { log.len() as int }),
        ) == listing::total(queue.take(n as int)),
    decreases n,
{
    if n == 0 {
        assert(queue.take(0) =~= Seq::empty());
        assert(log.take(0) =~= Seq::empty());
    } else {
        let k = (n - 1) as nat;
        left_is_accounted_for(queue, log, k);
        listing::total_step(queue, k as int);
        let rest = left_of(queue, log, k);
        assert(rest.push(queue[k as int]).drop_last() =~= rest);
        if n <= log.len() {
            assert(log.take(n as int).drop_last() =~= log.take(k as int));
            assert(log.take(n as int).last() == log[k as int]);
        }
    }
}

/// Entries that fit are left alone.
pub proof fn fitting_entries_are_left_alone(m: EvictionModel)
    requires
        m.log.len() == 0,
        listing::total(m.queue) <= m.capacity,
    ensures
        m.victim() is None,
        m.settled() == m,
        m.freed() == 0,
{
}

/// Asking for the next file and reporting on it are steps toward the end that
/// `finished` describes.
pub proof fn steps_lead_to_the_end(m: EvictionModel, removable: spec_fn(Seq<u8>) -> bool)
    ensures
        m.settled().finished(removable) == m.finished(removable),
        m.is_waiting() ==> m.with(
            if removable(m.queue[m.log.len() as int].path) {
                Outcome::Removed
            } else {
                Outcome::Failed
            },
        ).finished(removable) == m.finished(removable),
    decreases m.queue.len() - m.log.len(),
{
    if !m.is_done() && m.is_kept(m.log.len() as int) {
        steps_lead_to_the_end(m.with(Outcome::Kept), removable);
    }
}

/// An eviction that runs to its end stays valid, tries each file at most once
/// and reports what became of it.
pub proof fn eviction_comes_to_an_end(m: EvictionModel, removable: spec_fn(Seq<u8>) -> bool)
    requires
        m.is_valid(),
    ensures
        m.finished(removable).is_valid(),
        m.finished(removable).is_done(),
        m.finished(removable).queue == m.queue,
        m.finished(removable).capacity == m.capacity,
        m.finished(removable).keep == m.keep,
        m.log.is_prefix_of(m.finished(removable).log),
        forall|i: int|
            m.log.len() <= i < m.finished(removable).log.len() ==> (
            #[trigger] m.finished(removable).log[i] is Failed <==> !m.is_kept(i) && !removable(
                m.queue[i].path,
            )),
    decreases m.queue.len() - m.log.len(),
{
    if m.is_done() {
        assert(m.log.subrange(0, m.log.len() as int) =~= m.log);
    } else {
        let next: int = m.log.len() as int;
        let outcome = if m.is_kept(next) {
            Outcome::Kept
        } else if removable(m.queue[next].path) {
            Outcome::Removed
        } else {
            Outcome::Failed
        };
        let n = m.with(outcome);
        assert forall|i: int| 0 <= i < n.log.len() implies listing::total(n.queue)
            - #[trigger] freed_of(n.queue, n.log.take(i)) > n.capacity by {
            if i < next {
                assert(n.log.take(i) =~= m.log.take(i));
            } else {
                assert(n.log.take(i) =~= m.log);
            }
        }
        assert(n.is_valid());
        eviction_comes_to_an_end(n, removable);
        let end = m.finished(removable);
        assert(end == n.finished(removable));
        assert(n.log =~= end.log.subrange(0, n.log.len() as int));
        assert(m.log =~= end.log.subrange(0, next)) by {
            assert(m.log =~= n.log.subrange(0, next));
        }
        assert(end.log[next] == n.log[next]);
    }
}

/// Where every file can be removed, eviction ends with the entries within the
/// capacity, or with none but the pinned one left.
pub proof fn eviction_makes_room(m: EvictionModel, removable: spec_fn(Seq<u8>) -> bool)
    requires
        m.is_valid(),
        m.log.len() == 0,
        forall|p: Seq<u8>| #[trigger] removable(p),
    ensures
        ({
            let end = m.finished(removable);
            listing::total(end.survivors()) <= m.capacity || forall|i: int|
                0 <= i < m.queue.len() ==> #[trigger] end.log[i] is Removed || m.is_kept(i)
        }),
{
    eviction_comes_to_an_end(m, removable);
    let end = m.finished(removable);
    freed_is_accounted_for(end);
    if end.usage() > m.capacity {
        assert forall|i: int| 0 <= i < m.queue.len() implies #[trigger] end.log[i] is Removed
            || m.is_kept(i) by {
            assert(removable(m.queue[i].path));
            assert(end.log[i] is Kept <==> end.is_kept(i));
        }
    }
}

/// Putting an entry in its place keeps paths apart.
proof fn insert_by_age_keeps_paths_apart(sorted: Seq<EntryModel>, e: EntryModel)
    requires
        listing::paths_differ(sorted.push(e)),
    ensures
        listing::paths_differ(insert_by_age(sorted, e)),
    decreases sorted.len(),
{
    let all = sorted.push(e);
    if !(sorted.len() == 0 || sorted.last().modified <= e.modified) {
        let front = sorted.drop_last();
        let n: int = front.len() as int;
        let r = insert_by_age(front, e);
        assert(all[n] == sorted.last() && all[n + 1] == e);
        assert forall|i: int, j: int| 0 <= i < j < front.push(e).len() implies !path::same_path(
            (#[trigger] front.push(e)[i]).path,
            (#[trigger] front.push(e)[j]).path,
        ) by {
            assert(all[i] == front.push(e)[i]);
            assert(all[if j == n { n + 1 } else { j }] == front.push(e)[j]);
        }
        insert_by_age_keeps_paths_apart(front, e);
        insert_by_age_is_permutation(front, e);
        assert forall|i: int| 0 <= i < r.len() implies !path::same_path(
            (#[trigger] r[i]).path,
            sorted.last().path,
        ) by {
            assert(r.contains(r[i]));
            vstd::seq_lib::to_multiset_contains(r, r[i]);
            if r[i] != e {
                assert(front.to_multiset().count(r[i]) > 0);
                vstd::seq_lib::to_multiset_contains(front, r[i]);
                let k = choose|k: int| 0 <= k < front.len() && front[k] == r[i];
                assert(all[k] == r[i]);
            }
        }
    }
}

/// Ordering the entries keeps their paths apart.
pub proof fn oldest_first_keeps_paths_apart(entries: Seq<EntryModel>)
    requires
        listing::paths_differ(entries),
    ensures
        listing::paths_differ(oldest_first(entries)),
    decreases entries.len(),
{
    if entries.len() > 0 {
        let front = entries.drop_last();
        let e = entries.last();
        let sorted = oldest_first(front);
        assert forall|i: int, j: int| 0 <= i < j < front.len() implies !path::same_path(
            (#[trigger] front[i]).path,
            (#[trigger] front[j]).path,
        ) by {
            assert(entries[i] == front[i] && entries[j] == front[j]);
        }
        oldest_first_keeps_paths_apart(front);
        oldest_first_is_permutation(front);
        assert forall|i: int| 0 <= i < sorted.len() implies !path::same_path(
            (#[trigger] sorted[i]).path,
            e.path,
        ) by {
            assert(sorted.contains(sorted[i]));
            vstd::seq_lib::to_multiset_contains(sorted, sorted[i]);
            vstd::seq_lib::to_multiset_contains(front, sorted[i]);
            let k = choose|k: int| 0 <= k < front.len() && front[k] == sorted[i];
            assert(entries[k] == sorted[i] && entries[entries.len() - 1] == e);
        }
        insert_by_age_keeps_paths_apart(sorted, e);
    }
}

/// Where all but entry `k` were removed, no more is left than that takes up.
proof fn left_is_at_most_one(queue: Seq<EntryModel>, log: Seq<Outcome>, n: nat, k: int)
    requires
        n <= log.len(),
        n <= queue.len(),
        forall|i: int| 0 <= i < n && i != k ==> #[trigger] log[i] is Removed,
    ensures
        listing::total(left_of(queue, log, n)) <= if 0 <= k < n {
            queue[k].size as nat
        } else {
            0
        },
    decreases n,
{
    if n > 0 {
        let rest = left_of(queue, log, (n - 1) as nat);
        left_is_at_most_one(queue, log, (n - 1) as nat, k);
        assert(rest.push(queue[n - 1]).drop_last() =~= rest);
    }
}

/// Where every file has a path of its own and can be removed, and the pinned one
/// is no larger than the capacity, eviction ends with the entries within the
/// capacity.
pub proof fn eviction_ends_within_the_capacity(
    m: EvictionModel,
    removable: spec_fn(Seq<u8>) -> bool,
)
    requires
        m.is_valid(),
        m.log.len() == 0,
        listing::paths_differ(m.queue),
        forall|i: int|
            0 <= i < m.queue.len() && #[trigger] m.is_kept(i) ==> m.queue[i].size <= m.capacity,
        forall|p: Seq<u8>| #[trigger] removable(p),
    ensures
        listing::total(m.finished(removable).survivors()) <= m.capacity,
{
    eviction_comes_to_an_end(m, removable);
    let end = m.finished(removable);
    freed_is_accounted_for(end);
    if end.usage() > m.capacity {
        eviction_makes_room(m, removable);
        let k: int = if exists|i: int| 0 <= i < m.queue.len() && #[trigger] m.is_kept(i) {
            choose|i: int| 0 <= i < m.queue.len() && #[trigger] m.is_kept(i)
        } else {
            -1
        };
        assert forall|i: int| 0 <= i < m.queue.len() && i != k implies #[trigger]
            end.log[i] is Removed by {
            if m.is_kept(i) {
                assert(m.is_kept(k));
                assert(path::same_path(m.queue[i].path, m.queue[k].path));
            }
        }
        left_is_at_most_one(m.queue, end.log, m.queue.len(), k);
    }
}

/// A just-used track is protected: an entry used later than every other one is
/// removed only once every other one is gone, pinned, or could not be removed.
pub proof fn most_recently_used_goes_last(m: EvictionModel, last: int)
    requires
        m.is_valid(),
        0 <= last < m.log.len(),
        m.log[last] is Removed,
        forall|i: int|
            0 <= i < m.queue.len() && i != last ==> (#[trigger] m.queue[i]).modified
                < m.queue[last].modified,
    ensures
        forall|i: int|
            0 <= i < m.queue.len() && i != last ==> #[trigger] m.log[i] is Removed
                || m.log[i] is Failed || m.is_kept(i),
{
    assert forall|i: int| 0 <= i < m.queue.len() && i != last implies #[trigger] m.log[i] is Removed
        || m.log[i] is Failed || m.is_kept(i) by {
        assert(m.queue[i].modified < m.queue[last].modified);
        least_recently_used_goes_first(m, i, last);
    }
}

} // verus!
