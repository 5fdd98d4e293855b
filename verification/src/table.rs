//! A small keyed table that keeps its entries in the order in which their
//! keys first appeared.
use crate::ranking::{count_set, is_top_k, is_top_keys, top_k};
use vstd::prelude::*;
use vstd::set_lib::lemma_set_disjoint_lens;

verus! {

/// A key whose executable comparison agrees with equality of its view.
pub trait TableKey: View + Sized {
    fn same(&self, other: &Self) -> (r: bool)
        ensures
            r == (self@ == other@),
    ;
}

/// A key that belongs to a communicator.
pub trait CommKey: TableKey {
    /// The hash of the communicator that a key belongs to.
    spec fn comm_of(key: Self::V) -> u64;

    fn comm_hash(&self) -> (r: u64)
        ensures
            r == Self::comm_of(self@),
    ;
}

/// A value that competes, by its activity, for the places that a limit allows.
pub trait Contender: Sized {
    spec fn spec_holds_place(self) -> bool;

    spec fn spec_activity(self) -> usize;

    fn holds_place(&self) -> (r: bool)
        ensures
            r == self.spec_holds_place(),
    ;

    fn activity(&self) -> (r: usize)
        ensures
            r == self.spec_activity(),
    ;
}

/// Whether a value holds a place.
pub open spec fn holds_place<V: Contender>() -> spec_fn(V) -> bool {
    |v: V| v.spec_holds_place()
}

/// The activity of a value.
pub open spec fn activity<V: Contender>() -> spec_fn(V) -> usize {
    |v: V| v.spec_activity()
}

/// The activities of `entries`, by position.
pub open spec fn activities<K, V: Contender>(entries: Seq<(K, V)>) -> Seq<usize> {
    Seq::new(entries.len(), |i: int| entries[i].1.spec_activity())
}

/// Which of `entries` hold a place, by position.
pub open spec fn places<K, V: Contender>(entries: Seq<(K, V)>) -> Seq<bool> {
    flags_of(entries, holds_place())
}

/// Entries with distinct keys.
#[derive(Debug)]
pub struct Table<K, V> {
    pub entries: Vec<(K, V)>,
}

/// The keys of `entries`, in order.
pub open spec fn keys_of<K: View, V>(entries: Seq<(K, V)>) -> Seq<K::V> {
    Seq::new(entries.len(), |i: int| entries[i].0@)
}

/// The values of `entries` by key.
pub open spec fn map_of<K: View, V>(entries: Seq<(K, V)>) -> Map<K::V, V> {
    Map::new(
        |k: K::V| keys_of(entries).contains(k),
        |k: K::V| entries[keys_of(entries).index_of(k)].1,
    )
}

/// The keys of `map` whose values satisfy `f`.
pub open spec fn keys_where<K, V>(map: Map<K, V>, f: spec_fn(V) -> bool) -> Set<K> {
    Set::new(|k: K| map.contains_key(k) && f(map[k]))
}

/// The counts of all values of `map`, by key.
pub open spec fn counts_of<K, V>(map: Map<K, V>, count: spec_fn(V) -> usize) -> Map<K, usize> {
    Map::new(|k: K| map.contains_key(k), |k: K| count(map[k]))
}

impl<K: View, V> View for Table<K, V> {
    type V = Map<K::V, V>;

    /// The table as a map from keys to values.
    open spec fn view(&self) -> Map<K::V, V> {
        map_of(self.entries@)
    }
}

impl<K: TableKey, V> Table<K, V> {
    /// The keys, in order.
    pub open spec fn keys(&self) -> Seq<K::V> {
        keys_of(self.entries@)
    }

    /// No key occurs twice.
    pub open spec fn wf(&self) -> bool {
        self.keys().no_duplicates()
    }

    /// A table without entries.
    pub fn new() -> (r: Self)
        ensures
            r.wf(),
            r.entries@ == Seq::<(K, V)>::empty(),
            r@ == Map::<K::V, V>::empty(),
    {
        let r = Table { entries: Vec::new() };
        assert(r@ =~= Map::<K::V, V>::empty());
        r
    }

    /// Where `key` stands, if it is there.
    pub fn find(&self, key: &K) -> (r: Option<usize>)
        requires
            self.wf(),
        ensures
            r matches Some(i) ==> i < self.entries@.len() && self.keys()[i as int] == key@
                && self@.dom().contains(key@) && self@[key@] == self.entries@[i as int].1,
            r is None ==> !self.keys().contains(key@) && !self@.dom().contains(key@),
    {
        let mut i: usize = 0;
        while i < self.entries.len()
            invariant
                self.wf(),
                i <= self.entries@.len(),
                forall|j: int| 0 <= j < i ==> self.keys()[j] != key@,
            decreases self.entries@.len() - i,
        {
            if self.entries[i].0.same(key) {
                proof {
                    self.lemma_at(i as int);
                }
                return Some(i);
            }
            i = i + 1;
        }
        None
    }

    /// The map holds each entry under its key.
    pub proof fn lemma_at(&self, i: int)
        requires
            self.wf(),
            0 <= i < self.entries@.len(),
        ensures
            self@.dom().contains(self.entries@[i].0@),
            self@[self.entries@[i].0@] == self.entries@[i].1,
    {
        lemma_map_at(self.entries@, i);
    }

    /// Appends an entry under a new key.
    pub fn push(&mut self, key: K, value: V)
        requires
            old(self).wf(),
            !old(self).keys().contains(key@),
        ensures
            final(self).wf(),
            final(self).entries@ == old(self).entries@.push((key, value)),
            final(self)@ == old(self)@.insert(key@, value),
    {
        self.entries.push((key, value));
        proof {
            let n = old(self).entries@.len();
            assert(self.keys() =~= old(self).keys().push(key@));
            assert forall|a: int, b: int| 0 <= a < self.keys().len() && 0 <= b < self.keys().len()
                && a != b implies self.keys()[a] != self.keys()[b] by {
                if a == n {
                    assert(old(self).keys()[b] == self.keys()[b]);
                } else if b == n {
                    assert(old(self).keys()[a] == self.keys()[a]);
                } else {
                    assert(old(self).keys()[a] == self.keys()[a]);
                    assert(old(self).keys()[b] == self.keys()[b]);
                }
            }
            lemma_push_view(*old(self), *self, key, value);
        }
    }

    /// Replaces the value at position `i`.
    pub fn set(&mut self, i: usize, value: V)
        requires
            old(self).wf(),
            i < old(self).entries@.len(),
        ensures
            final(self).wf(),
            final(self).entries@ == old(self).entries@.update(
                i as int,
                (old(self).entries@[i as int].0, value),
            ),
            final(self)@ == old(self)@.insert(old(self).entries@[i as int].0@, value),
    {
        self.entries[i].1 = value;
        proof {
            assert(self.keys() =~= old(self).keys());
            lemma_set_view(*old(self), *self, i as int, value);
        }
    }

    /// Takes the entry at position `i` out.
    pub fn remove(&mut self, i: usize) -> (r: (K, V))
        requires
            old(self).wf(),
            i < old(self).entries@.len(),
        ensures
            final(self).wf(),
            r == old(self).entries@[i as int],
            final(self).entries@ == old(self).entries@.remove(i as int),
            final(self)@ == old(self)@.remove(old(self).entries@[i as int].0@),
    {
        let r = self.entries.remove(i);
        proof {
            lemma_remove_view(*old(self), *self, i as int);
        }
        r
    }
}

/// The map holds each entry under its key.
pub proof fn lemma_map_at<K: View, V>(entries: Seq<(K, V)>, i: int)
    requires
        keys_of(entries).no_duplicates(),
        0 <= i < entries.len(),
    ensures
        map_of(entries).contains_key(entries[i].0@),
        map_of(entries)[entries[i].0@] == entries[i].1,
{
    let k = entries[i].0@;
    assert(keys_of(entries)[i] == k);
    assert(keys_of(entries).contains(k));
    let j = keys_of(entries).index_of(k);
    assert(keys_of(entries)[j] == k);
    assert(i == j);
}

/// Entries with distinct keys can be counted by position or by key.
pub proof fn lemma_count_by_key<K: View, V>(entries: Seq<(K, V)>, f: spec_fn(V) -> bool)
    requires
        keys_of(entries).no_duplicates(),
    ensures
        map_of(entries).dom().finite(),
        map_of(entries).dom().len() == entries.len(),
        keys_where(map_of(entries), f).finite(),
        keys_where(map_of(entries), f).len() == count_set(flags_of(entries, f)),
    decreases entries.len(),
{
    let map = map_of(entries);
    if entries.len() == 0 {
        assert(map.dom() =~= Set::<K::V>::empty());
        assert(keys_where(map, f) =~= Set::<K::V>::empty());
    } else {
        let rest = entries.drop_last();
        let key = entries.last().0@;
        let n = entries.len() - 1;
        assert(keys_of(rest) =~= keys_of(entries).drop_last());
        lemma_count_by_key(rest, f);
        lemma_map_at(entries, n);
        assert(keys_of(entries)[n] == key);
        assert(!map_of(rest).contains_key(key)) by {
            if keys_of(rest).contains(key) {
                let j = keys_of(rest).index_of(key);
                assert(keys_of(entries)[j] == key);
            }
        }
        assert forall|k: K::V| k != key implies #[trigger] map.contains_key(k)
            == map_of(rest).contains_key(k) && (map.contains_key(k) ==> map[k] == map_of(
            rest,
        )[k]) by {
            if keys_of(entries).contains(k) {
                let j = keys_of(entries).index_of(k);
                assert(keys_of(rest)[j] == k);
                lemma_map_at(entries, j);
                lemma_map_at(rest, j);
            }
            if keys_of(rest).contains(k) {
                let j = keys_of(rest).index_of(k);
                assert(keys_of(entries)[j] == k);
            }
        }
        assert(map.dom() =~= map_of(rest).dom().insert(key));
        assert(flags_of(entries, f).drop_last() =~= flags_of(rest, f));
        if f(entries.last().1) {
            assert(keys_where(map, f) =~= keys_where(map_of(rest), f).insert(key));
        } else {
            assert(keys_where(map, f) =~= keys_where(map_of(rest), f));
        }
    }
}

/// Entries with the same keys hold their values at the same places.
pub proof fn lemma_same_keys<K: View, V>(a: Seq<(K, V)>, b: Seq<(K, V)>, k: K::V)
    requires
        keys_of(a) == keys_of(b),
    ensures
        map_of(a).dom() == map_of(b).dom(),
        map_of(a).contains_key(k) ==> {
            let i = keys_of(a).index_of(k);
            &&& 0 <= i < a.len()
            &&& a.len() == b.len()
            &&& keys_of(a)[i] == k
            &&& map_of(a)[k] == a[i].1
            &&& map_of(b)[k] == b[i].1
        },
{
    assert(a.len() == keys_of(a).len() && b.len() == keys_of(b).len());
    assert(map_of(a).dom() =~= map_of(b).dom());
}

/// The most active entries by position are the most active by key.
pub proof fn lemma_ranked<K: View, V: Contender>(
    before: Seq<(K, V)>,
    after: Seq<(K, V)>,
    limit: nat,
)
    requires
        keys_of(before).no_duplicates(),
        keys_of(after) == keys_of(before),
        is_top_k(activities(before), limit, places(after)),
    ensures
        is_top_keys(
            counts_of(map_of(before), activity()),
            limit,
            keys_where(map_of(after), holds_place()),
        ),
        keys_where(map_of(after), holds_place()).len() == count_set(places(after)),
{
    let counts = counts_of(map_of(before), activity());
    let chosen = keys_where(map_of(after), holds_place());
    lemma_count_by_key(before, holds_place());
    lemma_count_by_key(after, holds_place());
    assert(counts.dom() =~= map_of(before).dom());
    assert forall|k: K::V| chosen.contains(k) implies #[trigger] counts.dom().contains(k) by {
        lemma_same_keys(before, after, k);
    }
    assert forall|a: K::V, b: K::V|
        chosen.contains(a) && counts.dom().contains(b) && !chosen.contains(b) implies
        #[trigger] counts[a] >= #[trigger] counts[b] by {
        lemma_same_keys(before, after, a);
        lemma_same_keys(before, after, b);
        let i = keys_of(before).index_of(a);
        let j = keys_of(before).index_of(b);
        assert(places(after)[i] && !places(after)[j]);
        assert(activities(before)[i] >= activities(before)[j]);
    }
}

/// The keys that belong to communicator `hash`.
pub open spec fn of_comm<K: CommKey>(hash: u64) -> Set<K::V> {
    Set::new(|key: K::V| K::comm_of(key) == hash)
}

/// `map` without the keys that belong to communicator `hash`.
pub open spec fn without_comm<K: CommKey, V>(map: Map<K::V, V>, hash: u64) -> Map<K::V, V> {
    map.remove_keys(of_comm::<K>(hash))
}

/// Dropping the entries of a communicator frees the places that they hold, and
/// leaves the other keys as they were.
pub proof fn lemma_comm_dropped<K: CommKey, V: Contender>(entries: Seq<(K, V)>, hash: u64)
    requires
        keys_of(entries).no_duplicates(),
        keys_of(other_comms(entries, hash)).no_duplicates(),
    ensures
        map_of(other_comms(entries, hash)) == without_comm::<K, V>(map_of(entries), hash),
        count_set(places(other_comms(entries, hash))) + keys_where(
            map_of(entries),
            holds_place(),
        ).intersect(of_comm::<K>(hash)).len() == count_set(places(entries)),
{
    let rest = other_comms(entries, hash);
    let all = keys_where(map_of(entries), holds_place());
    let gone = all.intersect(of_comm::<K>(hash));
    let left = keys_where(map_of(rest), holds_place());
    lemma_other_comms_view(entries, hash);
    lemma_count_by_key(entries, holds_place());
    lemma_count_by_key(rest, holds_place());
    assert(left =~= all.difference(of_comm::<K>(hash)));
    lemma_set_disjoint_lens(left, gone);
    assert(left + gone =~= all);
}

/// Dropping the keys of a communicator that has none changes nothing.
pub proof fn lemma_without_unknown_comm<K: CommKey, V>(map: Map<K::V, V>, hash: u64)
    requires
        forall|key: K::V| #[trigger] map.contains_key(key) ==> K::comm_of(key) != hash,
    ensures
        without_comm::<K, V>(map, hash) == map,
{
    assert(without_comm::<K, V>(map, hash) =~= map);
}

/// Which entries satisfy `f`, by position.
pub open spec fn flags_of<K, V>(entries: Seq<(K, V)>, f: spec_fn(V) -> bool) -> Seq<bool> {
    Seq::new(entries.len(), |i: int| f(entries[i].1))
}

/// The test that an entry's key belongs to another communicator than `hash`.
pub open spec fn outside_comm<K: CommKey, V>(hash: u64) -> spec_fn((K, V)) -> bool {
    |e: (K, V)| K::comm_of(e.0@) != hash
}

/// The entries whose keys belong to other communicators than `hash`.
pub open spec fn other_comms<K: CommKey, V>(entries: Seq<(K, V)>, hash: u64) -> Seq<(K, V)> {
    entries.filter(outside_comm(hash))
}

impl<K, V: Contender> Table<K, V> {
    /// How many entries hold a place.
    pub fn count_places(&self) -> (r: usize)
        ensures
            r == count_set(places(self.entries@)),
    {
        let ghost flags = places(self.entries@);
        let n: usize = self.entries.len();
        let mut held: usize = 0;
        let mut i: usize = 0;
        while i < n
            invariant
                n == self.entries@.len(),
                i <= n,
                flags == places(self.entries@),
                held == count_set(flags.take(i as int)),
                held <= i,
            decreases n - i,
        {
            assert(flags.take(i + 1).drop_last() =~= flags.take(i as int));
            if self.entries[i].1.holds_place() {
                held = held + 1;
            }
            i = i + 1;
        }
        assert(flags.take(n as int) =~= flags);
        held
    }

    /// Selects the entries with the highest activity, and returns how many
    /// were selected.
    pub fn most_active(&self, limit: usize) -> (r: (Vec<bool>, usize))
        ensures
            is_top_k(activities(self.entries@), limit as nat, r.0@),
            r.1 == count_set(r.0@),
    {
        let n: usize = self.entries.len();
        let mut counts: Vec<usize> = Vec::new();
        let mut i: usize = 0;
        while i < n
            invariant
                n == self.entries@.len(),
                i <= n,
                counts@.len() == i,
                forall|j: int|
                    0 <= j < i ==> #[trigger] counts@[j] == self.entries@[j].1.spec_activity(),
            decreases n - i,
        {
            counts.push(self.entries[i].1.activity());
            i = i + 1;
        }
        assert(counts@ =~= activities(self.entries@));
        top_k(&counts, limit)
    }
}

impl<K: CommKey, V> Table<K, V> {
    /// Removes every entry whose key belongs to communicator `hash`; the
    /// others keep their order.
    pub fn drop_comm(&mut self, hash: u64)
        requires
            old(self).wf(),
        ensures
            final(self).wf(),
            final(self).entries@ == other_comms(old(self).entries@, hash),
    {
        let ghost all = self.entries@;
        let ghost keep = outside_comm::<K, V>(hash);
        let mut i: usize = 0;
        let ghost mut seen: int = 0;
        assert(all.take(0).filter(keep) =~= Seq::<(K, V)>::empty()) by {
            reveal(Seq::filter);
        }
        while i < self.entries.len()
            invariant
                self.wf(),
                0 <= i <= self.entries@.len(),
                0 <= seen <= all.len(),
                keep == outside_comm::<K, V>(hash),
                self.entries@.len() - i == all.len() - seen,
                self.entries@.take(i as int) == all.take(seen).filter(keep),
                self.entries@.skip(i as int) == all.skip(seen),
            decreases self.entries@.len() - i,
        {
            let ghost before = self.entries@;
            assert(before[i as int] == before.skip(i as int)[0]);
            assert(all[seen] == all.skip(seen)[0]);
            proof {
                reveal(Seq::filter);
                assert(all.take(seen + 1).drop_last() =~= all.take(seen));
                assert(all.take(seen + 1).last() == all[seen]);
            }
            if self.entries[i].0.comm_hash() == hash {
                self.remove(i);
                proof {
                    assert(self.entries@.take(i as int) =~= before.take(i as int));
                    assert(self.entries@.skip(i as int) =~= before.skip(i as int).skip(1));
                    assert(all.skip(seen + 1) =~= all.skip(seen).skip(1));
                }
            } else {
                i = i + 1;
                proof {
                    assert(self.entries@.take(i as int) =~= before.take(i - 1).push(before[i - 1]));
                    assert(self.entries@.skip(i as int) =~= before.skip(i - 1).skip(1));
                    assert(all.skip(seen + 1) =~= all.skip(seen).skip(1));
                }
            }
            proof {
                seen = seen + 1;
            }
        }
        proof {
            assert(self.entries@.take(i as int) =~= self.entries@);
            assert(all.take(seen) =~= all);
        }
    }
}

/// Dropping the entries of a communicator leaves the map as it was, but for
/// the keys of that communicator.
proof fn lemma_other_comms_view<K: CommKey, V>(entries: Seq<(K, V)>, hash: u64)
    requires
        keys_of(entries).no_duplicates(),
        keys_of(other_comms(entries, hash)).no_duplicates(),
    ensures
        map_of(other_comms(entries, hash)) == without_comm::<K, V>(map_of(entries), hash),
{
    let keep = outside_comm::<K, V>(hash);
    let rest = other_comms(entries, hash);
    let wanted = without_comm::<K, V>(map_of(entries), hash);
    assert forall|k: K::V| #[trigger] map_of(rest).dom().contains(k) implies wanted.dom().contains(k)
        && map_of(rest)[k] == wanted[k] by {
        let a = keys_of(rest).index_of(k);
        assert(keys_of(rest)[a] == k);
        entries.lemma_filter_contains_rev(keep, rest[a]);
        entries.lemma_filter_pred(keep, a);
        let j = choose|j: int| 0 <= j < entries.len() && entries[j] == rest[a];
        assert(keys_of(entries)[j] == k);
        assert(keys_of(entries)[keys_of(entries).index_of(k)] == k);
    }
    assert forall|k: K::V| #[trigger] wanted.dom().contains(k) implies map_of(rest).dom().contains(
        k,
    ) by {
        let j = keys_of(entries).index_of(k);
        assert(keys_of(entries)[j] == k);
        assert(entries.contains(entries[j]));
        entries.lemma_filter_contains(keep, j);
        let a = choose|a: int| 0 <= a < rest.len() && rest[a] == entries[j];
        assert(keys_of(rest)[a] == k);
    }
    assert(map_of(rest) =~= wanted);
}

/// A filter keeps the order: two kept items stand in the same order before.
pub proof fn lemma_filter_order<E>(s: Seq<E>, keep: spec_fn(E) -> bool, a: int, b: int)
    requires
        0 <= a < b < s.filter(keep).len(),
    ensures
        exists|i: int, j: int|
            0 <= i < j < s.len() && #[trigger] s[i] == s.filter(keep)[a] && #[trigger] s[j]
                == s.filter(keep)[b],
    decreases s.len(),
{
    reveal(Seq::filter);
    let rest = s.drop_last();
    if b < rest.filter(keep).len() {
        lemma_filter_order(rest, keep, a, b);
        let (i, j) = choose|i: int, j: int|
            0 <= i < j < rest.len() && #[trigger] rest[i] == rest.filter(keep)[a]
                && #[trigger] rest[j] == rest.filter(keep)[b];
        assert(s[i] == s.filter(keep)[a] && s[j] == s.filter(keep)[b]);
    } else {
        rest.lemma_filter_contains_rev(keep, rest.filter(keep)[a]);
        let i = choose|i: int| 0 <= i < rest.len() && rest[i] == rest.filter(keep)[a];
        let j = s.len() - 1;
        assert(s[i] == s.filter(keep)[a] && s[j] == s.filter(keep)[b]);
    }
}

proof fn lemma_push_view<K: TableKey, V>(before: Table<K, V>, after: Table<K, V>, key: K, value: V)
    requires
        before.wf(),
        after.wf(),
        after.entries@ == before.entries@.push((key, value)),
    ensures
        after@ == before@.insert(key@, value),
{
    let n = before.entries@.len() as int;
    after.lemma_at(n);
    assert forall|k: K::V| #[trigger] after@.dom().contains(k) <==> before@.insert(key@, value).dom().contains(k) by {
        if before.keys().contains(k) {
            let j = before.keys().index_of(k);
            assert(after.keys()[j] == k);
        }
        if after.keys().contains(k) && k != key@ {
            let j = after.keys().index_of(k);
            assert(before.keys()[j] == k);
        }
    }
    assert forall|k: K::V| #[trigger] after@.dom().contains(k) implies after@[k] == before@.insert(key@, value)[k] by {
        if k != key@ {
            let j = after.keys().index_of(k);
            assert(before.keys()[j] == k);
            before.lemma_at(j);
            after.lemma_at(j);
        }
    }
    assert(after@ =~= before@.insert(key@, value));
}

proof fn lemma_set_view<K: TableKey, V>(before: Table<K, V>, after: Table<K, V>, i: int, value: V)
    requires
        before.wf(),
        after.wf(),
        0 <= i < before.entries@.len(),
        after.entries@ == before.entries@.update(i, (before.entries@[i].0, value)),
    ensures
        after@ == before@.insert(before.entries@[i].0@, value),
{
    let key = before.entries@[i].0@;
    assert(after.keys() =~= before.keys());
    before.lemma_at(i);
    after.lemma_at(i);
    assert forall|k: K::V| #[trigger] after@.dom().contains(k) implies after@[k] == before@.insert(key, value)[k] by {
        if k != key {
            let j = after.keys().index_of(k);
            before.lemma_at(j);
            after.lemma_at(j);
        }
    }
    assert(after@ =~= before@.insert(key, value));
}

proof fn lemma_remove_view<K: TableKey, V>(before: Table<K, V>, after: Table<K, V>, i: int)
    requires
        before.wf(),
        0 <= i < before.entries@.len(),
        after.entries@ == before.entries@.remove(i),
    ensures
        after.wf(),
        after@ == before@.remove(before.entries@[i].0@),
{
    let key = before.entries@[i].0@;
    assert(after.keys() =~= before.keys().remove(i));
    assert forall|a: int, b: int| 0 <= a < after.keys().len() && 0 <= b < after.keys().len() && a != b
        implies after.keys()[a] != after.keys()[b] by {
        let x = if a < i { a } else { a + 1 };
        let y = if b < i { b } else { b + 1 };
        assert(before.keys()[x] == after.keys()[a]);
        assert(before.keys()[y] == after.keys()[b]);
    }
    before.lemma_at(i);
    assert forall|k: K::V| #[trigger] after@.dom().contains(k) <==> before@.remove(key).dom().contains(k) by {
        if before.keys().contains(k) && k != key {
            let j = before.keys().index_of(k);
            let a = if j < i { j } else { j - 1 };
            assert(before.keys()[j] == k);
            assert(after.keys()[a] == k);
        }
        if after.keys().contains(k) {
            let a = after.keys().index_of(k);
            let j = if a < i { a } else { a + 1 };
            assert(after.keys()[a] == k);
            assert(before.keys()[j] == k);
            assert(before.keys()[i] == key);
        }
    }
    assert forall|k: K::V| #[trigger] after@.dom().contains(k) implies after@[k] == before@.remove(key)[k] by {
        let a = after.keys().index_of(k);
        let j = if a < i { a } else { a + 1 };
        assert(after.keys()[a] == k);
        after.lemma_at(a);
        before.lemma_at(j);
    }
    assert(after@ =~= before@.remove(key));
}

} // verus!
