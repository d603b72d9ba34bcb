//! The keyed store that every contract files its records in, and the listing of
//! what is filed under the identifiers below a counter.

use vstd::prelude::*;
use crate::account::AccountId;

verus! {

/// Keys of a [`Store`]: values that can be compared for identity at run time.
pub trait StoreKey: Sized {
    /// Whether the two keys are the same key.
    fn same_key(&self, other: &Self) -> (r: bool)
        ensures
            r == (*self == *other),
    ;
}

impl StoreKey for i32 {
    fn same_key(&self, other: &Self) -> (r: bool) {
        *self == *other
    }
}

impl StoreKey for u32 {
    fn same_key(&self, other: &Self) -> (r: bool) {
        *self == *other
    }
}

impl StoreKey for AccountId {
    fn same_key(&self, other: &Self) -> (r: bool) {
        *self == *other
    }
}

impl StoreKey for (AccountId, i32) {
    fn same_key(&self, other: &Self) -> (r: bool) {
        self.0 == other.0 && self.1 == other.1
    }
}

/// One key with the value filed under it.
pub struct Entry<K, V> {
    pub key: K,
    pub value: V,
}

/// The values filed under the keys `0, 1, .., n - 1`, in that order; a key under
/// which nothing is filed contributes nothing.
pub open spec fn filed_below<V>(m: Map<i32, V>, n: int) -> Seq<V>
    decreases n,
{
    if n <= 0 {
        Seq::empty()
    } else if m.contains_key((n - 1) as i32) {
        filed_below(m, n - 1).push(m[(n - 1) as i32])
    } else {
        filed_below(m, n - 1)
    }
}

/// What is filed at or above `n` does not show in the listing below `n`.
pub proof fn lemma_filed_below_insert<V>(m: Map<i32, V>, n: int, k: i32, v: V)
    requires
        n <= k,
    ensures
        filed_below(m.insert(k, v), n) == filed_below(m, n),
    decreases n,
{
    if n > 0 {
        lemma_filed_below_insert(m, n - 1, k, v);
    }
}

/// Where a value is filed under each of the keys `0, 1, .., n - 1`, the listing
/// below `n` holds them all: it has `n` values, and its `i`-th value is the one
/// filed under `i`.
pub proof fn lemma_filed_below_complete<V>(m: Map<i32, V>, n: int)
    requires
        0 <= n <= i32::MAX,
        forall|k: i32| 0 <= k < n ==> #[trigger] m.contains_key(k),
    ensures
        filed_below(m, n).len() == n,
        forall|i: int| 0 <= i < n ==> #[trigger] filed_below(m, n)[i] == m[i as i32],
    decreases n,
{
    if n > 0 {
        lemma_filed_below_complete(m, n - 1);
        assert(m.contains_key((n - 1) as i32));
    }
}

/// The listing `s`, extended by `v`, keeps of its own what `keep` keeps, and `v`
/// where `keep` holds of it.
pub proof fn lemma_filter_push<V>(s: Seq<V>, v: V, keep: spec_fn(V) -> bool)
    ensures
        s.push(v).filter(keep) == (if keep(v) {
            s.filter(keep).push(v)
        } else {
            s.filter(keep)
        }),
{
    reveal(Seq::filter);
    assert(s.push(v).drop_last() =~= s);
}

/// Whether some entry of `entries` carries the key `k`.
spec fn has_key<K, V>(entries: Seq<Entry<K, V>>, k: K) -> bool {
    exists|i: int| 0 <= i < entries.len() && #[trigger] entries[i].key == k
}

/// The position of an entry that carries the key `k`, where there is one.
spec fn slot_of<K, V>(entries: Seq<Entry<K, V>>, k: K) -> int {
    choose|i: int| 0 <= i < entries.len() && #[trigger] entries[i].key == k
}

/// No two entries of `entries` carry the same key.
spec fn distinct_keys<K, V>(entries: Seq<Entry<K, V>>) -> bool {
    forall|i: int, j: int|
        0 <= i < j < entries.len() ==> #[trigger] entries[i].key != #[trigger] entries[j].key
}

/// The map that a sequence of entries with distinct keys stands for.
spec fn entries_map<K, V>(entries: Seq<Entry<K, V>>) -> Map<K, V> {
    Map::new(|k: K| has_key(entries, k), |k: K| entries[slot_of(entries, k)].value)
}

proof fn lemma_slot<K, V>(entries: Seq<Entry<K, V>>, i: int)
    requires
        distinct_keys(entries),
        0 <= i < entries.len(),
    ensures
        has_key(entries, entries[i].key),
        slot_of(entries, entries[i].key) == i,
        entries_map(entries).contains_key(entries[i].key),
        entries_map(entries)[entries[i].key] == entries[i].value,
{
    let k = entries[i].key;
    assert(entries[i].key == k);
    let j = slot_of(entries, k);
    assert(0 <= j < entries.len() && entries[j].key == k);
    if j < i {
        assert(entries[j].key != entries[i].key);
    } else if i < j {
        assert(entries[i].key != entries[j].key);
    }
}

/// A keyed record store: at most one value per key.
pub struct Store<K, V> {
    entries: Vec<Entry<K, V>>,
}

impl<K, V> View for Store<K, V> {
    type V = Map<K, V>;

    closed spec fn view(&self) -> Map<K, V> {
        entries_map(self.entries@)
    }
}

impl<K, V> Store<K, V> {
    #[verifier::type_invariant]
    spec fn well_formed(self) -> bool {
        distinct_keys(self.entries@)
    }

    /// A store that holds nothing.
    pub fn new() -> (store: Self)
        ensures
            store@ == Map::<K, V>::empty(),
    {
        let store = Store { entries: Vec::new() };
        assert(store@ =~= Map::<K, V>::empty());
        store
    }
}

impl<K: StoreKey, V> Store<K, V> {
    fn find(&self, key: &K) -> (slot: Option<usize>)
        ensures
            match slot {
                Some(i) => i < self.entries@.len() && self.entries@[i as int].key == *key,
                None => !has_key(self.entries@, *key),
            },
    {
        let mut i: usize = 0;
        while i < self.entries.len()
            invariant
                i <= self.entries@.len(),
                forall|j: int| 0 <= j < i ==> self.entries@[j].key != *key,
            decreases self.entries@.len() - i,
        {
            if self.entries[i].key.same_key(key) {
                return Some(i);
            }
            i += 1;
        }
        None
    }

    /// The value filed under `key`, if there is one.
    pub fn get(&self, key: &K) -> (value: Option<&V>)
        ensures
            value == (if self@.contains_key(*key) {
                Some(&self@[*key])
            } else {
                None
            }),
    {
        proof {
            use_type_invariant(self);
        }
        match self.find(key) {
            Some(i) => {
                proof {
                    lemma_slot(self.entries@, i as int);
                }
                Some(&self.entries[i].value)
            },
            None => None,
        }
    }

    /// The entries of the store, one for each key, in no particular order.
    pub fn entries(&self) -> (entries: &Vec<Entry<K, V>>)
        ensures
            forall|i: int|
                0 <= i < entries@.len() ==> self@.contains_key(#[trigger] entries@[i].key)
                    && self@[entries@[i].key] == entries@[i].value,
            forall|k: K|
                self@.contains_key(k) ==> exists|i: int|
                    0 <= i < entries@.len() && #[trigger] entries@[i].key == k,
            forall|i: int, j: int|
                0 <= i < j < entries@.len() ==> #[trigger] entries@[i].key
                    != #[trigger] entries@[j].key,
    {
        proof {
            use_type_invariant(self);
            assert forall|i: int| 0 <= i < self.entries@.len() implies self@.contains_key(
                #[trigger] self.entries@[i].key,
            ) && self@[self.entries@[i].key] == self.entries@[i].value by {
                lemma_slot(self.entries@, i);
            }
        }
        &self.entries
    }

    /// Whether a value is filed under `key`.
    pub fn contains(&self, key: &K) -> (present: bool)
        ensures
            present == self@.contains_key(*key),
    {
        proof {
            use_type_invariant(self);
        }
        match self.find(key) {
            Some(i) => {
                proof {
                    lemma_slot(self.entries@, i as int);
                }
                true
            },
            None => false,
        }
    }

    /// Files `value` under `key`, replacing what was filed there before.
    pub fn insert(&mut self, key: K, value: V)
        ensures
            final(self)@ == old(self)@.insert(key, value),
    {
        proof {
            use_type_invariant(&*self);
        }
        let slot = self.find(&key);
        let mut entries: Vec<Entry<K, V>> = Vec::new();
        core::mem::swap(&mut entries, &mut self.entries);
        let ghost before = entries@;
        match slot {
            Some(i) => {
                entries.set(i, Entry { key, value });
            },
            None => {
                entries.push(Entry { key, value });
            },
        }
        proof {
            let after = entries@;
            let at: int = match slot {
                Some(i) => i as int,
                None => before.len() as int,
            };
            assert(after[at].key == key && after[at].value == value);
            assert(forall|j: int| 0 <= j < after.len() && j != at ==> after[j] == before[j]);
            assert(forall|j: int| 0 <= j < before.len() && j != at ==> after[j] == before[j]);
            assert(distinct_keys(after)) by {
                assert forall|i: int, j: int| 0 <= i < j < after.len() implies after[i].key
                    != after[j].key by {
                    if i != at && j != at {
                        assert(before[i].key != before[j].key);
                    } else if slot is Some {
                        assert(before[i].key != before[j].key);
                    } else {
                        assert(before[i].key == after[i].key);
                    }
                }
            }
            lemma_slot(after, at);
            assert forall|k: K| #[trigger]
                entries_map(after).contains_key(k) <==> entries_map(before).insert(
                    key,
                    value,
                ).contains_key(k) by {
                if has_key(after, k) {
                    let j = slot_of(after, k);
                    if j != at {
                        assert(before[j].key == k);
                    }
                }
                if has_key(before, k) {
                    let j = slot_of(before, k);
                    if j != at {
                        assert(after[j].key == k);
                    }
                }
            }
            assert forall|k: K| #[trigger]
                entries_map(after).contains_key(k) implies entries_map(after)[k]
                == entries_map(before).insert(key, value)[k] by {
                let j = slot_of(after, k);
                lemma_slot(after, j);
                if j != at {
                    assert(before[j].key == k);
                    lemma_slot(before, j);
                }
            }
            assert(entries_map(after) =~= entries_map(before).insert(key, value));
        }
        self.entries = entries;
    }
}

} // verus!
