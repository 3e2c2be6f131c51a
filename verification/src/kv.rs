//! The map store: a key-value container whose writes can be staged in an
//! atomic batch, checkpointed, rewound, aborted or committed.
//!
//! The mathematical model is a pair of a *confirmed* map and a *pending*
//! sequence of staged writes. An association list (newest binding last)
//! denotes the confirmed map through [`assoc_map`]; the batch denotes, once
//! applied in order by [`apply_ops`], the *speculative* map a reader sees
//! through the batch.

use vstd::prelude::*;
use crate::errors::StoreError;

verus! {

/// A key of a store map: a plain value that can be copied freely and
/// compared executably, with the comparison agreeing with mathematical
/// equality.
pub trait StoreKey: Sized + Copy {
    /// Executable equality.
    fn same(&self, other: &Self) -> (r: bool)
        ensures
            r <==> *self == *other,
    ;
}

/// The map an association list denotes: a later binding overrides an earlier
/// one.
pub open spec fn assoc_map<K, V>(s: Seq<(K, V)>) -> Map<K, V>
    decreases s.len(),
{
    if s.len() == 0 {
        Map::empty()
    } else {
        assoc_map(s.drop_last()).insert(s.last().0, s.last().1)
    }
}

/// Whether an association list binds each key at most once.
pub open spec fn distinct_keys<K, V>(s: Seq<(K, V)>) -> bool {
    forall|i: int, j: int| 0 <= i < j < s.len() ==> s[i].0 != s[j].0
}

/// A batch of staged writes applied to a map, in order: `Some(v)` stages an
/// insert, `None` stages a removal.
pub open spec fn apply_ops<K, V>(m: Map<K, V>, b: Seq<(K, Option<V>)>) -> Map<K, V>
    decreases b.len(),
{
    if b.len() == 0 {
        m
    } else {
        let prior = apply_ops(m, b.drop_last());
        match b.last().1 {
            Some(v) => prior.insert(b.last().0, v),
            None => prior.remove(b.last().0),
        }
    }
}

/// The last staged write for a key, if the batch touches it at all.
pub open spec fn last_write<K, V>(b: Seq<(K, Option<V>)>, k: K) -> Option<Option<V>>
    decreases b.len(),
{
    if b.len() == 0 {
        None
    } else if b.last().0 == k {
        Some(b.last().1)
    } else {
        last_write(b.drop_last(), k)
    }
}

/// Appending one pair to an association list inserts its binding.
pub proof fn lemma_assoc_push<K, V>(s: Seq<(K, V)>, key: K, value: V)
    ensures
        assoc_map(s.push((key, value))) == assoc_map(s).insert(key, value),
{
    assert(s.push((key, value)).drop_last() =~= s);
    assert(s.push((key, value)).last() == (key, value));
}

/// A key bound nowhere in the list is outside the denoted map's domain.
pub proof fn lemma_assoc_absent<K, V>(s: Seq<(K, V)>, k: K)
    requires
        forall|i: int| 0 <= i < s.len() ==> s[i].0 != k,
    ensures
        !assoc_map(s).dom().contains(k),
    decreases s.len(),
{
    if s.len() > 0 {
        lemma_assoc_absent(s.drop_last(), k);
    }
}

/// The denoted map's domain is exactly the set of keys bound in the list.
pub proof fn lemma_assoc_contains<K, V>(s: Seq<(K, V)>, k: K)
    ensures
        assoc_map(s).dom().contains(k) <==> exists|i: int| 0 <= i < s.len() && s[i].0 == k,
    decreases s.len(),
{
    if s.len() > 0 {
        lemma_assoc_contains(s.drop_last(), k);
        if s.last().0 == k {
            assert(s[s.len() - 1].0 == k);
        } else if exists|i: int| 0 <= i < s.len() && s[i].0 == k {
            let i = choose|i: int| 0 <= i < s.len() && s[i].0 == k;
            assert(s.drop_last()[i] == s[i]);
        }
    }
}

/// In a list with distinct keys, the denoted map sends each bound key to the
/// value beside it.
pub proof fn lemma_assoc_find<K, V>(s: Seq<(K, V)>, i: int)
    requires
        distinct_keys(s),
        0 <= i < s.len(),
    ensures
        assoc_map(s).dom().contains(s[i].0),
        assoc_map(s)[s[i].0] == s[i].1,
    decreases s.len(),
{
    if i == s.len() - 1 {
    } else {
        lemma_assoc_find(s.drop_last(), i);
        assert(s.drop_last()[i] == s[i]);
    }
}

/// Removing a list entry removes its key from the denoted map, provided keys
/// are distinct.
pub proof fn lemma_assoc_remove_at<K, V>(s: Seq<(K, V)>, i: int)
    requires
        distinct_keys(s),
        0 <= i < s.len(),
    ensures
        assoc_map(s.remove(i)) == assoc_map(s).remove(s[i].0),
        distinct_keys(s.remove(i)),
    decreases s.len(),
{
    assert forall|p: int, q: int| 0 <= p < q < s.remove(i).len() implies s.remove(i)[p].0 != s.remove(i)[q].0 by {
        assert(s.remove(i)[p] == (if p < i { s[p] } else { s[p + 1] }));
        assert(s.remove(i)[q] == (if q < i { s[q] } else { s[q + 1] }));
    }
    if i == s.len() - 1 {
        assert(s.remove(i) =~= s.drop_last());
        assert(forall|j: int| 0 <= j < s.drop_last().len() ==> s.drop_last()[j] == s[j]);
        lemma_assoc_absent(s.drop_last(), s[i].0);
        assert(assoc_map(s.drop_last()).remove(s[i].0) =~= assoc_map(s.drop_last()));
        assert(assoc_map(s).remove(s[i].0) =~= assoc_map(s.drop_last()));
    } else {
        lemma_assoc_remove_at(s.drop_last(), i);
        assert(s.remove(i).drop_last() =~= s.drop_last().remove(i));
        assert(s.remove(i).last() == s.last());
        assert(s.drop_last()[i] == s[i]);
        // The final binding and the removed key differ, so the insert and
        // the removal commute.
        assert(s.last().0 != s[i].0);
        assert(assoc_map(s.drop_last()).remove(s[i].0).insert(s.last().0, s.last().1) =~= assoc_map(
            s.drop_last(),
        ).insert(s.last().0, s.last().1).remove(s[i].0));
    }
}

/// Staging one more write and then applying the batch is applying the batch
/// and then performing the write.
pub proof fn lemma_apply_push<K, V>(m: Map<K, V>, b: Seq<(K, Option<V>)>, k: K, w: Option<V>)
    ensures
        apply_ops(m, b.push((k, w))) == (match w {
            Some(v) => apply_ops(m, b).insert(k, v),
            None => apply_ops(m, b).remove(k),
        }),
{
    assert(b.push((k, w)).drop_last() =~= b);
    assert(b.push((k, w)).last() == (k, w));
}

/// What a batch leaves at one key is decided by the last staged write for
/// that key, or by the starting map where the batch never touches it.
pub proof fn lemma_apply_last_write<K, V>(m: Map<K, V>, b: Seq<(K, Option<V>)>, k: K)
    ensures
        (match last_write(b, k) {
            Some(Some(v)) => apply_ops(m, b).dom().contains(k) && apply_ops(m, b)[k] == v,
            Some(None) => !apply_ops(m, b).dom().contains(k),
            None => (apply_ops(m, b).dom().contains(k) <==> m.dom().contains(k)) && (m.dom().contains(
                k,
            ) ==> apply_ops(m, b)[k] == m[k]),
        }),
    decreases b.len(),
{
    if b.len() > 0 {
        lemma_apply_last_write(m, b.drop_last(), k);
    }
}

/// Two batches applied one after the other are their concatenation applied
/// once: a nested scope's staged writes land in the same single commit as
/// the outer scope's.
pub proof fn lemma_apply_append<K, V>(m: Map<K, V>, b1: Seq<(K, Option<V>)>, b2: Seq<(K, Option<V>)>)
    ensures
        apply_ops(m, b1 + b2) == apply_ops(apply_ops(m, b1), b2),
    decreases b2.len(),
{
    if b2.len() == 0 {
        assert(b1 + b2 =~= b1);
    } else {
        lemma_apply_append(m, b1, b2.drop_last());
        assert((b1 + b2).drop_last() =~= b1 + b2.drop_last());
        assert((b1 + b2).last() == b2.last());
    }
}

/// A key-value map with batchable writes.
///
/// Outside a batch, `insert` and `remove` write the confirmed state
/// directly. Inside a batch they stage writes, which later commit in
/// insertion order as one unit, or are rewound or discarded.
pub struct KvMap<K, V> {
    entries: Vec<(K, V)>,
    batch: Vec<(K, Option<V>)>,
    checkpoints: Vec<usize>,
    batch_open: bool,
}

impl<K, V> KvMap<K, V> {
    /// The committed bindings, oldest first, each key bound once.
    pub closed spec fn entries(self) -> Seq<(K, V)> {
        self.entries@
    }

    /// The staged writes of the in-progress batch, oldest first.
    pub closed spec fn pending(self) -> Seq<(K, Option<V>)> {
        self.batch@
    }

    /// The stack of checkpoint positions inside the pending writes.
    pub closed spec fn marks(self) -> Seq<usize> {
        self.checkpoints@
    }

    /// Whether an atomic batch is open on this map.
    pub closed spec fn in_batch(self) -> bool {
        self.batch_open
    }

    /// The committed contents.
    pub open spec fn confirmed(self) -> Map<K, V> {
        assoc_map(self.entries())
    }

    /// The contents as the in-progress batch would leave them.
    pub open spec fn speculative(self) -> Map<K, V> {
        apply_ops(self.confirmed(), self.pending())
    }

    /// Well-formedness: keys committed once each; no staged writes or
    /// checkpoints outside a batch; checkpoints within bounds and stacked in
    /// order.
    pub closed spec fn wf(self) -> bool {
        &&& distinct_keys(self.entries@)
        &&& (!self.batch_open ==> self.batch@.len() == 0 && self.checkpoints@.len() == 0)
        &&& (forall|i: int| 0 <= i < self.checkpoints@.len() ==> self.checkpoints@[i] <= self.batch@.len())
        &&& (forall|i: int, j: int|
            0 <= i <= j < self.checkpoints@.len() ==> self.checkpoints@[i] <= self.checkpoints@[j])
    }

    /// A well-formed map binds every committed key at most once.
    pub proof fn lemma_wf_entries(self)
        requires
            self.wf(),
        ensures
            distinct_keys(self.entries()),
    {
    }

    /// The committed bindings and the staged writes are held in memory, so
    /// their counts fit the machine's word.
    pub proof fn lemma_len_bounds(self)
        ensures
            self.entries().len() <= usize::MAX,
            self.pending().len() <= usize::MAX,
            self.marks().len() <= usize::MAX,
    {
        broadcast use vstd::std_specs::vec::axiom_spec_len;

        assert(vstd::std_specs::vec::spec_vec_len(&self.entries) == self.entries@.len());
        assert(vstd::std_specs::vec::spec_vec_len(&self.batch) == self.batch@.len());
        assert(vstd::std_specs::vec::spec_vec_len(&self.checkpoints) == self.checkpoints@.len());
    }

    /// A well-formed map outside a batch holds no staged writes and no
    /// checkpoints, so its speculative contents are its confirmed contents.
    pub proof fn lemma_wf_idle(self)
        requires
            self.wf(),
            !self.in_batch(),
        ensures
            self.pending() == Seq::<(K, Option<V>)>::empty(),
            self.marks() == Seq::<usize>::empty(),
            self.speculative() == self.confirmed(),
    {
        assert(self.pending() =~= Seq::<(K, Option<V>)>::empty());
        assert(self.marks() =~= Seq::<usize>::empty());
    }
}

fn vec_map_find<K: StoreKey, V>(entries: &Vec<(K, V)>, key: &K) -> (r: Option<usize>)
    ensures
        (match r {
            Some(i) => i < entries@.len() && entries@[i as int].0 == *key,
            None => forall|i: int| 0 <= i < entries@.len() ==> entries@[i].0 != *key,
        }),
{
    let mut i: usize = 0;
    while i < entries.len()
        invariant
            i <= entries@.len(),
            forall|j: int| 0 <= j < i ==> entries@[j].0 != *key,
        decreases entries@.len() - i,
    {
        if entries[i].0.same(key) {
            return Some(i);
        }
        i = i + 1;
    }
    None
}

fn vec_map_insert<K: StoreKey, V>(entries: &mut Vec<(K, V)>, key: K, value: V)
    requires
        distinct_keys(old(entries)@),
    ensures
        distinct_keys(final(entries)@),
        assoc_map(final(entries)@) == assoc_map(old(entries)@).insert(key, value),
{
    let ghost pre = entries@;
    match vec_map_find(entries, &key) {
        Some(i) => {
            entries.remove(i);
            proof {
                lemma_assoc_remove_at(pre, i as int);
            }
        }
        None => {
            proof {
                lemma_assoc_absent(pre, key);
                assert(assoc_map(pre).remove(key) =~= assoc_map(pre));
            }
        }
    }
    let ghost mid = entries@;
    entries.push((key, value));
    proof {
        // After the removal (or directly, when the key was absent), the key
        // is bound nowhere, so the push keeps keys distinct.
        assert(forall|j: int| 0 <= j < mid.len() ==> mid[j].0 != key);
        assert forall|p: int, q: int|
            0 <= p < q < mid.push((key, value)).len() implies mid.push((key, value))[p].0 != mid.push(
            (key, value),
        )[q].0 by {
            if q < mid.len() {
                assert(mid.push((key, value))[p] == mid[p]);
                assert(mid.push((key, value))[q] == mid[q]);
            } else {
                assert(mid.push((key, value))[p] == mid[p]);
            }
        }
        lemma_assoc_push(mid, key, value);
        assert(assoc_map(pre).remove(key).insert(key, value) =~= assoc_map(pre).insert(key, value));
    }
}

fn vec_map_remove<K: StoreKey, V>(entries: &mut Vec<(K, V)>, key: &K)
    requires
        distinct_keys(old(entries)@),
    ensures
        distinct_keys(final(entries)@),
        assoc_map(final(entries)@) == assoc_map(old(entries)@).remove(*key),
{
    let ghost pre = entries@;
    match vec_map_find(entries, key) {
        Some(i) => {
            entries.remove(i);
            proof {
                lemma_assoc_remove_at(pre, i as int);
            }
        }
        None => {
            proof {
                lemma_assoc_absent(pre, *key);
                assert(assoc_map(pre).remove(*key) =~= assoc_map(pre));
            }
        }
    }
}

fn vec_map_get<'a, K: StoreKey, V>(entries: &'a Vec<(K, V)>, key: &K) -> (r: Option<&'a V>)
    requires
        distinct_keys(entries@),
    ensures
        (match r {
            Some(v) => assoc_map(entries@).dom().contains(*key) && *v == assoc_map(entries@)[*key],
            None => !assoc_map(entries@).dom().contains(*key),
        }),
{
    proof {
        lemma_assoc_contains(entries@, *key);
    }
    match vec_map_find(entries, key) {
        Some(i) => {
            proof {
                lemma_assoc_find(entries@, i as int);
            }
            Some(&entries[i].1)
        }
        None => {
            proof {
                lemma_assoc_absent(entries@, *key);
            }
            None
        }
    }
}

impl<K: StoreKey, V> KvMap<K, V> {
    /// An empty map with no batch in progress.
    pub fn new() -> (r: Self)
        ensures
            r.wf(),
            r.confirmed() == Map::<K, V>::empty(),
            r.pending() == Seq::<(K, Option<V>)>::empty(),
            r.marks() == Seq::<usize>::empty(),
            !r.in_batch(),
    {
        KvMap { entries: Vec::new(), batch: Vec::new(), checkpoints: Vec::new(), batch_open: false }
    }

    /// Inserts the binding: staged while a batch is open, written to the
    /// confirmed state otherwise.
    pub fn insert(&mut self, key: K, value: V)
        requires
            old(self).wf(),
        ensures
            final(self).wf(),
            final(self).in_batch() == old(self).in_batch(),
            final(self).marks() == old(self).marks(),
            final(self).speculative() == old(self).speculative().insert(key, value),
            (if old(self).in_batch() {
                final(self).entries() == old(self).entries()
                    && final(self).pending() == old(self).pending().push((key, Some(value)))
            } else {
                final(self).confirmed() == old(self).confirmed().insert(key, value)
                    && final(self).pending() == old(self).pending()
            }),
    {
        if self.batch_open {
            self.batch.push((key, Some(value)));
            proof {
                lemma_apply_push(self.confirmed(), old(self).pending(), key, Some(value));
            }
        } else {
            vec_map_insert(&mut self.entries, key, value);
        }
    }

    /// Removes the binding: staged while a batch is open, applied to the
    /// confirmed state otherwise.
    pub fn remove(&mut self, key: &K)
        requires
            old(self).wf(),
        ensures
            final(self).wf(),
            final(self).in_batch() == old(self).in_batch(),
            final(self).marks() == old(self).marks(),
            final(self).speculative() == old(self).speculative().remove(*key),
            (if old(self).in_batch() {
                final(self).entries() == old(self).entries()
                    && final(self).pending() == old(self).pending().push((*key, None))
            } else {
                final(self).confirmed() == old(self).confirmed().remove(*key)
                    && final(self).pending() == old(self).pending()
            }),
    {
        if self.batch_open {
            self.batch.push((*key, None));
            proof {
                lemma_apply_push(self.confirmed(), old(self).pending(), *key, None::<V>);
            }
        } else {
            vec_map_remove(&mut self.entries, key);
        }
    }

    /// The confirmed value for the key, if any. Staged writes are not
    /// consulted.
    pub fn get_confirmed(&self, key: &K) -> (r: Option<&V>)
        requires
            self.wf(),
        ensures
            (match r {
                Some(v) => self.confirmed().dom().contains(*key) && *v == self.confirmed()[*key],
                None => !self.confirmed().dom().contains(*key),
            }),
    {
        vec_map_get(&self.entries, key)
    }

    /// Whether the key exists in the confirmed state.
    pub fn contains_key_confirmed(&self, key: &K) -> (r: bool)
        requires
            self.wf(),
        ensures
            r == self.confirmed().dom().contains(*key),
    {
        proof {
            lemma_assoc_contains(self.entries@, *key);
        }
        vec_map_find(&self.entries, key).is_some()
    }

    /// The last staged write for the key: `None` when the batch does not
    /// touch it, `Some(None)` when it stages a removal, `Some(Some(v))` when
    /// it stages an insert.
    pub fn get_pending(&self, key: &K) -> (r: Option<Option<&V>>)
        requires
            self.wf(),
        ensures
            (match r {
                Some(Some(v)) => last_write(self.pending(), *key) == Some(Some(*v)),
                Some(None) => last_write(self.pending(), *key) == Some(None::<V>),
                None => last_write(self.pending(), *key) is None,
            }),
    {
        let mut i: usize = self.batch.len();
        proof {
            assert(self.batch@.take(self.batch@.len() as int) =~= self.batch@);
        }
        while i > 0
            invariant
                i <= self.batch@.len(),
                last_write(self.batch@, *key) == last_write(self.batch@.take(i as int), *key),
            decreases i,
        {
            proof {
                assert(self.batch@.take(i as int).drop_last() =~= self.batch@.take(i - 1));
                assert(self.batch@.take(i as int).last() == self.batch@[i - 1]);
            }
            i = i - 1;
            if self.batch[i].0.same(key) {
                return Some(
                    match &self.batch[i].1 {
                        Some(v) => Some(v),
                        None => None,
                    },
                );
            }
        }
        proof {
            assert(self.batch@.take(0) =~= Seq::<(K, Option<V>)>::empty());
        }
        None
    }

    /// The value for the key as seen through the in-progress batch: the
    /// pending view where the batch touches the key, the confirmed view
    /// otherwise.
    pub fn get_speculative(&self, key: &K) -> (r: Option<&V>)
        requires
            self.wf(),
        ensures
            (match r {
                Some(v) => self.speculative().dom().contains(*key) && *v
                    == self.speculative()[*key],
                None => !self.speculative().dom().contains(*key),
            }),
    {
        // Fetch the confirmed value first, then let the batch override it.
        let map_value = self.get_confirmed(key);
        let batch_value = self.get_pending(key);
        proof {
            lemma_apply_last_write(self.confirmed(), self.pending(), *key);
        }
        match batch_value {
            Some(Some(value)) => Some(value),
            Some(None) => None,
            None => map_value,
        }
    }

    /// Whether the key exists as seen through the in-progress batch.
    pub fn contains_key_speculative(&self, key: &K) -> (r: bool)
        requires
            self.wf(),
        ensures
            r == self.speculative().dom().contains(*key),
    {
        self.get_speculative(key).is_some()
    }

    /// How many staged writes the in-progress batch holds.
    pub fn pending_len(&self) -> (r: usize)
        ensures
            r == self.pending().len(),
    {
        self.batch.len()
    }

    /// The staged write at one position of the batch, oldest first.
    pub fn pending_at(&self, i: usize) -> (r: &(K, Option<V>))
        requires
            i < self.pending().len(),
        ensures
            *r == self.pending()[i as int],
    {
        &self.batch[i]
    }

    /// How many bindings the confirmed state holds.
    pub fn entries_len(&self) -> (r: usize)
        ensures
            r == self.entries().len(),
    {
        self.entries.len()
    }

    /// The committed binding at one position, in the confirmed state's
    /// order.
    pub fn entry_at(&self, i: usize) -> (r: &(K, V))
        requires
            i < self.entries().len(),
        ensures
            *r == self.entries()[i as int],
    {
        &self.entries[i]
    }

    /// Every committed key, in the confirmed state's order.
    pub fn keys_confirmed(&self) -> (r: Vec<K>)
        requires
            self.wf(),
        ensures
            r@ == self.entries().map_values(|p: (K, V)| p.0),
    {
        let mut out: Vec<K> = Vec::new();
        let mut i: usize = 0;
        while i < self.entries.len()
            invariant
                i <= self.entries@.len(),
                out@.len() == i,
                forall|j: int| 0 <= j < i ==> out@[j] == self.entries@[j].0,
            decreases self.entries@.len() - i,
        {
            out.push(self.entries[i].0);
            i = i + 1;
        }
        proof {
            let s = self.entries@;
            let f = |p: (K, V)| p.0;
            assert forall|j: int| 0 <= j < s.len() implies s.map_values(f)[j] == out@[j] by {
                assert(s.map_values(f)[j] == f(s[j]));
            }
            assert(out@ =~= s.map_values(f));
        }
        out
    }

    /// Opens a fresh batch: further writes are staged until the batch is
    /// committed, aborted or rewound away.
    pub fn start_atomic(&mut self)
        requires
            old(self).wf(),
            !old(self).in_batch(),
        ensures
            final(self).wf(),
            final(self).in_batch(),
            final(self).entries() == old(self).entries(),
            final(self).pending() == Seq::<(K, Option<V>)>::empty(),
            final(self).marks() == Seq::<usize>::empty(),
    {
        self.batch_open = true;
    }

    /// Whether an atomic batch is currently open.
    pub fn is_atomic_in_progress(&self) -> (r: bool)
        ensures
            r == self.in_batch(),
    {
        self.batch_open
    }

    /// Pushes the current end of the batch onto the checkpoint stack, so a
    /// later rewind can roll back to this point.
    pub fn atomic_checkpoint(&mut self)
        requires
            old(self).wf(),
            old(self).in_batch(),
        ensures
            final(self).wf(),
            final(self).in_batch(),
            final(self).entries() == old(self).entries(),
            final(self).pending() == old(self).pending(),
            final(self).marks() == old(self).marks().push(old(self).pending().len() as usize),
    {
        let mark = self.batch.len();
        self.checkpoints.push(mark);
    }

    /// Discards the staged writes recorded after the most recent checkpoint,
    /// popping it; with no checkpoint, discards all staged writes.
    pub fn atomic_rewind(&mut self)
        requires
            old(self).wf(),
            old(self).in_batch(),
        ensures
            final(self).wf(),
            final(self).in_batch(),
            final(self).entries() == old(self).entries(),
            final(self).pending() == old(self).pending().take(
                (if old(self).marks().len() > 0 {
                    old(self).marks().last() as int
                } else {
                    0
                }),
            ),
            final(self).marks() == (if old(self).marks().len() > 0 {
                old(self).marks().drop_last()
            } else {
                old(self).marks()
            }),
    {
        let cut: usize = match self.checkpoints.pop() {
            Some(c) => c,
            None => 0,
        };
        self.batch.truncate(cut);
        proof {
            assert(old(self).pending().subrange(0, cut as int) =~= old(self).pending().take(cut as int));
        }
    }

    /// Discards all staged writes and every checkpoint; the batch ends.
    pub fn abort_atomic(&mut self)
        requires
            old(self).wf(),
            old(self).in_batch(),
        ensures
            final(self).wf(),
            !final(self).in_batch(),
            final(self).entries() == old(self).entries(),
            final(self).pending() == Seq::<(K, Option<V>)>::empty(),
            final(self).marks() == Seq::<usize>::empty(),
    {
        self.batch.clear();
        self.checkpoints.clear();
        self.batch_open = false;
    }

    /// Commits all staged writes, in insertion order, as one unit; the batch
    /// ends. Always succeeds on this in-memory store.
    pub fn finish_atomic(&mut self) -> (r: Result<(), StoreError>)
        requires
            old(self).wf(),
            old(self).in_batch(),
        ensures
            r is Ok,
            final(self).wf(),
            !final(self).in_batch(),
            final(self).confirmed() == old(self).speculative(),
            final(self).speculative() == old(self).speculative(),
            final(self).pending() == Seq::<(K, Option<V>)>::empty(),
            final(self).marks() == Seq::<usize>::empty(),
    {
        let ghost base = self.confirmed();
        let ghost ops = self.batch@;
        let total: usize = self.batch.len();
        // Drain the batch into a reversed stack, then replay it oldest
        // first, moving each staged value into the confirmed state.
        let mut stack: Vec<(K, Option<V>)> = Vec::new();
        proof {
            assert(self.batch@ =~= ops.take(self.batch@.len() as int));
        }
        while self.batch.len() > 0
            invariant
                stack@.len() + self.batch@.len() == ops.len(),
                self.batch@ == ops.take(self.batch@.len() as int),
                forall|j: int| 0 <= j < stack@.len() ==> stack@[j] == ops[ops.len() - 1 - j],
                self.entries@ == old(self).entries@,
            decreases self.batch@.len(),
        {
            proof {
                let n = self.batch@.len() as int;
                assert(self.batch@.last() == ops[n - 1]);
                assert(self.batch@.drop_last() =~= ops.take(n - 1));
            }
            let op = self.batch.pop().unwrap();
            stack.push(op);
        }
        let mut i: usize = 0;
        proof {
            assert(ops.take(0) =~= Seq::<(K, Option<V>)>::empty());
        }
        while stack.len() > 0
            invariant
                i + stack@.len() == ops.len(),
                ops.len() == total,
                forall|j: int| 0 <= j < stack@.len() ==> stack@[j] == ops[ops.len() - 1 - j],
                distinct_keys(self.entries@),
                assoc_map(self.entries@) == apply_ops(base, ops.take(i as int)),
                self.batch@.len() == 0,
            decreases stack@.len(),
        {
            proof {
                assert(stack@.last() == ops[i as int]);
                assert(ops.take(i + 1).drop_last() =~= ops.take(i as int));
                assert(ops.take(i + 1).last() == ops[i as int]);
            }
            let op = stack.pop().unwrap();
            match op {
                (key, Some(value)) => vec_map_insert(&mut self.entries, key, value),
                (key, None) => vec_map_remove(&mut self.entries, &key),
            }
            i = i + 1;
        }
        proof {
            assert(ops.take(ops.len() as int) =~= ops);
        }
        self.checkpoints.clear();
        self.batch_open = false;
        Ok(())
    }
}

} // verus!
