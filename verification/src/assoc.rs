//! A small map that remembers the order in which its keys arrived.

use vstd::prelude::*;

verus! {

/// A key that can be compared while the program runs.
pub trait Key: Copy {
    /// Tests two keys for equality.
    fn same(&self, other: &Self) -> (r: bool)
        ensures
            r == (*self == *other),
    ;
}

impl Key for u64 {
    fn same(&self, other: &Self) -> (r: bool) {
        *self == *other
    }
}

impl Key for u32 {
    fn same(&self, other: &Self) -> (r: bool) {
        *self == *other
    }
}

impl Key for i32 {
    fn same(&self, other: &Self) -> (r: bool) {
        *self == *other
    }
}

/// The position of the first entry of `entries` whose key is `key`, or the
/// length of `entries` when there is none.
pub open spec fn position<K, V>(entries: Seq<(K, V)>, key: K) -> int
    decreases entries.len(),
{
    if entries.len() == 0 {
        0
    } else if entries[0].0 == key {
        0
    } else {
        1 + position(entries.skip(1), key)
    }
}

/// No key occurs twice in `entries`.
pub open spec fn distinct_keys<K, V>(entries: Seq<(K, V)>) -> bool {
    forall|i: int, j: int|
        0 <= i < j < entries.len() ==> (#[trigger] entries[i]).0 != (#[trigger] entries[j]).0
}

/// The place that `position` gives is the first place of the key.
pub proof fn lemma_position<K, V>(entries: Seq<(K, V)>, key: K)
    ensures
        0 <= position(entries, key) <= entries.len(),
        position(entries, key) < entries.len() ==> entries[position(entries, key)].0 == key,
        forall|i: int| 0 <= i < position(entries, key) ==> (#[trigger] entries[i]).0 != key,
    decreases entries.len(),
{
    if entries.len() > 0 && entries[0].0 != key {
        lemma_position(entries.skip(1), key);
        assert forall|i: int| 0 <= i < position(entries, key) implies (#[trigger] entries[i]).0
            != key by {
            if i > 0 {
                assert(entries.skip(1)[i - 1] == entries[i]);
            }
        }
    }
}

/// The mathematical model of an ordered map: the bindings, and the keys in
/// the order in which they arrived.
#[verifier::reject_recursive_types(K)]
pub struct Assoc<K, V> {
    pub map: Map<K, V>,
    pub order: Seq<K>,
}

impl<K, V> Assoc<K, V> {
    /// The map without any key.
    pub open spec fn empty() -> Self {
        Assoc { map: Map::empty(), order: Seq::empty() }
    }

    /// `order` lists exactly the keys of `map`, each once.
    pub open spec fn wf(self) -> bool {
        &&& self.order.no_duplicates()
        &&& forall|k: K| self.map.dom().contains(k) <==> self.order.contains(k)
    }

    /// Whether `key` is bound.
    pub open spec fn contains(self, key: K) -> bool {
        self.map.dom().contains(key)
    }

    /// What `key` is bound to, if anything.
    pub open spec fn get(self, key: K) -> Option<V> {
        if self.map.dom().contains(key) {
            Some(self.map[key])
        } else {
            None
        }
    }

    /// Binds `key` to `value`. A new key goes to the end of `order`.
    pub open spec fn insert(self, key: K, value: V) -> Self {
        Assoc {
            map: self.map.insert(key, value),
            order: if self.map.dom().contains(key) {
                self.order
            } else {
                self.order.push(key)
            },
        }
    }

    /// Unbinds `key`; the other keys keep their order.
    pub open spec fn remove(self, key: K) -> Self {
        Assoc { map: self.map.remove(key), order: self.order.filter(|k: K| k != key) }
    }

    /// The values, each at the place of its key in `order`.
    pub open spec fn values(self) -> Seq<V> {
        Seq::new(self.order.len(), |i: int| self.map[self.order[i]])
    }

    /// Inserting keeps a model well formed.
    pub proof fn lemma_insert_wf(self, key: K, value: V)
        requires
            self.wf(),
        ensures
            self.insert(key, value).wf(),
    {
        let r = self.insert(key, value);
        if self.map.dom().contains(key) {
            assert forall|k: K| r.map.dom().contains(k) <==> r.order.contains(k) by {}
        } else {
            assert forall|k: K| r.map.dom().contains(k) <==> r.order.contains(k) by {
                if k == key {
                    assert(r.order[self.order.len() as int] == key);
                } else {
                    if self.order.contains(k) {
                        let i = choose|i: int| 0 <= i < self.order.len() && self.order[i] == k;
                        assert(r.order[i] == k);
                    }
                    if r.order.contains(k) {
                        let i = choose|i: int| 0 <= i < r.order.len() && r.order[i] == k;
                        assert(self.order[i] == k);
                    }
                }
            }
            assert forall|i: int, j: int| 0 <= i < r.order.len() && 0 <= j < r.order.len() && i
                != j implies r.order[i] != r.order[j] by {
                if i < self.order.len() && j < self.order.len() {
                } else if i < self.order.len() {
                    assert(self.order.contains(self.order[i]));
                } else {
                    assert(self.order.contains(self.order[j]));
                }
            }
        }
    }
}

/// An insertion-ordered map from `K` to `V`, modelled by [`Assoc`].
pub struct AssocMap<K: Key, V: Copy> {
    entries: Vec<(K, V)>,
}

impl<K: Key, V: Copy> View for AssocMap<K, V> {
    type V = Assoc<K, V>;

    closed spec fn view(&self) -> Assoc<K, V> {
        Assoc {
            map: Map::new(
                |k: K| position(self.entries@, k) < self.entries@.len(),
                |k: K| self.entries@[position(self.entries@, k)].1,
            ),
            order: Seq::new(self.entries@.len(), |i: int| self.entries@[i].0),
        }
    }
}

impl<K: Key, V: Copy> AssocMap<K, V> {
    /// No key is held twice.
    pub closed spec fn wf(&self) -> bool {
        distinct_keys(self.entries@)
    }

    /// The values in the order of their keys.
    pub fn values(&self) -> (r: Vec<V>)
        requires
            self.wf(),
        ensures
            r@ == self@.values(),
    {
        let mut out: Vec<V> = Vec::new();
        let mut i: usize = 0;
        while i < self.entries.len()
            invariant
                self.wf(),
                i <= self.entries@.len(),
                self@.order.len() == self.entries@.len(),
                out@.len() == i,
                forall|j: int| 0 <= j < i ==> out@[j] == self@.values()[j],
            decreases self.entries@.len() - i,
        {
            let e = self.entry(i);
            out.push(e.1);
            i += 1;
        }
        proof {
            assert(out@ =~= self@.values());
        }
        out
    }

    /// The model of a well-formed map is well formed.
    pub proof fn lemma_wf(&self)
        requires
            self.wf(),
        ensures
            self@.wf(),
    {
        self.lemma_order();
    }

    proof fn lemma_order(&self)
        ensures
            forall|k: K| self@.map.dom().contains(k) <==> self@.order.contains(k),
            self.wf() ==> self@.order.no_duplicates(),
    {
        assert forall|k: K| self@.map.dom().contains(k) <==> self@.order.contains(k) by {
            lemma_position(self.entries@, k);
            if self@.map.dom().contains(k) {
                assert(self@.order[position(self.entries@, k)] == k);
            }
            if self@.order.contains(k) {
                let i = choose|i: int| 0 <= i < self@.order.len() && self@.order[i] == k;
                assert(self.entries@[i].0 == k);
            }
        }
    }

    /// An empty map.
    pub fn new() -> (r: Self)
        ensures
            r.wf(),
            r@ == Assoc::<K, V>::empty(),
    {
        let r = AssocMap { entries: Vec::new() };
        proof {
            assert(r@.map =~= Map::<K, V>::empty());
            assert(r@.order =~= Seq::<K>::empty());
        }
        r
    }

    /// The number of keys.
    pub fn len(&self) -> (n: usize)
        ensures
            n == self@.order.len(),
    {
        self.entries.len()
    }

    /// The key at place `i` of `order`, with its value.
    pub fn entry(&self, i: usize) -> (r: (K, V))
        requires
            self.wf(),
            i < self@.order.len(),
        ensures
            r.0 == self@.order[i as int],
            self@.map.dom().contains(r.0),
            r.1 == self@.map[r.0],
            r.1 == self@.values()[i as int],
    {
        proof {
            lemma_position_unique(self.entries@, self.entries@[i as int].0, i as int);
            lemma_position(self.entries@, self.entries@[i as int].0);
        }
        self.entries[i]
    }

    fn find(&self, key: &K) -> (i: usize)
        ensures
            i == position(self.entries@, *key),
    {
        let mut i: usize = 0;
        proof {
            lemma_position(self.entries@, *key);
        }
        while i < self.entries.len()
            invariant
                i <= self.entries@.len(),
                i <= position(self.entries@, *key) <= self.entries@.len(),
                position(self.entries@, *key) < self.entries@.len() ==> self.entries@[position(
                    self.entries@,
                    *key,
                )].0 == *key,
                forall|j: int| 0 <= j < position(self.entries@, *key) ==> (
                #[trigger] self.entries@[j]).0 != *key,
            decreases self.entries@.len() - i,
        {
            if self.entries[i].0.same(key) {
                return i;
            }
            i += 1;
        }
        i
    }

    /// Looks `key` up.
    pub fn get(&self, key: &K) -> (r: Option<V>)
        ensures
            r == self@.get(*key),
    {
        let i = self.find(key);
        if i < self.entries.len() {
            Some(self.entries[i].1)
        } else {
            None
        }
    }

    /// Binds `key` to `value` and hands back what it was bound to. A new key
    /// goes to the end of `order`; a known key keeps its place.
    pub fn insert(&mut self, key: K, value: V) -> (r: Option<V>)
        requires
            old(self).wf(),
        ensures
            final(self).wf(),
            final(self)@ == old(self)@.insert(key, value),
            r == old(self)@.get(key),
    {
        let i = self.find(&key);
        let ghost before = self.entries@;
        proof {
            lemma_position(before, key);
        }
        if i < self.entries.len() {
            let prev = self.entries[i].1;
            self.entries.set(i, (key, value));
            proof {
                let after = self.entries@;
                assert forall|j: int| 0 <= j < before.len() implies (#[trigger] before[j]).0 == (
                #[trigger] after[j]).0 by {}
                assert forall|k: K| position(after, k) == position(before, k) by {
                    lemma_same_keys_same_position(before, after, k);
                }
                assert(old(self).entries@ == before);
                assert forall|k: K| #[trigger] self@.map.dom().contains(k) == old(self)@.insert(key, value).map.dom().contains(k) by {
                    assert(position(after, k) == position(before, k));
                }
                assert forall|k: K| self@.map.dom().contains(k) implies #[trigger] self@.map[k] == old(
                    self,
                )@.insert(key, value).map[k] by {
                    assert(position(after, k) == position(before, k));
                    lemma_position(before, k);
                }
                assert(self@.map =~= old(self)@.insert(key, value).map);
                assert(self@.order =~= old(self)@.order);
            }
            Some(prev)
        } else {
            self.entries.push((key, value));
            proof {
                let after = self.entries@;
                assert forall|k: K| position(after, k) == (if k == key {
                    before.len() as int
                } else if position(before, k) < before.len() {
                    position(before, k)
                } else {
                    after.len() as int
                }) by {
                    lemma_position_push(before, (key, value), k);
                }
                assert forall|a: int, b: int| 0 <= a < b < after.len() implies (
                #[trigger] after[a]).0 != (#[trigger] after[b]).0 by {
                    if b == before.len() {
                        assert(before[a].0 != key);
                    } else {
                        assert(before[a].0 != before[b].0);
                    }
                }
                assert forall|k: K| #[trigger]
                    self@.map.dom().contains(k) == old(self)@.insert(key, value).map.dom().contains(
                        k,
                    ) by {
                    lemma_position_push(before, (key, value), k);
                    lemma_position(before, k);
                }
                assert forall|k: K| self@.map.dom().contains(k) implies #[trigger] self@.map[k] == old(
                    self,
                )@.insert(key, value).map[k] by {
                    lemma_position_push(before, (key, value), k);
                    lemma_position(before, k);
                }
                assert(self@.map =~= old(self)@.insert(key, value).map);
                assert(self@.order =~= old(self)@.order.push(key));
            }
            None
        }
    }

    /// Unbinds `key` and hands back what it was bound to. The other keys
    /// keep their order.
    pub fn remove(&mut self, key: &K) -> (r: Option<V>)
        requires
            old(self).wf(),
        ensures
            final(self).wf(),
            final(self)@ == old(self)@.remove(*key),
            r == old(self)@.get(*key),
    {
        let i = self.find(key);
        let ghost before = self.entries@;
        proof {
            lemma_position(before, *key);
            self.lemma_order();
        }
        if i < self.entries.len() {
            let prev = self.entries.remove(i);
            proof {
                let after = self.entries@;
                assert(after == before.remove(i as int));
                assert forall|a: int, b: int| 0 <= a < b < after.len() implies (
                #[trigger] after[a]).0 != (#[trigger] after[b]).0 by {
                    let a2 = if a < i { a } else { a + 1 };
                    let b2 = if b < i { b } else { b + 1 };
                    assert(before[a2].0 != before[b2].0);
                }
                assert forall|k: K| position(after, k) == (if k == *key {
                    after.len() as int
                } else if position(before, k) < i {
                    position(before, k)
                } else if position(before, k) < before.len() {
                    position(before, k) - 1
                } else {
                    after.len() as int
                }) by {
                    lemma_position_remove(before, i as int, k);
                }
                assert forall|k: K| #[trigger]
                    self@.map.dom().contains(k) == old(self)@.remove(*key).map.dom().contains(k) by {
                    lemma_position_remove(before, i as int, k);
                    lemma_position(before, k);
                }
                assert forall|k: K| self@.map.dom().contains(k) implies #[trigger] self@.map[k] == old(
                    self,
                )@.remove(*key).map[k] by {
                    lemma_position_remove(before, i as int, k);
                    lemma_position(before, k);
                }
                assert(self@.map =~= old(self)@.remove(*key).map);
                assert(old(self)@.order[i as int] == *key);
                old(self).lemma_order();
                lemma_filter_remove(old(self)@.order, i as int);
                assert(self@.order =~= old(self)@.order.remove(i as int));
            }
            Some(prev.1)
        } else {
            proof {
                assert(self@.map =~= old(self)@.remove(*key).map);
                lemma_filter_absent(self@.order, *key);
            }
            None
        }
    }
}

/// Two lists with the same keys at the same places find every key at the
/// same place.
proof fn lemma_same_keys_same_position<K, V>(a: Seq<(K, V)>, b: Seq<(K, V)>, key: K)
    requires
        a.len() == b.len(),
        forall|i: int| 0 <= i < a.len() ==> (#[trigger] a[i]).0 == (#[trigger] b[i]).0,
    ensures
        position(a, key) == position(b, key),
    decreases a.len(),
{
    if a.len() > 0 {
        assert(a[0].0 == b[0].0);
        if a[0].0 != key {
            assert forall|i: int| 0 <= i < a.skip(1).len() implies (#[trigger] a.skip(1)[i]).0 == (
            #[trigger] b.skip(1)[i]).0 by {
                assert(a[i + 1].0 == b[i + 1].0);
            }
            lemma_same_keys_same_position(a.skip(1), b.skip(1), key);
        }
    }
}

/// A key is found in a list exactly when it is found at a place below the
/// list's length, and that place is the only one in a list of distinct
/// keys.
proof fn lemma_position_unique<K, V>(a: Seq<(K, V)>, key: K, at: int)
    requires
        0 <= at < a.len(),
        a[at].0 == key,
        forall|i: int| 0 <= i < at ==> (#[trigger] a[i]).0 != key,
    ensures
        position(a, key) == at,
{
    lemma_position(a, key);
    let p = position(a, key);
    if p < at {
        assert(a[p].0 == key);
    }
    if p > at {
        assert(a[at].0 != key);
    }
}

proof fn lemma_position_absent<K, V>(a: Seq<(K, V)>, key: K)
    requires
        forall|i: int| 0 <= i < a.len() ==> (#[trigger] a[i]).0 != key,
    ensures
        position(a, key) == a.len(),
{
    lemma_position(a, key);
    let p = position(a, key);
    if p < a.len() {
        assert(a[p].0 == key);
    }
}

proof fn lemma_position_push<K, V>(a: Seq<(K, V)>, e: (K, V), key: K)
    requires
        distinct_keys(a),
        position(a, e.0) == a.len(),
    ensures
        position(a.push(e), key) == (if key == e.0 {
            a.len() as int
        } else if position(a, key) < a.len() {
            position(a, key)
        } else {
            (a.len() + 1) as int
        }),
{
    lemma_position(a, key);
    lemma_position(a, e.0);
    let b = a.push(e);
    let p = position(a, key);
    if key == e.0 {
        assert forall|i: int| 0 <= i < a.len() implies (#[trigger] b[i]).0 != key by {
            assert(b[i] == a[i]);
        }
        lemma_position_unique(b, key, a.len() as int);
    } else if p < a.len() {
        assert(b[p] == a[p]);
        assert forall|i: int| 0 <= i < p implies (#[trigger] b[i]).0 != key by {
            assert(b[i] == a[i]);
        }
        lemma_position_unique(b, key, p);
    } else {
        assert forall|i: int| 0 <= i < b.len() implies (#[trigger] b[i]).0 != key by {
            if i < a.len() {
                assert(b[i] == a[i]);
            }
        }
        lemma_position_absent(b, key);
    }
}

proof fn lemma_position_remove<K, V>(a: Seq<(K, V)>, at: int, key: K)
    requires
        distinct_keys(a),
        0 <= at < a.len(),
    ensures
        position(a.remove(at), key) == (if key == a[at].0 {
            (a.len() - 1) as int
        } else if position(a, key) < at {
            position(a, key)
        } else if position(a, key) < a.len() {
            position(a, key) - 1
        } else {
            (a.len() - 1) as int
        }),
{
    lemma_position(a, key);
    let b = a.remove(at);
    let p = position(a, key);
    if key == a[at].0 {
        assert forall|i: int| 0 <= i < b.len() implies (#[trigger] b[i]).0 != key by {
            if i < at {
                assert(b[i] == a[i]);
                assert(a[i].0 != a[at].0);
            } else {
                assert(b[i] == a[i + 1]);
                assert(a[at].0 != a[i + 1].0);
            }
        }
        lemma_position_absent(b, key);
    } else if p < at {
        assert(b[p] == a[p]);
        assert forall|i: int| 0 <= i < p implies (#[trigger] b[i]).0 != key by {
            assert(b[i] == a[i]);
        }
        lemma_position_unique(b, key, p);
    } else if p < a.len() {
        assert(b[p - 1] == a[p]);
        assert forall|i: int| 0 <= i < p - 1 implies (#[trigger] b[i]).0 != key by {
            if i < at {
                assert(b[i] == a[i]);
            } else {
                assert(b[i] == a[i + 1]);
            }
        }
        lemma_position_unique(b, key, p - 1);
    } else {
        assert forall|i: int| 0 <= i < b.len() implies (#[trigger] b[i]).0 != key by {
            if i < at {
                assert(b[i] == a[i]);
            } else {
                assert(b[i] == a[i + 1]);
            }
        }
        lemma_position_absent(b, key);
    }
}

/// Filtering a key out of a list that does not hold it changes nothing.
pub proof fn lemma_filter_absent<K>(s: Seq<K>, key: K)
    requires
        !s.contains(key),
    ensures
        s.filter(|k: K| k != key) == s,
    decreases s.len(),
{
    reveal(Seq::filter);
    if s.len() > 0 {
        assert(s.drop_last().len() < s.len());
        assert forall|k: K| s.drop_last().contains(k) implies s.contains(k) by {
            let i = choose|i: int| 0 <= i < s.drop_last().len() && s.drop_last()[i] == k;
            assert(s[i] == k);
        }
        lemma_filter_absent(s.drop_last(), key);
        assert(s.last() != key) by {
            assert(s[s.len() - 1] == s.last());
        }
        assert(s.drop_last().push(s.last()) =~= s);
    }
}

/// Filtering out the key at place `at` of a list without repeats removes
/// that place.
pub proof fn lemma_filter_remove<K>(s: Seq<K>, at: int)
    requires
        s.no_duplicates(),
        0 <= at < s.len(),
    ensures
        s.filter(|k: K| k != s[at]) == s.remove(at),
    decreases s.len(),
{
    reveal(Seq::filter);
    let key = s[at];
    let f = |k: K| k != key;
    let d = s.drop_last();
    if at == s.len() - 1 {
        assert(!d.contains(key)) by {
            if d.contains(key) {
                let i = choose|i: int| 0 <= i < d.len() && d[i] == key;
                assert(s[i] == s[at]);
            }
        }
        lemma_filter_absent(d, key);
        assert(s.remove(at) =~= d);
    } else {
        assert(d[at] == key);
        lemma_filter_remove(d, at);
        assert(s.last() != key);
        assert(d.remove(at).push(s.last()) =~= s.remove(at));
    }
}

} // verus!
