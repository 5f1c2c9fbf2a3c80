//! Caches of native objects, keyed by what the objects were made from.

use vstd::prelude::*;
use dashmap::DashMap;
use crate::assoc::{lemma_filter_absent, lemma_filter_remove, Assoc};

verus! {

/// The concurrent map `dashmap::DashMap`. What is inside a map is not
/// looked at; [`cache_entries`] names what a map of handles holds.
#[verifier::external_type_specification]
#[verifier::external_body]
#[verifier::reject_recursive_types(K)]
#[verifier::reject_recursive_types(V)]
#[verifier::reject_recursive_types(S)]
pub struct ExDashMap<K, V, S>(DashMap<K, V, S>);

/// What a concurrent map from keys to native handles holds.
pub uninterp spec fn cache_entries(m: DashMap<Vec<u64>, u64>) -> Map<Seq<u64>, u64>;

/// The map without any entry.
pub open spec fn no_entries() -> Map<Seq<u64>, u64> {
    Map::empty()
}

/// What `entries` binds `key` to, if anything.
pub open spec fn entry_of(entries: Map<Seq<u64>, u64>, key: Seq<u64>) -> Option<u64> {
    if entries.dom().contains(key) {
        Some(entries[key])
    } else {
        None
    }
}

/// Makes an empty map with `DashMap::new`.
#[verifier::external_body]
fn cache_new() -> (cache: DashMap<Vec<u64>, u64>)
    ensures
        cache_entries(cache) == no_entries(),
{
    DashMap::new()
}

/// Looks a key up with `DashMap::get` and copies the handle out: the
/// handle that the map binds the key to, if it binds it.
#[verifier::external_body]
fn cache_get(cache: &DashMap<Vec<u64>, u64>, key: &Vec<u64>) -> (handle: Option<u64>)
    ensures
        handle == entry_of(cache_entries(*cache), key@),
{
    cache.get(key).map(|entry| *entry.value())
}

/// Binds a key with `DashMap::insert`, which hands back the handle that
/// the key was bound to before, if it was bound.
#[verifier::external_body]
fn cache_insert(cache: &mut DashMap<Vec<u64>, u64>, key: Vec<u64>, handle: u64) -> (prev: Option<u64>)
    ensures
        cache_entries(*final(cache)) == cache_entries(*old(cache)).insert(key@, handle),
        prev == entry_of(cache_entries(*old(cache)), key@),
{
    cache.insert(key, handle)
}

/// Unbinds a key with `DashMap::remove`, which hands back the entry that
/// it took out, if the key was bound.
#[verifier::external_body]
fn cache_remove(cache: &mut DashMap<Vec<u64>, u64>, key: &Vec<u64>) -> (prev: Option<u64>)
    ensures
        cache_entries(*final(cache)) == cache_entries(*old(cache)).remove(key@),
        prev == entry_of(cache_entries(*old(cache)), key@),
{
    cache.remove(key).map(|entry| entry.1)
}

/// Which keys of a cache are meant.
#[derive(Debug, Copy, Clone, PartialEq, Eq, Structural)]
pub enum Selector {
    /// Every key.
    All,
    /// The keys that begin with this handle.
    First(u64),
    /// The keys that hold this handle after their first place.
    Rest(u64),
    /// The keys that hold this handle.
    Holds(u64),
}

/// Whether `sel` means `key`.
pub open spec fn selects(sel: Selector, key: Seq<u64>) -> bool {
    match sel {
        Selector::All => true,
        Selector::First(x) => key.len() > 0 && key[0] == x,
        Selector::Rest(x) => exists|i: int| 1 <= i < key.len() && key[i] == x,
        Selector::Holds(x) => exists|i: int| 0 <= i < key.len() && key[i] == x,
    }
}

/// Whether `sel` means `key`.
pub fn is_selected(sel: Selector, key: &Vec<u64>) -> (r: bool)
    ensures
        r == selects(sel, key@),
{
    match sel {
        Selector::All => true,
        Selector::First(x) => key.len() > 0 && key[0] == x,
        Selector::Rest(x) => holds_from(key, x, 1),
        Selector::Holds(x) => holds_from(key, x, 0),
    }
}

fn holds_from(key: &Vec<u64>, x: u64, from: usize) -> (r: bool)
    ensures
        r == exists|i: int| from <= i < key@.len() && key@[i] == x,
{
    let mut i: usize = from;
    while i < key.len()
        invariant
            from <= i,
            forall|k: int| from <= k < i && k < key@.len() ==> key@[k] != x,
        decreases key@.len() - i,
    {
        if key[i] == x {
            return true;
        }
        i += 1;
    }
    false
}

/// The keys from place `from` on that `sel` does not mean, in order.
pub open spec fn kept_keys(order: Seq<Seq<u64>>, sel: Selector, from: int) -> Seq<Seq<u64>>
    decreases order.len() - from,
{
    if from < 0 || from >= order.len() {
        Seq::empty()
    } else if selects(sel, order[from]) {
        kept_keys(order, sel, from + 1)
    } else {
        seq![order[from]] + kept_keys(order, sel, from + 1)
    }
}

/// The handles of the keys from place `from` on that `sel` means, the
/// youngest first.
pub open spec fn dropped(a: Assoc<Seq<u64>, u64>, sel: Selector, from: int) -> Seq<u64>
    decreases a.order.len() - from,
{
    if from < 0 || from >= a.order.len() {
        Seq::empty()
    } else if selects(sel, a.order[from]) {
        dropped(a, sel, from + 1).push(a.map[a.order[from]])
    } else {
        dropped(a, sel, from + 1)
    }
}

/// The cache without the keys that `sel` means.
pub open spec fn without(a: Assoc<Seq<u64>, u64>, sel: Selector) -> Assoc<Seq<u64>, u64> {
    Assoc {
        map: Map::new(|k: Seq<u64>| a.map.dom().contains(k) && !selects(sel, k), |k: Seq<u64>| a.map[k]),
        order: kept_keys(a.order, sel, 0),
    }
}

/// Whether `sel` means `key` and `key` is listed at place `from` or later.
pub open spec fn gone_from(order: Seq<Seq<u64>>, sel: Selector, key: Seq<u64>, from: int) -> bool {
    selects(sel, key) && exists|j: int| from <= j < order.len() && #[trigger] order[j] == key
}

proof fn lemma_gone_from(order: Seq<Seq<u64>>, sel: Selector, key: Seq<u64>, from: int)
    requires
        0 <= from < order.len(),
    ensures
        gone_from(order, sel, key, from) <==> (selects(sel, key) && order[from] == key)
            || gone_from(order, sel, key, from + 1),
{
    if gone_from(order, sel, key, from) {
        let j = choose|j: int| from <= j < order.len() && #[trigger] order[j] == key;
        if j != from {
            assert(from + 1 <= j);
        }
    }
    if gone_from(order, sel, key, from + 1) {
        let j = choose|j: int| from + 1 <= j < order.len() && #[trigger] order[j] == key;
        assert(from <= j);
    }
}

/// A cache of native handles. The handles live in a concurrent map; the
/// keys are also listed in the order in which they were first bound.
pub struct HandleCache {
    map: DashMap<Vec<u64>, u64>,
    keys: Vec<Vec<u64>>,
}

impl View for HandleCache {
    type V = Assoc<Seq<u64>, u64>;

    closed spec fn view(&self) -> Assoc<Seq<u64>, u64> {
        Assoc {
            map: cache_entries(self.map),
            order: Seq::new(self.keys@.len(), |i: int| self.keys@[i]@),
        }
    }
}

/// Copies a key.
pub fn copy_key(key: &Vec<u64>) -> (r: Vec<u64>)
    ensures
        r@ == key@,
{
    let mut out: Vec<u64> = Vec::new();
    let mut i: usize = 0;
    while i < key.len()
        invariant
            i <= key@.len(),
            out@ == key@.take(i as int),
        decreases key@.len() - i,
    {
        out.push(key[i]);
        i += 1;
        assert(out@ =~= key@.take(i as int));
    }
    assert(key@.take(key@.len() as int) =~= key@);
    out
}

/// Tests two keys for equality.
pub fn same_key(a: &Vec<u64>, b: &Vec<u64>) -> (r: bool)
    ensures
        r == (a@ == b@),
{
    if a.len() != b.len() {
        return false;
    }
    let mut i: usize = 0;
    while i < a.len()
        invariant
            i <= a@.len(),
            a@.len() == b@.len(),
            forall|k: int| 0 <= k < i ==> a@[k] == b@[k],
        decreases a@.len() - i,
    {
        if a[i] != b[i] {
            return false;
        }
        i += 1;
    }
    proof {
        assert(a@ =~= b@);
    }
    true
}

impl HandleCache {
    /// The listed keys are the bound keys, each once.
    pub open spec fn wf(&self) -> bool {
        self@.wf()
    }

    /// An empty cache.
    pub fn new() -> (r: Self)
        ensures
            r.wf(),
            r@ == Assoc::<Seq<u64>, u64>::empty(),
    {
        let r = HandleCache { map: cache_new(), keys: Vec::new() };
        proof {
            assert(r@.order =~= Seq::<Seq<u64>>::empty());
            assert(r@.map =~= Map::<Seq<u64>, u64>::empty());
        }
        r
    }

    /// The number of handles.
    pub fn len(&self) -> (n: usize)
        ensures
            n == self@.order.len(),
    {
        self.keys.len()
    }

    /// The handle that `key` is bound to, if it is bound.
    pub fn get(&self, key: &Vec<u64>) -> (r: Option<u64>)
        ensures
            r == self@.get(key@),
    {
        cache_get(&self.map, key)
    }

    /// Binds `key` to `handle` and hands back the handle that it was
    /// bound to before.
    pub fn insert(&mut self, key: Vec<u64>, handle: u64) -> (r: Option<u64>)
        requires
            old(self).wf(),
        ensures
            final(self).wf(),
            final(self)@ == old(self)@.insert(key@, handle),
            r == old(self)@.get(key@),
    {
        let copy = copy_key(&key);
        let prev = cache_insert(&mut self.map, key, handle);
        if prev.is_none() {
            self.keys.push(copy);
        }
        proof {
            assert(self@.order =~= old(self)@.insert(key@, handle).order);
            old(self)@.lemma_insert_wf(key@, handle);
        }
        prev
    }

    /// Unbinds `key` and hands back the handle that it was bound to.
    pub fn remove(&mut self, key: &Vec<u64>) -> (r: Option<u64>)
        requires
            old(self).wf(),
        ensures
            final(self).wf(),
            final(self)@ == old(self)@.remove(key@),
            r == old(self)@.get(key@),
    {
        let prev = cache_remove(&mut self.map, key);
        let ghost order = old(self)@.order;
        if prev.is_some() {
            assert(order.contains(key@));
            let mut i: usize = 0;
            while i < self.keys.len()
                invariant_except_break
                    i <= self.keys@.len(),
                    self.keys@ == old(self).keys@,
                    order.len() == self.keys@.len(),
                    forall|k: int| 0 <= k < order.len() ==> order[k] == self.keys@[k]@,
                    order.contains(key@),
                    forall|k: int| 0 <= k < i ==> order[k] != key@,
                ensures
                    i < self.keys@.len(),
                    self.keys@ == old(self).keys@,
                    order.len() == self.keys@.len(),
                    order[i as int] == key@,
                decreases self.keys@.len() - i,
            {
                if same_key(&self.keys[i], key) {
                    assert(order[i as int] == key@);
                    break ;
                }
                i += 1;
                proof {
                    if i >= self.keys@.len() {
                        let k = choose|k: int| 0 <= k < order.len() && order[k] == key@;
                        assert(order[k] != key@);
                    }
                }
            }
            self.keys.remove(i);
            proof {
                lemma_filter_remove(order, i as int);
                assert(self@.order =~= order.remove(i as int));
            }
        } else {
            proof {
                lemma_filter_absent(order, key@);
                assert(self@.order =~= order);
            }
        }
        proof {
            lemma_remove_wf(old(self)@, key@);
        }
        prev
    }

    /// Unbinds every key that `sel` means and hands back their handles,
    /// the youngest first.
    pub fn remove_where(&mut self, sel: Selector) -> (r: Vec<u64>)
        requires
            old(self).wf(),
        ensures
            final(self).wf(),
            final(self)@ == without(old(self)@, sel),
            r@ == dropped(old(self)@, sel, 0),
    {
        let ghost start = self@;
        let mut out: Vec<u64> = Vec::new();
        let mut i: usize = self.keys.len();
        while i > 0
            invariant
                i <= start.order.len(),
                i <= self.keys@.len(),
                self.keys@.len() == self@.order.len(),
                start.wf(),
                self@.order == start.order.take(i as int) + kept_keys(start.order, sel, i as int),
                forall|k: Seq<u64>| #[trigger]
                    self@.map.dom().contains(k) <==> start.map.dom().contains(k) && !gone_from(
                        start.order,
                        sel,
                        k,
                        i as int,
                    ),
                forall|k: Seq<u64>| #[trigger]
                    self@.map.dom().contains(k) ==> self@.map[k] == start.map[k],
                out@ == dropped(start, sel, i as int),
            decreases i,
        {
            i -= 1;
            let ghost before = self@;
            assert(before.order[i as int] == start.order[i as int]);
            assert(start.order.contains(start.order[i as int]));
            if is_selected(sel, &self.keys[i]) {
                let key = self.keys.remove(i);
                let ghost k0 = key@;
                assert(k0 == start.order[i as int]);
                assert(before.map.dom().contains(k0)) by {
                    if gone_from(start.order, sel, k0, i as int + 1) {
                        let j = choose|j: int|
                            i + 1 <= j < start.order.len() && #[trigger] start.order[j] == k0;
                        assert(start.order[i as int] == start.order[j]);
                    }
                }
                match cache_remove(&mut self.map, &key) {
                    Some(handle) => {
                        out.push(handle);
                    },
                    None => {},
                }
                proof {
                    assert(kept_keys(start.order, sel, i as int) == kept_keys(
                        start.order,
                        sel,
                        i as int + 1,
                    ));
                    assert(self@.order =~= before.order.remove(i as int));
                    assert(before.order.remove(i as int) =~= start.order.take(i as int)
                        + kept_keys(start.order, sel, i as int + 1));
                    assert forall|k: Seq<u64>| #[trigger]
                        self@.map.dom().contains(k) <==> start.map.dom().contains(k) && !gone_from(
                            start.order,
                            sel,
                            k,
                            i as int,
                        ) by {
                        lemma_gone_from(start.order, sel, k, i as int);
                        assert(before.map.dom().contains(k) <==> start.map.dom().contains(k)
                            && !gone_from(start.order, sel, k, i as int + 1));
                    }
                }
            } else {
                proof {
                    assert(kept_keys(start.order, sel, i as int) == seq![start.order[i as int]]
                        + kept_keys(start.order, sel, i as int + 1));
                    assert(start.order.take(i as int + 1) =~= start.order.take(i as int).push(
                        start.order[i as int],
                    ));
                    assert(self@.order =~= start.order.take(i as int) + kept_keys(
                        start.order,
                        sel,
                        i as int,
                    ));
                    assert forall|k: Seq<u64>| #[trigger]
                        self@.map.dom().contains(k) <==> start.map.dom().contains(k) && !gone_from(
                            start.order,
                            sel,
                            k,
                            i as int,
                        ) by {
                        lemma_gone_from(start.order, sel, k, i as int);
                        assert(before.map.dom().contains(k) <==> start.map.dom().contains(k)
                            && !gone_from(start.order, sel, k, i as int + 1));
                    }
                }
            }
        }
        proof {
            assert(self@.order =~= kept_keys(start.order, sel, 0));
            assert forall|k: Seq<u64>| self@.map.dom().contains(k) <==> without(
                start,
                sel,
            ).map.dom().contains(k) by {
                if start.map.dom().contains(k) && selects(sel, k) {
                    assert(start.order.contains(k));
                    let j = choose|j: int| 0 <= j < start.order.len() && start.order[j] == k;
                    assert(start.order[j] == k);
                    assert(gone_from(start.order, sel, k, 0));
                }
            }
            assert(self@.map =~= without(start, sel).map);
            lemma_without_wf(start, sel);
        }
        out
    }
}

/// Removing a key keeps a model well formed.
pub proof fn lemma_remove_wf(a: Assoc<Seq<u64>, u64>, key: Seq<u64>)
    requires
        a.wf(),
    ensures
        a.remove(key).wf(),
{
    let r = a.remove(key);
    if a.order.contains(key) {
        let i = choose|i: int| 0 <= i < a.order.len() && a.order[i] == key;
        lemma_filter_remove(a.order, i);
        assert(r.order == a.order.remove(i));
        assert forall|k: Seq<u64>| r.map.dom().contains(k) <==> r.order.contains(k) by {
            if r.map.dom().contains(k) {
                assert(a.order.contains(k));
                let j = choose|j: int| 0 <= j < a.order.len() && a.order[j] == k;
                if j < i {
                    assert(r.order[j] == k);
                } else {
                    assert(r.order[j - 1] == k);
                }
            }
            if r.order.contains(k) {
                let j = choose|j: int| 0 <= j < r.order.len() && r.order[j] == k;
                let j2 = if j < i {
                    j
                } else {
                    j + 1
                };
                assert(a.order[j2] == k);
                assert(a.order.contains(k));
                assert(a.order[j2] != a.order[i]);
            }
        }
        assert forall|x: int, y: int|
            0 <= x < r.order.len() && 0 <= y < r.order.len() && x != y implies r.order[x]
            != r.order[y] by {
            let x2 = if x < i {
                x
            } else {
                x + 1
            };
            let y2 = if y < i {
                y
            } else {
                y + 1
            };
            assert(a.order[x2] != a.order[y2]);
        }
    } else {
        lemma_filter_absent(a.order, key);
        assert(r.map =~= a.map);
    }
}

/// The keys that are kept are the keys that are not meant, each once.
pub proof fn lemma_kept_keys(order: Seq<Seq<u64>>, sel: Selector, from: int)
    requires
        0 <= from,
        order.no_duplicates(),
    ensures
        kept_keys(order, sel, from).no_duplicates(),
        forall|k: Seq<u64>|
            kept_keys(order, sel, from).contains(k) <==> !selects(sel, k) && exists|j: int|
                from <= j < order.len() && order[j] == k,
    decreases order.len() - from,
{
    let r = kept_keys(order, sel, from);
    if from < order.len() {
        lemma_kept_keys(order, sel, from + 1);
        let rest = kept_keys(order, sel, from + 1);
        if selects(sel, order[from]) {
            assert forall|k: Seq<u64>| r.contains(k) <==> !selects(sel, k) && exists|j: int|
                from <= j < order.len() && order[j] == k by {
                if !selects(sel, k) && exists|j: int| from <= j < order.len() && order[j] == k {
                    let j = choose|j: int| from <= j < order.len() && order[j] == k;
                    assert(from + 1 <= j);
                }
            }
        } else {
            assert forall|k: Seq<u64>| r.contains(k) <==> !selects(sel, k) && exists|j: int|
                from <= j < order.len() && order[j] == k by {
                if r.contains(k) {
                    let x = choose|x: int| 0 <= x < r.len() && r[x] == k;
                    if x == 0 {
                        assert(order[from] == k);
                    } else {
                        assert(rest[x - 1] == k);
                        assert(rest.contains(k));
                    }
                }
                if !selects(sel, k) && exists|j: int| from <= j < order.len() && order[j] == k {
                    let j = choose|j: int| from <= j < order.len() && order[j] == k;
                    if j == from {
                        assert(r[0] == k);
                    } else {
                        assert(rest.contains(k));
                        let x = choose|x: int| 0 <= x < rest.len() && rest[x] == k;
                        assert(r[x + 1] == k);
                    }
                }
            }
            assert forall|x: int, y: int| 0 <= x < r.len() && 0 <= y < r.len() && x != y implies r[x]
                != r[y] by {
                if x == 0 || y == 0 {
                    let z = if x == 0 {
                        y
                    } else {
                        x
                    };
                    assert(rest[z - 1] == r[z]);
                    assert(rest.contains(r[z]));
                    if r[z] == order[from] {
                        let j = choose|j: int| from + 1 <= j < order.len() && order[j] == r[z];
                        assert(order[j] == order[from]);
                    }
                } else {
                    assert(rest[x - 1] != rest[y - 1]);
                }
            }
        }
    }
}

/// Taking keys out keeps a model well formed.
pub proof fn lemma_without_wf(a: Assoc<Seq<u64>, u64>, sel: Selector)
    requires
        a.wf(),
    ensures
        without(a, sel).wf(),
{
    lemma_kept_keys(a.order, sel, 0);
    let r = without(a, sel);
    assert forall|k: Seq<u64>| r.map.dom().contains(k) <==> r.order.contains(k) by {
        if r.map.dom().contains(k) {
            assert(a.order.contains(k));
            let j = choose|j: int| 0 <= j < a.order.len() && a.order[j] == k;
            assert(a.order[j] == k);
        }
        if r.order.contains(k) {
            assert(kept_keys(a.order, sel, 0).contains(k));
            assert(!selects(sel, k) && exists|j: int| 0 <= j < a.order.len() && a.order[j] == k);
            let j = choose|j: int| 0 <= j < a.order.len() && a.order[j] == k;
            assert(a.order.contains(k));
        }
    }
}

} // verus!
