//! Holds released native objects back until the device is done with them.

use vstd::prelude::*;
use std::sync::Arc;

verus! {

/// Counts the holders of a buffer: the buffer itself and every descriptor
/// binding that names it.
#[derive(Clone)]
pub struct BufferRefCounter(Arc<()>);

/// Counts the holders of a texture: the texture itself and every descriptor
/// binding that names it.
#[derive(Clone)]
pub struct TextureRefCounter(Arc<()>);

/// Reads the number of strong references of `std::sync::Arc` through
/// `Arc::strong_count`. Other threads may change the number at any time,
/// so nothing is claimed of it.
#[verifier::external_body]
fn strong_count(counter: &Arc<()>) -> usize {
    Arc::strong_count(counter)
}

/// Whether a holder that counts `count` holders is the last one.
pub fn count_is_last(count: usize) -> (r: bool)
    ensures
        r == (count == 1),
{
    count == 1
}

impl BufferRefCounter {
    /// A counter with one holder.
    pub fn new() -> Self {
        BufferRefCounter(Arc::new(()))
    }

    /// Whether this is the only holder left, by the count read now.
    pub fn is_last(&self) -> bool {
        count_is_last(strong_count(&self.0))
    }
}

impl TextureRefCounter {
    /// A counter with one holder.
    pub fn new() -> Self {
        TextureRefCounter(Arc::new(()))
    }

    /// Whether this is the only holder left, by the count read now.
    pub fn is_last(&self) -> bool {
        count_is_last(strong_count(&self.0))
    }
}

impl Default for TextureRefCounter {
    fn default() -> Self {
        TextureRefCounter::new()
    }
}

impl Default for BufferRefCounter {
    fn default() -> Self {
        BufferRefCounter::new()
    }
}

/// A released native object. `A` is the memory allocation that backs a
/// buffer or a texture.
pub enum Garbage<A> {
    PipelineLayout(u64),
    Pipeline(u64),
    Buffer { buffer: u64, allocation: A, ref_counter: BufferRefCounter },
    Texture { image: u64, views: Vec<u64>, allocation: A, ref_counter: TextureRefCounter },
    DescriptorSet { set: u64, layout: u64 },
}

/// The timeline values of the three queues that use resources.
#[derive(Debug, Copy, Clone, PartialEq, Eq, Structural)]
pub struct TimelineValues {
    pub main: u64,
    pub transfer: u64,
    pub compute: u64,
}

/// A released object with the target values of the queues at the time it
/// was taken in.
pub struct ToDestroy<A> {
    pub garbage: Garbage<A>,
    pub values: TimelineValues,
}

/// The released objects that are still held back, oldest first.
pub struct GarbageCollector<A> {
    to_destroy: Vec<ToDestroy<A>>,
}

/// Whether every queue has reached the value in `stamp`.
pub open spec fn reached(stamp: TimelineValues, current: TimelineValues) -> bool {
    stamp.main <= current.main && stamp.transfer <= current.transfer && stamp.compute
        <= current.compute
}

/// Whether an object may only go once nothing else holds it: a buffer or a
/// texture.
pub open spec fn counted<A>(g: Garbage<A>) -> bool {
    g is Buffer || g is Texture
}

/// Whether a held object may be destroyed: every queue has reached its
/// stamp and, for a buffer or a texture, nothing else holds it.
pub open spec fn eligible<A>(item: ToDestroy<A>, current: TimelineValues, last: bool) -> bool {
    (counted(item.garbage) ==> last) && reached(item.values, current)
}

/// The objects from place `from` on that stay held, in order.
pub open spec fn kept<A>(
    items: Seq<ToDestroy<A>>,
    last: Seq<bool>,
    current: TimelineValues,
    from: int,
) -> Seq<ToDestroy<A>>
    decreases items.len() - from,
{
    if from < 0 || from >= items.len() {
        Seq::empty()
    } else if eligible(items[from], current, last[from]) {
        kept(items, last, current, from + 1)
    } else {
        seq![items[from]] + kept(items, last, current, from + 1)
    }
}

/// The objects from place `from` on that are destroyed, youngest first.
pub open spec fn swept<A>(
    items: Seq<ToDestroy<A>>,
    last: Seq<bool>,
    current: TimelineValues,
    from: int,
) -> Seq<Garbage<A>>
    decreases items.len() - from,
{
    if from < 0 || from >= items.len() {
        Seq::empty()
    } else if eligible(items[from], current, last[from]) {
        swept(items, last, current, from + 1).push(items[from].garbage)
    } else {
        swept(items, last, current, from + 1)
    }
}

/// The held objects after `incoming` was taken in with stamp `target`.
pub open spec fn taken_in<A>(
    held: Seq<ToDestroy<A>>,
    incoming: Seq<Garbage<A>>,
    target: TimelineValues,
) -> Seq<ToDestroy<A>> {
    held + Seq::new(incoming.len(), |i: int| ToDestroy { garbage: incoming[i], values: target })
}

/// Whatever is destroyed was held, every queue had reached its stamp, and,
/// if it is a buffer or a texture, nothing else held it.
pub proof fn lemma_swept_was_eligible<A>(
    items: Seq<ToDestroy<A>>,
    last: Seq<bool>,
    current: TimelineValues,
    from: int,
    k: int,
)
    requires
        0 <= from,
        0 <= k < swept(items, last, current, from).len(),
    ensures
        exists|i: int|
            from <= i < items.len() && (#[trigger] items[i]).garbage == swept(
                items,
                last,
                current,
                from,
            )[k] && reached(items[i].values, current) && (counted(items[i].garbage) ==> last[i]),
    decreases items.len() - from,
{
    if from < items.len() {
        let rest = swept(items, last, current, from + 1);
        if eligible(items[from], current, last[from]) && k == rest.len() {
            assert(items[from].garbage == swept(items, last, current, from)[k]);
        } else {
            lemma_swept_was_eligible(items, last, current, from + 1, k);
        }
    }
}

/// Whatever may not be destroyed yet stays held.
pub proof fn lemma_ineligible_is_kept<A>(
    items: Seq<ToDestroy<A>>,
    last: Seq<bool>,
    current: TimelineValues,
    from: int,
    i: int,
)
    requires
        0 <= from <= i < items.len(),
        !eligible(items[i], current, last[i]),
    ensures
        kept(items, last, current, from).contains(items[i]),
    decreases items.len() - from,
{
    let rest = kept(items, last, current, from + 1);
    if from == i {
        assert(kept(items, last, current, from)[0] == items[i]);
    } else {
        lemma_ineligible_is_kept(items, last, current, from + 1, i);
        let j = choose|j: int| 0 <= j < rest.len() && rest[j] == items[i];
        if eligible(items[from], current, last[from]) {
        } else {
            assert(kept(items, last, current, from)[j + 1] == items[i]);
        }
    }
}

impl<A> View for GarbageCollector<A> {
    type V = Seq<ToDestroy<A>>;

    closed spec fn view(&self) -> Seq<ToDestroy<A>> {
        self.to_destroy@
    }
}

impl<A> GarbageCollector<A> {
    /// A collector that holds nothing.
    pub fn new() -> (r: Self)
        ensures
            r@ == Seq::<ToDestroy<A>>::empty(),
    {
        GarbageCollector { to_destroy: Vec::new() }
    }

    /// The number of objects held back.
    pub fn pending(&self) -> (n: usize)
        ensures
            n == self@.len(),
    {
        self.to_destroy.len()
    }

    /// Takes released objects in, each stamped with `target`.
    pub fn take_in(&mut self, incoming: Vec<Garbage<A>>, target: TimelineValues)
        ensures
            final(self)@ == taken_in(old(self)@, incoming@, target),
    {
        let mut incoming = incoming;
        let ghost all = incoming@;
        let ghost start = self.to_destroy@;
        let n = incoming.len();
        // The vector is emptied from its end, so it is turned round first.
        let mut reversed: Vec<Garbage<A>> = Vec::new();
        let mut i: usize = 0;
        while i < n
            invariant
                i <= n,
                n == all.len(),
                incoming@ == all.take(n - i),
                reversed@.len() == i,
                forall|j: int| 0 <= j < i ==> reversed@[j] == all[n - 1 - j],
            decreases n - i,
        {
            match incoming.pop() {
                Some(g) => {
                    reversed.push(g);
                },
                None => {},
            }
            i += 1;
            proof {
                assert(incoming@ =~= all.take(n - i));
            }
        }
        let mut k: usize = 0;
        while k < n
            invariant
                k <= n,
                n == all.len(),
                reversed@.len() == n - k,
                forall|j: int| 0 <= j < n - k ==> reversed@[j] == all[n - 1 - j],
                self.to_destroy@ == taken_in(start, all.take(k as int), target),
            decreases n - k,
        {
            match reversed.pop() {
                Some(g) => {
                    assert(g == all[k as int]);
                    self.to_destroy.push(ToDestroy { garbage: g, values: target });
                },
                None => {},
            }
            k += 1;
            proof {
                assert(self.to_destroy@ =~= taken_in(start, all.take(k as int), target));
            }
        }
        proof {
            assert(all.take(n as int) =~= all);
        }
    }

    /// Sweeps the held objects against the timeline counters `current`;
    /// `last[i]` says of the object at place `i` whether nothing else holds
    /// it. The objects that may go are taken out and handed back, youngest
    /// first; the others stay, in order.
    pub fn sweep(&mut self, current: TimelineValues, last: &Vec<bool>) -> (out: Vec<Garbage<A>>)
        requires
            last@.len() == old(self)@.len(),
        ensures
            final(self)@ == kept(old(self)@, last@, current, 0),
            out@ == swept(old(self)@, last@, current, 0),
    {
        let ghost items = self.to_destroy@;
        let mut out: Vec<Garbage<A>> = Vec::new();
        let mut i: usize = self.to_destroy.len();
        while i > 0
            invariant
                i <= items.len(),
                last@.len() == items.len(),
                self.to_destroy@ == items.take(i as int) + kept(items, last@, current, i as int),
                out@ == swept(items, last@, current, i as int),
            decreases i,
        {
            i -= 1;
            let ghost before = self.to_destroy@;
            assert(before[i as int] == items[i as int]);
            let item = &self.to_destroy[i];
            let needs_last = match &item.garbage {
                Garbage::Buffer { .. } => true,
                Garbage::Texture { .. } => true,
                _ => false,
            };
            let done = item.values.main <= current.main && item.values.transfer
                <= current.transfer && item.values.compute <= current.compute;
            if (!needs_last || last[i]) && done {
                let removed = self.to_destroy.remove(i);
                out.push(removed.garbage);
                proof {
                    assert(self.to_destroy@ =~= items.take(i as int) + kept(
                        items,
                        last@,
                        current,
                        i as int,
                    ));
                }
            } else {
                proof {
                    assert(self.to_destroy@ =~= items.take(i as int) + kept(
                        items,
                        last@,
                        current,
                        i as int,
                    ));
                }
            }
        }
        proof {
            assert(items.take(0) + kept(items, last@, current, 0) =~= kept(items, last@, current, 0));
        }
        out
    }

    /// Takes `incoming` in with stamp `target`, asks every held buffer and
    /// texture whether anything else still holds it, and sweeps with the
    /// answers.
    pub fn cleanup(
        &mut self,
        incoming: Vec<Garbage<A>>,
        current: TimelineValues,
        target: TimelineValues,
    ) -> (out: Vec<Garbage<A>>)
        ensures
            exists|last: Seq<bool>|
                last.len() == taken_in(old(self)@, incoming@, target).len() && final(self)@
                    == #[trigger] kept(taken_in(old(self)@, incoming@, target), last, current, 0)
                    && out@ == swept(taken_in(old(self)@, incoming@, target), last, current, 0),
    {
        self.take_in(incoming, target);
        let mut last: Vec<bool> = Vec::new();
        let mut i: usize = 0;
        while i < self.to_destroy.len()
            invariant
                i <= self.to_destroy@.len(),
                last@.len() == i,
            decreases self.to_destroy@.len() - i,
        {
            let flag = match &self.to_destroy[i].garbage {
                Garbage::Buffer { ref_counter, .. } => ref_counter.is_last(),
                Garbage::Texture { ref_counter, .. } => ref_counter.is_last(),
                _ => true,
            };
            last.push(flag);
            i += 1;
        }
        self.sweep(current, &last)
    }

    /// Takes `incoming` in with stamp `target` and sweeps without asking
    /// who else holds a buffer or a texture: for shutdown, when the device
    /// is idle.
    pub fn cleanup_all(
        &mut self,
        incoming: Vec<Garbage<A>>,
        current: TimelineValues,
        target: TimelineValues,
    ) -> (out: Vec<Garbage<A>>)
        ensures
            final(self)@ == kept(
                taken_in(old(self)@, incoming@, target),
                Seq::new(taken_in(old(self)@, incoming@, target).len(), |i: int| true),
                current,
                0,
            ),
            out@ == swept(
                taken_in(old(self)@, incoming@, target),
                Seq::new(taken_in(old(self)@, incoming@, target).len(), |i: int| true),
                current,
                0,
            ),
    {
        self.take_in(incoming, target);
        let mut last: Vec<bool> = Vec::new();
        let mut i: usize = 0;
        while i < self.to_destroy.len()
            invariant
                i <= self.to_destroy@.len(),
                last@.len() == i,
                forall|j: int| 0 <= j < i ==> last@[j],
            decreases self.to_destroy@.len() - i,
        {
            last.push(true);
            i += 1;
        }
        proof {
            assert(last@ =~= Seq::new(self.to_destroy@.len(), |i: int| true));
        }
        self.sweep(current, &last)
    }
}

} // verus!
