//! Gathers the semaphores that one submission waits for and signals.

use vstd::prelude::*;
use crate::assoc::{Assoc, AssocMap};
use crate::vk::{rank_pipeline_stage, spec_rank_pipeline_stage};

verus! {

/// What a submission waits for on one semaphore.
#[derive(Debug, Copy, Clone, PartialEq, Eq, Structural, Hash)]
pub struct WaitInfo {
    /// The timeline value to wait for; `None` for a binary semaphore.
    pub value: Option<u64>,
    /// The stage that waits.
    pub stage: u32,
}

/// The semaphores of a submission: those it waits for, each with the value
/// and the stage, and those it signals, each with the value.
pub struct SemaphoreTracker {
    waits: AssocMap<u64, WaitInfo>,
    signals: AssocMap<u64, Option<u64>>,
}

/// The model of a [`SemaphoreTracker`].
pub struct SemaphoresView {
    pub waits: Assoc<u64, WaitInfo>,
    pub signals: Assoc<u64, Option<u64>>,
}

/// The semaphores of a submission, listed.
#[derive(Debug)]
pub struct OutSemaphores {
    pub waits: Vec<(u64, WaitInfo)>,
    pub signals: Vec<(u64, Option<u64>)>,
}

/// The greater of two timeline values, a binary semaphore's missing value
/// counting as the least.
pub open spec fn max_value(a: Option<u64>, b: Option<u64>) -> Option<u64> {
    match (a, b) {
        (Some(x), Some(y)) => if x >= y {
            Some(x)
        } else {
            Some(y)
        },
        (Some(x), None) => Some(x),
        (None, _) => b,
    }
}

/// The earlier of two stages; `a` when neither is earlier.
pub open spec fn earlier_stage(a: u32, b: u32) -> u32 {
    if spec_rank_pipeline_stage(b) < spec_rank_pipeline_stage(a) {
        b
    } else {
        a
    }
}

/// Two waits on one semaphore as one: the greater value, the earlier
/// stage.
pub open spec fn merge_waits(a: WaitInfo, b: WaitInfo) -> WaitInfo {
    WaitInfo { value: max_value(a.value, b.value), stage: earlier_stage(a.stage, b.stage) }
}

/// The waits after one more wait on `semaphore`.
pub open spec fn add_wait(waits: Assoc<u64, WaitInfo>, semaphore: u64, info: WaitInfo) -> Assoc<
    u64,
    WaitInfo,
> {
    if waits.contains(semaphore) {
        waits.insert(semaphore, merge_waits(waits.map[semaphore], info))
    } else {
        waits.insert(semaphore, info)
    }
}

/// The entries of an ordered map, in order.
pub open spec fn listed<V>(m: Assoc<u64, V>) -> Seq<(u64, V)> {
    Seq::new(m.order.len(), |i: int| (m.order[i], m.map[m.order[i]]))
}

impl View for SemaphoreTracker {
    type V = SemaphoresView;

    closed spec fn view(&self) -> SemaphoresView {
        SemaphoresView { waits: self.waits@, signals: self.signals@ }
    }
}

impl SemaphoreTracker {
    /// Every map holds each of its keys once.
    pub closed spec fn wf(&self) -> bool {
        self.waits.wf() && self.signals.wf()
    }

    /// A tracker without semaphores.
    pub fn new() -> (r: Self)
        ensures
            r.wf(),
            r@.waits == Assoc::<u64, WaitInfo>::empty(),
            r@.signals == Assoc::<u64, Option<u64>>::empty(),
    {
        SemaphoreTracker { waits: AssocMap::new(), signals: AssocMap::new() }
    }

    /// Notes a wait on `semaphore`. Of several waits on one semaphore the
    /// greatest value and the earliest stage are kept.
    pub fn register_wait(&mut self, semaphore: u64, info: WaitInfo)
        requires
            old(self).wf(),
        ensures
            final(self).wf(),
            final(self)@.waits == add_wait(old(self)@.waits, semaphore, info),
            final(self)@.signals == old(self)@.signals,
    {
        match self.waits.get(&semaphore) {
            Some(cur) => {
                let value = match (cur.value, info.value) {
                    (Some(x), Some(y)) => if x >= y {
                        Some(x)
                    } else {
                        Some(y)
                    },
                    (Some(x), None) => Some(x),
                    (None, other) => other,
                };
                let stage = if rank_pipeline_stage(info.stage) < rank_pipeline_stage(cur.stage) {
                    info.stage
                } else {
                    cur.stage
                };
                self.waits.insert(semaphore, WaitInfo { value, stage });
            },
            None => {
                self.waits.insert(semaphore, info);
            },
        }
    }

    /// Notes that `semaphore` is signalled with `value`; `None` for a
    /// binary semaphore. A later signal of the same semaphore replaces an
    /// earlier one.
    pub fn register_signal(&mut self, semaphore: u64, value: Option<u64>)
        requires
            old(self).wf(),
        ensures
            final(self).wf(),
            final(self)@.signals == old(self)@.signals.insert(semaphore, value),
            final(self)@.waits == old(self)@.waits,
    {
        self.signals.insert(semaphore, value);
    }

    /// Lists the semaphores, each kind in the order in which its
    /// semaphores were first noted.
    pub fn finish(self) -> (r: OutSemaphores)
        requires
            self.wf(),
        ensures
            r.waits@ == listed(self@.waits),
            r.signals@ == listed(self@.signals),
    {
        let mut waits: Vec<(u64, WaitInfo)> = Vec::new();
        let n = self.waits.len();
        let mut i: usize = 0;
        while i < n
            invariant
                self.wf(),
                i <= n,
                n == self@.waits.order.len(),
                waits@.len() == i,
                forall|j: int| 0 <= j < i ==> waits@[j] == listed(self@.waits)[j],
            decreases n - i,
        {
            let e = self.waits.entry(i);
            waits.push(e);
            i += 1;
        }
        let mut signals: Vec<(u64, Option<u64>)> = Vec::new();
        let m = self.signals.len();
        let mut k: usize = 0;
        while k < m
            invariant
                self.wf(),
                k <= m,
                m == self@.signals.order.len(),
                signals@.len() == k,
                forall|j: int| 0 <= j < k ==> signals@[j] == listed(self@.signals)[j],
            decreases m - k,
        {
            let e = self.signals.entry(k);
            signals.push(e);
            k += 1;
        }
        proof {
            assert(waits@ =~= listed(self@.waits));
            assert(signals@ =~= listed(self@.signals));
        }
        OutSemaphores { waits, signals }
    }
}

/// After a wait was noted, the waits hold the semaphore with a value no
/// less than the noted one and a stage no later; every other wait that was
/// held is still held, with a value no less and a stage no later.
pub proof fn lemma_add_wait(waits: Assoc<u64, WaitInfo>, semaphore: u64, info: WaitInfo)
    ensures
        covers(add_wait(waits, semaphore, info), semaphore, info),
        forall|s: u64|
            waits.contains(s) ==> covers(add_wait(waits, semaphore, info), s, #[trigger] waits.map[s]),
{
}

/// Whether `waits` holds a wait on `semaphore` that is at least as strong
/// as `info`: for a value no less, at a stage no later.
pub open spec fn covers(waits: Assoc<u64, WaitInfo>, semaphore: u64, info: WaitInfo) -> bool {
    &&& waits.contains(semaphore)
    &&& max_value(waits.map[semaphore].value, info.value) == waits.map[semaphore].value
    &&& spec_rank_pipeline_stage(waits.map[semaphore].stage) <= spec_rank_pipeline_stage(
        info.stage,
    )
}

} // verus!
