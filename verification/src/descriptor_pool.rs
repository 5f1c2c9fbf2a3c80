//! Pools of descriptor sets, one family of pools for each layout.

use vstd::prelude::*;
use crate::assoc::{Assoc, AssocMap};
use crate::convert::{spec_vk_descriptor_type, to_vk_descriptor_type};
use crate::descriptor_set::{DescriptorBinding, DescriptorSetLayoutCreateInfo};

verus! {

/// The number of sets that one pool holds.
pub const SETS_PER_POOL: usize = 16;

/// How many descriptors of one native type a pool holds.
#[derive(Debug, Copy, Clone, PartialEq, Eq, Structural)]
pub struct DescriptorPoolSize {
    pub ty: i32,
    pub descriptor_count: u32,
}

/// Where a descriptor set comes from.
#[derive(Debug, Copy, Clone, PartialEq, Eq, Structural)]
pub enum SetSource {
    /// A set that was released before.
    Reuse(u64),
    /// A new set from this pool.
    Pool(u64),
    /// The pools are full: a new pool has to be made first.
    NewPool,
}

/// The pools of one layout.
pub struct DescriptorPool {
    /// The native layout.
    pub layout: u64,
    /// The native pools; sets are taken from the last.
    pub pools: Vec<u64>,
    /// How many sets were taken from the last pool.
    pub size: usize,
    /// The sets that were released.
    pub free: Vec<u64>,
    /// What a new pool is made with.
    pub sizes: Vec<DescriptorPoolSize>,
}

/// The number of descriptors of each native type that the first `n`
/// bindings ask for, the types in the order in which they first occur.
pub open spec fn type_counts(bindings: Seq<DescriptorBinding>, n: int) -> Assoc<i32, int>
    decreases n,
{
    if n <= 0 {
        Assoc::empty()
    } else {
        let before = type_counts(bindings, n - 1);
        let ty = spec_vk_descriptor_type(bindings[n - 1].ty);
        before.insert(
            ty,
            (match before.get(ty) {
                Some(c) => c,
                None => 0,
            }) + bindings[n - 1].count,
        )
    }
}

/// Whether a pool for the bindings can be sized: for each native type,
/// the descriptors of as many sets as a pool holds can be counted in 32
/// bits.
pub open spec fn sizable(bindings: Seq<DescriptorBinding>) -> bool {
    forall|n: int, ty: i32|
        0 <= n <= bindings.len() && #[trigger] type_counts(bindings, n).contains(ty)
            ==> type_counts(bindings, n).map[ty] * SETS_PER_POOL <= u32::MAX
}

/// The sizes of a pool for the bindings: for each native type, the
/// descriptors of as many sets as a pool holds.
pub open spec fn spec_pool_sizes(bindings: Seq<DescriptorBinding>) -> Seq<DescriptorPoolSize> {
    let counts = type_counts(bindings, bindings.len() as int);
    Seq::new(
        counts.order.len(),
        |i: int|
            DescriptorPoolSize {
                ty: counts.order[i],
                descriptor_count: (counts.map[counts.order[i]] * SETS_PER_POOL) as u32,
            },
    )
}

/// The sizes of a pool for the bindings; see [`spec_pool_sizes`].
pub fn pool_sizes(bindings: &Vec<DescriptorBinding>) -> (r: Vec<DescriptorPoolSize>)
    requires
        sizable(bindings@),
    ensures
        r@ == spec_pool_sizes(bindings@),
{
    let mut counts: AssocMap<i32, u32> = AssocMap::new();
    let mut i: usize = 0;
    while i < bindings.len()
        invariant
            i <= bindings@.len(),
            sizable(bindings@),
            counts.wf(),
            counts@.order == type_counts(bindings@, i as int).order,
            forall|ty: i32|
                counts@.map.dom().contains(ty) <==> type_counts(bindings@, i as int).map.dom().contains(
                    ty,
                ),
            forall|ty: i32| #[trigger]
                counts@.map.dom().contains(ty) ==> counts@.map[ty] == type_counts(
                    bindings@,
                    i as int,
                ).map[ty],
        decreases bindings@.len() - i,
    {
        let binding = bindings[i];
        let ty = to_vk_descriptor_type(binding.ty);
        let before = match counts.get(&ty) {
            Some(c) => c,
            None => 0,
        };
        proof {
            let next = type_counts(bindings@, i as int + 1);
            assert(next.contains(ty));
            assert(next.map[ty] * SETS_PER_POOL <= u32::MAX);
            assert(next.map[ty] == before + binding.count);
        }
        counts.insert(ty, before + binding.count as u32);
        i += 1;
    }
    let mut sizes: Vec<DescriptorPoolSize> = Vec::new();
    let ghost total = type_counts(bindings@, bindings@.len() as int);
    let mut k: usize = 0;
    while k < counts.len()
        invariant
            k <= counts@.order.len(),
            sizable(bindings@),
            counts.wf(),
            total == type_counts(bindings@, bindings@.len() as int),
            counts@.order == total.order,
            forall|ty: i32| counts@.map.dom().contains(ty) <==> total.map.dom().contains(ty),
            forall|ty: i32| #[trigger]
                counts@.map.dom().contains(ty) ==> counts@.map[ty] == total.map[ty],
            sizes@.len() == k,
            forall|j: int| 0 <= j < k ==> sizes@[j] == spec_pool_sizes(bindings@)[j],
        decreases counts@.order.len() - k,
    {
        let (ty, count) = counts.entry(k);
        proof {
            assert(total.contains(ty));
            assert(total.map[ty] * SETS_PER_POOL <= u32::MAX);
        }
        sizes.push(DescriptorPoolSize { ty, descriptor_count: count * (SETS_PER_POOL as u32) });
        k += 1;
    }
    proof {
        assert(sizes@ =~= spec_pool_sizes(bindings@));
    }
    sizes
}

impl DescriptorPool {
    /// The sets taken from the last pool are no more than a pool holds.
    pub open spec fn wf(&self) -> bool {
        self.size <= SETS_PER_POOL
    }

    /// The pools of the native layout `layout`, which was made for
    /// `create_info`: no pool yet, and no set.
    pub fn new(layout: u64, create_info: &DescriptorSetLayoutCreateInfo) -> (r: Self)
        requires
            sizable(create_info.bindings@),
        ensures
            r.wf(),
            r.layout == layout,
            r.pools@.len() == 0,
            r.size == 0,
            r.free@.len() == 0,
            r.sizes@ == spec_pool_sizes(create_info.bindings@),
    {
        DescriptorPool {
            layout,
            pools: Vec::new(),
            size: 0,
            free: Vec::new(),
            sizes: pool_sizes(&create_info.bindings),
        }
    }

    /// The native layout.
    pub fn layout(&self) -> (r: u64)
        ensures
            r == self.layout,
    {
        self.layout
    }

    /// Says where the next set comes from: a released set if there is one,
    /// else the last pool if it has room, else a pool that has yet to be
    /// made.
    pub fn allocate(&mut self) -> (r: SetSource)
        requires
            old(self).wf(),
        ensures
            final(self).wf(),
            final(self).layout == old(self).layout,
            final(self).pools == old(self).pools,
            final(self).sizes == old(self).sizes,
            old(self).free@.len() > 0 ==> r == SetSource::Reuse(old(self).free@.last())
                && final(self).free@ == old(self).free@.drop_last() && final(self).size == old(self).size,
            old(self).free@.len() == 0 && old(self).pools@.len() > 0 && old(self).size
                < SETS_PER_POOL ==> r == SetSource::Pool(old(self).pools@.last()) && final(self).free@ == old(self).free@
                && final(self).size == old(self).size + 1,
            old(self).free@.len() == 0 && !(old(self).pools@.len() > 0 && old(self).size
                < SETS_PER_POOL) ==> r == SetSource::NewPool && final(self).free@ == old(self).free@
                && final(self).size == old(self).size,
    {
        match self.free.pop() {
            Some(set) => {
                return SetSource::Reuse(set);
            },
            None => {},
        }
        if self.pools.len() > 0 && self.size < SETS_PER_POOL {
            self.size += 1;
            SetSource::Pool(self.pools[self.pools.len() - 1])
        } else {
            SetSource::NewPool
        }
    }

    /// Takes over a new pool, made with the sizes of this family; the next
    /// sets are taken from it.
    pub fn add_pool(&mut self, pool: u64)
        ensures
            final(self).wf(),
            final(self).pools@ == old(self).pools@.push(pool),
            final(self).size == 0,
            final(self).layout == old(self).layout,
            final(self).free == old(self).free,
            final(self).sizes == old(self).sizes,
    {
        self.pools.push(pool);
        self.size = 0;
    }

    /// Takes a released set back for reuse.
    pub fn free(&mut self, set: u64)
        ensures
            *final(self) == (DescriptorPool { free: final(self).free, ..*old(self) }),
            final(self).free@ == old(self).free@.push(set),
    {
        self.free.push(set);
    }
}

/// The pools of every layout.
pub struct DescriptorPools {
    pub pools: Vec<DescriptorPool>,
}

/// The place of the first of `pools`, from place `from` on, whose native
/// layout is `layout`.
pub open spec fn pool_of_layout(pools: Seq<DescriptorPool>, layout: u64, from: int) -> Option<int>
    decreases pools.len() - from,
{
    if from < 0 || from >= pools.len() {
        None
    } else if pools[from].layout == layout {
        Some(from)
    } else {
        pool_of_layout(pools, layout, from + 1)
    }
}

impl DescriptorPools {
    /// No pools.
    pub fn new() -> (r: Self)
        ensures
            r.pools@.len() == 0,
    {
        DescriptorPools { pools: Vec::new() }
    }

    /// The place of the pools of the native layout `layout`.
    pub fn get_by_layout(&self, layout: u64) -> (r: Option<usize>)
        ensures
            pool_of_layout(self.pools@, layout, 0) == (match r {
                Some(i) => Some(i as int),
                None => None,
            }),
            r is Some ==> r->0 < self.pools@.len() && self.pools@[r->0 as int].layout == layout,
    {
        let mut i: usize = 0;
        while i < self.pools.len()
            invariant
                i <= self.pools@.len(),
                pool_of_layout(self.pools@, layout, 0) == pool_of_layout(
                    self.pools@,
                    layout,
                    i as int,
                ),
            decreases self.pools@.len() - i,
        {
            if self.pools[i].layout == layout {
                return Some(i);
            }
            i += 1;
        }
        None
    }

    /// Adds the pools of one more layout and hands back their place.
    pub fn add(&mut self, pool: DescriptorPool) -> (r: usize)
        ensures
            r == old(self).pools@.len(),
            final(self).pools@ == old(self).pools@.push(pool),
    {
        self.pools.push(pool);
        self.pools.len() - 1
    }

    /// Takes a released set of the native layout `layout` back for reuse;
    /// says whether the layout has pools.
    pub fn free(&mut self, layout: u64, set: u64) -> (r: bool)
        ensures
            r == (pool_of_layout(old(self).pools@, layout, 0) is Some),
            final(self).pools@.len() == old(self).pools@.len(),
            !r ==> final(self).pools@ == old(self).pools@,
            r ==> ({
                let i = pool_of_layout(old(self).pools@, layout, 0)->0;
                &&& final(self).pools@[i].free@ == old(self).pools@[i].free@.push(set)
                &&& final(self).pools@[i].layout == layout
                &&& forall|k: int|
                    0 <= k < old(self).pools@.len() && k != i ==> #[trigger] final(self).pools@[k]
                        == old(self).pools@[k]
            }),
    {
        match self.get_by_layout(layout) {
            Some(i) => {
                let mut pool = self.pools.remove(i);
                pool.free(set);
                self.pools.insert(i, pool);
                assert(self.pools@ =~= old(self).pools@.update(i as int, pool));
                true
            },
            None => false,
        }
    }
}

} // verus!
