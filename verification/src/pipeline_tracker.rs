//! A tracker of whole buffers and image elements that answers a conflict
//! with global memory barriers.

use vstd::prelude::*;
use crate::assoc::{Assoc, AssocMap};
use crate::resource_state::Element;
use crate::usage::ImageMemoryBarrier;
use crate::vk::{
    is_read_access, spec_is_read_access, ACCESS_NONE, DEPENDENCY_BY_REGION, QUEUE_FAMILY_IGNORED,
    STAGE_TOP_OF_PIPE,
};

verus! {

/// A change of the layout of all mip levels of an image element.
#[derive(Debug, Copy, Clone, PartialEq, Eq, Structural)]
pub struct ImageLayoutTransition {
    pub old: i32,
    pub new: i32,
    pub aspect_mask: u32,
    pub mip_count: u32,
}

/// How an operation uses a resource.
#[derive(Debug, Copy, Clone, PartialEq, Eq, Structural)]
pub struct ResourceUsage {
    /// The stage in which the resource is used.
    pub used: u32,
    /// The kind of access.
    pub access: u32,
    /// The layout transition that the use asks for; unused for a buffer.
    pub layout_transition: Option<ImageLayoutTransition>,
}

/// A global memory barrier.
#[derive(Debug, Copy, Clone, PartialEq, Eq, Structural)]
pub struct MemoryBarrier {
    pub src_access_mask: u32,
    pub dst_access_mask: u32,
}

/// The barrier to record before an operation.
#[derive(Debug)]
pub struct Barrier {
    pub src_stage: u32,
    pub dst_stage: u32,
    pub dependency: u32,
    pub memory_barriers: Vec<MemoryBarrier>,
    pub image_barriers: Vec<ImageMemoryBarrier>,
}

/// A layout transition that waits to be recorded, with the accesses that
/// it lies between.
#[derive(Debug, Copy, Clone, PartialEq, Eq, Structural)]
pub struct PendingTransition {
    pub transition: ImageLayoutTransition,
    pub src_access: u32,
    pub dst_access: u32,
}

/// The last use of every buffer and of every image element.
pub struct PipelineTracker {
    buffers: AssocMap<u64, ResourceUsage>,
    images: AssocMap<Element, ResourceUsage>,
}

/// The model of a [`PipelineTracker`].
pub struct TrackedView {
    pub buffers: Map<u64, ResourceUsage>,
    pub images: Map<Element, ResourceUsage>,
}

/// What is gathered while the uses of one update are handled.
pub struct Gathered {
    pub needs_barrier: bool,
    pub src_stage: u32,
    pub dst_stage: u32,
    /// For each writing access that is waited for, the accesses that wait.
    pub memory: Assoc<u32, u32>,
    pub transitions: Assoc<Element, PendingTransition>,
}

/// Nothing gathered yet.
pub open spec fn nothing() -> Gathered {
    Gathered {
        needs_barrier: false,
        src_stage: 0,
        dst_stage: 0,
        memory: Assoc::empty(),
        transitions: Assoc::empty(),
    }
}

/// Whether a use after an earlier use is a conflict: anything but a read
/// after a read.
pub open spec fn conflict(old_usage: ResourceUsage, usage: ResourceUsage) -> bool {
    !(spec_is_read_access(old_usage.access) && spec_is_read_access(usage.access))
}

/// What is remembered of a resource after a use: the use itself when the
/// resource was not used before or the use conflicts with the earlier one,
/// else both uses together.
pub open spec fn remembered(old_usage: Option<ResourceUsage>, usage: ResourceUsage) -> ResourceUsage {
    match old_usage {
        Some(o) => if conflict(o, usage) {
            usage
        } else {
            ResourceUsage {
                used: o.used | usage.used,
                access: o.access | usage.access,
                layout_transition: o.layout_transition,
            }
        },
        None => usage,
    }
}

/// What is gathered after a use that follows `old_usage`: a conflict asks
/// for a barrier between the stages of the two uses, and for a memory
/// barrier when the earlier use wrote.
pub open spec fn gather_use(g: Gathered, old_usage: Option<ResourceUsage>, usage: ResourceUsage)
    -> Gathered {
    match old_usage {
        Some(o) => if conflict(o, usage) {
            Gathered {
                needs_barrier: true,
                src_stage: g.src_stage | o.used,
                dst_stage: g.dst_stage | usage.used,
                memory: if !spec_is_read_access(o.access) {
                    g.memory.insert(
                        o.access,
                        (match g.memory.get(o.access) {
                            Some(d) => d,
                            None => 0,
                        }) | usage.access,
                    )
                } else {
                    g.memory
                },
                ..g
            }
        } else {
            g
        },
        None => g,
    }
}

/// What is gathered after the layout transition of a use of an image
/// element was noted, if the use asks for one.
pub open spec fn gather_transition(
    g: Gathered,
    key: Element,
    old_usage: Option<ResourceUsage>,
    usage: ResourceUsage,
) -> Gathered {
    match usage.layout_transition {
        Some(t) => Gathered {
            needs_barrier: true,
            dst_stage: g.dst_stage | usage.used,
            transitions: g.transitions.insert(
                key,
                PendingTransition {
                    transition: t,
                    src_access: match old_usage {
                        Some(o) => o.access,
                        None => ACCESS_NONE,
                    },
                    dst_access: usage.access,
                },
            ),
            ..g
        },
        None => g,
    }
}

/// What a map binds a key to, if anything.
pub open spec fn lookup<K>(m: Map<K, ResourceUsage>, key: K) -> Option<ResourceUsage> {
    if m.dom().contains(key) {
        Some(m[key])
    } else {
        None
    }
}

/// The tracker and what is gathered after the first `n` buffer uses.
pub open spec fn after_buffers(t: TrackedView, g: Gathered, buffers: Seq<(u64, ResourceUsage)>, n: int)
    -> (TrackedView, Gathered)
    decreases n,
{
    if n <= 0 {
        (t, g)
    } else {
        let (t1, g1) = after_buffers(t, g, buffers, n - 1);
        let (buffer, usage) = buffers[n - 1];
        let old_usage = lookup(t1.buffers, buffer);
        (
            TrackedView { buffers: t1.buffers.insert(buffer, remembered(old_usage, usage)), ..t1 },
            gather_use(g1, old_usage, usage),
        )
    }
}

/// The tracker and what is gathered after the first `n` image uses.
pub open spec fn after_images(
    t: TrackedView,
    g: Gathered,
    images: Seq<(u64, usize, ResourceUsage)>,
    n: int,
) -> (TrackedView, Gathered)
    decreases n,
{
    if n <= 0 {
        (t, g)
    } else {
        let (t1, g1) = after_images(t, g, images, n - 1);
        let (image, array_elem, usage) = images[n - 1];
        let key = Element { handle: image, array_elem };
        let old_usage = lookup(t1.images, key);
        (
            TrackedView { images: t1.images.insert(key, remembered(old_usage, usage)), ..t1 },
            gather_transition(gather_use(g1, old_usage, usage), key, old_usage, usage),
        )
    }
}

/// The tracker and what is gathered after all uses of an update: the
/// buffers first, then the images.
pub open spec fn after_update(
    t: TrackedView,
    buffers: Seq<(u64, ResourceUsage)>,
    images: Seq<(u64, usize, ResourceUsage)>,
) -> (TrackedView, Gathered) {
    let (t1, g1) = after_buffers(t, nothing(), buffers, buffers.len() as int);
    after_images(t1, g1, images, images.len() as int)
}

/// The image barrier of a pending transition of the image element `key`:
/// over all of its mip levels.
pub open spec fn transition_barrier(key: Element, p: PendingTransition) -> ImageMemoryBarrier {
    ImageMemoryBarrier {
        src_access_mask: p.src_access,
        dst_access_mask: p.dst_access,
        old_layout: p.transition.old,
        new_layout: p.transition.new,
        src_queue_family_index: QUEUE_FAMILY_IGNORED,
        dst_queue_family_index: QUEUE_FAMILY_IGNORED,
        image: key.handle,
        aspect_mask: p.transition.aspect_mask,
        base_mip_level: 0,
        level_count: p.transition.mip_count,
        base_array_layer: key.array_elem as u32,
        layer_count: 1,
    }
}

/// Whether `out` is the barrier for what was gathered: none when no
/// barrier is needed, else one by region with the gathered stages, a
/// memory barrier for each writing access waited for, and an image barrier
/// for each transition, each kind in the order in which it arose.
pub open spec fn barrier_for(out: Option<Barrier>, g: Gathered) -> bool {
    if g.needs_barrier {
        &&& out is Some
        &&& out->0.src_stage == g.src_stage
        &&& out->0.dst_stage == g.dst_stage
        &&& out->0.dependency == DEPENDENCY_BY_REGION
        &&& out->0.memory_barriers@ == Seq::new(
            g.memory.order.len(),
            |i: int|
                MemoryBarrier {
                    src_access_mask: g.memory.order[i],
                    dst_access_mask: g.memory.map[g.memory.order[i]],
                },
        )
        &&& out->0.image_barriers@ == Seq::new(
            g.transitions.order.len(),
            |i: int|
                transition_barrier(g.transitions.order[i], g.transitions.map[g.transitions.order[i]]),
        )
    } else {
        out is None
    }
}

impl View for PipelineTracker {
    type V = TrackedView;

    closed spec fn view(&self) -> TrackedView {
        TrackedView { buffers: self.buffers@.map, images: self.images@.map }
    }
}

impl PipelineTracker {
    /// Every map holds each of its keys once.
    pub closed spec fn wf(&self) -> bool {
        self.buffers.wf() && self.images.wf()
    }

    /// A tracker that has seen no use.
    pub fn new() -> (r: Self)
        ensures
            r.wf(),
            r@.buffers == Map::<u64, ResourceUsage>::empty(),
            r@.images == Map::<Element, ResourceUsage>::empty(),
    {
        PipelineTracker { buffers: AssocMap::new(), images: AssocMap::new() }
    }

    /// Takes note of how an operation uses buffers and image elements, and
    /// hands back the barrier to record before the operation when a use
    /// conflicts with an earlier one or asks for a layout transition.
    pub fn update(
        &mut self,
        buffers: &Vec<(u64, ResourceUsage)>,
        images: &Vec<(u64, usize, ResourceUsage)>,
    ) -> (out: Option<Barrier>)
        requires
            old(self).wf(),
        ensures
            final(self).wf(),
            final(self)@ == after_update(old(self)@, buffers@, images@).0,
            barrier_for(out, after_update(old(self)@, buffers@, images@).1),
    {
        let mut needs_barrier = false;
        let mut src_stage: u32 = 0;
        let mut dst_stage: u32 = 0;
        let mut memory_barriers: AssocMap<u32, u32> = AssocMap::new();
        let mut image_barriers: AssocMap<Element, PendingTransition> = AssocMap::new();
        let ghost start = self@;

        let mut i: usize = 0;
        while i < buffers.len()
            invariant
                i <= buffers@.len(),
                self.wf(),
                memory_barriers.wf(),
                image_barriers.wf(),
                image_barriers@ == Assoc::<Element, PendingTransition>::empty(),
                after_buffers(start, nothing(), buffers@, i as int) == (
                    self@,
                    Gathered {
                        needs_barrier,
                        src_stage,
                        dst_stage,
                        memory: memory_barriers@,
                        transitions: image_barriers@,
                    },
                ),
            decreases buffers@.len() - i,
        {
            let (buffer, usage) = buffers[i];
            match self.buffers.get(&buffer) {
                Some(old_usage) => {
                    // A read after a read needs no barrier; everything else does.
                    if !(is_read_access(old_usage.access) && is_read_access(usage.access)) {
                        needs_barrier = true;
                        src_stage = src_stage | old_usage.used;
                        dst_stage = dst_stage | usage.used;
                        // Only what was written has to be made visible.
                        if !is_read_access(old_usage.access) {
                            let waiting = match memory_barriers.get(&old_usage.access) {
                                Some(d) => d,
                                None => 0,
                            };
                            memory_barriers.insert(old_usage.access, waiting | usage.access);
                        }
                        self.buffers.insert(buffer, usage);
                    } else {
                        self.buffers.insert(
                            buffer,
                            ResourceUsage {
                                used: old_usage.used | usage.used,
                                access: old_usage.access | usage.access,
                                layout_transition: old_usage.layout_transition,
                            },
                        );
                    }
                },
                None => {
                    self.buffers.insert(buffer, usage);
                },
            }
            i += 1;
        }
        let ghost mid = self@;
        let ghost gathered = Gathered {
            needs_barrier,
            src_stage,
            dst_stage,
            memory: memory_barriers@,
            transitions: image_barriers@,
        };

        let mut k: usize = 0;
        while k < images.len()
            invariant
                k <= images@.len(),
                self.wf(),
                memory_barriers.wf(),
                image_barriers.wf(),
                after_images(mid, gathered, images@, k as int) == (
                    self@,
                    Gathered {
                        needs_barrier,
                        src_stage,
                        dst_stage,
                        memory: memory_barriers@,
                        transitions: image_barriers@,
                    },
                ),
            decreases images@.len() - k,
        {
            let (image, array_elem, usage) = images[k];
            let key = Element { handle: image, array_elem };
            let old_access = match self.images.get(&key) {
                Some(old_usage) => {
                    if !(is_read_access(old_usage.access) && is_read_access(usage.access)) {
                        needs_barrier = true;
                        src_stage = src_stage | old_usage.used;
                        dst_stage = dst_stage | usage.used;
                        if !is_read_access(old_usage.access) {
                            let waiting = match memory_barriers.get(&old_usage.access) {
                                Some(d) => d,
                                None => 0,
                            };
                            memory_barriers.insert(old_usage.access, waiting | usage.access);
                        }
                        self.images.insert(key, usage);
                    } else {
                        self.images.insert(
                            key,
                            ResourceUsage {
                                used: old_usage.used | usage.used,
                                access: old_usage.access | usage.access,
                                layout_transition: old_usage.layout_transition,
                            },
                        );
                    }
                    old_usage.access
                },
                None => {
                    self.images.insert(key, usage);
                    ACCESS_NONE
                },
            };
            // A layout transition always needs a barrier.
            match usage.layout_transition {
                Some(transition) => {
                    needs_barrier = true;
                    image_barriers.insert(
                        key,
                        PendingTransition {
                            transition,
                            src_access: old_access,
                            dst_access: usage.access,
                        },
                    );
                    dst_stage = dst_stage | usage.used;
                },
                None => {},
            }
            k += 1;
        }
        if !needs_barrier {
            return None;
        }
        let mut memory: Vec<MemoryBarrier> = Vec::new();
        let mut m: usize = 0;
        while m < memory_barriers.len()
            invariant
                m <= memory_barriers@.order.len(),
                memory_barriers.wf(),
                memory@.len() == m,
                forall|j: int|
                    0 <= j < m ==> memory@[j] == (MemoryBarrier {
                        src_access_mask: memory_barriers@.order[j],
                        dst_access_mask: memory_barriers@.map[memory_barriers@.order[j]],
                    }),
            decreases memory_barriers@.order.len() - m,
        {
            let (src, dst) = memory_barriers.entry(m);
            memory.push(MemoryBarrier { src_access_mask: src, dst_access_mask: dst });
            m += 1;
        }
        let mut transitions: Vec<ImageMemoryBarrier> = Vec::new();
        let mut t: usize = 0;
        while t < image_barriers.len()
            invariant
                t <= image_barriers@.order.len(),
                image_barriers.wf(),
                transitions@.len() == t,
                forall|j: int|
                    0 <= j < t ==> transitions@[j] == transition_barrier(
                        image_barriers@.order[j],
                        image_barriers@.map[image_barriers@.order[j]],
                    ),
            decreases image_barriers@.order.len() - t,
        {
            let (key, pending) = image_barriers.entry(t);
            transitions.push(
                ImageMemoryBarrier {
                    src_access_mask: pending.src_access,
                    dst_access_mask: pending.dst_access,
                    old_layout: pending.transition.old,
                    new_layout: pending.transition.new,
                    src_queue_family_index: QUEUE_FAMILY_IGNORED,
                    dst_queue_family_index: QUEUE_FAMILY_IGNORED,
                    image: key.handle,
                    aspect_mask: pending.transition.aspect_mask,
                    base_mip_level: 0,
                    level_count: pending.transition.mip_count,
                    base_array_layer: key.array_elem as u32,
                    layer_count: 1,
                },
            );
            t += 1;
        }
        proof {
            assert(memory@ =~= Seq::new(
                memory_barriers@.order.len(),
                |i: int|
                    MemoryBarrier {
                        src_access_mask: memory_barriers@.order[i],
                        dst_access_mask: memory_barriers@.map[memory_barriers@.order[i]],
                    },
            ));
            assert(transitions@ =~= Seq::new(
                image_barriers@.order.len(),
                |i: int|
                    transition_barrier(
                        image_barriers@.order[i],
                        image_barriers@.map[image_barriers@.order[i]],
                    ),
            ));
        }
        Some(
            Barrier {
                src_stage,
                dst_stage,
                dependency: DEPENDENCY_BY_REGION,
                memory_barriers: memory,
                image_barriers: transitions,
            },
        )
    }
}

impl Barrier {
    /// The stage that the barrier is recorded to start from: the top of
    /// the pipeline when no stage was gathered.
    pub fn execute(&self) -> (r: u32)
        ensures
            r == (if self.src_stage == 0 {
                STAGE_TOP_OF_PIPE
            } else {
                self.src_stage
            }),
    {
        if self.src_stage == 0 {
            STAGE_TOP_OF_PIPE
        } else {
            self.src_stage
        }
    }
}

} // verus!
