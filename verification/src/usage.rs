//! Tracks how one submission uses sub-resources, and derives from it the
//! pipeline barriers, image layout transitions and cross-queue waits that
//! the submission needs.

use vstd::prelude::*;
use crate::assoc::{Assoc, AssocMap, Key};
use crate::types::QueueType;
use crate::vk::{
    earliest_stage, is_read_access, rank_pipeline_stage, spec_earliest_stage,
    spec_is_read_access, spec_rank_pipeline_stage, ACCESS_NONE, DEPENDENCY_BY_REGION,
    LAYOUT_UNDEFINED, QUEUE_FAMILY_IGNORED, STAGE_BOTTOM_OF_PIPE, STAGE_TOP_OF_PIPE, WHOLE_SIZE,
};

verus! {

/// The queue that last used something, and the value its timeline takes
/// when that use is over.
#[derive(Debug, Copy, Clone, PartialEq, Eq, Structural, Hash)]
pub struct QueueUsage {
    pub queue: QueueType,
    pub timeline_value: u64,
}

/// How a sub-resource is used within one scope.
#[derive(Debug, Copy, Clone, PartialEq, Eq, Structural, Hash)]
pub struct SubResourceUsage {
    pub access: u32,
    pub stage: u32,
    /// Unused by buffers.
    pub layout: i32,
}

/// The smallest unit whose use is tracked.
#[derive(Debug, Copy, Clone, PartialEq, Eq, Structural, Hash)]
pub enum SubResource {
    Buffer { buffer: u64, array_elem: u32 },
    Texture { texture: u64, aspect_mask: u32, array_elem: u32, mip_level: u32 },
}

/// One array element of a buffer.
#[derive(Debug, Copy, Clone, PartialEq, Eq, Structural, Hash)]
pub struct BufferElement {
    pub buffer: u64,
    pub array_elem: u32,
}

/// One array element of an image.
#[derive(Debug, Copy, Clone, PartialEq, Eq, Structural, Hash)]
pub struct ImageElement {
    pub image: u64,
    pub array_elem: u32,
}

/// One mip level of one array element of an image.
#[derive(Debug, Copy, Clone, PartialEq, Eq, Structural, Hash)]
pub struct ImageMip {
    pub image: u64,
    pub array_elem: u32,
    pub mip_level: u32,
}

impl Key for SubResource {
    fn same(&self, other: &Self) -> (r: bool) {
        *self == *other
    }
}

impl Key for BufferElement {
    fn same(&self, other: &Self) -> (r: bool) {
        *self == *other
    }
}

impl Key for ImageElement {
    fn same(&self, other: &Self) -> (r: bool) {
        *self == *other
    }
}

impl Key for ImageMip {
    fn same(&self, other: &Self) -> (r: bool) {
        *self == *other
    }
}

/// A memory barrier on a whole buffer.
#[derive(Debug, Copy, Clone, PartialEq, Eq, Structural, Hash)]
pub struct BufferMemoryBarrier {
    pub src_access_mask: u32,
    pub dst_access_mask: u32,
    pub src_queue_family_index: u32,
    pub dst_queue_family_index: u32,
    pub buffer: u64,
    pub offset: u64,
    pub size: u64,
}

/// A memory barrier, and possibly a layout transition, on one mip level of
/// one array layer of an image.
#[derive(Debug, Copy, Clone, PartialEq, Eq, Structural, Hash)]
pub struct ImageMemoryBarrier {
    pub src_access_mask: u32,
    pub dst_access_mask: u32,
    pub old_layout: i32,
    pub new_layout: i32,
    pub src_queue_family_index: u32,
    pub dst_queue_family_index: u32,
    pub image: u64,
    pub aspect_mask: u32,
    pub base_mip_level: u32,
    pub level_count: u32,
    pub base_array_layer: u32,
    pub layer_count: u32,
}

/// The barriers to record before a command.
#[derive(Debug)]
pub struct PipelineBarrier {
    pub src_stage: u32,
    pub dst_stage: u32,
    /// How the dependency is scoped: by region.
    pub dependency: u32,
    pub buffer_barriers: Vec<BufferMemoryBarrier>,
    pub image_barriers: Vec<ImageMemoryBarrier>,
}

/// The model of the registry of last uses.
pub struct RegistryView {
    /// Descriptor set to its last use.
    pub sets: Map<u64, QueueUsage>,
    /// Buffer array element to its last use.
    pub buffers: Map<BufferElement, QueueUsage>,
    /// Image array element to its last use.
    pub images: Map<ImageElement, QueueUsage>,
    /// Image mip level to the layout it is in.
    pub layouts: Map<ImageMip, i32>,
}

/// For each descriptor set, buffer element and image element, the queue
/// that used it last and when that use ends; for each image mip level, the
/// layout it is in.
pub struct GlobalResourceUsage {
    sets: AssocMap<u64, QueueUsage>,
    buffers: AssocMap<BufferElement, QueueUsage>,
    images: AssocMap<ImageElement, QueueUsage>,
    image_layouts: AssocMap<ImageMip, i32>,
}

/// The model of the barriers gathered so far for one scope.
pub struct BarrierView {
    pub src_stage: u32,
    pub dst_stage: u32,
    pub buffer_barriers: Assoc<BufferElement, BufferMemoryBarrier>,
    pub image_barriers: Assoc<ImageMip, ImageMemoryBarrier>,
}

/// The model of a submission's tracker.
pub struct TrackerView {
    pub queue_ty: QueueType,
    pub next_value: u64,
    /// The last use of each sub-resource within this submission.
    pub usages: Map<SubResource, SubResourceUsage>,
    /// For each other queue that must be waited for, the stage that waits.
    pub queues: Assoc<QueueType, u32>,
}

/// Everything that handling a scope reads and changes.
pub struct SubmitState {
    pub registry: RegistryView,
    pub tracker: TrackerView,
    pub barrier: BarrierView,
}

/// The uses of one submission so far, and the queues it has to wait for.
pub struct PipelineTracker {
    queue_ty: QueueType,
    next_value: u64,
    usages: AssocMap<SubResource, SubResourceUsage>,
    queues: AssocMap<QueueType, u32>,
}

/// The sub-resources that one command, or one render pass, uses, each with
/// its combined use.
pub struct UsageScope {
    usages: AssocMap<SubResource, SubResourceUsage>,
}

/// The buffer element that a buffer sub-resource stands for.
pub open spec fn buffer_unit(r: SubResource) -> BufferElement {
    BufferElement { buffer: r->buffer, array_elem: r->Buffer_array_elem }
}

/// The image element that a texture sub-resource belongs to.
pub open spec fn image_unit(r: SubResource) -> ImageElement {
    ImageElement { image: r->texture, array_elem: r->Texture_array_elem }
}

/// The mip level that a texture sub-resource belongs to.
pub open spec fn mip_unit(r: SubResource) -> ImageMip {
    ImageMip { image: r->texture, array_elem: r->Texture_array_elem, mip_level: r->mip_level }
}

/// The last use that the registry holds for the unit of `r`.
pub open spec fn prior_usage(reg: RegistryView, r: SubResource) -> Option<QueueUsage> {
    match r {
        SubResource::Buffer { .. } => if reg.buffers.dom().contains(buffer_unit(r)) {
            Some(reg.buffers[buffer_unit(r)])
        } else {
            None
        },
        SubResource::Texture { .. } => if reg.images.dom().contains(image_unit(r)) {
            Some(reg.images[image_unit(r)])
        } else {
            None
        },
    }
}

/// The layout that the registry holds for `r`: undefined for a buffer and
/// for a mip level that was never used.
pub open spec fn prior_layout(reg: RegistryView, r: SubResource) -> i32 {
    match r {
        SubResource::Buffer { .. } => LAYOUT_UNDEFINED,
        SubResource::Texture { .. } => if reg.layouts.dom().contains(mip_unit(r)) {
            reg.layouts[mip_unit(r)]
        } else {
            LAYOUT_UNDEFINED
        },
    }
}

/// The registry after `r` was used by `by`, in layout `layout`.
pub open spec fn touch(reg: RegistryView, r: SubResource, by: QueueUsage, layout: i32)
    -> RegistryView {
    match r {
        SubResource::Buffer { .. } => RegistryView {
            buffers: reg.buffers.insert(buffer_unit(r), by),
            ..reg
        },
        SubResource::Texture { .. } => RegistryView {
            images: reg.images.insert(image_unit(r), by),
            layouts: reg.layouts.insert(mip_unit(r), layout),
            ..reg
        },
    }
}

/// The stage that is already waiting for `queue`; the end of the pipeline
/// when none is.
pub open spec fn waiting_stage(queues: Assoc<QueueType, u32>, queue: QueueType) -> u32 {
    if queues.contains(queue) {
        queues.map[queue]
    } else {
        STAGE_BOTTOM_OF_PIPE
    }
}

/// The waits after a use at stages `stage_mask` of something whose last
/// use was `prior`: when that use was on another queue, the wait for that
/// queue moves to the earliest stage of the new use, unless it is already
/// as early.
pub open spec fn wait_update(
    queues: Assoc<QueueType, u32>,
    prior: Option<QueueUsage>,
    queue: QueueType,
    stage_mask: u32,
) -> Assoc<QueueType, u32> {
    match prior {
        Some(p) => if p.queue != queue {
            let new_stage = spec_earliest_stage(stage_mask);
            let cur = waiting_stage(queues, p.queue);
            queues.insert(
                p.queue,
                if spec_rank_pipeline_stage(new_stage) < spec_rank_pipeline_stage(cur) {
                    new_stage
                } else {
                    cur
                },
            )
        } else {
            queues
        },
        None => queues,
    }
}

/// Whether a use `u` needs a barrier: when the layout has to change, or
/// when an earlier use in this submission and the new one are not both
/// reads.
pub open spec fn needs_barrier(old_layout: i32, prev: Option<SubResourceUsage>, u: SubResourceUsage)
    -> bool {
    old_layout != u.layout || match prev {
        Some(p) => !(spec_is_read_access(p.access) && spec_is_read_access(u.access)),
        None => false,
    }
}

/// The access mask that a barrier for a use after `prev` starts from.
pub open spec fn src_access(prev: Option<SubResourceUsage>) -> u32 {
    match prev {
        Some(p) => p.access,
        None => ACCESS_NONE,
    }
}

/// The stage that a barrier for a use after `prev` starts from.
pub open spec fn src_stage(prev: Option<SubResourceUsage>) -> u32 {
    match prev {
        Some(p) => p.stage,
        None => STAGE_TOP_OF_PIPE,
    }
}

/// The barrier that a use `u` of the buffer sub-resource `r` after `prev`
/// asks for.
pub open spec fn buffer_barrier(r: SubResource, prev: Option<SubResourceUsage>, u: SubResourceUsage)
    -> BufferMemoryBarrier {
    BufferMemoryBarrier {
        src_access_mask: src_access(prev),
        dst_access_mask: u.access,
        src_queue_family_index: QUEUE_FAMILY_IGNORED,
        dst_queue_family_index: QUEUE_FAMILY_IGNORED,
        buffer: r->buffer,
        offset: 0,
        size: WHOLE_SIZE,
    }
}

/// The barrier that a use `u` of the texture sub-resource `r` after `prev`
/// asks for, from layout `old_layout`.
pub open spec fn image_barrier(
    r: SubResource,
    prev: Option<SubResourceUsage>,
    old_layout: i32,
    u: SubResourceUsage,
) -> ImageMemoryBarrier {
    ImageMemoryBarrier {
        src_access_mask: src_access(prev),
        dst_access_mask: u.access,
        old_layout: old_layout,
        new_layout: u.layout,
        src_queue_family_index: QUEUE_FAMILY_IGNORED,
        dst_queue_family_index: QUEUE_FAMILY_IGNORED,
        image: r->texture,
        aspect_mask: r->aspect_mask,
        base_mip_level: r->mip_level,
        level_count: 1,
        base_array_layer: r->Texture_array_elem,
        layer_count: 1,
    }
}

/// The gathered barriers after a use `u` of `r` that needs one.
pub open spec fn add_barrier(
    b: BarrierView,
    r: SubResource,
    prev: Option<SubResourceUsage>,
    old_layout: i32,
    u: SubResourceUsage,
) -> BarrierView {
    match r {
        SubResource::Buffer { .. } => BarrierView {
            src_stage: b.src_stage | src_stage(prev),
            dst_stage: b.dst_stage | u.stage,
            buffer_barriers: b.buffer_barriers.insert(buffer_unit(r), buffer_barrier(r, prev, u)),
            image_barriers: b.image_barriers,
        },
        SubResource::Texture { .. } => BarrierView {
            src_stage: b.src_stage | src_stage(prev),
            dst_stage: b.dst_stage | u.stage,
            buffer_barriers: b.buffer_barriers,
            image_barriers: b.image_barriers.insert(
                mip_unit(r),
                image_barrier(r, prev, old_layout, u),
            ),
        },
    }
}

/// What the tracker remembers of `r` from earlier in this submission.
pub open spec fn prev_usage(t: TrackerView, r: SubResource) -> Option<SubResourceUsage> {
    if t.usages.dom().contains(r) {
        Some(t.usages[r])
    } else {
        None
    }
}

/// The state after the use `u` of `r` was handled: the registry names this
/// submission as the last user and holds the new layout, a wait is noted
/// when the last use was on another queue, the tracker remembers the use,
/// and a barrier is added when one is needed.
pub open spec fn step(s: SubmitState, r: SubResource, u: SubResourceUsage) -> SubmitState {
    let by = QueueUsage { queue: s.tracker.queue_ty, timeline_value: s.tracker.next_value };
    let prior = prior_usage(s.registry, r);
    let old_layout = prior_layout(s.registry, r);
    let prev = prev_usage(s.tracker, r);
    SubmitState {
        registry: touch(s.registry, r, by, u.layout),
        tracker: TrackerView {
            usages: s.tracker.usages.insert(r, u),
            queues: wait_update(s.tracker.queues, prior, s.tracker.queue_ty, u.stage),
            ..s.tracker
        },
        barrier: if needs_barrier(old_layout, prev, u) {
            add_barrier(s.barrier, r, prev, old_layout, u)
        } else {
            s.barrier
        },
    }
}

/// The state after the first `n` uses of `scope` were handled, in order.
pub open spec fn run(s: SubmitState, scope: Assoc<SubResource, SubResourceUsage>, n: int)
    -> SubmitState
    decreases n,
{
    if n <= 0 {
        s
    } else {
        step(run(s, scope, n - 1), scope.order[n - 1], scope.map[scope.order[n - 1]])
    }
}

/// No barrier gathered yet.
pub open spec fn no_barrier() -> BarrierView {
    BarrierView {
        src_stage: 0,
        dst_stage: 0,
        buffer_barriers: Assoc::empty(),
        image_barriers: Assoc::empty(),
    }
}

/// The state after a whole scope was handled, starting without barriers.
pub open spec fn submit_scope(
    reg: RegistryView,
    t: TrackerView,
    scope: Assoc<SubResource, SubResourceUsage>,
) -> SubmitState {
    run(SubmitState { registry: reg, tracker: t, barrier: no_barrier() }, scope, scope.order.len() as int)
}

/// Whether the gathered barriers hold any barrier at all.
pub open spec fn has_barriers(b: BarrierView) -> bool {
    b.buffer_barriers.order.len() > 0 || b.image_barriers.order.len() > 0
}

/// Whether `out` is the barrier to record for the gathered barriers `b`:
/// nothing when `b` holds no barrier, else a barrier by region with the
/// stages of `b` and its barriers in the order in which they arose.
pub open spec fn barrier_matches(out: Option<PipelineBarrier>, b: BarrierView) -> bool {
    if has_barriers(b) {
        &&& out is Some
        &&& out->0.src_stage == b.src_stage
        &&& out->0.dst_stage == b.dst_stage
        &&& out->0.dependency == DEPENDENCY_BY_REGION
        &&& out->0.buffer_barriers@ == b.buffer_barriers.values()
        &&& out->0.image_barriers@ == b.image_barriers.values()
    } else {
        out is None
    }
}

impl View for GlobalResourceUsage {
    type V = RegistryView;

    closed spec fn view(&self) -> RegistryView {
        RegistryView {
            sets: self.sets@.map,
            buffers: self.buffers@.map,
            images: self.images@.map,
            layouts: self.image_layouts@.map,
        }
    }
}

impl GlobalResourceUsage {
    /// Every map holds each of its keys once.
    pub closed spec fn wf(&self) -> bool {
        &&& self.sets.wf()
        &&& self.buffers.wf()
        &&& self.images.wf()
        &&& self.image_layouts.wf()
    }

    /// A registry that has seen no use.
    pub fn new() -> (r: Self)
        ensures
            r.wf(),
            r@.sets == Map::<u64, QueueUsage>::empty(),
            r@.buffers == Map::<BufferElement, QueueUsage>::empty(),
            r@.images == Map::<ImageElement, QueueUsage>::empty(),
            r@.layouts == Map::<ImageMip, i32>::empty(),
    {
        GlobalResourceUsage {
            sets: AssocMap::new(),
            buffers: AssocMap::new(),
            images: AssocMap::new(),
            image_layouts: AssocMap::new(),
        }
    }

    /// Records the last use of a descriptor set, or forgets it, and hands
    /// back the use that was recorded before.
    pub fn register_set(&mut self, set: u64, usage: Option<QueueUsage>) -> (r: Option<QueueUsage>)
        requires
            old(self).wf(),
        ensures
            final(self).wf(),
            r == (if old(self)@.sets.dom().contains(set) {
                Some(old(self)@.sets[set])
            } else {
                None
            }),
            final(self)@ == (RegistryView {
                sets: match usage {
                    Some(u) => old(self)@.sets.insert(set, u),
                    None => old(self)@.sets.remove(set),
                },
                ..old(self)@
            }),
    {
        match usage {
            Some(usage) => self.sets.insert(set, usage),
            None => self.sets.remove(&set),
        }
    }

    /// Records the last use of a buffer element, or forgets it, and hands
    /// back the use that was recorded before.
    pub fn register_buffer(&mut self, buffer: u64, array_elem: u32, usage: Option<QueueUsage>) -> (r:
        Option<QueueUsage>)
        requires
            old(self).wf(),
        ensures
            final(self).wf(),
            r == (if old(self)@.buffers.dom().contains(BufferElement { buffer, array_elem }) {
                Some(old(self)@.buffers[BufferElement { buffer, array_elem }])
            } else {
                None
            }),
            final(self)@ == (RegistryView {
                buffers: match usage {
                    Some(u) => old(self)@.buffers.insert(BufferElement { buffer, array_elem }, u),
                    None => old(self)@.buffers.remove(BufferElement { buffer, array_elem }),
                },
                ..old(self)@
            }),
    {
        let key = BufferElement { buffer, array_elem };
        match usage {
            Some(usage) => self.buffers.insert(key, usage),
            None => self.buffers.remove(&key),
        }
    }

    /// Records the last use of an image element, or forgets it, and hands
    /// back the use that was recorded before.
    pub fn register_image(&mut self, image: u64, array_elem: u32, usage: Option<QueueUsage>) -> (r:
        Option<QueueUsage>)
        requires
            old(self).wf(),
        ensures
            final(self).wf(),
            r == (if old(self)@.images.dom().contains(ImageElement { image, array_elem }) {
                Some(old(self)@.images[ImageElement { image, array_elem }])
            } else {
                None
            }),
            final(self)@ == (RegistryView {
                images: match usage {
                    Some(u) => old(self)@.images.insert(ImageElement { image, array_elem }, u),
                    None => old(self)@.images.remove(ImageElement { image, array_elem }),
                },
                ..old(self)@
            }),
    {
        let key = ImageElement { image, array_elem };
        match usage {
            Some(usage) => self.images.insert(key, usage),
            None => self.images.remove(&key),
        }
    }

    /// Records the layout of an image mip level and hands back the layout
    /// that was recorded before: undefined when none was.
    pub fn register_layout(&mut self, image: u64, array_elem: u32, mip_level: u32, layout: i32) -> (r:
        i32)
        requires
            old(self).wf(),
        ensures
            final(self).wf(),
            r == (if old(self)@.layouts.dom().contains(ImageMip { image, array_elem, mip_level }) {
                old(self)@.layouts[ImageMip { image, array_elem, mip_level }]
            } else {
                LAYOUT_UNDEFINED
            }),
            final(self)@ == (RegistryView {
                layouts: old(self)@.layouts.insert(ImageMip { image, array_elem, mip_level }, layout),
                ..old(self)@
            }),
    {
        let key = ImageMip { image, array_elem, mip_level };
        match self.image_layouts.insert(key, layout) {
            Some(old_layout) => old_layout,
            None => LAYOUT_UNDEFINED,
        }
    }
}

/// The combined use of a sub-resource that a scope already uses as `prev`
/// and now also as `u`: the layout of `u`, and the accesses and stages of
/// both.
pub open spec fn combine(prev: Option<SubResourceUsage>, u: SubResourceUsage) -> SubResourceUsage {
    match prev {
        Some(p) => SubResourceUsage {
            access: p.access | u.access,
            stage: p.stage | u.stage,
            layout: u.layout,
        },
        None => SubResourceUsage { access: 0 | u.access, stage: 0 | u.stage, layout: u.layout },
    }
}

/// Whether the scope already asks for `r` in a defined layout other than
/// that of `u`.
pub open spec fn conflicts(
    scope: Assoc<SubResource, SubResourceUsage>,
    r: SubResource,
    u: SubResourceUsage,
) -> bool {
    scope.contains(r) && scope.map[r].layout != LAYOUT_UNDEFINED && scope.map[r].layout != u.layout
}

/// The scope after it also uses `r` as `u`.
pub open spec fn use_in_scope(
    scope: Assoc<SubResource, SubResourceUsage>,
    r: SubResource,
    u: SubResourceUsage,
) -> Assoc<SubResource, SubResourceUsage> {
    scope.insert(r, combine(scope.get(r), u))
}

impl View for UsageScope {
    type V = Assoc<SubResource, SubResourceUsage>;

    closed spec fn view(&self) -> Assoc<SubResource, SubResourceUsage> {
        self.usages@
    }
}

impl UsageScope {
    /// Every map holds each of its keys once.
    pub closed spec fn wf(&self) -> bool {
        self.usages.wf()
    }

    /// The model of a well-formed scope is well formed.
    pub proof fn lemma_wf(&self)
        requires
            self.wf(),
        ensures
            self@.wf(),
    {
        self.usages.lemma_wf();
    }

    /// A scope that uses nothing.
    pub fn new() -> (r: Self)
        ensures
            r.wf(),
            r@ == Assoc::<SubResource, SubResourceUsage>::empty(),
    {
        UsageScope { usages: AssocMap::new() }
    }

    /// The number of sub-resources in the scope.
    pub fn len(&self) -> (n: usize)
        ensures
            n == self@.order.len(),
    {
        self.usages.len()
    }

    /// The sub-resource at place `i`, with its combined use.
    pub fn entry(&self, i: usize) -> (r: (SubResource, SubResourceUsage))
        requires
            self.wf(),
            i < self@.order.len(),
        ensures
            r.0 == self@.order[i as int],
            self@.contains(r.0),
            r.1 == self@.map[r.0],
    {
        self.usages.entry(i)
    }

    /// Adds a use to the scope. The sub-resource must not already be asked
    /// for in another defined layout.
    pub fn use_resource(&mut self, subresource: SubResource, usage: SubResourceUsage)
        requires
            old(self).wf(),
            !conflicts(old(self)@, subresource, usage),
        ensures
            final(self).wf(),
            final(self)@ == use_in_scope(old(self)@, subresource, usage),
    {
        let entry = match self.usages.get(&subresource) {
            Some(e) => e,
            None => SubResourceUsage { access: 0, stage: 0, layout: LAYOUT_UNDEFINED },
        };
        let combined = SubResourceUsage {
            access: entry.access | usage.access,
            stage: entry.stage | usage.stage,
            layout: usage.layout,
        };
        self.usages.insert(subresource, combined);
    }

    /// Adds a use to the scope unless the sub-resource is already asked for
    /// in another defined layout; says whether the use was added.
    pub fn try_use_resource(&mut self, subresource: SubResource, usage: SubResourceUsage) -> (ok:
        bool)
        requires
            old(self).wf(),
        ensures
            final(self).wf(),
            ok == !conflicts(old(self)@, subresource, usage),
            ok ==> final(self)@ == use_in_scope(old(self)@, subresource, usage),
            !ok ==> final(self)@ == old(self)@,
    {
        match self.usages.get(&subresource) {
            Some(e) => {
                if e.layout != LAYOUT_UNDEFINED && e.layout != usage.layout {
                    return false;
                }
            },
            None => {},
        }
        self.use_resource(subresource, usage);
        true
    }
}

impl View for PipelineTracker {
    type V = TrackerView;

    closed spec fn view(&self) -> TrackerView {
        TrackerView {
            queue_ty: self.queue_ty,
            next_value: self.next_value,
            usages: self.usages@.map,
            queues: self.queues@,
        }
    }
}

impl PipelineTracker {
    /// Every map holds each of its keys once.
    pub closed spec fn wf(&self) -> bool {
        &&& self.usages.wf()
        &&& self.queues.wf()
    }

    /// The tracker of a submission on queue `queue_ty` whose work ends at
    /// timeline value `next_value`.
    pub fn new(queue_ty: QueueType, next_value: u64) -> (r: Self)
        ensures
            r.wf(),
            r@ == (TrackerView {
                queue_ty,
                next_value,
                usages: Map::empty(),
                queues: Assoc::empty(),
            }),
    {
        PipelineTracker { queue_ty, next_value, usages: AssocMap::new(), queues: AssocMap::new() }
    }

    /// Handles the uses of one scope, in the order in which the scope lists
    /// them, and hands back the barrier to record before the scope's
    /// command, if one is needed.
    pub fn submit(&mut self, global: &mut GlobalResourceUsage, scope: &UsageScope) -> (out: Option<
        PipelineBarrier,
    >)
        requires
            old(self).wf(),
            old(global).wf(),
            scope.wf(),
        ensures
            final(self).wf(),
            final(global).wf(),
            final(global)@ == submit_scope(old(global)@, old(self)@, scope@).registry,
            final(self)@ == submit_scope(old(global)@, old(self)@, scope@).tracker,
            barrier_matches(out, submit_scope(old(global)@, old(self)@, scope@).barrier),
    {
        let mut src_stage: u32 = 0;
        let mut dst_stage: u32 = 0;
        let mut image_barriers: AssocMap<ImageMip, ImageMemoryBarrier> = AssocMap::new();
        let mut buffer_barriers: AssocMap<BufferElement, BufferMemoryBarrier> = AssocMap::new();
        let ghost init = SubmitState {
            registry: old(global)@,
            tracker: old(self)@,
            barrier: no_barrier(),
        };
        let n = scope.len();
        let mut i: usize = 0;
        while i < n
            invariant
                i <= n,
                n == scope@.order.len(),
                scope.wf(),
                self.wf(),
                global.wf(),
                image_barriers.wf(),
                buffer_barriers.wf(),
                run(init, scope@, i as int) == (SubmitState {
                    registry: global@,
                    tracker: self@,
                    barrier: BarrierView {
                        src_stage,
                        dst_stage,
                        buffer_barriers: buffer_barriers@,
                        image_barriers: image_barriers@,
                    },
                }),
            decreases n - i,
        {
            let (resource, usage) = scope.entry(i);
            let ghost before = run(init, scope@, i as int);
            let resc_usage = QueueUsage { queue: self.queue_ty, timeline_value: self.next_value };
            let (old_queue_usage, old_layout) = match resource {
                SubResource::Buffer { buffer, array_elem } => (
                    global.register_buffer(buffer, array_elem, Some(resc_usage)),
                    LAYOUT_UNDEFINED,
                ),
                SubResource::Texture { texture, array_elem, mip_level, .. } => (
                    global.register_image(texture, array_elem, Some(resc_usage)),
                    global.register_layout(texture, array_elem, mip_level, usage.layout),
                ),
            };
            assert(old_queue_usage == prior_usage(before.registry, resource));
            assert(old_layout == prior_layout(before.registry, resource));
            assert(global@ == touch(before.registry, resource, resc_usage, usage.layout));

            // A last use on another queue makes this submission wait for it.
            match old_queue_usage {
                Some(old_usage) => {
                    if old_usage.queue != self.queue_ty {
                        let new_stage = earliest_stage(usage.stage);
                        let cur = match self.queues.get(&old_usage.queue) {
                            Some(c) => c,
                            None => STAGE_BOTTOM_OF_PIPE,
                        };
                        let stage = if rank_pipeline_stage(new_stage) < rank_pipeline_stage(cur) {
                            new_stage
                        } else {
                            cur
                        };
                        self.queues.insert(old_usage.queue, stage);
                    }
                },
                None => {},
            }
            assert(self.queues@ == wait_update(
                before.tracker.queues,
                old_queue_usage,
                self.queue_ty,
                usage.stage,
            ));

            // A changed layout needs a barrier; so does anything but a read
            // after a read.
            let prev = self.usages.get(&resource);
            let mut needs = old_layout != usage.layout;
            let (src_access_mask, src) = match prev {
                Some(p) => {
                    if !(is_read_access(p.access) && is_read_access(usage.access)) {
                        needs = true;
                    }
                    (p.access, p.stage)
                },
                None => (ACCESS_NONE, STAGE_TOP_OF_PIPE),
            };
            self.usages.insert(resource, usage);
            assert(prev == prev_usage(before.tracker, resource));
            assert(needs == needs_barrier(old_layout, prev, usage));

            if needs {
                match resource {
                    SubResource::Buffer { buffer, array_elem } => {
                        buffer_barriers.insert(
                            BufferElement { buffer, array_elem },
                            BufferMemoryBarrier {
                                src_access_mask,
                                dst_access_mask: usage.access,
                                src_queue_family_index: QUEUE_FAMILY_IGNORED,
                                dst_queue_family_index: QUEUE_FAMILY_IGNORED,
                                buffer,
                                offset: 0,
                                size: WHOLE_SIZE,
                            },
                        );
                    },
                    SubResource::Texture { texture, array_elem, mip_level, aspect_mask } => {
                        image_barriers.insert(
                            ImageMip { image: texture, array_elem, mip_level },
                            ImageMemoryBarrier {
                                src_access_mask,
                                dst_access_mask: usage.access,
                                old_layout,
                                new_layout: usage.layout,
                                src_queue_family_index: QUEUE_FAMILY_IGNORED,
                                dst_queue_family_index: QUEUE_FAMILY_IGNORED,
                                image: texture,
                                aspect_mask,
                                base_mip_level: mip_level,
                                level_count: 1,
                                base_array_layer: array_elem,
                                layer_count: 1,
                            },
                        );
                    },
                }
                dst_stage = dst_stage | usage.stage;
                src_stage = src_stage | src;
            }
            i += 1;
            proof {
                assert(run(init, scope@, i as int) == step(before, resource, usage));
            }
        }
        if image_barriers.len() > 0 || buffer_barriers.len() > 0 {
            Some(
                PipelineBarrier {
                    src_stage,
                    dst_stage,
                    dependency: DEPENDENCY_BY_REGION,
                    buffer_barriers: buffer_barriers.values(),
                    image_barriers: image_barriers.values(),
                },
            )
        } else {
            None
        }
    }

    /// The queues that this submission has to wait for, each with the stage
    /// that waits, in the order in which the waits arose.
    pub fn wait_queues(&self) -> (r: Vec<(QueueType, u32)>)
        requires
            self.wf(),
        ensures
            r@.len() == self@.queues.order.len(),
            forall|i: int|
                0 <= i < r@.len() ==> (#[trigger] r@[i]).0 == self@.queues.order[i] && r@[i].1
                    == self@.queues.map[self@.queues.order[i]],
    {
        let mut out: Vec<(QueueType, u32)> = Vec::new();
        let n = self.queues.len();
        let mut i: usize = 0;
        while i < n
            invariant
                self.wf(),
                i <= n,
                n == self@.queues.order.len(),
                out@.len() == i,
                forall|j: int|
                    0 <= j < i ==> (#[trigger] out@[j]).0 == self@.queues.order[j] && out@[j].1
                        == self@.queues.map[self@.queues.order[j]],
            decreases n - i,
        {
            let e = self.queues.entry(i);
            out.push(e);
            i += 1;
        }
        out
    }
}

} // verus!
