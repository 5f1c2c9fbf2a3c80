//! What the handling of a scope guarantees.

use vstd::prelude::*;
use crate::assoc::Assoc;
use crate::types::QueueType;
use crate::usage::{
    add_barrier, has_barriers, image_barrier, image_unit, mip_unit, buffer_unit, needs_barrier,
    no_barrier, prev_usage, prior_layout, prior_usage, run, step, submit_scope, wait_update,
    waiting_stage, BarrierView, QueueUsage, RegistryView, SubResource, SubResourceUsage,
    SubmitState, TrackerView,
};
use crate::vk::{
    lemma_earliest_stage, spec_earliest_stage, spec_is_read_access, spec_rank_pipeline_stage,
    STAGE_BOTTOM_OF_PIPE,
};

verus! {

/// Whether two sub-resources share the unit under which the registry
/// records the last use: the same buffer element, or the same image
/// element.
pub open spec fn same_unit(a: SubResource, b: SubResource) -> bool {
    match a {
        SubResource::Buffer { .. } => b is Buffer && buffer_unit(a) == buffer_unit(b),
        SubResource::Texture { .. } => b is Texture && image_unit(a) == image_unit(b),
    }
}

/// Whether two sub-resources are textures on the same mip level of the same
/// image element.
pub open spec fn same_mip(a: SubResource, b: SubResource) -> bool {
    a is Texture && b is Texture && mip_unit(a) == mip_unit(b)
}

/// Every wait of `a` is in `b` too, at a stage that is no later.
pub open spec fn waits_no_later(a: Assoc<QueueType, u32>, b: Assoc<QueueType, u32>) -> bool {
    forall|q: QueueType| #[trigger]
        a.contains(q) ==> b.contains(q) && spec_rank_pipeline_stage(b.map[q])
            <= spec_rank_pipeline_stage(a.map[q])
}

/// The gathered barriers are well formed.
pub open spec fn barrier_wf(b: BarrierView) -> bool {
    b.buffer_barriers.wf() && b.image_barriers.wf()
}

/// Handling a use keeps the waits that were noted, and moves none of them
/// to a later stage.
pub proof fn lemma_step_waits(s: SubmitState, r: SubResource, u: SubResourceUsage)
    ensures
        waits_no_later(s.tracker.queues, step(s, r, u).tracker.queues),
{
}

/// Handling uses keeps the waits that were noted, and moves none of them
/// to a later stage.
pub proof fn lemma_run_waits(s: SubmitState, scope: Assoc<SubResource, SubResourceUsage>, n: int)
    ensures
        waits_no_later(s.tracker.queues, run(s, scope, n).tracker.queues),
    decreases n,
{
    if n > 0 {
        lemma_run_waits(s, scope, n - 1);
        let m = run(s, scope, n - 1);
        lemma_step_waits(m, scope.order[n - 1], scope.map[scope.order[n - 1]]);
    }
}

/// Handling uses keeps the gathered barriers well formed.
pub proof fn lemma_run_barrier_wf(s: SubmitState, scope: Assoc<SubResource, SubResourceUsage>, n: int)
    requires
        barrier_wf(s.barrier),
    ensures
        barrier_wf(run(s, scope, n).barrier),
    decreases n,
{
    if n > 0 {
        lemma_run_barrier_wf(s, scope, n - 1);
        let m = run(s, scope, n - 1);
        let r = scope.order[n - 1];
        let u = scope.map[r];
        let prev = prev_usage(m.tracker, r);
        let old_layout = prior_layout(m.registry, r);
        if needs_barrier(old_layout, prev, u) {
            match r {
                SubResource::Buffer { .. } => {
                    m.barrier.buffer_barriers.lemma_insert_wf(
                        buffer_unit(r),
                        crate::usage::buffer_barrier(r, prev, u),
                    );
                },
                SubResource::Texture { .. } => {
                    m.barrier.image_barriers.lemma_insert_wf(
                        mip_unit(r),
                        image_barrier(r, prev, old_layout, u),
                    );
                },
            }
        }
    }
}

/// Handling uses of other sub-resources leaves what the tracker remembers
/// of `r` as it was.
pub proof fn lemma_run_keeps_prev(
    s: SubmitState,
    scope: Assoc<SubResource, SubResourceUsage>,
    n: int,
    r: SubResource,
)
    requires
        0 <= n <= scope.order.len(),
        forall|k: int| 0 <= k < n ==> scope.order[k] != r,
    ensures
        prev_usage(run(s, scope, n).tracker, r) == prev_usage(s.tracker, r),
    decreases n,
{
    if n > 0 {
        lemma_run_keeps_prev(s, scope, n - 1, r);
    }
}

/// Handling uses of other registry units leaves the last use that the
/// registry holds for the unit of `r` as it was.
pub proof fn lemma_run_keeps_prior_usage(
    s: SubmitState,
    scope: Assoc<SubResource, SubResourceUsage>,
    n: int,
    r: SubResource,
)
    requires
        0 <= n <= scope.order.len(),
        forall|k: int| 0 <= k < n ==> !same_unit(#[trigger] scope.order[k], r),
    ensures
        prior_usage(run(s, scope, n).registry, r) == prior_usage(s.registry, r),
    decreases n,
{
    if n > 0 {
        lemma_run_keeps_prior_usage(s, scope, n - 1, r);
        assert(!same_unit(scope.order[n - 1], r));
    }
}

/// Handling uses of other mip levels leaves the layout that the registry
/// holds for `r` as it was, and adds no barrier for the mip level of `r`.
pub proof fn lemma_run_keeps_layout(
    s: SubmitState,
    scope: Assoc<SubResource, SubResourceUsage>,
    n: int,
    r: SubResource,
)
    requires
        0 <= n <= scope.order.len(),
        r is Texture,
        forall|k: int| 0 <= k < n ==> !same_mip(#[trigger] scope.order[k], r),
    ensures
        prior_layout(run(s, scope, n).registry, r) == prior_layout(s.registry, r),
        run(s, scope, n).barrier.image_barriers.get(mip_unit(r)) == s.barrier.image_barriers.get(
            mip_unit(r),
        ),
    decreases n,
{
    if n > 0 {
        lemma_run_keeps_layout(s, scope, n - 1, r);
        assert(!same_mip(scope.order[n - 1], r));
    }
}

/// A use of an image sub-resource in a layout other than the one the image
/// is in gets one barrier that takes it from the old layout to the new one,
/// and leaves the registry with the new layout. This holds when the scope
/// uses that mip level through this sub-resource alone.
pub proof fn lemma_layout_transition(
    reg: RegistryView,
    t: TrackerView,
    scope: Assoc<SubResource, SubResourceUsage>,
    j: int,
)
    requires
        scope.wf(),
        0 <= j < scope.order.len(),
        scope.order[j] is Texture,
        prior_layout(reg, scope.order[j]) != scope.map[scope.order[j]].layout,
        forall|k: int|
            0 <= k < scope.order.len() && k != j ==> !same_mip(
                #[trigger] scope.order[k],
                scope.order[j],
            ),
    ensures
        ({
            let r = scope.order[j];
            let u = scope.map[r];
            let s = submit_scope(reg, t, scope);
            &&& has_barriers(s.barrier)
            &&& barrier_wf(s.barrier)
            &&& s.barrier.image_barriers.get(mip_unit(r)) == Some(
                image_barrier(r, prev_usage(t, r), prior_layout(reg, r), u),
            )
            &&& s.barrier.image_barriers.values().contains(
                image_barrier(r, prev_usage(t, r), prior_layout(reg, r), u),
            )
            &&& prior_layout(s.registry, r) == u.layout
        }),
{
    let r = scope.order[j];
    let u = scope.map[r];
    let init = SubmitState { registry: reg, tracker: t, barrier: no_barrier() };
    let n = scope.order.len() as int;
    lemma_run_keeps_layout(init, scope, j, r);
    assert forall|k: int| 0 <= k < j implies scope.order[k] != r by {
        assert(!same_mip(scope.order[k], r));
    }
    lemma_run_keeps_prev(init, scope, j, r);
    let m = run(init, scope, j);
    let m1 = run(init, scope, j + 1);
    assert(m1 == step(m, r, u));
    let b = image_barrier(r, prev_usage(t, r), prior_layout(reg, r), u);
    assert(m1.barrier.image_barriers.get(mip_unit(r)) == Some(b));
    lemma_transition_kept(init, scope, j, n);
    let s = run(init, scope, n);
    assert(Assoc::<crate::usage::BufferElement, crate::usage::BufferMemoryBarrier>::empty().wf());
    assert(Assoc::<crate::usage::ImageMip, crate::usage::ImageMemoryBarrier>::empty().wf());
    lemma_run_barrier_wf(init, scope, n);
    let ib = s.barrier.image_barriers;
    assert(ib.order.contains(mip_unit(r)));
    let i = choose|i: int| 0 <= i < ib.order.len() && ib.order[i] == mip_unit(r);
    assert(ib.values()[i] == b);
}

/// Once the use at place `j` was handled, handling the later uses, none of
/// which is on the same mip level, keeps its barrier and its layout.
proof fn lemma_transition_kept(
    init: SubmitState,
    scope: Assoc<SubResource, SubResourceUsage>,
    j: int,
    n: int,
)
    requires
        0 <= j < n <= scope.order.len(),
        scope.order[j] is Texture,
        forall|k: int|
            0 <= k < scope.order.len() && k != j ==> !same_mip(
                #[trigger] scope.order[k],
                scope.order[j],
            ),
    ensures
        run(init, scope, n).barrier.image_barriers.get(mip_unit(scope.order[j])) == run(
            init,
            scope,
            j + 1,
        ).barrier.image_barriers.get(mip_unit(scope.order[j])),
        prior_layout(run(init, scope, n).registry, scope.order[j]) == prior_layout(
            run(init, scope, j + 1).registry,
            scope.order[j],
        ),
    decreases n,
{
    if n > j + 1 {
        lemma_transition_kept(init, scope, j, n - 1);
        assert(!same_mip(scope.order[n - 1], scope.order[j]));
    }
}

/// A scope in which every use is a read of something that this submission
/// has only read so far, in the layout that it is already in, needs no
/// barrier.
pub proof fn lemma_read_after_read(
    reg: RegistryView,
    t: TrackerView,
    scope: Assoc<SubResource, SubResourceUsage>,
)
    requires
        scope.wf(),
        forall|r: SubResource| #[trigger]
            scope.contains(r) ==> {
                &&& t.usages.dom().contains(r)
                &&& spec_is_read_access(t.usages[r].access)
                &&& spec_is_read_access(scope.map[r].access)
                &&& prior_layout(reg, r) == scope.map[r].layout
            },
    ensures
        submit_scope(reg, t, scope).barrier == no_barrier(),
        !has_barriers(submit_scope(reg, t, scope).barrier),
{
    let init = SubmitState { registry: reg, tracker: t, barrier: no_barrier() };
    lemma_reads_run(init, scope, scope.order.len() as int);
}

proof fn lemma_reads_run(init: SubmitState, scope: Assoc<SubResource, SubResourceUsage>, n: int)
    requires
        scope.wf(),
        0 <= n <= scope.order.len(),
        forall|r: SubResource| #[trigger]
            scope.contains(r) ==> {
                &&& init.tracker.usages.dom().contains(r)
                &&& spec_is_read_access(init.tracker.usages[r].access)
                &&& spec_is_read_access(scope.map[r].access)
                &&& prior_layout(init.registry, r) == scope.map[r].layout
            },
    ensures
        run(init, scope, n).barrier == init.barrier,
        forall|r: SubResource| #[trigger]
            scope.contains(r) ==> prior_layout(run(init, scope, n).registry, r) == prior_layout(
                init.registry,
                r,
            ),
        forall|k: int|
            n <= k < scope.order.len() ==> prev_usage(
                run(init, scope, n).tracker,
                #[trigger] scope.order[k],
            ) == prev_usage(init.tracker, scope.order[k]),
    decreases n,
{
    if n > 0 {
        lemma_reads_run(init, scope, n - 1);
        let m = run(init, scope, n - 1);
        let r = scope.order[n - 1];
        let u = scope.map[r];
        assert(scope.order.contains(r));
        assert(scope.contains(r));
        assert(prev_usage(m.tracker, r) == prev_usage(init.tracker, r));
        assert(!needs_barrier(prior_layout(m.registry, r), prev_usage(m.tracker, r), u));
        let s = step(m, r, u);
        assert forall|x: SubResource| #[trigger] scope.contains(x) implies prior_layout(
            s.registry,
            x,
        ) == prior_layout(init.registry, x) by {
            assert(prior_layout(m.registry, x) == prior_layout(init.registry, x));
        }
        assert forall|k: int| n <= k < scope.order.len() implies prev_usage(
            s.tracker,
            #[trigger] scope.order[k],
        ) == prev_usage(init.tracker, scope.order[k]) by {
            assert(scope.order[k] != scope.order[n - 1]);
            assert(prev_usage(m.tracker, scope.order[k]) == prev_usage(
                init.tracker,
                scope.order[k],
            ));
        }
    }
}

/// A use of something whose last use was on another queue makes the
/// submission wait for that queue, at a stage no later than the earliest
/// stage of the use. This holds for the first use, within the scope, of the
/// unit under which the registry records the last use.
pub proof fn lemma_wait_for_prior_queue(
    reg: RegistryView,
    t: TrackerView,
    scope: Assoc<SubResource, SubResourceUsage>,
    j: int,
)
    requires
        scope.wf(),
        0 <= j < scope.order.len(),
        prior_usage(reg, scope.order[j]) is Some,
        prior_usage(reg, scope.order[j])->0.queue != t.queue_ty,
        forall|k: int| 0 <= k < j ==> !same_unit(#[trigger] scope.order[k], scope.order[j]),
    ensures
        ({
            let r = scope.order[j];
            let u = scope.map[r];
            let q = prior_usage(reg, r)->0.queue;
            let s = submit_scope(reg, t, scope);
            &&& s.tracker.queues.contains(q)
            &&& spec_rank_pipeline_stage(s.tracker.queues.map[q]) <= spec_rank_pipeline_stage(
                spec_earliest_stage(u.stage),
            )
        }),
{
    let r = scope.order[j];
    let u = scope.map[r];
    let init = SubmitState { registry: reg, tracker: t, barrier: no_barrier() };
    let n = scope.order.len() as int;
    lemma_run_keeps_prior_usage(init, scope, j, r);
    lemma_run_queue(init, scope, j);
    let m = run(init, scope, j);
    let m1 = run(init, scope, j + 1);
    assert(m1 == step(m, r, u));
    lemma_earliest_stage(u.stage);
    let q = prior_usage(reg, r)->0.queue;
    assert(m1.tracker.queues.contains(q));
    assert(spec_rank_pipeline_stage(m1.tracker.queues.map[q]) <= spec_rank_pipeline_stage(
        spec_earliest_stage(u.stage),
    ));
    lemma_run_from(init, scope, j + 1, n);
    assert(m1.tracker.queues.contains(q));
}

/// Handling uses changes neither the queue nor the timeline value of the
/// submission.
pub proof fn lemma_run_queue(s: SubmitState, scope: Assoc<SubResource, SubResourceUsage>, n: int)
    ensures
        run(s, scope, n).tracker.queue_ty == s.tracker.queue_ty,
        run(s, scope, n).tracker.next_value == s.tracker.next_value,
    decreases n,
{
    if n > 0 {
        lemma_run_queue(s, scope, n - 1);
    }
}

/// From place `a` on, handling uses keeps the waits that were noted, and
/// moves none of them to a later stage.
proof fn lemma_run_from(init: SubmitState, scope: Assoc<SubResource, SubResourceUsage>, a: int, n: int)
    requires
        0 <= a <= n,
    ensures
        waits_no_later(run(init, scope, a).tracker.queues, run(init, scope, n).tracker.queues),
    decreases n,
{
    if n > a {
        lemma_run_from(init, scope, a, n - 1);
        let m = run(init, scope, n - 1);
        lemma_step_waits(m, scope.order[n - 1], scope.map[scope.order[n - 1]]);
        let x = run(init, scope, a).tracker.queues;
        let y = m.tracker.queues;
        let z = run(init, scope, n).tracker.queues;
        assert forall|q: QueueType| #[trigger] x.contains(q) implies z.contains(q)
            && spec_rank_pipeline_stage(z.map[q]) <= spec_rank_pipeline_stage(x.map[q]) by {
            assert(y.contains(q));
        }
    }
}

/// After the uses of a scope were handled, the registry names the
/// submission as the last user of everything that the scope uses, and
/// holds for every image sub-resource the layout that the last use of its
/// mip level asked for.
pub proof fn lemma_registry_names_submission(
    s: SubmitState,
    scope: Assoc<SubResource, SubResourceUsage>,
    n: int,
    j: int,
)
    requires
        0 <= j < n <= scope.order.len(),
    ensures
        prior_usage(run(s, scope, n).registry, scope.order[j]) == Some(
            QueueUsage { queue: s.tracker.queue_ty, timeline_value: s.tracker.next_value },
        ),
        scope.order[j] is Texture && (forall|k: int|
            j < k < n ==> !same_mip(#[trigger] scope.order[k], scope.order[j])) ==> prior_layout(
            run(s, scope, n).registry,
            scope.order[j],
        ) == scope.map[scope.order[j]].layout,
    decreases n,
{
    lemma_run_queue(s, scope, n - 1);
    if j < n - 1 {
        lemma_registry_names_submission(s, scope, n - 1, j);
        if scope.order[j] is Texture && (forall|k: int|
            j < k < n ==> !same_mip(#[trigger] scope.order[k], scope.order[j])) {
            assert(!same_mip(scope.order[n - 1], scope.order[j]));
        }
    }
}

} // verus!
