//! What a submission guarantees.

use vstd::prelude::*;
use crate::assoc::Assoc;
use crate::backend::{
    barrier_ops, commands_valid, lemma_plan_queue, lemma_plan_registry_from, plan_commands,
    plan_semaphores, plan_start, plan_step, queue_waits, submission_plan, BackendView, SubmitPlan,
};
use crate::command_buffer::Command;
use crate::encode::{command_ops, NativeOp};
use crate::queue::with_self_sync;
use crate::semaphores::{add_wait, covers, max_value, WaitInfo};
use crate::tracking::{command_scope, scope_from_uses, Use};
use crate::types::QueueType;
use crate::usage::{
    buffer_unit, image_barrier, image_unit, mip_unit, no_barrier, prev_usage, prior_layout,
    prior_usage, submit_scope, use_in_scope, QueueUsage, SubResource, SubResourceUsage, SubmitState,
};
use crate::usage_proofs::{
    lemma_layout_transition, lemma_run_waits, lemma_wait_for_prior_queue, same_mip, same_unit,
    waits_no_later,
};
use crate::vk::{spec_earliest_stage, spec_rank_pipeline_stage, STAGE_TOP_OF_PIPE};

verus! {

/// A scope that was built from uses is well formed.
pub proof fn lemma_scope_wf(uses: Seq<Use>, n: int)
    requires
        scope_from_uses(uses, n) is Some,
    ensures
        scope_from_uses(uses, n)->0.wf(),
    decreases n,
{
    if n > 0 {
        lemma_scope_wf(uses, n - 1);
        let s = scope_from_uses(uses, n - 1)->0;
        s.lemma_insert_wf(uses[n - 1].0, crate::usage::combine(s.get(uses[n - 1].0), uses[n - 1].1));
    } else {
        assert(Assoc::<SubResource, SubResourceUsage>::empty().wf());
    }
}

/// One more wait leaves every wait that was covered covered.
pub proof fn lemma_add_wait_keeps(
    waits: Assoc<u64, WaitInfo>,
    semaphore: u64,
    info: WaitInfo,
    other: u64,
    added: WaitInfo,
)
    requires
        covers(waits, semaphore, info),
    ensures
        covers(add_wait(waits, other, added), semaphore, info),
{
}

/// A wait that covers a wait also covers every weaker wait: one for a
/// value no greater, at a stage no earlier.
pub proof fn lemma_covers_weaker(waits: Assoc<u64, WaitInfo>, semaphore: u64, a: WaitInfo, b: WaitInfo)
    requires
        covers(waits, semaphore, a),
        max_value(a.value, b.value) == a.value,
        spec_rank_pipeline_stage(a.stage) <= spec_rank_pipeline_stage(b.stage),
    ensures
        covers(waits, semaphore, b),
{
}

/// The waits of a submission cover, for every queue that its tracker
/// noted, a wait on that queue's semaphore for its target value at the
/// stage noted.
pub proof fn lemma_queue_waits<A>(
    waits: Assoc<u64, WaitInfo>,
    queues: Assoc<QueueType, u32>,
    b: BackendView<A>,
    n: int,
    j: int,
)
    requires
        0 <= j < n <= queues.order.len(),
    ensures
        covers(
            queue_waits(waits, queues, b, n),
            b.queue(queues.order[j]).semaphore,
            WaitInfo {
                value: Some(b.queue(queues.order[j]).target_value),
                stage: queues.map[queues.order[j]],
            },
        ),
    decreases n,
{
    let q = queues.order[n - 1];
    let added = WaitInfo { value: Some(b.queue(q).target_value), stage: queues.map[q] };
    if j < n - 1 {
        lemma_queue_waits(waits, queues, b, n - 1, j);
        lemma_add_wait_keeps(
            queue_waits(waits, queues, b, n - 1),
            b.queue(queues.order[j]).semaphore,
            WaitInfo {
                value: Some(b.queue(queues.order[j]).target_value),
                stage: queues.map[queues.order[j]],
            },
            b.queue(q).semaphore,
            added,
        );
    }
}

/// Handling more commands keeps the waits that were noted, and moves none
/// of them to a later stage.
pub proof fn lemma_plan_waits(p: SubmitPlan, commands: Seq<Command>, m: int, n: int)
    requires
        0 <= m <= n,
    ensures
        waits_no_later(
            plan_commands(p, commands, m).tracker.queues,
            plan_commands(p, commands, n).tracker.queues,
        ),
    decreases n,
{
    if m < n {
        lemma_plan_waits(p, commands, m, n - 1);
        let x = plan_commands(p, commands, m).tracker.queues;
        let before = plan_commands(p, commands, n - 1);
        let y = before.tracker.queues;
        let z = plan_commands(p, commands, n).tracker.queues;
        let scope = command_scope(commands, n - 1)->0;
        lemma_run_waits(
            SubmitState { registry: before.registry, tracker: before.tracker, barrier: no_barrier() },
            scope,
            scope.order.len() as int,
        );
        assert forall|q: QueueType| #[trigger] x.contains(q) implies z.contains(q)
            && spec_rank_pipeline_stage(z.map[q]) <= spec_rank_pipeline_stage(x.map[q]) by {
            assert(y.contains(q));
        }
    }
}

/// A tracker's waits are listed for exactly the queues it noted.
pub proof fn lemma_plan_queues_wf(p: SubmitPlan, commands: Seq<Command>, n: int)
    requires
        p.tracker.queues.wf(),
    ensures
        plan_commands(p, commands, n).tracker.queues.wf(),
    decreases n,
{
    if n > 0 {
        lemma_plan_queues_wf(p, commands, n - 1);
        let before = plan_commands(p, commands, n - 1);
        let scope = command_scope(commands, n - 1)->0;
        lemma_run_queues_wf(
            SubmitState { registry: before.registry, tracker: before.tracker, barrier: no_barrier() },
            scope,
            scope.order.len() as int,
        );
    }
}

proof fn lemma_run_queues_wf(s: SubmitState, scope: Assoc<SubResource, SubResourceUsage>, n: int)
    requires
        s.tracker.queues.wf(),
    ensures
        crate::usage::run(s, scope, n).tracker.queues.wf(),
    decreases n,
{
    if n > 0 {
        lemma_run_queues_wf(s, scope, n - 1);
        let m = crate::usage::run(s, scope, n - 1);
        let r = scope.order[n - 1];
        let u = scope.map[r];
        match prior_usage(m.registry, r) {
            Some(p) => {
                if p.queue != m.tracker.queue_ty {
                    let new_stage = spec_earliest_stage(u.stage);
                    let cur = crate::usage::waiting_stage(m.tracker.queues, p.queue);
                    m.tracker.queues.lemma_insert_wf(
                        p.queue,
                        if spec_rank_pipeline_stage(new_stage) < spec_rank_pipeline_stage(cur) {
                            new_stage
                        } else {
                            cur
                        },
                    );
                }
            },
            None => {},
        }
    }
}

/// When a submission to one queue uses something whose last use was on
/// another queue, it waits on that queue's semaphore, for a value no less
/// than the one at which that use ends, at a stage no later than the
/// earliest stage of the use. `i` is the place of the command and `j` the
/// place of the use in the command's scope; the use is the first in the
/// scope of the unit under which the registry holds the last use.
pub proof fn lemma_submission_waits<A>(
    b: BackendView<A>,
    queue: QueueType,
    commands: Seq<Command>,
    i: int,
    j: int,
)
    requires
        b.registry_bounded(),
        b.queue(queue).target_value < u64::MAX,
        commands_valid(queue, commands),
        0 <= i < commands.len(),
        0 <= j < command_scope(commands, i)->0.order.len(),
        ({
            let scope = command_scope(commands, i)->0;
            let next = (b.queue(queue).target_value + 1) as u64;
            let before = plan_commands(plan_start(b.registry, queue, next), commands, i);
            &&& prior_usage(before.registry, scope.order[j]) is Some
            &&& prior_usage(before.registry, scope.order[j])->0.queue != queue
            &&& forall|k: int| 0 <= k < j ==> !same_unit(#[trigger] scope.order[k], scope.order[j])
        }),
    ensures
        ({
            let scope = command_scope(commands, i)->0;
            let next = (b.queue(queue).target_value + 1) as u64;
            let before = plan_commands(plan_start(b.registry, queue, next), commands, i);
            let last = prior_usage(before.registry, scope.order[j])->0;
            let sems = with_self_sync(
                plan_semaphores(submission_plan(b, queue, commands), b),
                b.queue(queue).semaphore,
                b.queue(queue).target_value,
            );
            covers(
                sems.waits,
                b.queue(last.queue).semaphore,
                WaitInfo {
                    value: Some(last.timeline_value),
                    stage: spec_earliest_stage(scope.map[scope.order[j]].stage),
                },
            )
        }),
{
    let scope = command_scope(commands, i)->0;
    let next = (b.queue(queue).target_value + 1) as u64;
    let start = plan_start(b.registry, queue, next);
    let before = plan_commands(start, commands, i);
    let r = scope.order[j];
    let u = scope.map[r];
    let last = prior_usage(before.registry, r)->0;
    let n = commands.len() as int;
    let plan = plan_commands(start, commands, n);
    let by = QueueUsage { queue, timeline_value: next };

    // The scope notes the wait.
    assert(command_scope(commands, i) is Some);
    let uses = crate::tracking::command_uses(commands, i)->0;
    lemma_scope_wf(uses, uses.len() as int);
    lemma_plan_queue(start, commands, i);
    lemma_wait_for_prior_queue(before.registry, before.tracker, scope, j);
    let after = plan_commands(start, commands, i + 1);
    assert(after == plan_step(before, commands, i));
    assert(after.tracker.queues.contains(last.queue));

    // Later commands keep it.
    lemma_plan_waits(start, commands, i + 1, n);
    let queues = plan.tracker.queues;
    assert(queues.contains(last.queue));
    assert(Assoc::<QueueType, u32>::empty().wf());
    lemma_plan_queues_wf(start, commands, n);
    assert(queues.order.contains(last.queue));
    let at = choose|at: int| 0 <= at < queues.order.len() && queues.order[at] == last.queue;
    lemma_queue_waits(plan.semaphores.waits, queues, b, queues.order.len() as int, at);
    let waits = plan_semaphores(plan, b).waits;
    let noted = WaitInfo {
        value: Some(b.queue(last.queue).target_value),
        stage: queues.map[last.queue],
    };
    assert(covers(waits, b.queue(last.queue).semaphore, noted));

    // The last use ended no later than its queue's target value.
    lemma_plan_registry_from(start, commands, i);
    assert(last != by);
    match r {
        SubResource::Buffer { .. } => {
            assert(before.registry.buffers.dom().contains(buffer_unit(r)));
            assert(b.registry.buffers.dom().contains(buffer_unit(r)));
        },
        SubResource::Texture { .. } => {
            assert(before.registry.images.dom().contains(image_unit(r)));
            assert(b.registry.images.dom().contains(image_unit(r)));
        },
    }
    assert(last.timeline_value <= b.queue(last.queue).target_value);
    let wanted = WaitInfo { value: Some(last.timeline_value), stage: spec_earliest_stage(u.stage) };
    lemma_covers_weaker(waits, b.queue(last.queue).semaphore, noted, wanted);
    lemma_add_wait_keeps(
        waits,
        b.queue(last.queue).semaphore,
        wanted,
        b.queue(queue).semaphore,
        WaitInfo { value: Some(b.queue(queue).target_value), stage: STAGE_TOP_OF_PIPE },
    );
}

/// When a command uses an image sub-resource in a layout other than the
/// one the image is in, the native commands of the command come right
/// after one barrier command, which holds one barrier that takes the
/// sub-resource from the old layout to the new one; afterwards the
/// registry holds the new layout. `i` is the place of the command and `j`
/// the place of the use in the command's scope, which uses that mip level
/// through this sub-resource alone.
pub proof fn lemma_transition_before_command(p: SubmitPlan, commands: Seq<Command>, i: int, j: int)
    requires
        0 <= i < commands.len(),
        command_scope(commands, i) is Some,
        0 <= j < command_scope(commands, i)->0.order.len(),
        ({
            let scope = command_scope(commands, i)->0;
            &&& scope.order[j] is Texture
            &&& prior_layout(p.registry, scope.order[j]) != scope.map[scope.order[j]].layout
            &&& forall|k: int|
                0 <= k < scope.order.len() && k != j ==> !same_mip(
                    #[trigger] scope.order[k],
                    scope.order[j],
                )
        }),
    ensures
        ({
            let scope = command_scope(commands, i)->0;
            let r = scope.order[j];
            let s = submit_scope(p.registry, p.tracker, scope);
            let after = plan_step(p, commands, i);
            &&& barrier_ops(s.barrier).len() == 1
            &&& barrier_ops(s.barrier)[0] is PipelineBarrier
            &&& barrier_ops(s.barrier)[0]->image_barriers.contains(
                image_barrier(
                    r,
                    prev_usage(p.tracker, r),
                    prior_layout(p.registry, r),
                    scope.map[r],
                ),
            )
            &&& after.ops == p.ops + barrier_ops(s.barrier) + command_ops(
                p.state,
                commands[i],
                i as usize,
            )
            &&& prior_layout(after.registry, r) == scope.map[r].layout
        }),
{
    let scope = command_scope(commands, i)->0;
    let uses = crate::tracking::command_uses(commands, i)->0;
    lemma_scope_wf(uses, uses.len() as int);
    lemma_layout_transition(p.registry, p.tracker, scope, j);
    let s = submit_scope(p.registry, p.tracker, scope);
    let by = QueueUsage { queue: p.tracker.queue_ty, timeline_value: p.tracker.next_value };
    match commands[i] {
        Command::BindDescriptorSets { sets, .. } => {
            lemma_touch_sets_layouts(s.registry, sets@, by, sets@.len() as int);
        },
        _ => {},
    }
}

/// Noting sets as used leaves the layouts alone.
proof fn lemma_touch_sets_layouts(
    reg: crate::usage::RegistryView,
    sets: Seq<&crate::descriptor_set::DescriptorSet>,
    by: QueueUsage,
    n: int,
)
    ensures
        crate::backend::touch_sets(reg, sets, by, n).layouts == reg.layouts,
    decreases n,
{
    if n > 0 {
        lemma_touch_sets_layouts(reg, sets, by, n - 1);
    }
}

} // verus!
