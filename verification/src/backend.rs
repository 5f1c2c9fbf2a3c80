//! The submission orchestrator: from the recorded commands of a submission
//! to the native commands, the semaphores and the job.

use vstd::prelude::*;
use crate::assoc::Assoc;
use crate::command_buffer::{takes_compute, takes_graphics, takes_transfer, Command};
use crate::descriptor_set::DescriptorSet;
use crate::encode::{
    can_encode, command_ops, encodable, encode_command, next_state, ops_view, EncodeState,
    NativeCommand, NativeOp,
};
use crate::garbage_collector::{
    kept, swept, taken_in, Garbage, GarbageCollector, TimelineValues, ToDestroy,
};
use crate::queue::{submit_info_matches, with_self_sync, Job, QueueView, SubmitInfo, VkQueue};
use crate::semaphores::{add_wait, SemaphoreTracker, SemaphoresView, WaitInfo};
use crate::tracking::{command_scope, command_semaphores, scope_of_command, track_resources};
use crate::types::{JobStatus, QueueType};
use crate::usage::{
    has_barriers, no_barrier, submit_scope, BarrierView, GlobalResourceUsage, PipelineTracker,
    QueueUsage, RegistryView, TrackerView,
};

verus! {

/// The state of the backend that submissions read and change: the four
/// queues, the registry of last uses, and the released objects that are
/// held back.
pub struct VulkanBackend<A> {
    main: VkQueue,
    transfer: VkQueue,
    present: VkQueue,
    compute: VkQueue,
    resource_state: GlobalResourceUsage,
    garbage: GarbageCollector<A>,
}

/// The model of a [`VulkanBackend`].
pub struct BackendView<A> {
    pub main: QueueView,
    pub transfer: QueueView,
    pub present: QueueView,
    pub compute: QueueView,
    pub registry: RegistryView,
    pub garbage: Seq<ToDestroy<A>>,
}

/// What a submission gives to the caller.
pub struct Submission<A> {
    /// The native commands to record, in order, into the command buffer.
    pub commands: Vec<NativeCommand>,
    /// What the native submit call takes.
    pub submit: SubmitInfo,
    /// The handle on the submitted work.
    pub job: Job,
    /// The released objects to destroy now.
    pub destroyed: Vec<Garbage<A>>,
    /// The surface images that the submission draws to.
    pub drawn: Vec<u64>,
}

/// What is known while the commands of a submission are handled.
pub struct SubmitPlan {
    pub registry: RegistryView,
    pub tracker: TrackerView,
    pub semaphores: SemaphoresView,
    pub state: EncodeState,
    pub ops: Seq<NativeOp>,
}

impl<A> BackendView<A> {
    /// The queue of a kind.
    pub open spec fn queue(self, ty: QueueType) -> QueueView {
        match ty {
            QueueType::Main => self.main,
            QueueType::Transfer => self.transfer,
            QueueType::Compute => self.compute,
            QueueType::Present => self.present,
        }
    }

    /// The target values of the queues that use resources.
    pub open spec fn targets(self) -> TimelineValues {
        TimelineValues {
            main: self.main.target_value,
            transfer: self.transfer.target_value,
            compute: self.compute.target_value,
        }
    }

    /// No use that the registry holds ends after the target value of its
    /// queue.
    pub open spec fn registry_bounded(self) -> bool {
        &&& forall|k: u64| #[trigger]
            self.registry.sets.dom().contains(k) ==> self.registry.sets[k].timeline_value
                <= self.queue(self.registry.sets[k].queue).target_value
        &&& forall|k: crate::usage::BufferElement| #[trigger]
            self.registry.buffers.dom().contains(k) ==> self.registry.buffers[k].timeline_value
                <= self.queue(self.registry.buffers[k].queue).target_value
        &&& forall|k: crate::usage::ImageElement| #[trigger]
            self.registry.images.dom().contains(k) ==> self.registry.images[k].timeline_value
                <= self.queue(self.registry.images[k].queue).target_value
    }
}

/// Whether a queue of kind `queue` takes the command: render passes go to
/// the main queue, compute passes and dispatches to the main queue or the
/// compute queue, copies to the main queue or the transfer queue.
pub open spec fn queue_takes(queue: QueueType, c: Command) -> bool {
    match c {
        Command::BeginRenderPass(_) => takes_graphics(queue),
        Command::BeginComputePass => takes_compute(queue),
        Command::Dispatch(_, _, _) => takes_compute(queue),
        Command::CopyBufferToBuffer(_) => takes_transfer(queue),
        Command::CopyBufferToTexture { .. } => takes_transfer(queue),
        Command::CopyTextureToBuffer { .. } => takes_transfer(queue),
        _ => true,
    }
}

/// Whether the commands can be submitted to a queue of kind `queue`: the
/// queue takes each of them, each can be tracked, and each can be encoded.
pub open spec fn commands_valid(queue: QueueType, commands: Seq<Command>) -> bool {
    forall|i: int|
        0 <= i < commands.len() ==> queue_takes(queue, #[trigger] commands[i]) && command_scope(
            commands,
            i,
        ) is Some && encodable(commands[i])
}

/// The registry after the first `n` of `sets` were used by `by`.
pub open spec fn touch_sets(reg: RegistryView, sets: Seq<&DescriptorSet>, by: QueueUsage, n: int)
    -> RegistryView
    decreases n,
{
    if n <= 0 {
        reg
    } else {
        let p = touch_sets(reg, sets, by, n - 1);
        RegistryView { sets: p.sets.insert(sets[n - 1].set, by), ..p }
    }
}

/// The registry after the sets that the command binds were used by `by`.
pub open spec fn command_sets(reg: RegistryView, c: Command, by: QueueUsage) -> RegistryView {
    match c {
        Command::BindDescriptorSets { sets, .. } => touch_sets(reg, sets@, by, sets@.len() as int),
        _ => reg,
    }
}

/// The surface images among the first `n` color attachments.
pub open spec fn surface_images(attachments: Seq<crate::render_pass::ColorAttachment>, n: int) -> Seq<
    u64,
>
    decreases n,
{
    if n <= 0 {
        Seq::empty()
    } else {
        match attachments[n - 1].source {
            crate::render_pass::ColorAttachmentSource::SurfaceImage(image) => surface_images(
                attachments,
                n - 1,
            ).push(image.model().image),
            crate::render_pass::ColorAttachmentSource::Texture { .. } => surface_images(
                attachments,
                n - 1,
            ),
        }
    }
}

/// The surface images that the render passes among the first `n` commands
/// draw to, in order.
pub open spec fn drawn_images(commands: Seq<Command>, n: int) -> Seq<u64>
    decreases n,
{
    if n <= 0 {
        Seq::empty()
    } else {
        match commands[n - 1] {
            Command::BeginRenderPass(d) => drawn_images(commands, n - 1) + surface_images(
                d.color_attachments@,
                d.color_attachments@.len() as int,
            ),
            _ => drawn_images(commands, n - 1),
        }
    }
}

/// The surface images that the commands draw to; see [`drawn_images`].
pub fn surface_images_drawn<'a>(commands: &Vec<Command<'a>>) -> (r: Vec<u64>)
    ensures
        r@ == drawn_images(commands@, commands@.len() as int),
{
    let mut out: Vec<u64> = Vec::new();
    let mut i: usize = 0;
    while i < commands.len()
        invariant
            i <= commands@.len(),
            out@ == drawn_images(commands@, i as int),
        decreases commands@.len() - i,
    {
        let ghost before = out@;
        match &commands[i] {
            Command::BeginRenderPass(d) => {
                let mut a: usize = 0;
                while a < d.color_attachments.len()
                    invariant
                        a <= d.color_attachments@.len(),
                        out@ == before + surface_images(d.color_attachments@, a as int),
                    decreases d.color_attachments@.len() - a,
                {
                    match &d.color_attachments[a].source {
                        crate::render_pass::ColorAttachmentSource::SurfaceImage(image) => {
                            out.push(image.image());
                        },
                        crate::render_pass::ColorAttachmentSource::Texture { .. } => {},
                    }
                    a += 1;
                    assert(out@ =~= before + surface_images(d.color_attachments@, a as int));
                }
            },
            _ => {
                assert(out@ =~= before + Seq::<u64>::empty());
            },
        }
        i += 1;
    }
    out
}

/// The native command for gathered barriers: one when there is a barrier,
/// none otherwise.
pub open spec fn barrier_ops(b: BarrierView) -> Seq<NativeOp> {
    if has_barriers(b) {
        seq![
            NativeOp::PipelineBarrier {
                src_stage: b.src_stage,
                dst_stage: b.dst_stage,
                dependency: crate::vk::DEPENDENCY_BY_REGION,
                buffer_barriers: b.buffer_barriers.values(),
                image_barriers: b.image_barriers.values(),
            },
        ]
    } else {
        Seq::empty()
    }
}

/// The plan after the command at place `i` was handled: its scope was
/// tracked, the sets it binds were noted as used, and its barrier, if it
/// needs one, and then its own native commands were added.
pub open spec fn plan_step(p: SubmitPlan, commands: Seq<Command>, i: int) -> SubmitPlan {
    let s = submit_scope(p.registry, p.tracker, command_scope(commands, i)->0);
    let by = QueueUsage { queue: p.tracker.queue_ty, timeline_value: p.tracker.next_value };
    SubmitPlan {
        registry: command_sets(s.registry, commands[i], by),
        tracker: s.tracker,
        semaphores: command_semaphores(p.semaphores, commands[i]),
        state: next_state(p.state, commands[i], i as usize),
        ops: p.ops + barrier_ops(s.barrier) + command_ops(p.state, commands[i], i as usize),
    }
}

/// The plan after the first `n` commands were handled, in order.
pub open spec fn plan_commands(p: SubmitPlan, commands: Seq<Command>, n: int) -> SubmitPlan
    decreases n,
{
    if n <= 0 {
        p
    } else {
        plan_step(plan_commands(p, commands, n - 1), commands, n - 1)
    }
}

/// The plan of a submission before its first command.
pub open spec fn plan_start(reg: RegistryView, queue: QueueType, next_value: u64) -> SubmitPlan {
    SubmitPlan {
        registry: reg,
        tracker: TrackerView {
            queue_ty: queue,
            next_value,
            usages: Map::empty(),
            queues: Assoc::empty(),
        },
        semaphores: SemaphoresView { waits: Assoc::empty(), signals: Assoc::empty() },
        state: EncodeState { active_pass: None, active_layout: 0 },
        ops: Seq::empty(),
    }
}

/// The waits after the first `n` of the queues to wait for were added:
/// each is waited for on its semaphore, for the target value it had when
/// the submission began, at the stage noted.
pub open spec fn queue_waits<A>(
    waits: Assoc<u64, WaitInfo>,
    queues: Assoc<QueueType, u32>,
    b: BackendView<A>,
    n: int,
) -> Assoc<u64, WaitInfo>
    decreases n,
{
    if n <= 0 {
        waits
    } else {
        let q = queues.order[n - 1];
        add_wait(
            queue_waits(waits, queues, b, n - 1),
            b.queue(q).semaphore,
            WaitInfo { value: Some(b.queue(q).target_value), stage: queues.map[q] },
        )
    }
}

/// The semaphores of a submission: those that its commands asked for and
/// the waits for the queues that used its resources last.
pub open spec fn plan_semaphores<A>(p: SubmitPlan, b: BackendView<A>) -> SemaphoresView {
    SemaphoresView {
        waits: queue_waits(p.semaphores.waits, p.tracker.queues, b, p.tracker.queues.order.len() as int),
        signals: p.semaphores.signals,
    }
}

/// The whole plan of a submission of `commands` to the queue `queue` of a
/// backend in state `b`.
pub open spec fn submission_plan<A>(b: BackendView<A>, queue: QueueType, commands: Seq<Command>)
    -> SubmitPlan {
    plan_commands(
        plan_start(b.registry, queue, (b.queue(queue).target_value + 1) as u64),
        commands,
        commands.len() as int,
    )
}

impl<A> View for VulkanBackend<A> {
    type V = BackendView<A>;

    closed spec fn view(&self) -> BackendView<A> {
        BackendView {
            main: self.main@,
            transfer: self.transfer@,
            present: self.present@,
            compute: self.compute@,
            registry: self.resource_state@,
            garbage: self.garbage@,
        }
    }
}

impl<A> VulkanBackend<A> {
    /// The registry is well formed, and no use that it holds ends after
    /// the target value of its queue.
    pub closed spec fn wf(&self) -> bool {
        &&& self.resource_state.wf()
        &&& self@.registry_bounded()
    }

    /// A backend around four queues, with nothing used and nothing held
    /// back.
    pub fn new(main: VkQueue, transfer: VkQueue, present: VkQueue, compute: VkQueue) -> (r: Self)
        ensures
            r.wf(),
            r@.main == main@,
            r@.transfer == transfer@,
            r@.present == present@,
            r@.compute == compute@,
            r@.registry.sets == Map::<u64, QueueUsage>::empty(),
            r@.registry.buffers == Map::<crate::usage::BufferElement, QueueUsage>::empty(),
            r@.registry.images == Map::<crate::usage::ImageElement, QueueUsage>::empty(),
            r@.registry.layouts == Map::<crate::usage::ImageMip, i32>::empty(),
            r@.garbage == Seq::<ToDestroy<A>>::empty(),
    {
        VulkanBackend {
            main,
            transfer,
            present,
            compute,
            resource_state: GlobalResourceUsage::new(),
            garbage: GarbageCollector::new(),
        }
    }

    /// The queue of a kind.
    pub fn queue(&self, ty: QueueType) -> (r: &VkQueue)
        ensures
            r@ == self@.queue(ty),
    {
        match ty {
            QueueType::Main => &self.main,
            QueueType::Transfer => &self.transfer,
            QueueType::Compute => &self.compute,
            QueueType::Present => &self.present,
        }
    }

    /// The target values of the queues that use resources.
    pub fn target_values(&self) -> (r: TimelineValues)
        ensures
            r == self@.targets(),
    {
        TimelineValues {
            main: self.main.target_timeline_value(),
            transfer: self.transfer.target_timeline_value(),
            compute: self.compute.target_timeline_value(),
        }
    }

    /// Takes a command buffer of the queue `queue` for reuse, if its
    /// oldest one is done at the counter value `current_value`.
    pub fn allocate_command_buffer(&mut self, queue: QueueType, current_value: u64) -> (r: Option<
        u64,
    >)
        requires
            old(self).wf(),
        ensures
            final(self).wf(),
            final(self)@.registry == old(self)@.registry,
            final(self)@.garbage == old(self)@.garbage,
            forall|ty: QueueType|
                ty != queue ==> #[trigger] final(self)@.queue(ty) == old(self)@.queue(ty),
            ({
                let q = old(self)@.queue(queue);
                let ready = q.free.len() > 0 && current_value >= q.free[0].target;
                &&& ready ==> r == Some(q.free[0].command_buffer) && final(self)@.queue(queue) == (
                QueueView { free: q.free.skip(1), ..q })
                &&& !ready ==> r is None && final(self)@.queue(queue) == q
            }),
    {
        match queue {
            QueueType::Main => self.main.allocate_command_buffer(current_value),
            QueueType::Transfer => self.transfer.allocate_command_buffer(current_value),
            QueueType::Compute => self.compute.allocate_command_buffer(current_value),
            QueueType::Present => self.present.allocate_command_buffer(current_value),
        }
    }

    /// Forgets the last use of a descriptor set and hands it back, so
    /// that the caller can wait until it is over before it writes to the
    /// set.
    pub fn begin_descriptor_update(&mut self, set: u64) -> (r: Option<QueueUsage>)
        requires
            old(self).wf(),
        ensures
            final(self).wf(),
            r == (if old(self)@.registry.sets.dom().contains(set) {
                Some(old(self)@.registry.sets[set])
            } else {
                None
            }),
            r is Some ==> r->0.timeline_value <= old(self)@.queue(r->0.queue).target_value,
            final(self)@ == (BackendView {
                registry: RegistryView {
                    sets: old(self)@.registry.sets.remove(set),
                    ..old(self)@.registry
                },
                ..old(self)@
            }),
    {
        self.resource_state.register_set(set, None)
    }

    /// The status of a job when the counter of its queue's semaphore
    /// reads `counter`.
    pub fn poll_status(&self, job: &Job, counter: u64) -> (r: JobStatus)
        ensures
            r == crate::queue::spec_job_status(counter, job.target_value),
    {
        job.poll_status(counter)
    }

    /// Takes `incoming` in and sweeps the held objects against the
    /// counters `current_values` without asking who else holds a buffer or
    /// a texture: for shutdown, when the device is idle.
    pub fn cleanup_all(&mut self, incoming: Vec<Garbage<A>>, current_values: TimelineValues) -> (r:
        Vec<Garbage<A>>)
        requires
            old(self).wf(),
        ensures
            final(self).wf(),
            final(self)@ == (BackendView {
                garbage: kept(
                    taken_in(old(self)@.garbage, incoming@, old(self)@.targets()),
                    Seq::new(
                        taken_in(old(self)@.garbage, incoming@, old(self)@.targets()).len(),
                        |i: int| true,
                    ),
                    current_values,
                    0,
                ),
                ..old(self)@
            }),
            r@ == swept(
                taken_in(old(self)@.garbage, incoming@, old(self)@.targets()),
                Seq::new(
                    taken_in(old(self)@.garbage, incoming@, old(self)@.targets()).len(),
                    |i: int| true,
                ),
                current_values,
                0,
            ),
    {
        let target_values = self.target_values();
        self.garbage.cleanup_all(incoming, current_values, target_values)
    }

    /// Whether the commands can be submitted to the queue `queue`; see
    /// [`commands_valid`].
    pub fn validate<'a>(queue: QueueType, commands: &Vec<Command<'a>>) -> (r: bool)
        ensures
            r == commands_valid(queue, commands@),
    {
        let graphics = queue == QueueType::Main;
        let compute = queue == QueueType::Main || queue == QueueType::Compute;
        let transfer = queue == QueueType::Main || queue == QueueType::Transfer;
        let mut i: usize = 0;
        while i < commands.len()
            invariant
                i <= commands@.len(),
                graphics == takes_graphics(queue),
                compute == takes_compute(queue),
                transfer == takes_transfer(queue),
                forall|k: int|
                    0 <= k < i ==> queue_takes(queue, #[trigger] commands@[k]) && command_scope(
                        commands@,
                        k,
                    ) is Some && encodable(commands@[k]),
            decreases commands@.len() - i,
        {
            let taken = match &commands[i] {
                Command::BeginRenderPass(_) => graphics,
                Command::BeginComputePass => compute,
                Command::Dispatch(_, _, _) => compute,
                Command::CopyBufferToBuffer(_) => transfer,
                Command::CopyBufferToTexture { .. } => transfer,
                Command::CopyTextureToBuffer { .. } => transfer,
                _ => true,
            };
            if !taken || !can_encode(&commands[i]) || scope_of_command(commands, i).is_none() {
                assert(!(queue_takes(queue, commands@[i as int]) && command_scope(
                    commands@,
                    i as int,
                ) is Some && encodable(commands@[i as int])));
                return false;
            }
            i += 1;
        }
        true
    }

    /// Submits `commands` to the queue `queue`, to be recorded into
    /// `command_buffer`. Released objects `incoming` are taken in and the
    /// held ones swept against the counters `current_values`; then each
    /// command is tracked and encoded in order, with its barrier before
    /// it; last, the waits for the queues that used the resources before
    /// are added and the queue takes the submission.
    pub fn submit_commands<'a>(
        &mut self,
        queue: QueueType,
        command_buffer: u64,
        commands: &Vec<Command<'a>>,
        incoming: Vec<Garbage<A>>,
        current_values: TimelineValues,
    ) -> (r: Submission<A>)
        requires
            old(self).wf(),
            commands_valid(queue, commands@),
            old(self)@.queue(queue).target_value < u64::MAX,
        ensures
            final(self).wf(),
            ({
                let b = old(self)@;
                let plan = submission_plan(b, queue, commands@);
                let next = (b.queue(queue).target_value + 1) as u64;
                &&& r.job == (Job { ty: queue, target_value: next })
                &&& r.drawn@ == drawn_images(commands@, commands@.len() as int)
                &&& ops_view(r.commands@) == plan.ops
                &&& submit_info_matches(
                    r.submit,
                    command_buffer,
                    with_self_sync(
                        plan_semaphores(plan, b),
                        b.queue(queue).semaphore,
                        b.queue(queue).target_value,
                    ),
                )
                &&& final(self)@.registry == plan.registry
                &&& final(self)@.queue(queue) == (QueueView {
                    target_value: next,
                    free: b.queue(queue).free.push(
                        crate::queue::ActiveCommandBuffer { command_buffer, target: next },
                    ),
                    ..b.queue(queue)
                })
                &&& forall|ty: QueueType|
                    ty != queue ==> #[trigger] final(self)@.queue(ty) == b.queue(ty)
                &&& exists|last: Seq<bool>|
                    last.len() == taken_in(b.garbage, incoming@, b.targets()).len()
                        && final(self)@.garbage == #[trigger] kept(
                        taken_in(b.garbage, incoming@, b.targets()),
                        last,
                        current_values,
                        0,
                    ) && r.destroyed@ == swept(
                        taken_in(b.garbage, incoming@, b.targets()),
                        last,
                        current_values,
                        0,
                    )
            }),
    {
        let ghost b = self@;
        let target_values = self.target_values();
        let next_target_value = self.queue(queue).target_timeline_value() + 1;
        let ghost all = taken_in(b.garbage, incoming@, b.targets());
        let destroyed = self.garbage.cleanup(incoming, current_values, target_values);
        let ghost held = self.garbage@;
        let ghost last = choose|last: Seq<bool>|
            last.len() == all.len() && held == #[trigger] kept(all, last, current_values, 0)
                && destroyed@ == swept(all, last, current_values, 0);

        let mut semaphore_tracker = SemaphoreTracker::new();
        let mut pipeline_tracker = PipelineTracker::new(queue, next_target_value);
        let mut state = EncodeState { active_pass: None, active_layout: 0 };
        let mut ops: Vec<NativeCommand> = Vec::new();
        let by = QueueUsage { queue, timeline_value: next_target_value };
        let ghost start = plan_start(b.registry, queue, next_target_value);
        proof {
            assert(ops_view(ops@) =~= start.ops);
        }

        let mut i: usize = 0;
        while i < commands.len()
            invariant
                i <= commands@.len(),
                commands_valid(queue, commands@),
                by == (QueueUsage { queue, timeline_value: next_target_value }),
                start.tracker.queue_ty == queue,
                start.tracker.next_value == next_target_value,
                self.resource_state.wf(),
                pipeline_tracker.wf(),
                semaphore_tracker.wf(),
                self.main@ == b.main,
                self.transfer@ == b.transfer,
                self.compute@ == b.compute,
                self.present@ == b.present,
                self.garbage@ == held,
                plan_commands(start, commands@, i as int) == (SubmitPlan {
                    registry: self.resource_state@,
                    tracker: pipeline_tracker@,
                    semaphores: semaphore_tracker@,
                    state,
                    ops: ops_view(ops@),
                }),
            decreases commands@.len() - i,
        {
            let ghost before = plan_commands(start, commands@, i as int);
            proof {
                lemma_plan_queue(start, commands@, i as int);
            }
            let barrier = track_resources(
                commands,
                i,
                &mut pipeline_tracker,
                &mut self.resource_state,
                &mut semaphore_tracker,
            );
            let ghost s = submit_scope(
                before.registry,
                before.tracker,
                command_scope(commands@, i as int)->0,
            );
            match &commands[i] {
                Command::BindDescriptorSets { sets, .. } => {
                    let mut k: usize = 0;
                    while k < sets.len()
                        invariant
                            k <= sets@.len(),
                            self.resource_state.wf(),
                            self.resource_state@ == touch_sets(s.registry, sets@, by, k as int),
                            self.garbage@ == held,
                            self.main@ == b.main,
                            self.transfer@ == b.transfer,
                            self.compute@ == b.compute,
                            self.present@ == b.present,
                        decreases sets@.len() - k,
                    {
                        self.resource_state.register_set(sets[k].set, Some(by));
                        k += 1;
                    }
                },
                _ => {},
            }
            assert(self.resource_state@ == command_sets(s.registry, commands@[i as int], by));
            let ghost ops_before = ops_view(ops@);
            match barrier {
                Some(barrier) => {
                    ops.push(NativeCommand::PipelineBarrier(barrier));
                    proof {
                        assert(ops_view(ops@) =~= ops_before + barrier_ops(s.barrier));
                    }
                },
                None => {
                    proof {
                        assert(ops_view(ops@) =~= ops_before + barrier_ops(s.barrier));
                    }
                },
            }
            encode_command(commands, i, &mut state, &mut ops);
            i += 1;
            proof {
                assert(ops_view(ops@) =~= ops_before + barrier_ops(s.barrier) + command_ops(
                    before.state,
                    commands@[i as int - 1],
                    (i - 1) as usize,
                ));
                assert(plan_commands(start, commands@, i as int) == plan_step(
                    before,
                    commands@,
                    i as int - 1,
                ));
            }
        }
        let ghost plan = plan_commands(start, commands@, commands@.len() as int);

        // Wait for the queues that used the resources last.
        let waits = pipeline_tracker.wait_queues();
        let ghost sems = semaphore_tracker@;
        let mut w: usize = 0;
        while w < waits.len()
            invariant
                w <= waits@.len(),
                semaphore_tracker.wf(),
                waits@.len() == plan.tracker.queues.order.len(),
                forall|j: int|
                    0 <= j < waits@.len() ==> (#[trigger] waits@[j]).0
                        == plan.tracker.queues.order[j] && waits@[j].1
                        == plan.tracker.queues.map[plan.tracker.queues.order[j]],
                self.main@ == b.main,
                self.transfer@ == b.transfer,
                self.compute@ == b.compute,
                self.present@ == b.present,
                self.garbage@ == held,
                self.resource_state@ == plan.registry,
                self.resource_state.wf(),
                target_values == b.targets(),
                semaphore_tracker@.signals == sems.signals,
                semaphore_tracker@.waits == queue_waits(sems.waits, plan.tracker.queues, b, w as int),
            decreases waits@.len() - w,
        {
            let (source, stage) = waits[w];
            let (semaphore, value) = match source {
                QueueType::Main => (self.main.semaphore(), target_values.main),
                QueueType::Transfer => (self.transfer.semaphore(), target_values.transfer),
                QueueType::Compute => (self.compute.semaphore(), target_values.compute),
                QueueType::Present => (
                    self.present.semaphore(),
                    self.present.target_timeline_value(),
                ),
            };
            semaphore_tracker.register_wait(semaphore, WaitInfo { value: Some(value), stage });
            w += 1;
        }
        assert(semaphore_tracker@ == plan_semaphores(plan, b));

        let submit = match queue {
            QueueType::Main => self.main.submit(command_buffer, semaphore_tracker),
            QueueType::Transfer => self.transfer.submit(command_buffer, semaphore_tracker),
            QueueType::Compute => self.compute.submit(command_buffer, semaphore_tracker),
            QueueType::Present => self.present.submit(command_buffer, semaphore_tracker),
        };
        proof {
            lemma_plan_bounded(b, queue, commands@, commands@.len() as int);
            assert(self@.registry_bounded());
            assert(last.len() == all.len() && self@.garbage == kept(all, last, current_values, 0)
                && destroyed@ == swept(all, last, current_values, 0));
        }
        Submission {
            commands: ops,
            submit,
            job: Job { ty: queue, target_value: next_target_value },
            destroyed,
            drawn: surface_images_drawn(commands),
        }
    }
}

/// Handling commands changes neither the queue nor the timeline value of
/// the submission.
pub proof fn lemma_plan_queue(p: SubmitPlan, commands: Seq<Command>, n: int)
    ensures
        plan_commands(p, commands, n).tracker.queue_ty == p.tracker.queue_ty,
        plan_commands(p, commands, n).tracker.next_value == p.tracker.next_value,
    decreases n,
{
    if n > 0 {
        lemma_plan_queue(p, commands, n - 1);
        let m = plan_commands(p, commands, n - 1);
        let scope = command_scope(commands, n - 1)->0;
        crate::usage_proofs::lemma_run_queue(
            crate::usage::SubmitState { registry: m.registry, tracker: m.tracker, barrier: no_barrier() },
            scope,
            scope.order.len() as int,
        );
    }
}

/// Whether every use that the registry holds is either one that `b` held,
/// or a use by `by`.
pub open spec fn registry_from(reg: RegistryView, old_reg: RegistryView, by: QueueUsage) -> bool {
    &&& forall|k: u64| #[trigger]
        reg.sets.dom().contains(k) ==> reg.sets[k] == by || (old_reg.sets.dom().contains(k)
            && old_reg.sets[k] == reg.sets[k])
    &&& forall|k: crate::usage::BufferElement| #[trigger]
        reg.buffers.dom().contains(k) ==> reg.buffers[k] == by || (old_reg.buffers.dom().contains(
            k,
        ) && old_reg.buffers[k] == reg.buffers[k])
    &&& forall|k: crate::usage::ImageElement| #[trigger]
        reg.images.dom().contains(k) ==> reg.images[k] == by || (old_reg.images.dom().contains(k)
            && old_reg.images[k] == reg.images[k])
}

/// Handling the uses of a scope leaves every use in the registry either
/// as it was or as a use by the submission.
pub proof fn lemma_run_registry_from(
    s: crate::usage::SubmitState,
    scope: Assoc<crate::usage::SubResource, crate::usage::SubResourceUsage>,
    n: int,
    old_reg: RegistryView,
)
    requires
        registry_from(
            s.registry,
            old_reg,
            QueueUsage { queue: s.tracker.queue_ty, timeline_value: s.tracker.next_value },
        ),
    ensures
        registry_from(
            crate::usage::run(s, scope, n).registry,
            old_reg,
            QueueUsage { queue: s.tracker.queue_ty, timeline_value: s.tracker.next_value },
        ),
    decreases n,
{
    if n > 0 {
        lemma_run_registry_from(s, scope, n - 1, old_reg);
        crate::usage_proofs::lemma_run_queue(s, scope, n - 1);
    }
}

proof fn lemma_touch_sets_from(
    reg: RegistryView,
    sets: Seq<&DescriptorSet>,
    by: QueueUsage,
    n: int,
    old_reg: RegistryView,
)
    requires
        registry_from(reg, old_reg, by),
    ensures
        registry_from(touch_sets(reg, sets, by, n), old_reg, by),
    decreases n,
{
    if n > 0 {
        lemma_touch_sets_from(reg, sets, by, n - 1, old_reg);
    }
}

/// Handling commands leaves every use in the registry either as it was
/// or as a use by the submission.
pub proof fn lemma_plan_registry_from(p: SubmitPlan, commands: Seq<Command>, n: int)
    ensures
        registry_from(
            plan_commands(p, commands, n).registry,
            p.registry,
            QueueUsage { queue: p.tracker.queue_ty, timeline_value: p.tracker.next_value },
        ),
    decreases n,
{
    let by = QueueUsage { queue: p.tracker.queue_ty, timeline_value: p.tracker.next_value };
    if n > 0 {
        lemma_plan_registry_from(p, commands, n - 1);
        lemma_plan_queue(p, commands, n - 1);
        let m = plan_commands(p, commands, n - 1);
        let scope = command_scope(commands, n - 1)->0;
        let s0 = crate::usage::SubmitState {
            registry: m.registry,
            tracker: m.tracker,
            barrier: no_barrier(),
        };
        lemma_run_registry_from(s0, scope, scope.order.len() as int, p.registry);
        let s = submit_scope(m.registry, m.tracker, scope);
        match commands[n - 1] {
            Command::BindDescriptorSets { sets, .. } => {
                lemma_touch_sets_from(s.registry, sets@, by, sets@.len() as int, p.registry);
            },
            _ => {},
        }
    }
}

/// After a submission no use that the registry holds ends after the
/// target value of its queue, with the queue of the submission at its new
/// target value.
proof fn lemma_plan_bounded<A>(b: BackendView<A>, queue: QueueType, commands: Seq<Command>, n: int)
    requires
        b.registry_bounded(),
        b.queue(queue).target_value < u64::MAX,
    ensures
        ({
            let next = (b.queue(queue).target_value + 1) as u64;
            let reg = plan_commands(plan_start(b.registry, queue, next), commands, n).registry;
            forall|after: BackendView<A>|
                after.registry == reg && after.queue(queue).target_value == next && (forall|
                    ty: QueueType,
                |
                    ty != queue ==> (#[trigger] after.queue(ty)).target_value == b.queue(
                        ty,
                    ).target_value) ==> #[trigger] after.registry_bounded()
        }),
{
    let next = (b.queue(queue).target_value + 1) as u64;
    let start = plan_start(b.registry, queue, next);
    lemma_plan_registry_from(start, commands, n);
    let reg = plan_commands(start, commands, n).registry;
    let by = QueueUsage { queue, timeline_value: next };
    assert forall|after: BackendView<A>|
        after.registry == reg && after.queue(queue).target_value == next && (forall|ty: QueueType|
            ty != queue ==> (#[trigger] after.queue(ty)).target_value == b.queue(
                ty,
            ).target_value) implies #[trigger] after.registry_bounded() by {
        assert forall|k: u64| #[trigger] after.registry.sets.dom().contains(k) implies after.registry.sets[k].timeline_value
            <= after.queue(after.registry.sets[k].queue).target_value by {
            let e = reg.sets[k];
            if e != by {
                assert(b.registry.sets.dom().contains(k));
                assert(after.queue(e.queue).target_value >= b.queue(e.queue).target_value);
            }
        }
        assert forall|k: crate::usage::BufferElement| #[trigger]
            after.registry.buffers.dom().contains(k) implies after.registry.buffers[k].timeline_value
            <= after.queue(after.registry.buffers[k].queue).target_value by {
            let e = reg.buffers[k];
            if e != by {
                assert(b.registry.buffers.dom().contains(k));
                assert(after.queue(e.queue).target_value >= b.queue(e.queue).target_value);
            }
        }
        assert forall|k: crate::usage::ImageElement| #[trigger]
            after.registry.images.dom().contains(k) implies after.registry.images[k].timeline_value
            <= after.queue(after.registry.images[k].queue).target_value by {
            let e = reg.images[k];
            if e != by {
                assert(b.registry.images.dom().contains(k));
                assert(after.queue(e.queue).target_value >= b.queue(e.queue).target_value);
            }
        }
    }
}

} // verus!
