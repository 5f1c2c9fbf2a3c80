//! A device queue: its timeline, its recycled command buffers, and what a
//! submission to it waits for and signals.

use vstd::prelude::*;
use std::collections::VecDeque;
use crate::semaphores::{add_wait, listed, OutSemaphores, SemaphoreTracker, SemaphoresView, WaitInfo};
use crate::types::{JobStatus, QueueType};
use crate::vk::STAGE_TOP_OF_PIPE;

verus! {

/// A command buffer that was submitted, with the timeline value at which
/// its work is over.
#[derive(Debug, Copy, Clone, PartialEq, Eq, Structural)]
pub struct ActiveCommandBuffer {
    pub command_buffer: u64,
    pub target: u64,
}

/// A handle on submitted work: the queue, and the value that the queue's
/// timeline takes when the work is over.
#[derive(Debug, Copy, Clone, PartialEq, Eq, Structural)]
pub struct Job {
    pub ty: QueueType,
    pub target_value: u64,
}

/// How to wait for a job.
#[derive(Debug, Copy, Clone, PartialEq, Eq, Structural)]
pub enum WaitStrategy {
    /// Block on the queue's semaphore until it reaches the job's value.
    Semaphore,
    /// Read the semaphore's counter in a loop until it reaches the job's
    /// value or the deadline passes.
    Spin,
}

/// The arrays that the native submit call takes.
#[derive(Debug)]
pub struct SubmitInfo {
    pub command_buffer: u64,
    pub wait_semaphores: Vec<u64>,
    pub wait_values: Vec<u64>,
    pub wait_stages: Vec<u32>,
    pub signal_semaphores: Vec<u64>,
    pub signal_values: Vec<u64>,
}

/// One device queue.
pub struct VkQueue {
    queue: u64,
    queue_family: u32,
    ty: QueueType,
    command_pool: u64,
    free: VecDeque<ActiveCommandBuffer>,
    semaphore: u64,
    target_value: u64,
}

/// The model of a [`VkQueue`].
pub struct QueueView {
    pub queue: u64,
    pub queue_family: u32,
    pub ty: QueueType,
    pub command_pool: u64,
    /// The submitted command buffers, oldest first.
    pub free: Seq<ActiveCommandBuffer>,
    pub semaphore: u64,
    pub target_value: u64,
}

/// The timeline value of a wait or a signal as the native call takes it: 0
/// for a binary semaphore.
pub open spec fn native_value(value: Option<u64>) -> u64 {
    match value {
        Some(v) => v,
        None => 0,
    }
}

/// The semaphores of a submission to a queue with semaphore `semaphore`
/// and target value `target`: those of `tracker`, a wait for the queue's
/// own earlier work at the top of the pipeline, and the signal of the
/// queue's own semaphore with the next value.
pub open spec fn with_self_sync(tracker: SemaphoresView, semaphore: u64, target: u64)
    -> SemaphoresView {
    SemaphoresView {
        waits: add_wait(
            tracker.waits,
            semaphore,
            WaitInfo { value: Some(target), stage: STAGE_TOP_OF_PIPE },
        ),
        signals: tracker.signals.insert(semaphore, Some((target + 1) as u64)),
    }
}

/// Whether `info` lists the command buffer and the semaphores `sems` as
/// the native call takes them.
pub open spec fn submit_info_matches(info: SubmitInfo, command_buffer: u64, sems: SemaphoresView)
    -> bool {
    let waits = listed(sems.waits);
    let signals = listed(sems.signals);
    &&& info.command_buffer == command_buffer
    &&& info.wait_semaphores@ == Seq::new(waits.len(), |i: int| waits[i].0)
    &&& info.wait_values@ == Seq::new(waits.len(), |i: int| native_value(waits[i].1.value))
    &&& info.wait_stages@ == Seq::new(waits.len(), |i: int| waits[i].1.stage)
    &&& info.signal_semaphores@ == Seq::new(signals.len(), |i: int| signals[i].0)
    &&& info.signal_values@ == Seq::new(signals.len(), |i: int| native_value(signals[i].1))
}

/// Whether work with target value `target` is over when the timeline
/// counter reads `counter`.
pub open spec fn spec_job_status(counter: u64, target: u64) -> JobStatus {
    if counter >= target {
        JobStatus::Complete
    } else {
        JobStatus::Running
    }
}

impl View for VkQueue {
    type V = QueueView;

    closed spec fn view(&self) -> QueueView {
        QueueView {
            queue: self.queue,
            queue_family: self.queue_family,
            ty: self.ty,
            command_pool: self.command_pool,
            free: self.free@,
            semaphore: self.semaphore,
            target_value: self.target_value,
        }
    }
}

impl VkQueue {
    /// A queue that nothing was submitted to, around its native queue, its
    /// timeline semaphore, which starts at 0, and its command pool.
    pub fn new(queue: u64, ty: QueueType, queue_family: u32, semaphore: u64, command_pool: u64) -> (r:
        Self)
        ensures
            r@ == (QueueView {
                queue,
                queue_family,
                ty,
                command_pool,
                free: Seq::empty(),
                semaphore,
                target_value: 0,
            }),
    {
        VkQueue {
            queue,
            queue_family,
            ty,
            command_pool,
            free: VecDeque::new(),
            semaphore,
            target_value: 0,
        }
    }

    /// The native queue.
    pub fn queue(&self) -> (r: u64)
        ensures
            r == self@.queue,
    {
        self.queue
    }

    /// The kind of the queue.
    pub fn ty(&self) -> (r: QueueType)
        ensures
            r == self@.ty,
    {
        self.ty
    }

    /// The queue family that the queue belongs to.
    pub fn queue_family(&self) -> (r: u32)
        ensures
            r == self@.queue_family,
    {
        self.queue_family
    }

    /// The pool that the queue's command buffers come from.
    pub fn command_pool(&self) -> (r: u64)
        ensures
            r == self@.command_pool,
    {
        self.command_pool
    }

    /// The queue's timeline semaphore.
    pub fn semaphore(&self) -> (r: u64)
        ensures
            r == self@.semaphore,
    {
        self.semaphore
    }

    /// The value that the timeline takes when all submitted work is over.
    pub fn target_timeline_value(&self) -> (r: u64)
        ensures
            r == self@.target_value,
    {
        self.target_value
    }

    /// Takes the oldest submitted command buffer for reuse when the
    /// timeline counter, read as `current_value`, has reached its target.
    /// Otherwise nothing changes and the caller allocates a new one.
    pub fn allocate_command_buffer(&mut self, current_value: u64) -> (r: Option<u64>)
        ensures
            old(self)@.free.len() > 0 && current_value >= old(self)@.free[0].target ==> r == Some(
                old(self)@.free[0].command_buffer,
            ) && final(self)@ == (QueueView { free: old(self)@.free.skip(1), ..old(self)@ }),
            !(old(self)@.free.len() > 0 && current_value >= old(self)@.free[0].target) ==> r is None
                && final(self)@ == old(self)@,
    {
        if self.free.len() > 0 {
            let target = self.free[0].target;
            if current_value >= target {
                match self.free.pop_front() {
                    Some(cb) => {
                        return Some(cb.command_buffer);
                    },
                    None => {
                        return None;
                    },
                }
            }
        }
        None
    }

    /// Submits a command buffer. The submission waits for the queue's own
    /// earlier work and signals the queue's semaphore with the next target
    /// value, beside the semaphores of `tracker`; the target value goes up
    /// by one, and the command buffer is kept for reuse at that value.
    pub fn submit(&mut self, command_buffer: u64, tracker: SemaphoreTracker) -> (info: SubmitInfo)
        requires
            tracker.wf(),
            old(self)@.target_value < u64::MAX,
        ensures
            final(self)@ == (QueueView {
                target_value: (old(self)@.target_value + 1) as u64,
                free: old(self)@.free.push(
                    ActiveCommandBuffer {
                        command_buffer,
                        target: (old(self)@.target_value + 1) as u64,
                    },
                ),
                ..old(self)@
            }),
            final(self)@.target_value > old(self)@.target_value,
            submit_info_matches(
                info,
                command_buffer,
                with_self_sync(tracker@, old(self)@.semaphore, old(self)@.target_value),
            ),
    {
        let mut tracker = tracker;
        tracker.register_wait(
            self.semaphore,
            WaitInfo { value: Some(self.target_value), stage: STAGE_TOP_OF_PIPE },
        );
        tracker.register_signal(self.semaphore, Some(self.target_value + 1));
        self.target_value += 1;
        let ghost sems = tracker@;
        let semaphores = tracker.finish();

        self.free.push_back(ActiveCommandBuffer { command_buffer, target: self.target_value });

        let mut wait_semaphores: Vec<u64> = Vec::new();
        let mut wait_values: Vec<u64> = Vec::new();
        let mut wait_stages: Vec<u32> = Vec::new();
        let mut i: usize = 0;
        while i < semaphores.waits.len()
            invariant
                i <= semaphores.waits@.len(),
                wait_semaphores@.len() == i,
                wait_values@.len() == i,
                wait_stages@.len() == i,
                forall|j: int| 0 <= j < i ==> wait_semaphores@[j] == semaphores.waits@[j].0,
                forall|j: int|
                    0 <= j < i ==> wait_values@[j] == native_value(semaphores.waits@[j].1.value),
                forall|j: int| 0 <= j < i ==> wait_stages@[j] == semaphores.waits@[j].1.stage,
            decreases semaphores.waits@.len() - i,
        {
            let (semaphore, info) = semaphores.waits[i];
            wait_semaphores.push(semaphore);
            wait_values.push(
                match info.value {
                    Some(v) => v,
                    None => 0,
                },
            );
            wait_stages.push(info.stage);
            i += 1;
        }
        let mut signal_semaphores: Vec<u64> = Vec::new();
        let mut signal_values: Vec<u64> = Vec::new();
        let mut k: usize = 0;
        while k < semaphores.signals.len()
            invariant
                k <= semaphores.signals@.len(),
                signal_semaphores@.len() == k,
                signal_values@.len() == k,
                forall|j: int| 0 <= j < k ==> signal_semaphores@[j] == semaphores.signals@[j].0,
                forall|j: int|
                    0 <= j < k ==> signal_values@[j] == native_value(semaphores.signals@[j].1),
            decreases semaphores.signals@.len() - k,
        {
            let (semaphore, value) = semaphores.signals[k];
            signal_semaphores.push(semaphore);
            signal_values.push(
                match value {
                    Some(v) => v,
                    None => 0,
                },
            );
            k += 1;
        }
        let info = SubmitInfo {
            command_buffer,
            wait_semaphores,
            wait_values,
            wait_stages,
            signal_semaphores,
            signal_values,
        };
        proof {
            let waits = listed(sems.waits);
            let signals = listed(sems.signals);
            assert(info.wait_semaphores@ =~= Seq::new(waits.len(), |i: int| waits[i].0));
            assert(info.wait_values@ =~= Seq::new(
                waits.len(),
                |i: int| native_value(waits[i].1.value),
            ));
            assert(info.wait_stages@ =~= Seq::new(waits.len(), |i: int| waits[i].1.stage));
            assert(info.signal_semaphores@ =~= Seq::new(signals.len(), |i: int| signals[i].0));
            assert(info.signal_values@ =~= Seq::new(
                signals.len(),
                |i: int| native_value(signals[i].1),
            ));
        }
        info
    }
}

impl Job {
    /// How to wait for the job on a queue whose target value is
    /// `queue_target`: on the semaphore when the job is the queue's latest
    /// work, else in a loop, since the counter may pass the job's value.
    pub fn wait_strategy(&self, queue_target: u64) -> (r: WaitStrategy)
        ensures
            r == (if queue_target == self.target_value {
                WaitStrategy::Semaphore
            } else {
                WaitStrategy::Spin
            }),
    {
        if queue_target == self.target_value {
            WaitStrategy::Semaphore
        } else {
            WaitStrategy::Spin
        }
    }

    /// The status of the job when the timeline counter of its queue reads
    /// `counter`: complete exactly when the counter has reached the job's
    /// value.
    pub fn poll_status(&self, counter: u64) -> (r: JobStatus)
        ensures
            r == spec_job_status(counter, self.target_value),
    {
        if counter >= self.target_value {
            JobStatus::Complete
        } else {
            JobStatus::Running
        }
    }

    /// The status of the job after a wait that ended with the counter at
    /// `counter`.
    pub fn wait_on(&self, counter: u64) -> (r: JobStatus)
        ensures
            r == spec_job_status(counter, self.target_value),
    {
        self.poll_status(counter)
    }
}

} // verus!
