//! The last use of each buffer element and image element, with the layout
//! of the image: what a simple backend keeps between submissions.

use vstd::prelude::*;
use crate::assoc::{AssocMap, Key};
use crate::pipeline_tracker::ImageLayoutTransition;
use crate::queue::VkQueue;
use crate::semaphores::{add_wait, SemaphoreTracker, WaitInfo};
use crate::types::QueueType;

verus! {

/// One array element of a buffer or of an image.
#[derive(Debug, Copy, Clone, PartialEq, Eq, Structural, Hash)]
pub struct Element {
    pub handle: u64,
    pub array_elem: usize,
}

impl Key for Element {
    fn same(&self, other: &Self) -> (r: bool) {
        *self == *other
    }
}

/// The last use of a resource.
#[derive(Debug, Copy, Clone, PartialEq, Eq, Structural)]
pub struct LatestUsage {
    /// The queue that used the resource last.
    pub queue: QueueType,
    /// The timeline value at which that use is over.
    pub value: u64,
    /// The layout of an image; unused for a buffer.
    pub layout: i32,
}

/// The last use of every buffer element and of every image element.
pub struct ResourceState {
    buffers: AssocMap<Element, LatestUsage>,
    images: AssocMap<Element, LatestUsage>,
}

/// The model of a [`ResourceState`].
pub struct ResourceStateView {
    pub buffers: Map<Element, LatestUsage>,
    pub images: Map<Element, LatestUsage>,
}

/// What a map binds a key to, if anything.
pub open spec fn usage_of(m: Map<Element, LatestUsage>, key: Element) -> Option<LatestUsage> {
    if m.dom().contains(key) {
        Some(m[key])
    } else {
        None
    }
}

/// A map after a key was bound anew, or unbound.
pub open spec fn with_usage(m: Map<Element, LatestUsage>, key: Element, usage: Option<LatestUsage>)
    -> Map<Element, LatestUsage> {
    match usage {
        Some(u) => m.insert(key, u),
        None => m.remove(key),
    }
}

impl View for ResourceState {
    type V = ResourceStateView;

    closed spec fn view(&self) -> ResourceStateView {
        ResourceStateView { buffers: self.buffers@.map, images: self.images@.map }
    }
}

impl ResourceState {
    /// Every map holds each of its keys once.
    pub closed spec fn wf(&self) -> bool {
        self.buffers.wf() && self.images.wf()
    }

    /// A state in which nothing was used.
    pub fn new() -> (r: Self)
        ensures
            r.wf(),
            r@.buffers == Map::<Element, LatestUsage>::empty(),
            r@.images == Map::<Element, LatestUsage>::empty(),
    {
        ResourceState { buffers: AssocMap::new(), images: AssocMap::new() }
    }

    /// Records the last use of an image element, or forgets it, and hands
    /// back the use that was recorded before.
    pub fn set_image(&mut self, image: u64, array_elem: usize, usage: Option<LatestUsage>) -> (r:
        Option<LatestUsage>)
        requires
            old(self).wf(),
        ensures
            final(self).wf(),
            r == usage_of(old(self)@.images, Element { handle: image, array_elem }),
            final(self)@.buffers == old(self)@.buffers,
            final(self)@.images == with_usage(
                old(self)@.images,
                Element { handle: image, array_elem },
                usage,
            ),
    {
        let key = Element { handle: image, array_elem };
        match usage {
            Some(usage) => self.images.insert(key, usage),
            None => self.images.remove(&key),
        }
    }

    /// Records the last use of a buffer element, or forgets it, and hands
    /// back the use that was recorded before.
    pub fn set_buffer(&mut self, buffer: u64, array_elem: usize, usage: Option<LatestUsage>) -> (r:
        Option<LatestUsage>)
        requires
            old(self).wf(),
        ensures
            final(self).wf(),
            r == usage_of(old(self)@.buffers, Element { handle: buffer, array_elem }),
            final(self)@.images == old(self)@.images,
            final(self)@.buffers == with_usage(
                old(self)@.buffers,
                Element { handle: buffer, array_elem },
                usage,
            ),
    {
        let key = Element { handle: buffer, array_elem };
        match usage {
            Some(usage) => self.buffers.insert(key, usage),
            None => self.buffers.remove(&key),
        }
    }
}

impl LatestUsage {
    /// The transition that takes the image to `new_layout`, unless it is
    /// in that layout already.
    pub fn needs_layout_transition(&self, aspect_mask: u32, mip_count: u32, new_layout: i32) -> (r:
        Option<ImageLayoutTransition>)
        ensures
            r == (if self.layout == new_layout {
                None
            } else {
                Some(
                    ImageLayoutTransition {
                        old: self.layout,
                        new: new_layout,
                        aspect_mask,
                        mip_count,
                    },
                )
            }),
    {
        if self.layout == new_layout {
            return None;
        }
        Some(ImageLayoutTransition { old: self.layout, new: new_layout, aspect_mask, mip_count })
    }

    /// The queue among the four that is of the kind that used the
    /// resource last.
    pub open spec fn last_queue<'a>(
        &self,
        main: &'a VkQueue,
        transfer: &'a VkQueue,
        compute: &'a VkQueue,
        present: &'a VkQueue,
    ) -> &'a VkQueue {
        match self.queue {
            QueueType::Main => main,
            QueueType::Transfer => transfer,
            QueueType::Compute => compute,
            QueueType::Present => present,
        }
    }

    /// Makes a submission to a queue of kind `new_queue` wait, at `stage`,
    /// for the queue that used the resource last to reach its target
    /// value, unless that queue is of the same kind.
    pub fn wait_if_needed(
        &self,
        tracker: &mut SemaphoreTracker,
        new_queue: QueueType,
        stage: u32,
        main: &VkQueue,
        transfer: &VkQueue,
        compute: &VkQueue,
        present: &VkQueue,
    )
        requires
            old(tracker).wf(),
        ensures
            final(tracker).wf(),
            final(tracker)@.signals == old(tracker)@.signals,
            final(tracker)@.waits == (if self.queue != new_queue {
                add_wait(
                    old(tracker)@.waits,
                    self.last_queue(main, transfer, compute, present)@.semaphore,
                    WaitInfo {
                        value: Some(
                            self.last_queue(main, transfer, compute, present)@.target_value,
                        ),
                        stage,
                    },
                )
            } else {
                old(tracker)@.waits
            }),
    {
        if self.queue != new_queue {
            let (semaphore, value) = match self.queue {
                QueueType::Main => (main.semaphore(), main.target_timeline_value()),
                QueueType::Transfer => (transfer.semaphore(), transfer.target_timeline_value()),
                QueueType::Compute => (compute.semaphore(), compute.target_timeline_value()),
                QueueType::Present => (present.semaphore(), present.target_timeline_value()),
            };
            tracker.register_wait(semaphore, WaitInfo { value: Some(value), stage });
        }
    }
}

} // verus!
