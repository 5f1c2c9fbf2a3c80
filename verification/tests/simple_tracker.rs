use pal::pipeline_tracker::{
    Barrier, ImageLayoutTransition, MemoryBarrier, PipelineTracker, ResourceUsage,
};
use pal::queue::VkQueue;
use pal::resource_state::{LatestUsage, ResourceState};
use pal::semaphores::{SemaphoreTracker, WaitInfo};
use pal::types::QueueType;
use pal::vk::{self, DEPENDENCY_BY_REGION};

fn usage(used: u32, access: u32) -> ResourceUsage {
    ResourceUsage { used, access, layout_transition: None }
}

#[test]
fn a_write_is_made_visible_by_a_memory_barrier() {
    let mut tracker = PipelineTracker::new();
    let write = usage(vk::STAGE_TRANSFER, vk::ACCESS_TRANSFER_WRITE);
    let read = usage(vk::STAGE_VERTEX_INPUT, vk::ACCESS_VERTEX_ATTRIBUTE_READ);
    let index = usage(vk::STAGE_VERTEX_INPUT, vk::ACCESS_INDEX_READ);
    assert!(tracker.update(&vec![(1, write), (2, write)], &Vec::new()).is_none());

    let barrier = tracker.update(&vec![(1, read), (2, index)], &Vec::new()).unwrap();
    assert_eq!(barrier.src_stage, vk::STAGE_TRANSFER);
    assert_eq!(barrier.dst_stage, vk::STAGE_VERTEX_INPUT);
    assert_eq!(barrier.dependency, DEPENDENCY_BY_REGION);
    assert_eq!(
        barrier.memory_barriers,
        vec![MemoryBarrier {
            src_access_mask: vk::ACCESS_TRANSFER_WRITE,
            dst_access_mask: vk::ACCESS_VERTEX_ATTRIBUTE_READ | vk::ACCESS_INDEX_READ,
        }]
    );
    assert!(barrier.image_barriers.is_empty());
    assert_eq!(barrier.execute(), vk::STAGE_TRANSFER);

    // Reads after reads need nothing.
    assert!(tracker.update(&vec![(1, index), (2, read)], &Vec::new()).is_none());
    // A write after the reads waits for their stages, but has nothing to make visible.
    let barrier = tracker.update(&vec![(1, write)], &Vec::new()).unwrap();
    assert_eq!(barrier.src_stage, vk::STAGE_VERTEX_INPUT);
    assert_eq!(barrier.dst_stage, vk::STAGE_TRANSFER);
    assert!(barrier.memory_barriers.is_empty());
}

#[test]
fn a_layout_transition_always_needs_a_barrier() {
    let mut tracker = PipelineTracker::new();
    let transition = ImageLayoutTransition {
        old: vk::LAYOUT_UNDEFINED,
        new: vk::LAYOUT_SHADER_READ_ONLY_OPTIMAL,
        aspect_mask: vk::ASPECT_COLOR,
        mip_count: 4,
    };
    let sampled = ResourceUsage {
        used: vk::STAGE_FRAGMENT_SHADER,
        access: vk::ACCESS_SHADER_READ,
        layout_transition: Some(transition),
    };
    let barrier = tracker.update(&Vec::new(), &vec![(9, 2, sampled)]).unwrap();
    assert_eq!(barrier.src_stage, 0);
    // Nothing came before: the barrier starts at the top of the pipeline.
    assert_eq!(barrier.execute(), vk::STAGE_TOP_OF_PIPE);
    assert_eq!(barrier.dst_stage, vk::STAGE_FRAGMENT_SHADER);
    assert!(barrier.memory_barriers.is_empty());
    assert_eq!(barrier.image_barriers.len(), 1);
    let image = &barrier.image_barriers[0];
    assert_eq!(image.image, 9);
    assert_eq!((image.base_array_layer, image.layer_count), (2, 1));
    assert_eq!((image.base_mip_level, image.level_count), (0, 4));
    assert_eq!(image.src_access_mask, vk::ACCESS_NONE);
    assert_eq!(image.dst_access_mask, vk::ACCESS_SHADER_READ);
    assert_eq!((image.old_layout, image.new_layout), (0, vk::LAYOUT_SHADER_READ_ONLY_OPTIMAL));

    // The same element again, without a transition: a read after a read.
    let read = usage(vk::STAGE_VERTEX_SHADER, vk::ACCESS_SHADER_READ);
    assert!(tracker.update(&Vec::new(), &vec![(9, 2, read)]).is_none());
    // Another element of the same image is a resource of its own.
    assert!(tracker.update(&Vec::new(), &vec![(9, 3, read)]).is_none());
}

#[test]
fn a_barrier_without_a_source_stage_starts_at_the_top() {
    let barrier = Barrier {
        src_stage: 0,
        dst_stage: vk::STAGE_TRANSFER,
        dependency: DEPENDENCY_BY_REGION,
        memory_barriers: Vec::new(),
        image_barriers: Vec::new(),
    };
    assert_eq!(barrier.execute(), vk::STAGE_TOP_OF_PIPE);
    assert_eq!(DEPENDENCY_BY_REGION, ash::vk::DependencyFlags::BY_REGION.as_raw());
}

#[test]
fn the_resource_state_hands_back_what_it_held() {
    let mut state = ResourceState::new();
    let a = LatestUsage { queue: QueueType::Main, value: 3, layout: vk::LAYOUT_GENERAL };
    let b = LatestUsage { queue: QueueType::Compute, value: 5, layout: vk::LAYOUT_UNDEFINED };
    assert_eq!(state.set_image(1, 0, Some(a)), None);
    assert_eq!(state.set_buffer(1, 0, Some(b)), None);
    assert_eq!(state.set_image(1, 0, Some(b)), Some(a));
    assert_eq!(state.set_image(1, 0, None), Some(b));
    assert_eq!(state.set_image(1, 0, None), None);
    assert_eq!(state.set_buffer(1, 1, None), None);
    assert_eq!(state.set_buffer(1, 0, None), Some(b));
}

#[test]
fn a_layout_is_only_changed_when_it_differs() {
    let usage = LatestUsage { queue: QueueType::Main, value: 3, layout: vk::LAYOUT_GENERAL };
    assert_eq!(usage.needs_layout_transition(vk::ASPECT_COLOR, 2, vk::LAYOUT_GENERAL), None);
    assert_eq!(
        usage.needs_layout_transition(vk::ASPECT_DEPTH, 2, vk::LAYOUT_TRANSFER_DST_OPTIMAL),
        Some(ImageLayoutTransition {
            old: vk::LAYOUT_GENERAL,
            new: vk::LAYOUT_TRANSFER_DST_OPTIMAL,
            aspect_mask: vk::ASPECT_DEPTH,
            mip_count: 2,
        })
    );
}

#[test]
fn another_queue_is_waited_for_at_its_target_value() {
    let main = VkQueue::new(1, QueueType::Main, 0, 101, 11);
    let mut transfer = VkQueue::new(2, QueueType::Transfer, 1, 102, 12);
    let compute = VkQueue::new(3, QueueType::Compute, 2, 103, 13);
    let present = VkQueue::new(4, QueueType::Present, 0, 104, 14);
    transfer.submit(7, SemaphoreTracker::new());
    transfer.submit(8, SemaphoreTracker::new());

    let usage = LatestUsage { queue: QueueType::Transfer, value: 1, layout: 0 };
    let mut tracker = SemaphoreTracker::new();
    usage.wait_if_needed(
        &mut tracker,
        QueueType::Transfer,
        vk::STAGE_TRANSFER,
        &main,
        &transfer,
        &compute,
        &present,
    );
    assert!(tracker.finish().waits.is_empty());

    let mut tracker = SemaphoreTracker::new();
    usage.wait_if_needed(
        &mut tracker,
        QueueType::Main,
        vk::STAGE_VERTEX_INPUT,
        &main,
        &transfer,
        &compute,
        &present,
    );
    assert_eq!(
        tracker.finish().waits,
        vec![(102, WaitInfo { value: Some(2), stage: vk::STAGE_VERTEX_INPUT })]
    );
}
