use pal::backend::{Submission, VulkanBackend};
use pal::buffer::{Buffer, BufferCreateInfo, DeviceLimits};
use pal::command_buffer::{Command, CommandBuffer, CopyBufferToBuffer};
use pal::encode::NativeCommand;
use pal::garbage_collector::TimelineValues;
use pal::queue::VkQueue;
use pal::render_pass::{
    ColorAttachment, ColorAttachmentSource, RenderPass, RenderPassDescriptor, VertexBind,
};
use pal::texture::{Texture, TextureCreateInfo};
use pal::types::{
    BufferUsage, ClearColor, JobStatus, LoadOp, MemoryUsage, QueueType, StoreOp, TextureUsage,
    BUFFER_USAGE_TRANSFER_DST, BUFFER_USAGE_TRANSFER_SRC, BUFFER_USAGE_VERTEX_BUFFER,
    TEXTURE_USAGE_COLOR_ATTACHMENT,
};
use pal::vk;

const MAIN_SEMAPHORE: u64 = 101;
const TRANSFER_SEMAPHORE: u64 = 102;
const PRESENT_SEMAPHORE: u64 = 103;
const COMPUTE_SEMAPHORE: u64 = 104;

fn backend() -> VulkanBackend<u32> {
    VulkanBackend::new(
        VkQueue::new(1, QueueType::Main, 0, MAIN_SEMAPHORE, 11),
        VkQueue::new(2, QueueType::Transfer, 1, TRANSFER_SEMAPHORE, 12),
        VkQueue::new(3, QueueType::Present, 0, PRESENT_SEMAPHORE, 13),
        VkQueue::new(4, QueueType::Compute, 2, COMPUTE_SEMAPHORE, 14),
    )
}

fn limits() -> DeviceLimits {
    DeviceLimits {
        non_coherent_atom_size: 64,
        min_uniform_buffer_offset_alignment: 256,
        min_storage_buffer_offset_alignment: 16,
    }
}

fn buffer(handle: u64, size: u64, usage: u32, memory_usage: MemoryUsage) -> Buffer {
    let info = BufferCreateInfo {
        size,
        array_elements: 1,
        buffer_usage: BufferUsage { bits: usage },
        memory_usage,
        debug_name: None,
    };
    Buffer::new(handle, &info, &limits())
}

fn texture(image: u64, view: u64) -> Texture {
    let mut info = TextureCreateInfo::default();
    info.width = 640;
    info.height = 480;
    info.texture_usage = TextureUsage { bits: TEXTURE_USAGE_COLOR_ATTACHMENT };
    Texture::new(image, vec![view], 640 * 480 * 4, &info)
}

fn zero() -> TimelineValues {
    TimelineValues { main: 0, transfer: 0, compute: 0 }
}

fn copy<'a>(src: &'a Buffer, dst: &'a Buffer, len: u64) -> Command<'a> {
    Command::CopyBufferToBuffer(CopyBufferToBuffer {
        src,
        src_array_element: 0,
        src_offset: 0,
        dst,
        dst_array_element: 0,
        dst_offset: 0,
        len,
    })
}

fn wait_on(submission: &Submission<u32>, semaphore: u64) -> Option<(u64, u32)> {
    let info = &submission.submit;
    for i in 0..info.wait_semaphores.len() {
        if info.wait_semaphores[i] == semaphore {
            return Some((info.wait_values[i], info.wait_stages[i]));
        }
    }
    None
}

fn barriers(submission: &Submission<u32>) -> Vec<&pal::usage::PipelineBarrier> {
    let mut out = Vec::new();
    for command in &submission.commands {
        if let NativeCommand::PipelineBarrier(barrier) = command {
            out.push(barrier);
        }
    }
    out
}

fn color_pass<'a>(texture: &'a Texture, load_op: LoadOp) -> RenderPassDescriptor<'a> {
    RenderPassDescriptor {
        color_attachments: vec![ColorAttachment {
            source: ColorAttachmentSource::Texture { texture, array_element: 0, mip_level: 0 },
            load_op,
            store_op: StoreOp::Store,
        }],
        depth_stencil_attachment: None,
    }
}

#[test]
fn staging_upload_waits_on_transfer_at_transfer_stage() {
    let mut backend = backend();
    let a = buffer(1000, 16, BUFFER_USAGE_TRANSFER_SRC, MemoryUsage::CpuToGpu);
    let b = buffer(
        1001,
        16,
        BUFFER_USAGE_TRANSFER_DST | BUFFER_USAGE_TRANSFER_SRC,
        MemoryUsage::GpuOnly,
    );
    let c = buffer(1002, 16, BUFFER_USAGE_TRANSFER_DST, MemoryUsage::GpuToCpu);

    // The host writes its bytes into the first element of the staging buffer.
    assert_eq!(a.map(0).unwrap(), (0, 16));
    assert!(b.map(0).is_err());

    let upload = vec![copy(&a, &b, 16)];
    assert!(VulkanBackend::<u32>::validate(QueueType::Transfer, &upload));
    let first = backend.submit_commands(QueueType::Transfer, 500, &upload, Vec::new(), zero());
    assert_eq!(first.job.ty, QueueType::Transfer);
    assert_eq!(first.job.target_value, 1);
    assert_eq!(first.job.poll_status(0), JobStatus::Running);
    assert_eq!(first.job.wait_on(1), JobStatus::Complete);
    assert_eq!(backend.poll_status(&first.job, 1), JobStatus::Complete);
    assert_eq!(
        first.commands.len(),
        1,
        "a first use needs no barrier: {:?}",
        first.commands
    );
    match &first.commands[0] {
        NativeCommand::CopyBuffer { src, dst, src_offset, dst_offset, size } => {
            assert_eq!((*src, *dst, *src_offset, *dst_offset, *size), (1000, 1001, 0, 0, 16));
        }
        other => panic!("unexpected command {:?}", other),
    }

    let readback = vec![copy(&b, &c, 16)];
    let second = backend.submit_commands(QueueType::Main, 501, &readback, Vec::new(), zero());
    assert_eq!(second.job.target_value, 1);
    assert_eq!(wait_on(&second, TRANSFER_SEMAPHORE), Some((1, vk::STAGE_TRANSFER)));
    // The queue also waits for its own earlier work and signals its next value.
    assert_eq!(wait_on(&second, MAIN_SEMAPHORE), Some((0, vk::STAGE_TOP_OF_PIPE)));
    assert_eq!(second.submit.signal_semaphores, vec![MAIN_SEMAPHORE]);
    assert_eq!(second.submit.signal_values, vec![1]);
    assert_eq!(second.submit.command_buffer, 501);
}

#[test]
fn layout_transition_at_first_draw() {
    let mut backend = backend();
    let t = texture(2000, 2001);
    let mut cb = CommandBuffer::new(QueueType::Main);
    cb.render_pass(
        color_pass(&t, LoadOp::Clear(ClearColor::RgbaF32(0, 0, 0, 0x3f80_0000))),
        RenderPass::new(),
    );
    let submission = backend.submit_commands(QueueType::Main, 1, &cb.commands, Vec::new(), zero());

    let found = barriers(&submission);
    assert_eq!(found.len(), 1);
    let barrier = found[0];
    assert_eq!(barrier.src_stage, vk::STAGE_TOP_OF_PIPE);
    assert_eq!(barrier.dst_stage, vk::STAGE_COLOR_ATTACHMENT_OUTPUT);
    assert_eq!(barrier.dependency, ash::vk::DependencyFlags::BY_REGION.as_raw());
    assert!(barrier.buffer_barriers.is_empty());
    assert_eq!(barrier.image_barriers.len(), 1);
    let image = &barrier.image_barriers[0];
    assert_eq!(image.src_access_mask, vk::ACCESS_NONE);
    assert_eq!(
        image.dst_access_mask,
        vk::ACCESS_COLOR_ATTACHMENT_WRITE | vk::ACCESS_COLOR_ATTACHMENT_READ
    );
    assert_eq!(image.old_layout, vk::LAYOUT_UNDEFINED);
    assert_eq!(image.new_layout, vk::LAYOUT_COLOR_ATTACHMENT_OPTIMAL);
    assert_eq!(image.image, 2000);
    assert_eq!(image.aspect_mask, vk::ASPECT_COLOR);
    assert_eq!((image.base_mip_level, image.level_count), (0, 1));
    assert_eq!((image.base_array_layer, image.layer_count), (0, 1));
    assert_eq!(image.src_queue_family_index, vk::QUEUE_FAMILY_IGNORED);
    assert_eq!(image.dst_queue_family_index, vk::QUEUE_FAMILY_IGNORED);

    // The barrier comes before the pass begins.
    assert!(matches!(submission.commands[0], NativeCommand::PipelineBarrier(_)));
    assert!(matches!(
        submission.commands[1],
        NativeCommand::SetViewport { width: 640, height: 480 }
    ));
    assert!(matches!(
        submission.commands[2],
        NativeCommand::SetScissor { width: 640, height: 480 }
    ));
    match &submission.commands[3] {
        NativeCommand::BeginRenderPass { pass, attachments, views, width, height, clear_values } => {
            assert_eq!(views, &vec![2001]);
            assert_eq!((*width, *height), (640, 480));
            assert_eq!(clear_values, &vec![ClearColor::RgbaF32(0, 0, 0, 0x3f80_0000)]);
            assert_eq!(pass.color_attachments.len(), 1);
            assert_eq!(pass.color_attachments[0].image_format, 37);
            assert_eq!(attachments.len(), 1);
            assert_eq!(attachments[0].initial_layout, vk::LAYOUT_UNDEFINED);
            assert_eq!(attachments[0].final_layout, vk::LAYOUT_COLOR_ATTACHMENT_OPTIMAL);
        }
        other => panic!("unexpected command {:?}", other),
    }
    assert!(matches!(submission.commands[4], NativeCommand::EndRenderPass));
    assert_eq!(submission.commands.len(), 5);
}

#[test]
fn a_layout_is_changed_once() {
    let mut backend = backend();
    let t = texture(2000, 2001);
    let first = vec![Command::BeginRenderPass(color_pass(&t, LoadOp::DontCare)), Command::EndRenderPass];
    let one = backend.submit_commands(QueueType::Main, 1, &first, Vec::new(), zero());
    assert_eq!(barriers(&one)[0].image_barriers[0].new_layout, vk::LAYOUT_COLOR_ATTACHMENT_OPTIMAL);

    // The next submission finds the image in the layout it needs.
    let second = vec![Command::BeginRenderPass(color_pass(&t, LoadOp::Load)), Command::EndRenderPass];
    let two = backend.submit_commands(QueueType::Main, 2, &second, Vec::new(), zero());
    assert!(barriers(&two).is_empty());
}

#[test]
fn read_after_read_elision() {
    let mut backend = backend();
    let t = texture(2000, 2001);
    let v = buffer(3000, 64, BUFFER_USAGE_VERTEX_BUFFER, MemoryUsage::GpuOnly);
    let mut pass = RenderPass::new();
    pass.bind_vertex_buffers(0, vec![VertexBind { buffer: &v, array_element: 0, offset: 0 }]);
    pass.draw(3, 1, 0, 0);
    pass.bind_vertex_buffers(0, vec![VertexBind { buffer: &v, array_element: 0, offset: 0 }]);
    pass.draw(3, 1, 0, 0);
    let mut cb = CommandBuffer::new(QueueType::Main);
    cb.render_pass(color_pass(&t, LoadOp::DontCare), pass);
    // A second pass reads the vertex buffer again.
    let mut again = RenderPass::new();
    again.bind_vertex_buffers(0, vec![VertexBind { buffer: &v, array_element: 0, offset: 0 }]);
    again.draw(3, 1, 0, 0);
    cb.render_pass(color_pass(&t, LoadOp::Load), again);

    let submission = backend.submit_commands(QueueType::Main, 1, &cb.commands, Vec::new(), zero());
    for barrier in barriers(&submission) {
        assert!(barrier.buffer_barriers.is_empty());
    }
    // Between the beginning and the end of a pass nothing but the pass's own commands is recorded.
    let mut inside = false;
    let mut draws = 0;
    for command in &submission.commands {
        match command {
            NativeCommand::BeginRenderPass { .. } => inside = true,
            NativeCommand::EndRenderPass => inside = false,
            NativeCommand::PipelineBarrier(_) => assert!(!inside),
            NativeCommand::Draw { vertex_count: 3, instance_count: 1, .. } => draws += 1,
            _ => {}
        }
    }
    assert_eq!(draws, 3);
}

#[test]
fn cross_queue_hand_off() {
    let mut backend = backend();
    let staging = buffer(1000, 64, BUFFER_USAGE_TRANSFER_SRC, MemoryUsage::CpuToGpu);
    let b = buffer(
        1001,
        64,
        BUFFER_USAGE_TRANSFER_DST | BUFFER_USAGE_VERTEX_BUFFER,
        MemoryUsage::GpuOnly,
    );
    let t = texture(2000, 2001);

    // Two transfers, so that the value waited for is not just 1.
    let upload = vec![copy(&staging, &b, 64)];
    backend.submit_commands(QueueType::Transfer, 1, &upload, Vec::new(), zero());
    let t1 = backend.submit_commands(QueueType::Transfer, 2, &upload, Vec::new(), zero()).job;
    assert_eq!(t1.target_value, 2);

    let mut pass = RenderPass::new();
    pass.bind_vertex_buffers(0, vec![VertexBind { buffer: &b, array_element: 0, offset: 0 }]);
    pass.draw(3, 1, 0, 0);
    let mut cb = CommandBuffer::new(QueueType::Main);
    cb.render_pass(color_pass(&t, LoadOp::DontCare), pass);
    let draw = backend.submit_commands(QueueType::Main, 3, &cb.commands, Vec::new(), zero());

    assert_eq!(
        wait_on(&draw, TRANSFER_SEMAPHORE),
        Some((t1.target_value, vk::STAGE_VERTEX_INPUT))
    );
    assert_eq!(wait_on(&draw, COMPUTE_SEMAPHORE), None);
}

#[test]
fn a_wait_takes_the_earliest_stage_and_the_target_value() {
    let mut backend = backend();
    let staging = buffer(1000, 64, BUFFER_USAGE_TRANSFER_SRC, MemoryUsage::CpuToGpu);
    let b = buffer(1001, 64, BUFFER_USAGE_TRANSFER_DST, MemoryUsage::GpuOnly);
    let c = buffer(1002, 64, BUFFER_USAGE_TRANSFER_DST, MemoryUsage::GpuOnly);
    let d = buffer(1003, 64, BUFFER_USAGE_TRANSFER_DST, MemoryUsage::GpuOnly);
    let t = texture(2000, 2001);

    backend.submit_commands(QueueType::Transfer, 1, &vec![copy(&staging, &b, 64)], Vec::new(), zero());
    backend.submit_commands(QueueType::Transfer, 2, &vec![copy(&staging, &c, 64)], Vec::new(), zero());

    // Main copies out of `c` (transfer stage), then reads `b` as vertices (vertex input).
    let mut pass = RenderPass::new();
    pass.bind_vertex_buffers(0, vec![VertexBind { buffer: &b, array_element: 0, offset: 0 }]);
    let mut cb = CommandBuffer::new(QueueType::Main);
    cb.copy_buffer_to_buffer(CopyBufferToBuffer {
        src: &c,
        src_array_element: 0,
        src_offset: 0,
        dst: &d,
        dst_array_element: 0,
        dst_offset: 0,
        len: 64,
    });
    cb.render_pass(color_pass(&t, LoadOp::DontCare), pass);
    let out = backend.submit_commands(QueueType::Main, 3, &cb.commands, Vec::new(), zero());

    // `b` was last used at value 1, but the wait is for the queue's target value 2; the stage
    // is the earlier of transfer and vertex input.
    assert_eq!(wait_on(&out, TRANSFER_SEMAPHORE), Some((2, vk::STAGE_VERTEX_INPUT)));
}

#[test]
fn the_target_value_goes_up_with_every_submission() {
    let mut backend = backend();
    let mut last = backend.queue(QueueType::Compute).target_timeline_value();
    assert_eq!(last, 0);
    for cb in 0..5 {
        let job = backend
            .submit_commands(QueueType::Compute, cb, &Vec::new(), Vec::new(), zero())
            .job;
        let now = backend.queue(QueueType::Compute).target_timeline_value();
        assert!(now > last);
        assert_eq!(job.target_value, now);
        assert_eq!(backend.queue(QueueType::Main).target_timeline_value(), 0);
        last = now;
    }
    assert_eq!(last, 5);
}

#[test]
fn command_buffers_are_recycled_in_order() {
    let mut backend = backend();
    backend.submit_commands(QueueType::Main, 70, &Vec::new(), Vec::new(), zero());
    backend.submit_commands(QueueType::Main, 71, &Vec::new(), Vec::new(), zero());
    // Nothing is done yet.
    assert_eq!(backend.allocate_command_buffer(QueueType::Main, 0), None);
    // The first submission is done.
    assert_eq!(backend.allocate_command_buffer(QueueType::Main, 1), Some(70));
    assert_eq!(backend.allocate_command_buffer(QueueType::Main, 1), None);
    assert_eq!(backend.allocate_command_buffer(QueueType::Main, 2), Some(71));
    assert_eq!(backend.allocate_command_buffer(QueueType::Main, 9), None);
    assert_eq!(backend.allocate_command_buffer(QueueType::Transfer, 9), None);
}

#[test]
fn commands_for_the_wrong_queue_are_not_valid() {
    let a = buffer(1000, 16, BUFFER_USAGE_TRANSFER_SRC, MemoryUsage::CpuToGpu);
    let b = buffer(1001, 16, BUFFER_USAGE_TRANSFER_DST, MemoryUsage::GpuOnly);
    let t = texture(2000, 2001);
    let copies = vec![copy(&a, &b, 16)];
    assert!(VulkanBackend::<u32>::validate(QueueType::Main, &copies));
    assert!(VulkanBackend::<u32>::validate(QueueType::Transfer, &copies));
    assert!(!VulkanBackend::<u32>::validate(QueueType::Compute, &copies));
    assert!(!VulkanBackend::<u32>::validate(QueueType::Present, &copies));

    let pass = vec![Command::BeginRenderPass(color_pass(&t, LoadOp::Load)), Command::EndRenderPass];
    assert!(VulkanBackend::<u32>::validate(QueueType::Main, &pass));
    assert!(!VulkanBackend::<u32>::validate(QueueType::Transfer, &pass));

    let compute = vec![Command::BeginComputePass, Command::Dispatch(1, 1, 1), Command::EndComputePass];
    assert!(VulkanBackend::<u32>::validate(QueueType::Main, &compute));
    assert!(VulkanBackend::<u32>::validate(QueueType::Compute, &compute));
    assert!(!VulkanBackend::<u32>::validate(QueueType::Transfer, &compute));
}

#[test]
fn a_color_pass_cleared_with_depth_is_not_valid() {
    let t = texture(2000, 2001);
    let pass = vec![
        Command::BeginRenderPass(color_pass(&t, LoadOp::Clear(ClearColor::D32S32(0, 0)))),
        Command::EndRenderPass,
    ];
    assert!(!VulkanBackend::<u32>::validate(QueueType::Main, &pass));
    let missing_view = vec![
        Command::BeginRenderPass(RenderPassDescriptor {
            color_attachments: vec![ColorAttachment {
                source: ColorAttachmentSource::Texture { texture: &t, array_element: 0, mip_level: 1 },
                load_op: LoadOp::Load,
                store_op: StoreOp::DontCare,
            }],
            depth_stencil_attachment: None,
        }),
        Command::EndRenderPass,
    ];
    assert!(!VulkanBackend::<u32>::validate(QueueType::Main, &missing_view));
}

#[test]
fn an_offset_that_does_not_fit_is_not_valid() {
    let a = buffer(1000, 16, BUFFER_USAGE_TRANSFER_SRC, MemoryUsage::GpuOnly);
    let b = buffer(1001, 16, BUFFER_USAGE_TRANSFER_DST, MemoryUsage::GpuOnly);
    let commands = vec![Command::CopyBufferToBuffer(CopyBufferToBuffer {
        src: &a,
        src_array_element: 1,
        src_offset: u64::MAX - 3,
        dst: &b,
        dst_array_element: 0,
        dst_offset: 0,
        len: 1,
    })];
    assert!(!VulkanBackend::<u32>::validate(QueueType::Main, &commands));
}

#[test]
fn vertex_and_index_offsets_count_whole_elements() {
    let mut backend = backend();
    let info = BufferCreateInfo {
        size: 100,
        array_elements: 4,
        buffer_usage: BufferUsage { bits: pal::types::BUFFER_USAGE_UNIFORM_BUFFER },
        memory_usage: MemoryUsage::GpuOnly,
        debug_name: None,
    };
    // 100 bytes rounded up to the uniform alignment of 256.
    let v = Buffer::new(3000, &info, &limits());
    assert_eq!(v.aligned_size, 256);
    let commands = vec![
        Command::BindVertexBuffers {
            first: 1,
            binds: vec![
                VertexBind { buffer: &v, array_element: 2, offset: 12 },
                VertexBind { buffer: &v, array_element: 0, offset: 4 },
            ],
        },
        Command::BindIndexBuffer {
            buffer: &v,
            array_element: 3,
            offset: 8,
            ty: pal::types::IndexType::U32,
        },
        Command::DrawIndexed {
            index_count: 6,
            instance_count: 1,
            first_index: 0,
            vertex_offset: -2,
            first_instance: 0,
        },
    ];
    let out = backend.submit_commands(QueueType::Main, 1, &commands, Vec::new(), zero());
    match &out.commands[0] {
        NativeCommand::BindVertexBuffers { first, buffers, offsets } => {
            assert_eq!(*first, 1);
            assert_eq!(buffers, &vec![3000, 3000]);
            assert_eq!(offsets, &vec![2 * 256 + 12, 4]);
        }
        other => panic!("unexpected command {:?}", other),
    }
    match &out.commands[1] {
        NativeCommand::BindIndexBuffer { buffer, offset, index_type } => {
            assert_eq!((*buffer, *offset, *index_type), (3000, 3 * 256 + 8, 1));
        }
        other => panic!("unexpected command {:?}", other),
    }
    match &out.commands[2] {
        NativeCommand::DrawIndexed { index_count, vertex_offset, .. } => {
            assert_eq!((*index_count, *vertex_offset), (6, -2));
        }
        other => panic!("unexpected command {:?}", other),
    }
}
