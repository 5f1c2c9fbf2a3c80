use pal::backend::VulkanBackend;
use pal::buffer::{Buffer, BufferCreateInfo, DeviceLimits};
use pal::command_buffer::{BufferTextureCopy, Command, CommandBuffer};
use pal::compute_pass::ComputePass;
use pal::compute_pipeline::{ComputePipeline, ComputePipelineCreateInfo};
use pal::descriptor_set::{
    DescriptorBinding, DescriptorSet, DescriptorSetCreateInfo, DescriptorSetLayout,
    DescriptorSetLayoutCreateInfo, DescriptorSetUpdate, DescriptorType, DescriptorValue,
};
use pal::encode::NativeCommand;
use pal::garbage_collector::TimelineValues;
use pal::graphics_pipeline::GraphicsPipeline;
use pal::queue::VkQueue;
use pal::render_pass::{
    ColorAttachment, ColorAttachmentSource, DepthStencilAttachment, RenderPass, RenderPassDescriptor,
};
use pal::shader::Shader;
use pal::surface::{Surface, SurfaceFormat, SurfaceImageSemaphores, SwapchainPlan};
use pal::texture::{Texture, TextureCreateInfo};
use pal::tracking::{scope_of_command, track_dispatch, track_render_pass};
use pal::types::{
    AccessType, BufferUsage, ClearColor, LoadOp, MemoryUsage, QueueType, ShaderStage, StoreOp,
};
use pal::usage::{
    GlobalResourceUsage, PipelineTracker, QueueUsage, SubResource, SubResourceUsage, UsageScope,
};
use pal::vk;

fn backend() -> VulkanBackend<u32> {
    VulkanBackend::new(
        VkQueue::new(1, QueueType::Main, 0, 101, 11),
        VkQueue::new(2, QueueType::Transfer, 1, 102, 12),
        VkQueue::new(3, QueueType::Present, 0, 103, 13),
        VkQueue::new(4, QueueType::Compute, 2, 104, 14),
    )
}

fn zero() -> TimelineValues {
    TimelineValues { main: 0, transfer: 0, compute: 0 }
}

fn buffer(handle: u64, elements: usize) -> Buffer {
    let info = BufferCreateInfo {
        size: 64,
        array_elements: elements,
        buffer_usage: BufferUsage { bits: 0 },
        memory_usage: MemoryUsage::GpuOnly,
        debug_name: None,
    };
    let limits = DeviceLimits {
        non_coherent_atom_size: 1,
        min_uniform_buffer_offset_alignment: 1,
        min_storage_buffer_offset_alignment: 1,
    };
    Buffer::new(handle, &info, &limits)
}

fn texture(image: u64, mips: usize) -> Texture {
    let mut info = TextureCreateInfo::default();
    info.mip_levels = mips;
    Texture::new(image, (0..mips as u64).map(|m| image * 10 + m).collect(), 1024, &info)
}

fn layout(count: usize, ty: DescriptorType, stage: ShaderStage) -> DescriptorSetLayout {
    DescriptorSetLayout::new(
        60,
        DescriptorSetLayoutCreateInfo {
            bindings: vec![DescriptorBinding { binding: 0, ty, count, stage }],
        },
    )
}

fn set_with_buffer<'a>(handle: u64, layout: &DescriptorSetLayout, buffer: &'a Buffer) -> DescriptorSet {
    let mut set = DescriptorSet::new(handle, &DescriptorSetCreateInfo { layout, debug_name: None });
    set.update(
        layout,
        &vec![DescriptorSetUpdate {
            binding: 0,
            array_element: 0,
            value: DescriptorValue::StorageBuffer { buffer, array_element: 0 },
        }],
    );
    set
}

fn buffer_use(handle: u64, access: u32, stage: u32) -> (SubResource, SubResourceUsage) {
    (
        SubResource::Buffer { buffer: handle, array_elem: 0 },
        SubResourceUsage { access, stage, layout: vk::LAYOUT_UNDEFINED },
    )
}

fn pipeline(slots: usize) -> ComputePipeline {
    let layouts = (0..slots)
        .map(|_| layout(1, DescriptorType::StorageBuffer(AccessType::ReadWrite), ShaderStage::Compute))
        .collect();
    ComputePipeline::new(
        30,
        31,
        ComputePipelineCreateInfo {
            layouts,
            module: Shader::new(1),
            work_group_size: (1, 1, 1),
            debug_name: None,
        },
    )
}

#[test]
fn uses_of_one_sub_resource_in_a_scope_are_combined() {
    let mut scope = UsageScope::new();
    let r = SubResource::Texture { texture: 5, aspect_mask: vk::ASPECT_COLOR, array_elem: 0, mip_level: 0 };
    scope.use_resource(
        r,
        SubResourceUsage {
            access: vk::ACCESS_SHADER_READ,
            stage: vk::STAGE_VERTEX_SHADER,
            layout: vk::LAYOUT_UNDEFINED,
        },
    );
    let shader_read = SubResourceUsage {
        access: vk::ACCESS_UNIFORM_READ,
        stage: vk::STAGE_FRAGMENT_SHADER,
        layout: vk::LAYOUT_SHADER_READ_ONLY_OPTIMAL,
    };
    assert!(scope.try_use_resource(r, shader_read));
    assert_eq!(scope.len(), 1);
    assert_eq!(
        scope.entry(0),
        (
            r,
            SubResourceUsage {
                access: vk::ACCESS_SHADER_READ | vk::ACCESS_UNIFORM_READ,
                stage: vk::STAGE_VERTEX_SHADER | vk::STAGE_FRAGMENT_SHADER,
                layout: vk::LAYOUT_SHADER_READ_ONLY_OPTIMAL,
            }
        )
    );
    // A second defined layout for the same sub-resource is refused, and nothing changes.
    let attachment = SubResourceUsage {
        access: vk::ACCESS_COLOR_ATTACHMENT_WRITE,
        stage: vk::STAGE_COLOR_ATTACHMENT_OUTPUT,
        layout: vk::LAYOUT_COLOR_ATTACHMENT_OPTIMAL,
    };
    assert!(!scope.try_use_resource(r, attachment));
    assert_eq!(scope.entry(0).1.layout, vk::LAYOUT_SHADER_READ_ONLY_OPTIMAL);
    assert_eq!(scope.entry(0).1.stage, vk::STAGE_VERTEX_SHADER | vk::STAGE_FRAGMENT_SHADER);
}

#[test]
fn the_registry_hands_back_what_it_held() {
    let mut registry = GlobalResourceUsage::new();
    let main = QueueUsage { queue: QueueType::Main, timeline_value: 3 };
    let transfer = QueueUsage { queue: QueueType::Transfer, timeline_value: 8 };
    assert_eq!(registry.register_buffer(1, 0, Some(main)), None);
    assert_eq!(registry.register_buffer(1, 1, Some(transfer)), None);
    assert_eq!(registry.register_buffer(1, 0, Some(transfer)), Some(main));
    assert_eq!(registry.register_buffer(1, 0, None), Some(transfer));
    assert_eq!(registry.register_buffer(1, 0, None), None);
    assert_eq!(registry.register_image(1, 0, Some(main)), None);
    assert_eq!(registry.register_image(1, 0, None), Some(main));
    assert_eq!(registry.register_set(4, Some(main)), None);
    assert_eq!(registry.register_set(4, None), Some(main));
    assert_eq!(registry.register_layout(1, 0, 2, vk::LAYOUT_GENERAL), vk::LAYOUT_UNDEFINED);
    assert_eq!(registry.register_layout(1, 0, 2, vk::LAYOUT_TRANSFER_SRC_OPTIMAL), vk::LAYOUT_GENERAL);
    assert_eq!(registry.register_layout(1, 0, 3, vk::LAYOUT_GENERAL), vk::LAYOUT_UNDEFINED);
}

#[test]
fn a_write_after_a_read_needs_a_barrier() {
    let mut global = GlobalResourceUsage::new();
    let mut tracker = PipelineTracker::new(QueueType::Main, 1);
    let (r, read) = buffer_use(7, vk::ACCESS_TRANSFER_READ, vk::STAGE_TRANSFER);
    let (_, write) = buffer_use(7, vk::ACCESS_SHADER_WRITE, vk::STAGE_COMPUTE_SHADER);

    let mut first = UsageScope::new();
    first.use_resource(r, read);
    assert!(tracker.submit(&mut global, &first).is_none());
    // A read after a read needs none.
    let mut second = UsageScope::new();
    second.use_resource(r, SubResourceUsage { access: vk::ACCESS_UNIFORM_READ, ..read });
    assert!(tracker.submit(&mut global, &second).is_none());

    let mut third = UsageScope::new();
    third.use_resource(r, write);
    let barrier = tracker.submit(&mut global, &third).unwrap();
    assert_eq!(barrier.src_stage, vk::STAGE_TRANSFER);
    assert_eq!(barrier.dst_stage, vk::STAGE_COMPUTE_SHADER);
    assert!(barrier.image_barriers.is_empty());
    assert_eq!(barrier.buffer_barriers.len(), 1);
    let b = &barrier.buffer_barriers[0];
    assert_eq!(b.src_access_mask, vk::ACCESS_UNIFORM_READ);
    assert_eq!(b.dst_access_mask, vk::ACCESS_SHADER_WRITE);
    assert_eq!((b.buffer, b.offset, b.size), (7, 0, vk::WHOLE_SIZE));

    // A read after the write needs one as well.
    let mut fourth = UsageScope::new();
    fourth.use_resource(r, read);
    let barrier = tracker.submit(&mut global, &fourth).unwrap();
    assert_eq!(barrier.buffer_barriers[0].src_access_mask, vk::ACCESS_SHADER_WRITE);
    assert!(tracker.wait_queues().is_empty());
}

#[test]
fn a_tracker_notes_the_queues_to_wait_for() {
    let mut global = GlobalResourceUsage::new();
    global.register_buffer(1, 0, Some(QueueUsage { queue: QueueType::Transfer, timeline_value: 4 }));
    global.register_buffer(2, 0, Some(QueueUsage { queue: QueueType::Compute, timeline_value: 2 }));
    global.register_buffer(3, 0, Some(QueueUsage { queue: QueueType::Transfer, timeline_value: 1 }));
    global.register_buffer(4, 0, Some(QueueUsage { queue: QueueType::Main, timeline_value: 6 }));
    let mut tracker = PipelineTracker::new(QueueType::Main, 7);
    let mut scope = UsageScope::new();
    for (handle, stage) in [
        (1, vk::STAGE_FRAGMENT_SHADER),
        (2, vk::STAGE_COMPUTE_SHADER | vk::STAGE_TRANSFER),
        (3, vk::STAGE_VERTEX_SHADER),
        (4, vk::STAGE_TOP_OF_PIPE),
    ] {
        let (r, u) = buffer_use(handle, vk::ACCESS_SHADER_READ, stage);
        scope.use_resource(r, u);
    }
    assert!(tracker.submit(&mut global, &scope).is_none());
    assert_eq!(
        tracker.wait_queues(),
        vec![
            (QueueType::Transfer, vk::STAGE_VERTEX_SHADER),
            (QueueType::Compute, vk::STAGE_TRANSFER),
        ]
    );
    // The registry now names this submission.
    assert_eq!(
        global.register_buffer(1, 0, None),
        Some(QueueUsage { queue: QueueType::Main, timeline_value: 7 })
    );
}

#[test]
fn a_render_pass_uses_what_is_bound_up_to_its_end() {
    let color = texture(5, 1);
    let depth = texture(6, 1);
    let vertices = buffer(1, 2);
    let indices = buffer(2, 1);
    let storage = buffer(3, 1);
    let later = buffer(4, 1);
    let l = layout(1, DescriptorType::StorageBuffer(AccessType::Read), ShaderStage::Fragment);
    let set = set_with_buffer(70, &l, &storage);
    let descriptor = || RenderPassDescriptor {
        color_attachments: vec![ColorAttachment {
            source: ColorAttachmentSource::Texture { texture: &color, array_element: 0, mip_level: 0 },
            load_op: LoadOp::Load,
            store_op: StoreOp::Store,
        }],
        depth_stencil_attachment: Some(DepthStencilAttachment {
            texture: &depth,
            array_element: 0,
            mip_level: 0,
            load_op: LoadOp::Clear(ClearColor::D32S32(0x3f80_0000, 0)),
            store_op: StoreOp::DontCare,
        }),
    };
    let mut pass = RenderPass::new();
    pass.bind_pipeline(GraphicsPipeline { id: 1, layout: 2 });
    pass.bind_vertex_buffers(
        0,
        vec![pal::render_pass::VertexBind { buffer: &vertices, array_element: 1, offset: 0 }],
    );
    pass.bind_index_buffer(&indices, 0, 0, pal::types::IndexType::U16);
    pass.bind_sets(0, vec![&set]);
    pass.draw_indexed(3, 1, 0, 0, 0);
    let mut cb = CommandBuffer::new(QueueType::Main);
    cb.render_pass(descriptor(), pass);
    // What is bound after the end of the pass is not used by it.
    cb.commands.push(Command::BindIndexBuffer {
        buffer: &later,
        array_element: 0,
        offset: 0,
        ty: pal::types::IndexType::U16,
    });

    let uses = track_render_pass(&cb.commands, 0, &descriptor());
    let color_use = SubResourceUsage {
        access: vk::ACCESS_COLOR_ATTACHMENT_WRITE | vk::ACCESS_COLOR_ATTACHMENT_READ,
        stage: vk::STAGE_COLOR_ATTACHMENT_OUTPUT,
        layout: vk::LAYOUT_COLOR_ATTACHMENT_OPTIMAL,
    };
    let depth_use = SubResourceUsage {
        access: vk::ACCESS_DEPTH_STENCIL_ATTACHMENT_READ | vk::ACCESS_DEPTH_STENCIL_ATTACHMENT_WRITE,
        stage: vk::STAGE_EARLY_FRAGMENT_TESTS | vk::STAGE_LATE_FRAGMENT_TESTS,
        layout: vk::LAYOUT_DEPTH_STENCIL_ATTACHMENT_OPTIMAL,
    };
    assert_eq!(
        uses,
        vec![
            (
                SubResource::Texture { texture: 5, aspect_mask: 1, array_elem: 0, mip_level: 0 },
                color_use
            ),
            (
                SubResource::Texture { texture: 6, aspect_mask: 1, array_elem: 0, mip_level: 0 },
                depth_use
            ),
            (
                SubResource::Buffer { buffer: 1, array_elem: 1 },
                SubResourceUsage {
                    access: vk::ACCESS_VERTEX_ATTRIBUTE_READ,
                    stage: vk::STAGE_VERTEX_INPUT,
                    layout: vk::LAYOUT_UNDEFINED,
                }
            ),
            buffer_use(2, vk::ACCESS_INDEX_READ, vk::STAGE_VERTEX_INPUT),
            buffer_use(3, vk::ACCESS_SHADER_READ, vk::STAGE_FRAGMENT_SHADER),
        ]
    );
    // Only the beginning of a pass has a scope.
    assert_eq!(scope_of_command(&cb.commands, 0).unwrap().len(), 5);
    assert_eq!(scope_of_command(&cb.commands, 3).unwrap().len(), 0);
    assert_eq!(scope_of_command(&cb.commands, 7).unwrap().len(), 0);
}

#[test]
fn a_bound_texture_is_used_mip_level_by_mip_level() {
    let mut backend = backend();
    let t = texture(5, 3);
    let target = texture(6, 1);
    let l = layout(1, DescriptorType::Texture, ShaderStage::Fragment);
    let mut set = DescriptorSet::new(70, &DescriptorSetCreateInfo { layout: &l, debug_name: None });
    set.update(
        &l,
        &vec![DescriptorSetUpdate {
            binding: 0,
            array_element: 0,
            value: DescriptorValue::Texture { texture: &t, array_element: 0, view: 90, sampler: 91 },
        }],
    );
    let mut pass = RenderPass::new();
    pass.bind_sets(0, vec![&set]);
    pass.draw(3, 1, 0, 0);
    let mut cb = CommandBuffer::new(QueueType::Main);
    cb.render_pass(
        RenderPassDescriptor {
            color_attachments: vec![ColorAttachment {
                source: ColorAttachmentSource::Texture { texture: &target, array_element: 0, mip_level: 0 },
                load_op: LoadOp::DontCare,
                store_op: StoreOp::Store,
            }],
            depth_stencil_attachment: None,
        },
        pass,
    );
    let out = backend.submit_commands(QueueType::Main, 1, &cb.commands, Vec::new(), zero());
    let barrier = match &out.commands[0] {
        NativeCommand::PipelineBarrier(b) => b,
        other => panic!("unexpected command {:?}", other),
    };
    // The attachment and the three mip levels of the sampled texture change their layouts.
    assert_eq!(barrier.image_barriers.len(), 4);
    for (i, b) in barrier.image_barriers[1..].iter().enumerate() {
        assert_eq!(b.image, 5);
        assert_eq!(b.base_mip_level, i as u32);
        assert_eq!(b.old_layout, vk::LAYOUT_UNDEFINED);
        assert_eq!(b.new_layout, vk::LAYOUT_SHADER_READ_ONLY_OPTIMAL);
        assert_eq!(b.dst_access_mask, vk::ACCESS_SHADER_READ);
    }
    assert_eq!(barrier.dst_stage, vk::STAGE_COLOR_ATTACHMENT_OUTPUT | vk::STAGE_FRAGMENT_SHADER);
    match &out.commands[4] {
        NativeCommand::BindDescriptorSets { compute, layout, first, sets } => {
            assert_eq!((*compute, *layout, *first), (false, 0, 0));
            assert_eq!(sets, &vec![70]);
        }
        other => panic!("unexpected command {:?}", other),
    }
    // The set is now in use: an update has to wait for this submission.
    assert_eq!(
        backend.begin_descriptor_update(70),
        Some(QueueUsage { queue: QueueType::Main, timeline_value: 1 })
    );
    assert_eq!(backend.begin_descriptor_update(70), None);
}

#[test]
fn a_sub_resource_in_two_layouts_in_one_pass_is_not_valid() {
    let t = texture(5, 1);
    let l = layout(1, DescriptorType::Texture, ShaderStage::Fragment);
    let mut set = DescriptorSet::new(70, &DescriptorSetCreateInfo { layout: &l, debug_name: None });
    set.update(
        &l,
        &vec![DescriptorSetUpdate {
            binding: 0,
            array_element: 0,
            value: DescriptorValue::Texture { texture: &t, array_element: 0, view: 90, sampler: 91 },
        }],
    );
    // The pass draws to the texture that it also samples.
    let commands = vec![
        Command::BeginRenderPass(RenderPassDescriptor {
            color_attachments: vec![ColorAttachment {
                source: ColorAttachmentSource::Texture { texture: &t, array_element: 0, mip_level: 0 },
                load_op: LoadOp::Load,
                store_op: StoreOp::Store,
            }],
            depth_stencil_attachment: None,
        }),
        Command::BindDescriptorSets { sets: vec![&set], first: 0, stage: ShaderStage::AllGraphics },
        Command::EndRenderPass,
    ];
    assert!(scope_of_command(&commands, 0).is_none());
    assert!(!VulkanBackend::<u32>::validate(QueueType::Main, &commands));
}

#[test]
fn a_dispatch_uses_the_latest_set_of_each_slot() {
    let a = buffer(1, 1);
    let b = buffer(2, 1);
    let c = buffer(3, 1);
    let l = layout(1, DescriptorType::StorageBuffer(AccessType::ReadWrite), ShaderStage::Compute);
    let set_a = set_with_buffer(71, &l, &a);
    let set_b = set_with_buffer(72, &l, &b);
    let set_c = set_with_buffer(73, &l, &c);
    let p = pipeline(2);
    let mut pass = ComputePass::new();
    pass.bind_pipeline(&p);
    pass.bind_sets(0, vec![&set_a, &set_b]);
    pass.bind_sets(1, vec![&set_c]);
    pass.dispatch(4, 4, 1);
    let mut cb = CommandBuffer::new(QueueType::Compute);
    cb.compute_pass(pass);
    // Begin, pipeline, sets, sets, dispatch, end.
    let rw = vk::ACCESS_SHADER_READ | vk::ACCESS_SHADER_WRITE;
    assert_eq!(
        track_dispatch(&cb.commands, 4).unwrap(),
        vec![
            buffer_use(3, rw, vk::STAGE_COMPUTE_SHADER),
            buffer_use(1, rw, vk::STAGE_COMPUTE_SHADER),
        ]
    );

    let mut backend = backend();
    let out = backend.submit_commands(QueueType::Compute, 1, &cb.commands, Vec::new(), zero());
    assert_eq!(out.commands.len(), 4);
    assert!(matches!(out.commands[0], NativeCommand::BindComputePipeline { pipeline: 30 }));
    match &out.commands[1] {
        NativeCommand::BindDescriptorSets { compute, layout, first, sets } => {
            assert_eq!((*compute, *layout, *first), (true, 31, 0));
            assert_eq!(sets, &vec![71, 72]);
        }
        other => panic!("unexpected command {:?}", other),
    }
    assert!(matches!(out.commands[3], NativeCommand::Dispatch { x: 4, y: 4, z: 1 }));

    // A second dispatch in one submission writes after a write: its barrier comes right
    // before it.
    let mut twice = ComputePass::new();
    twice.bind_pipeline(&p);
    twice.bind_sets(0, vec![&set_a, &set_c]);
    twice.dispatch(1, 1, 1);
    twice.dispatch(2, 1, 1);
    let mut cb = CommandBuffer::new(QueueType::Compute);
    cb.compute_pass(twice);
    let out = backend.submit_commands(QueueType::Compute, 2, &cb.commands, Vec::new(), zero());
    assert_eq!(out.commands.len(), 5);
    assert!(matches!(out.commands[2], NativeCommand::Dispatch { x: 1, .. }));
    match &out.commands[3] {
        NativeCommand::PipelineBarrier(barrier) => {
            assert_eq!(barrier.buffer_barriers.len(), 2);
            assert_eq!(barrier.buffer_barriers[0].buffer, 1);
            assert_eq!(barrier.buffer_barriers[1].buffer, 3);
            assert_eq!(barrier.buffer_barriers[0].src_access_mask, rw);
            assert_eq!(barrier.buffer_barriers[0].dst_access_mask, rw);
            assert_eq!(barrier.src_stage, vk::STAGE_COMPUTE_SHADER);
            assert_eq!(barrier.dst_stage, vk::STAGE_COMPUTE_SHADER);
        }
        other => panic!("unexpected command {:?}", other),
    }
    assert!(matches!(out.commands[4], NativeCommand::Dispatch { x: 2, .. }));
}

#[test]
fn a_dispatch_without_a_pipeline_uses_nothing() {
    let a = buffer(1, 1);
    let l = layout(1, DescriptorType::StorageBuffer(AccessType::ReadWrite), ShaderStage::Compute);
    let set = set_with_buffer(71, &l, &a);
    let p = pipeline(1);
    let commands = vec![
        Command::BindComputePipeline(&p),
        Command::BeginComputePass,
        Command::BindDescriptorSets { sets: vec![&set], first: 0, stage: ShaderStage::Compute },
        Command::Dispatch(1, 1, 1),
    ];
    // The pipeline was bound before the pass began.
    assert_eq!(track_dispatch(&commands, 3).unwrap(), Vec::new());
}

#[test]
fn a_set_for_a_slot_that_the_pipeline_lacks_is_not_valid() {
    let a = buffer(1, 1);
    let l = layout(1, DescriptorType::StorageBuffer(AccessType::ReadWrite), ShaderStage::Compute);
    let set = set_with_buffer(71, &l, &a);
    let p = pipeline(1);
    let commands = vec![
        Command::BeginComputePass,
        Command::BindComputePipeline(&p),
        Command::BindDescriptorSets { sets: vec![&set], first: 1, stage: ShaderStage::Compute },
        Command::Dispatch(1, 1, 1),
        Command::EndComputePass,
    ];
    assert!(track_dispatch(&commands, 3).is_none());
    assert!(!VulkanBackend::<u32>::validate(QueueType::Compute, &commands));
}

#[test]
fn copies_between_buffers_and_textures_change_the_layout() {
    let mut backend = backend();
    let staging = buffer(1, 4);
    let t = texture(5, 2);
    let copy = BufferTextureCopy {
        buffer_offset: 16,
        buffer_row_length: 0,
        buffer_image_height: 0,
        buffer_array_element: 3,
        texture_offset: (1, 2, 0),
        texture_extent: (8, 8, 1),
        texture_mip_level: 1,
        texture_array_element: 0,
    };
    let mut cb = CommandBuffer::new(QueueType::Transfer);
    cb.copy_buffer_to_texture(&t, &staging, copy);
    cb.copy_texture_to_buffer(&staging, &t, copy);
    let out = backend.submit_commands(QueueType::Transfer, 1, &cb.commands, Vec::new(), zero());
    assert_eq!(out.commands.len(), 4);
    match &out.commands[0] {
        NativeCommand::PipelineBarrier(b) => {
            assert_eq!(b.image_barriers.len(), 1);
            assert_eq!(b.image_barriers[0].base_mip_level, 1);
            assert_eq!(b.image_barriers[0].old_layout, vk::LAYOUT_UNDEFINED);
            assert_eq!(b.image_barriers[0].new_layout, vk::LAYOUT_TRANSFER_DST_OPTIMAL);
        }
        other => panic!("unexpected command {:?}", other),
    }
    match &out.commands[1] {
        NativeCommand::CopyBufferToImage { buffer, image, layout, region } => {
            assert_eq!((*buffer, *image, *layout), (1, 5, vk::LAYOUT_TRANSFER_DST_OPTIMAL));
            assert_eq!(region.buffer_offset, 3 * 64 + 16);
            assert_eq!((region.mip_level, region.base_array_layer, region.layer_count), (1, 0, 1));
            assert_eq!(region.image_offset, (1, 2, 0));
            assert_eq!(region.image_extent, (8, 8, 1));
            assert_eq!(region.aspect_mask, vk::ASPECT_COLOR);
        }
        other => panic!("unexpected command {:?}", other),
    }
    match &out.commands[2] {
        NativeCommand::PipelineBarrier(b) => {
            // The texture is read after it was written, the buffer written after it was read.
            assert_eq!(b.image_barriers[0].old_layout, vk::LAYOUT_TRANSFER_DST_OPTIMAL);
            assert_eq!(b.image_barriers[0].new_layout, vk::LAYOUT_TRANSFER_SRC_OPTIMAL);
            assert_eq!(b.image_barriers[0].src_access_mask, vk::ACCESS_TRANSFER_WRITE);
            assert_eq!(b.buffer_barriers.len(), 1);
            assert_eq!(b.buffer_barriers[0].src_access_mask, vk::ACCESS_TRANSFER_READ);
            assert_eq!(b.buffer_barriers[0].dst_access_mask, vk::ACCESS_TRANSFER_WRITE);
            assert_eq!((b.src_stage, b.dst_stage), (vk::STAGE_TRANSFER, vk::STAGE_TRANSFER));
        }
        other => panic!("unexpected command {:?}", other),
    }
    assert!(matches!(out.commands[3], NativeCommand::CopyImageToBuffer { image: 5, buffer: 1, .. }));
}

#[test]
fn drawing_to_a_surface_image_waits_for_it_and_signals_it() {
    let mut backend = backend();
    let mut surface = Surface::new(1);
    surface.install(
        77,
        &SwapchainPlan {
            min_image_count: 2,
            format: SurfaceFormat { format: 44, color_space: 0 },
            extent: (800, 600),
            pre_transform: 1,
            present_mode: 2,
            sharing_mode: 0,
            queue_family_indices: vec![0],
        },
        vec![(10, 20), (11, 21)],
        vec![
            SurfaceImageSemaphores { available: 300, presentable: 400 },
            SurfaceImageSemaphores { available: 301, presentable: 401 },
        ],
    );
    let sems = surface.next_semaphores().unwrap();
    let image = surface.acquire_image(1, sems);
    let mut cb = CommandBuffer::new(QueueType::Main);
    cb.render_pass(
        RenderPassDescriptor {
            color_attachments: vec![ColorAttachment {
                source: ColorAttachmentSource::SurfaceImage(&image),
                load_op: LoadOp::Clear(ClearColor::RU32(0)),
                store_op: StoreOp::Store,
            }],
            depth_stencil_attachment: None,
        },
        RenderPass::new(),
    );
    let out = backend.submit_commands(QueueType::Main, 1, &cb.commands, Vec::new(), zero());
    assert_eq!(out.drawn, vec![11]);
    assert_eq!(out.submit.wait_semaphores, vec![301, 101]);
    assert_eq!(out.submit.wait_values, vec![0, 0]);
    assert_eq!(out.submit.wait_stages, vec![vk::STAGE_COLOR_ATTACHMENT_OUTPUT, vk::STAGE_TOP_OF_PIPE]);
    assert_eq!(out.submit.signal_semaphores, vec![401, 101]);
    assert_eq!(out.submit.signal_values, vec![0, 1]);
    match &out.commands[3] {
        NativeCommand::BeginRenderPass { attachments, views, width, height, .. } => {
            assert_eq!(views, &vec![21]);
            assert_eq!((*width, *height), (800, 600));
            assert_eq!(attachments[0].format, 44);
            assert_eq!(attachments[0].final_layout, vk::LAYOUT_PRESENT_SRC);
        }
        other => panic!("unexpected command {:?}", other),
    }
}
