use pal::buffer::{
    aligned_size, alignment_requirement, Buffer, BufferCreateInfo, BufferViewError, DeviceLimits,
};
use pal::compute_pipeline::{ComputePipeline, ComputePipelineCreateInfo};
use pal::descriptor_set::{
    binding_access, binding_stage, DescriptorBinding, DescriptorSet, DescriptorSetCreateInfo,
    DescriptorSetLayout, DescriptorSetLayoutCreateInfo, DescriptorSetUpdate, DescriptorType,
    DescriptorValue, DescriptorWrite,
};
use pal::graphics_pipeline::{
    ColorBlendAttachment, ColorBlendState, DepthStencilState, GraphicsPipeline,
    GraphicsPipelineCreateInfo, RasterizationState, ShaderStages, VertexInputState,
};
use pal::queue::{Job, VkQueue, WaitStrategy};
use pal::semaphores::{SemaphoreTracker, WaitInfo};
use pal::shader::{Shader, ShaderCreateError, ShaderCreateInfo};
use pal::texture::{aspect_flags, Texture, TextureCreateInfo};
use pal::types::{
    AccessType, BlendFactor, BlendOp, BufferUsage, CompareOp, CullMode, FrontFace, JobStatus,
    MemoryUsage, PolygonMode, PrimitiveTopology, QueueType, ShaderStage, TextureFormat, TextureType,
    BUFFER_USAGE_STORAGE_BUFFER, BUFFER_USAGE_TRANSFER_SRC, BUFFER_USAGE_UNIFORM_BUFFER,
    BUFFER_USAGE_VERTEX_BUFFER,
};
use pal::vk;

fn limits() -> DeviceLimits {
    DeviceLimits {
        non_coherent_atom_size: 64,
        min_uniform_buffer_offset_alignment: 256,
        min_storage_buffer_offset_alignment: 16,
    }
}

fn info(size: u64, elements: usize, usage: u32, memory_usage: MemoryUsage) -> BufferCreateInfo {
    BufferCreateInfo {
        size,
        array_elements: elements,
        buffer_usage: BufferUsage { bits: usage },
        memory_usage,
        debug_name: None,
    }
}

#[test]
fn elements_are_aligned_to_the_worst_requirement() {
    let l = limits();
    let usage = |bits| BufferUsage { bits };
    assert_eq!(alignment_requirement(MemoryUsage::GpuOnly, usage(BUFFER_USAGE_VERTEX_BUFFER), &l), 0);
    assert_eq!(alignment_requirement(MemoryUsage::CpuToGpu, usage(BUFFER_USAGE_VERTEX_BUFFER), &l), 64);
    assert_eq!(alignment_requirement(MemoryUsage::GpuToCpu, usage(BUFFER_USAGE_STORAGE_BUFFER), &l), 16);
    assert_eq!(alignment_requirement(MemoryUsage::CpuToGpu, usage(BUFFER_USAGE_STORAGE_BUFFER), &l), 64);
    assert_eq!(
        alignment_requirement(
            MemoryUsage::CpuToGpu,
            usage(BUFFER_USAGE_STORAGE_BUFFER | BUFFER_USAGE_UNIFORM_BUFFER),
            &l
        ),
        256
    );
    assert_eq!(aligned_size(100, 0), 100);
    assert_eq!(aligned_size(100, 64), 128);
    assert_eq!(aligned_size(128, 64), 128);
    assert_eq!(aligned_size(129, 64), 192);
    assert_eq!(aligned_size(0, 256), 0);
    assert_eq!(aligned_size(1, 1), 1);
}

#[test]
fn a_buffer_holds_its_elements_at_their_aligned_size() {
    let create = info(100, 3, BUFFER_USAGE_UNIFORM_BUFFER, MemoryUsage::CpuToGpu);
    assert_eq!(create.native_size(&limits()), Some(3 * 256));
    let buffer = Buffer::new(5, &create, &limits());
    assert_eq!(buffer.buffer, 5);
    assert_eq!(buffer.size(), 100);
    assert_eq!(buffer.aligned_size, 256);
    assert_eq!(buffer.array_elements, 3);
    assert_eq!(buffer.map(0).unwrap(), (0, 100));
    assert_eq!(buffer.map(2).unwrap(), (512, 100));
    assert!(buffer.ref_counter.is_last());

    let too_big = info(u64::MAX - 10, 1, BUFFER_USAGE_UNIFORM_BUFFER, MemoryUsage::GpuOnly);
    assert_eq!(too_big.native_size(&limits()), None);
    let too_many = info(1 << 40, 1 << 30, 0, MemoryUsage::GpuOnly);
    assert_eq!(too_many.native_size(&limits()), None);
}

#[test]
fn device_memory_is_not_mappable() {
    let buffer = Buffer::new(5, &info(16, 1, 0, MemoryUsage::GpuOnly), &limits());
    assert!(matches!(buffer.map(0), Err(BufferViewError::NotMapable)));
    let unknown = Buffer::new(6, &info(16, 1, 0, MemoryUsage::Unknown), &limits());
    assert_eq!(unknown.map(0).unwrap(), (0, 16));
}

#[test]
fn a_staging_buffer_is_one_element_written_by_the_host() {
    let staging = BufferCreateInfo::staging(16, Some(String::from("upload")));
    assert_eq!(staging.size, 16);
    assert_eq!(staging.array_elements, 1);
    assert_eq!(staging.buffer_usage.bits, BUFFER_USAGE_TRANSFER_SRC);
    assert_eq!(staging.memory_usage, MemoryUsage::CpuToGpu);
    assert_eq!(staging.debug_name.as_deref(), Some("upload"));
}

#[test]
fn a_texture_has_a_view_for_each_mip_level_of_each_element() {
    let mut create = TextureCreateInfo::default();
    assert_eq!(create.format, TextureFormat::Rgba8Unorm);
    assert_eq!(create.ty, TextureType::Type2D);
    assert_eq!((create.width, create.height, create.depth), (128, 128, 1));
    assert_eq!((create.array_elements, create.mip_levels), (1, 1));
    assert_eq!(create.texture_usage.bits, 0);
    assert_eq!(create.memory_usage, MemoryUsage::GpuOnly);
    assert!(create.debug_name.is_none());

    create.array_elements = 2;
    create.mip_levels = 3;
    let texture = Texture::new(9, vec![10, 11, 12, 20, 21, 22], 4096, &create);
    assert_eq!(texture.dims(), (128, 128, 1));
    assert_eq!(texture.mip_count, 3);
    assert_eq!(texture.aspect_flags, vk::ASPECT_COLOR);
    assert_eq!(texture.view(0, 0), 10);
    assert_eq!(texture.view(0, 2), 12);
    assert_eq!(texture.view(1, 0), 20);
    assert_eq!(texture.view(1, 1), 21);
    assert_eq!(aspect_flags(TextureFormat::R8Unorm), vk::ASPECT_COLOR);
    assert!(TextureFormat::Bgra8Unorm.is_color());
    assert!(!TextureFormat::Bgra8Unorm.is_stencil());
}

#[test]
fn shader_code_is_read_as_words() {
    // A vector of words is aligned for words; its bytes are read back as the same words.
    let words: Vec<u32> = vec![0x0723_0203, 0x0001_0000, 7];
    let bytes: &[u8] = bytemuck::cast_slice(&words);
    let create = ShaderCreateInfo { code: bytes, debug_name: None };
    assert_eq!(create.words().unwrap(), words);
    assert_eq!(Shader::new(3).module, 3);

    let empty: &[u8] = bytemuck::cast_slice(&words[..0]);
    assert_eq!(ShaderCreateInfo { code: empty, debug_name: None }.words().unwrap(), Vec::<u32>::new());
}

#[test]
fn shader_code_of_a_wrong_size_is_refused() {
    let words: Vec<u32> = vec![1, 2];
    let bytes: &[u8] = bytemuck::cast_slice(&words);
    let create = ShaderCreateInfo { code: &bytes[..7], debug_name: None };
    match create.words() {
        Err(ShaderCreateError::Other(message)) => {
            assert_eq!(message, "shader code size is not a multiple of 4");
        }
        Ok(_) => panic!("seven bytes are no words"),
    }
}

#[test]
fn pipeline_state_has_its_defaults() {
    let input = VertexInputState::default();
    assert!(input.attributes.is_empty());
    assert!(input.bindings.is_empty());
    assert_eq!(input.topology, PrimitiveTopology::TriangleList);
    let raster = RasterizationState::default();
    assert_eq!(raster.polygon_mode, PolygonMode::Fill);
    assert_eq!(raster.cull_mode, CullMode::Back);
    assert_eq!(raster.front_face, FrontFace::CounterClockwise);
    let depth = DepthStencilState::default();
    assert!(!depth.depth_clamp && !depth.depth_test && !depth.depth_write);
    assert_eq!(depth.depth_compare, CompareOp::Always);
    assert_eq!(f32::from_bits(depth.min_depth), 0.0);
    assert_eq!(f32::from_bits(depth.max_depth), 1.0);
    let blend = ColorBlendAttachment::default();
    assert_eq!(blend.write_mask.bits, 0);
    assert!(!blend.blend);
    assert_eq!(blend.color_blend_op, BlendOp::Add);
    assert_eq!(blend.src_color_blend_factor, BlendFactor::One);
    assert_eq!(blend.dst_color_blend_factor, BlendFactor::Zero);
    assert_eq!(blend.alpha_blend_op, BlendOp::Add);
    assert_eq!(blend.src_alpha_blend_factor, BlendFactor::One);
    assert_eq!(blend.dst_alpha_blend_factor, BlendFactor::Zero);
    assert!(ColorBlendState::default().attachments.is_empty());

    let create = GraphicsPipelineCreateInfo {
        stages: ShaderStages { vertex: Shader::new(1), fragment: None },
        vertex_input: input,
        rasterization: raster,
        depth_stencil: Some(depth),
        color_blend: None,
    };
    assert!(create.stages.fragment.is_none());
    let pipeline = GraphicsPipeline::new(7, 44);
    assert_eq!((pipeline.id, pipeline.layout()), (7, 44));
}

fn layout() -> DescriptorSetLayout {
    DescriptorSetLayout::new(
        60,
        DescriptorSetLayoutCreateInfo {
            bindings: vec![
                DescriptorBinding {
                    binding: 0,
                    ty: DescriptorType::UniformBuffer,
                    count: 1,
                    stage: ShaderStage::Vertex,
                },
                DescriptorBinding {
                    binding: 1,
                    ty: DescriptorType::StorageBuffer(AccessType::ReadWrite),
                    count: 2,
                    stage: ShaderStage::Compute,
                },
                DescriptorBinding {
                    binding: 2,
                    ty: DescriptorType::Texture,
                    count: 1,
                    stage: ShaderStage::Fragment,
                },
            ],
        },
    )
}

#[test]
fn bindings_are_found_by_their_number() {
    let layout = layout();
    assert_eq!(layout.get_binding(1).unwrap().count, 2);
    assert_eq!(layout.get_binding(2).unwrap().ty, DescriptorType::Texture);
    assert!(layout.get_binding(3).is_none());
    assert_eq!(binding_access(DescriptorType::Texture), vk::ACCESS_SHADER_READ);
    assert_eq!(binding_access(DescriptorType::UniformBuffer), vk::ACCESS_UNIFORM_READ);
    assert_eq!(binding_access(DescriptorType::StorageBuffer(AccessType::Read)), vk::ACCESS_SHADER_READ);
    assert_eq!(
        binding_access(DescriptorType::StorageBuffer(AccessType::ReadWrite)),
        vk::ACCESS_SHADER_READ | vk::ACCESS_SHADER_WRITE
    );
    assert_eq!(binding_stage(ShaderStage::Vertex), vk::STAGE_VERTEX_SHADER);
    assert_eq!(binding_stage(ShaderStage::Fragment), vk::STAGE_FRAGMENT_SHADER);
    assert_eq!(binding_stage(ShaderStage::Compute), vk::STAGE_COMPUTE_SHADER);
    assert_eq!(binding_stage(ShaderStage::AllGraphics), vk::STAGE_ALL_GRAPHICS);
}

#[test]
fn updates_bind_descriptors_and_ask_for_writes() {
    let layout = layout();
    let mut set = DescriptorSet::new(70, &DescriptorSetCreateInfo { layout: &layout, debug_name: None });
    assert_eq!(set.layout, 60);
    assert_eq!(set.bound.len(), 3);
    assert_eq!(set.bound[1].len(), 2);
    assert!(set.bound.iter().all(|row| row.iter().all(|b| b.is_none())));

    let uniform = Buffer::new(5, &info(100, 3, BUFFER_USAGE_UNIFORM_BUFFER, MemoryUsage::GpuOnly), &limits());
    let mut create = TextureCreateInfo::default();
    create.mip_levels = 2;
    let texture = Texture::new(9, vec![10, 11], 4096, &create);
    let updates = vec![
        DescriptorSetUpdate {
            binding: 0,
            array_element: 0,
            value: DescriptorValue::UniformBuffer { buffer: &uniform, array_element: 2 },
        },
        DescriptorSetUpdate {
            binding: 1,
            array_element: 1,
            value: DescriptorValue::StorageBuffer { buffer: &uniform, array_element: 1 },
        },
        DescriptorSetUpdate {
            binding: 2,
            array_element: 0,
            value: DescriptorValue::Texture { texture: &texture, array_element: 0, view: 90, sampler: 91 },
        },
    ];
    let result = set.update(&layout, &updates);
    assert_eq!(
        result.writes,
        vec![
            DescriptorWrite::Buffer {
                set: 70,
                binding: 0,
                array_element: 0,
                storage: false,
                buffer: 5,
                offset: 512,
                range: 256,
            },
            DescriptorWrite::Buffer {
                set: 70,
                binding: 1,
                array_element: 1,
                storage: true,
                buffer: 5,
                offset: 256,
                range: 256,
            },
            DescriptorWrite::Image {
                set: 70,
                binding: 2,
                array_element: 0,
                view: 90,
                sampler: 91,
                layout: vk::LAYOUT_SHADER_READ_ONLY_OPTIMAL,
            },
        ]
    );
    assert!(result.replaced_views.is_empty());
    let bound = set.bound[1][1].as_ref().unwrap();
    assert_eq!(bound.access, vk::ACCESS_SHADER_READ | vk::ACCESS_SHADER_WRITE);
    assert_eq!(bound.stage, vk::STAGE_COMPUTE_SHADER);
    assert!(set.bound[1][0].is_none());
    // The bindings hold the buffer.
    assert!(!uniform.ref_counter.is_last());

    // Binding the texture anew gives up the view of the old binding.
    let again = vec![DescriptorSetUpdate {
        binding: 2,
        array_element: 0,
        value: DescriptorValue::Texture { texture: &texture, array_element: 0, view: 92, sampler: 91 },
    }];
    assert_eq!(set.update(&layout, &again).replaced_views, vec![90]);
}

#[test]
fn a_compute_pipeline_keeps_its_layouts() {
    let create = ComputePipelineCreateInfo {
        layouts: vec![layout(), layout()],
        module: Shader::new(1),
        work_group_size: (8, 8, 1),
        debug_name: None,
    };
    let pipeline = ComputePipeline::new(3, 4, create);
    assert_eq!((pipeline.pipeline, pipeline.layout), (3, 4));
    assert_eq!(pipeline.layouts().len(), 2);
}

#[test]
fn waits_on_one_semaphore_are_merged() {
    let mut tracker = SemaphoreTracker::new();
    tracker.register_wait(1, WaitInfo { value: Some(5), stage: vk::STAGE_TRANSFER });
    tracker.register_wait(2, WaitInfo { value: None, stage: vk::STAGE_COLOR_ATTACHMENT_OUTPUT });
    tracker.register_wait(1, WaitInfo { value: Some(3), stage: vk::STAGE_VERTEX_INPUT });
    tracker.register_wait(1, WaitInfo { value: Some(9), stage: vk::STAGE_BOTTOM_OF_PIPE });
    tracker.register_signal(7, None);
    tracker.register_signal(8, Some(4));
    tracker.register_signal(7, Some(6));
    let out = tracker.finish();
    assert_eq!(
        out.waits,
        vec![
            (1, WaitInfo { value: Some(9), stage: vk::STAGE_VERTEX_INPUT }),
            (2, WaitInfo { value: None, stage: vk::STAGE_COLOR_ATTACHMENT_OUTPUT }),
        ]
    );
    assert_eq!(out.signals, vec![(7, Some(6)), (8, Some(4))]);
}

#[test]
fn a_queue_waits_for_itself_and_signals_its_next_value() {
    let mut queue = VkQueue::new(1, QueueType::Main, 3, 50, 60);
    assert_eq!(queue.queue(), 1);
    assert_eq!(queue.ty(), QueueType::Main);
    assert_eq!(queue.queue_family(), 3);
    assert_eq!(queue.semaphore(), 50);
    assert_eq!(queue.command_pool(), 60);
    assert_eq!(queue.target_timeline_value(), 0);

    let mut tracker = SemaphoreTracker::new();
    tracker.register_wait(80, WaitInfo { value: None, stage: vk::STAGE_COLOR_ATTACHMENT_OUTPUT });
    tracker.register_signal(81, None);
    let first = queue.submit(900, tracker);
    assert_eq!(first.command_buffer, 900);
    assert_eq!(first.wait_semaphores, vec![80, 50]);
    // A binary semaphore has no value: 0 stands in.
    assert_eq!(first.wait_values, vec![0, 0]);
    assert_eq!(first.wait_stages, vec![vk::STAGE_COLOR_ATTACHMENT_OUTPUT, vk::STAGE_TOP_OF_PIPE]);
    assert_eq!(first.signal_semaphores, vec![81, 50]);
    assert_eq!(first.signal_values, vec![0, 1]);
    assert_eq!(queue.target_timeline_value(), 1);

    let second = queue.submit(901, SemaphoreTracker::new());
    assert_eq!(second.wait_values, vec![1]);
    assert_eq!(second.signal_values, vec![2]);
    assert_eq!(queue.target_timeline_value(), 2);

    assert_eq!(queue.allocate_command_buffer(0), None);
    assert_eq!(queue.allocate_command_buffer(1), Some(900));
    assert_eq!(queue.allocate_command_buffer(1), None);
    assert_eq!(queue.allocate_command_buffer(5), Some(901));
}

#[test]
fn a_job_is_waited_for_on_the_semaphore_only_when_it_is_the_latest() {
    let job = Job { ty: QueueType::Main, target_value: 4 };
    assert_eq!(job.wait_strategy(4), WaitStrategy::Semaphore);
    assert_eq!(job.wait_strategy(5), WaitStrategy::Spin);
    assert_eq!(job.poll_status(3), JobStatus::Running);
    assert_eq!(job.poll_status(4), JobStatus::Complete);
    assert_eq!(job.wait_on(9), JobStatus::Complete);
    assert_eq!(job.wait_on(0), JobStatus::Running);
}
