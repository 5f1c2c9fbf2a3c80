use ash::vk as native;
use pal::convert;
use pal::descriptor_set::DescriptorType;
use pal::device;
use pal::surface;
use pal::types::{
    AccessType, BlendFactor, BlendOp, BufferUsage, ClearColor, ColorComponents, CompareOp, CullMode,
    FrontFace, IndexType, LoadOp, PolygonMode, PresentMode, PrimitiveTopology, ShaderStage, StoreOp,
    TextureFormat, TextureType, TextureUsage, VertexFormat, VertexInputRate,
};
use pal::vk;

#[test]
fn access_masks_are_the_native_ones() {
    assert_eq!(vk::ACCESS_NONE, native::AccessFlags::NONE.as_raw());
    assert_eq!(vk::ACCESS_INDIRECT_COMMAND_READ, native::AccessFlags::INDIRECT_COMMAND_READ.as_raw());
    assert_eq!(vk::ACCESS_INDEX_READ, native::AccessFlags::INDEX_READ.as_raw());
    assert_eq!(vk::ACCESS_VERTEX_ATTRIBUTE_READ, native::AccessFlags::VERTEX_ATTRIBUTE_READ.as_raw());
    assert_eq!(vk::ACCESS_UNIFORM_READ, native::AccessFlags::UNIFORM_READ.as_raw());
    assert_eq!(vk::ACCESS_SHADER_READ, native::AccessFlags::SHADER_READ.as_raw());
    assert_eq!(vk::ACCESS_SHADER_WRITE, native::AccessFlags::SHADER_WRITE.as_raw());
    assert_eq!(vk::ACCESS_COLOR_ATTACHMENT_READ, native::AccessFlags::COLOR_ATTACHMENT_READ.as_raw());
    assert_eq!(vk::ACCESS_COLOR_ATTACHMENT_WRITE, native::AccessFlags::COLOR_ATTACHMENT_WRITE.as_raw());
    assert_eq!(
        vk::ACCESS_DEPTH_STENCIL_ATTACHMENT_READ,
        native::AccessFlags::DEPTH_STENCIL_ATTACHMENT_READ.as_raw()
    );
    assert_eq!(
        vk::ACCESS_DEPTH_STENCIL_ATTACHMENT_WRITE,
        native::AccessFlags::DEPTH_STENCIL_ATTACHMENT_WRITE.as_raw()
    );
    assert_eq!(vk::ACCESS_TRANSFER_READ, native::AccessFlags::TRANSFER_READ.as_raw());
    assert_eq!(vk::ACCESS_TRANSFER_WRITE, native::AccessFlags::TRANSFER_WRITE.as_raw());
    assert_eq!(vk::ACCESS_MEMORY_READ, native::AccessFlags::MEMORY_READ.as_raw());
    assert_eq!(vk::ACCESS_MEMORY_WRITE, native::AccessFlags::MEMORY_WRITE.as_raw());
}

#[test]
fn the_read_accesses_are_the_reading_kinds() {
    let reads = native::AccessFlags::MEMORY_READ
        | native::AccessFlags::SHADER_READ
        | native::AccessFlags::UNIFORM_READ
        | native::AccessFlags::TRANSFER_READ
        | native::AccessFlags::COLOR_ATTACHMENT_READ
        | native::AccessFlags::INDIRECT_COMMAND_READ
        | native::AccessFlags::VERTEX_ATTRIBUTE_READ
        | native::AccessFlags::INDEX_READ
        | native::AccessFlags::DEPTH_STENCIL_ATTACHMENT_READ;
    assert_eq!(vk::READ_ACCESSES, reads.as_raw());
    assert!(vk::is_read_access(vk::ACCESS_INDEX_READ | vk::ACCESS_UNIFORM_READ));
    assert!(vk::is_read_access(vk::ACCESS_NONE));
    assert!(!vk::is_read_access(vk::ACCESS_TRANSFER_WRITE));
    assert!(!vk::is_read_access(vk::ACCESS_SHADER_READ | vk::ACCESS_SHADER_WRITE));
    assert!(vk::contains(0b1110, 0b0110));
    assert!(!vk::contains(0b1110, 0b0111));
}

#[test]
fn stages_are_the_native_ones() {
    let pairs = [
        (vk::STAGE_TOP_OF_PIPE, native::PipelineStageFlags::TOP_OF_PIPE),
        (vk::STAGE_DRAW_INDIRECT, native::PipelineStageFlags::DRAW_INDIRECT),
        (vk::STAGE_VERTEX_INPUT, native::PipelineStageFlags::VERTEX_INPUT),
        (vk::STAGE_VERTEX_SHADER, native::PipelineStageFlags::VERTEX_SHADER),
        (
            vk::STAGE_TESSELLATION_CONTROL_SHADER,
            native::PipelineStageFlags::TESSELLATION_CONTROL_SHADER,
        ),
        (
            vk::STAGE_TESSELLATION_EVALUATION_SHADER,
            native::PipelineStageFlags::TESSELLATION_EVALUATION_SHADER,
        ),
        (vk::STAGE_GEOMETRY_SHADER, native::PipelineStageFlags::GEOMETRY_SHADER),
        (vk::STAGE_FRAGMENT_SHADER, native::PipelineStageFlags::FRAGMENT_SHADER),
        (vk::STAGE_EARLY_FRAGMENT_TESTS, native::PipelineStageFlags::EARLY_FRAGMENT_TESTS),
        (vk::STAGE_LATE_FRAGMENT_TESTS, native::PipelineStageFlags::LATE_FRAGMENT_TESTS),
        (vk::STAGE_COLOR_ATTACHMENT_OUTPUT, native::PipelineStageFlags::COLOR_ATTACHMENT_OUTPUT),
        (vk::STAGE_COMPUTE_SHADER, native::PipelineStageFlags::COMPUTE_SHADER),
        (vk::STAGE_TRANSFER, native::PipelineStageFlags::TRANSFER),
        (vk::STAGE_BOTTOM_OF_PIPE, native::PipelineStageFlags::BOTTOM_OF_PIPE),
        (vk::STAGE_ALL_GRAPHICS, native::PipelineStageFlags::ALL_GRAPHICS),
    ];
    for (ours, theirs) in pairs {
        assert_eq!(ours, theirs.as_raw());
    }
}

#[test]
fn stages_are_ranked_in_pipeline_order() {
    let order = [
        vk::STAGE_TOP_OF_PIPE,
        vk::STAGE_DRAW_INDIRECT,
        vk::STAGE_VERTEX_INPUT,
        vk::STAGE_VERTEX_SHADER,
        vk::STAGE_TESSELLATION_CONTROL_SHADER,
        vk::STAGE_TESSELLATION_EVALUATION_SHADER,
        vk::STAGE_GEOMETRY_SHADER,
        vk::STAGE_FRAGMENT_SHADER,
        vk::STAGE_EARLY_FRAGMENT_TESTS,
        vk::STAGE_LATE_FRAGMENT_TESTS,
        vk::STAGE_COLOR_ATTACHMENT_OUTPUT,
        vk::STAGE_TRANSFER,
        vk::STAGE_COMPUTE_SHADER,
        vk::STAGE_BOTTOM_OF_PIPE,
    ];
    for (rank, stage) in order.iter().enumerate() {
        assert_eq!(vk::rank_pipeline_stage(*stage), rank as u32);
        assert_eq!(vk::earliest_stage(*stage), *stage);
    }
    assert_eq!(vk::rank_pipeline_stage(vk::STAGE_ALL_GRAPHICS), u32::MAX);
    assert_eq!(vk::rank_pipeline_stage(vk::STAGE_TRANSFER | vk::STAGE_VERTEX_INPUT), u32::MAX);
    assert_eq!(vk::rank_pipeline_stage(0), u32::MAX);
}

#[test]
fn the_earliest_stage_of_a_mask_is_its_lowest_ranked_stage() {
    assert_eq!(
        vk::earliest_stage(vk::STAGE_EARLY_FRAGMENT_TESTS | vk::STAGE_LATE_FRAGMENT_TESTS),
        vk::STAGE_EARLY_FRAGMENT_TESTS
    );
    // Transfer is ranked before compute although its bit is the higher one.
    assert_eq!(
        vk::earliest_stage(vk::STAGE_COMPUTE_SHADER | vk::STAGE_TRANSFER),
        vk::STAGE_TRANSFER
    );
    assert_eq!(
        vk::earliest_stage(vk::STAGE_BOTTOM_OF_PIPE | vk::STAGE_FRAGMENT_SHADER),
        vk::STAGE_FRAGMENT_SHADER
    );
    // A mask without a ranked stage starts at the top of the pipeline.
    assert_eq!(vk::earliest_stage(vk::STAGE_ALL_GRAPHICS), vk::STAGE_TOP_OF_PIPE);
    assert_eq!(vk::earliest_stage(0), vk::STAGE_TOP_OF_PIPE);
}

#[test]
fn layouts_and_aspects_are_the_native_ones() {
    assert_eq!(vk::LAYOUT_UNDEFINED, native::ImageLayout::UNDEFINED.as_raw());
    assert_eq!(vk::LAYOUT_GENERAL, native::ImageLayout::GENERAL.as_raw());
    assert_eq!(
        vk::LAYOUT_COLOR_ATTACHMENT_OPTIMAL,
        native::ImageLayout::COLOR_ATTACHMENT_OPTIMAL.as_raw()
    );
    assert_eq!(
        vk::LAYOUT_DEPTH_STENCIL_ATTACHMENT_OPTIMAL,
        native::ImageLayout::DEPTH_STENCIL_ATTACHMENT_OPTIMAL.as_raw()
    );
    assert_eq!(
        vk::LAYOUT_SHADER_READ_ONLY_OPTIMAL,
        native::ImageLayout::SHADER_READ_ONLY_OPTIMAL.as_raw()
    );
    assert_eq!(vk::LAYOUT_TRANSFER_SRC_OPTIMAL, native::ImageLayout::TRANSFER_SRC_OPTIMAL.as_raw());
    assert_eq!(vk::LAYOUT_TRANSFER_DST_OPTIMAL, native::ImageLayout::TRANSFER_DST_OPTIMAL.as_raw());
    assert_eq!(vk::LAYOUT_PRESENT_SRC, native::ImageLayout::PRESENT_SRC_KHR.as_raw());
    assert_eq!(vk::ASPECT_COLOR, native::ImageAspectFlags::COLOR.as_raw());
    assert_eq!(vk::ASPECT_DEPTH, native::ImageAspectFlags::DEPTH.as_raw());
    assert_eq!(vk::ASPECT_STENCIL, native::ImageAspectFlags::STENCIL.as_raw());
    assert_eq!(vk::QUEUE_FAMILY_IGNORED, native::QUEUE_FAMILY_IGNORED);
    assert_eq!(vk::WHOLE_SIZE, native::WHOLE_SIZE);
}

#[test]
fn enumerations_turn_into_their_native_codes() {
    assert_eq!(convert::to_vk_present_mode(PresentMode::Immediate), native::PresentModeKHR::IMMEDIATE.as_raw());
    assert_eq!(convert::to_vk_present_mode(PresentMode::Mailbox), native::PresentModeKHR::MAILBOX.as_raw());
    assert_eq!(convert::to_vk_present_mode(PresentMode::Fifo), native::PresentModeKHR::FIFO.as_raw());
    assert_eq!(
        convert::to_vk_present_mode(PresentMode::FifoRelaxed),
        native::PresentModeKHR::FIFO_RELAXED.as_raw()
    );
    assert_eq!(convert::to_vk_format(TextureFormat::R8Unorm), native::Format::R8_UNORM.as_raw());
    assert_eq!(convert::to_vk_format(TextureFormat::Rgba8Unorm), native::Format::R8G8B8A8_UNORM.as_raw());
    assert_eq!(convert::to_vk_format(TextureFormat::Bgra8Unorm), native::Format::B8G8R8A8_UNORM.as_raw());
    assert_eq!(convert::to_vk_index_type(IndexType::U16), native::IndexType::UINT16.as_raw());
    assert_eq!(convert::to_vk_index_type(IndexType::U32), native::IndexType::UINT32.as_raw());
    assert_eq!(convert::to_vk_store_op(StoreOp::DontCare), native::AttachmentStoreOp::DONT_CARE.as_raw());
    assert_eq!(convert::to_vk_store_op(StoreOp::Store), native::AttachmentStoreOp::STORE.as_raw());
    assert_eq!(convert::to_vk_load_op(LoadOp::DontCare), native::AttachmentLoadOp::DONT_CARE.as_raw());
    assert_eq!(convert::to_vk_load_op(LoadOp::Load), native::AttachmentLoadOp::LOAD.as_raw());
    assert_eq!(
        convert::to_vk_load_op(LoadOp::Clear(ClearColor::RU32(7))),
        native::AttachmentLoadOp::CLEAR.as_raw()
    );
    assert_eq!(
        convert::to_vk_descriptor_type(DescriptorType::Texture),
        native::DescriptorType::COMBINED_IMAGE_SAMPLER.as_raw()
    );
    assert_eq!(
        convert::to_vk_descriptor_type(DescriptorType::UniformBuffer),
        native::DescriptorType::UNIFORM_BUFFER.as_raw()
    );
    assert_eq!(
        convert::to_vk_descriptor_type(DescriptorType::StorageBuffer(AccessType::ReadWrite)),
        native::DescriptorType::STORAGE_BUFFER.as_raw()
    );
    assert_eq!(convert::to_vk_vertex_rate(VertexInputRate::Vertex), native::VertexInputRate::VERTEX.as_raw());
    assert_eq!(
        convert::to_vk_vertex_rate(VertexInputRate::Instance),
        native::VertexInputRate::INSTANCE.as_raw()
    );
    assert_eq!(convert::to_vk_vertex_format(VertexFormat::XF32), native::Format::R32_SFLOAT.as_raw());
    assert_eq!(convert::to_vk_vertex_format(VertexFormat::XyF32), native::Format::R32G32_SFLOAT.as_raw());
    assert_eq!(
        convert::to_vk_vertex_format(VertexFormat::XyzwF32),
        native::Format::R32G32B32A32_SFLOAT.as_raw()
    );
    assert_eq!(
        convert::to_vk_shader_stage(ShaderStage::AllGraphics),
        native::ShaderStageFlags::ALL_GRAPHICS.as_raw()
    );
    assert_eq!(convert::to_vk_shader_stage(ShaderStage::Vertex), native::ShaderStageFlags::VERTEX.as_raw());
    assert_eq!(
        convert::to_vk_shader_stage(ShaderStage::Fragment),
        native::ShaderStageFlags::FRAGMENT.as_raw()
    );
    assert_eq!(convert::to_vk_shader_stage(ShaderStage::Compute), native::ShaderStageFlags::COMPUTE.as_raw());
    assert_eq!(
        convert::to_vk_topology(PrimitiveTopology::PontList),
        native::PrimitiveTopology::POINT_LIST.as_raw()
    );
    assert_eq!(
        convert::to_vk_topology(PrimitiveTopology::LineList),
        native::PrimitiveTopology::LINE_LIST.as_raw()
    );
    assert_eq!(
        convert::to_vk_topology(PrimitiveTopology::TriangleList),
        native::PrimitiveTopology::TRIANGLE_LIST.as_raw()
    );
    assert_eq!(convert::to_vk_cull_mode(CullMode::Neither), native::CullModeFlags::NONE.as_raw());
    assert_eq!(convert::to_vk_cull_mode(CullMode::Front), native::CullModeFlags::FRONT.as_raw());
    assert_eq!(convert::to_vk_cull_mode(CullMode::Back), native::CullModeFlags::BACK.as_raw());
    assert_eq!(
        convert::to_vk_cull_mode(CullMode::FrontAndBack),
        native::CullModeFlags::FRONT_AND_BACK.as_raw()
    );
    assert_eq!(
        convert::to_vk_front_face(FrontFace::CounterClockwise),
        native::FrontFace::COUNTER_CLOCKWISE.as_raw()
    );
    assert_eq!(convert::to_vk_front_face(FrontFace::Clockwise), native::FrontFace::CLOCKWISE.as_raw());
    assert_eq!(convert::to_vk_polygon_mode(PolygonMode::Fill), native::PolygonMode::FILL.as_raw());
    assert_eq!(convert::to_vk_polygon_mode(PolygonMode::Line), native::PolygonMode::LINE.as_raw());
    assert_eq!(convert::to_vk_polygon_mode(PolygonMode::Point), native::PolygonMode::POINT.as_raw());
    assert_eq!(convert::to_vk_image_type(TextureType::Type1D), native::ImageType::TYPE_1D.as_raw());
    assert_eq!(convert::to_vk_image_type(TextureType::Type2D), native::ImageType::TYPE_2D.as_raw());
    assert_eq!(convert::to_vk_image_type(TextureType::Type3D), native::ImageType::TYPE_3D.as_raw());
}

#[test]
fn comparisons_and_blending_turn_into_their_native_codes() {
    let compares = [
        (CompareOp::Never, native::CompareOp::NEVER),
        (CompareOp::Less, native::CompareOp::LESS),
        (CompareOp::Equal, native::CompareOp::EQUAL),
        (CompareOp::LessOrEqual, native::CompareOp::LESS_OR_EQUAL),
        (CompareOp::Greater, native::CompareOp::GREATER),
        (CompareOp::NotEqual, native::CompareOp::NOT_EQUAL),
        (CompareOp::GreaterOrEqual, native::CompareOp::GREATER_OR_EQUAL),
        (CompareOp::Always, native::CompareOp::ALWAYS),
    ];
    for (ours, theirs) in compares {
        assert_eq!(convert::to_vk_compare_op(ours), theirs.as_raw());
    }
    let factors = [
        (BlendFactor::Zero, native::BlendFactor::ZERO),
        (BlendFactor::One, native::BlendFactor::ONE),
        (BlendFactor::SrcColor, native::BlendFactor::SRC_COLOR),
        (BlendFactor::OneMinusSrcColor, native::BlendFactor::ONE_MINUS_SRC_COLOR),
        (BlendFactor::DstColor, native::BlendFactor::DST_COLOR),
        (BlendFactor::OneMinusDstColor, native::BlendFactor::ONE_MINUS_DST_COLOR),
        (BlendFactor::SrcAlpha, native::BlendFactor::SRC_ALPHA),
        (BlendFactor::OneMinusSrcAlpha, native::BlendFactor::ONE_MINUS_SRC_ALPHA),
        (BlendFactor::DstAlpha, native::BlendFactor::DST_ALPHA),
        (BlendFactor::OneMinusDstAlpha, native::BlendFactor::ONE_MINUS_DST_ALPHA),
    ];
    for (ours, theirs) in factors {
        assert_eq!(convert::to_vk_blend_factor(ours), theirs.as_raw());
    }
    let ops = [
        (BlendOp::Add, native::BlendOp::ADD),
        (BlendOp::Subtract, native::BlendOp::SUBTRACT),
        (BlendOp::ReverseSubtract, native::BlendOp::REVERSE_SUBTRACT),
        (BlendOp::Min, native::BlendOp::MIN),
        (BlendOp::Max, native::BlendOp::MAX),
    ];
    for (ours, theirs) in ops {
        assert_eq!(convert::to_vk_blend_op(ours), theirs.as_raw());
    }
}

#[test]
fn flag_sets_turn_into_their_native_masks() {
    let all_channels = ColorComponents { bits: 0b1111 };
    assert_eq!(
        convert::to_vk_color_components(all_channels),
        native::ColorComponentFlags::RGBA.as_raw()
    );
    assert_eq!(
        convert::to_vk_color_components(ColorComponents { bits: pal::types::COLOR_COMPONENT_B }),
        native::ColorComponentFlags::B.as_raw()
    );
    assert_eq!(convert::to_vk_color_components(ColorComponents::empty()), 0);

    let usage = BufferUsage {
        bits: pal::types::BUFFER_USAGE_VERTEX_BUFFER
            | pal::types::BUFFER_USAGE_INDEX_BUFFER
            | pal::types::BUFFER_USAGE_TRANSFER_DST,
    };
    assert_eq!(
        convert::to_vk_buffer_usage(usage),
        (native::BufferUsageFlags::VERTEX_BUFFER
            | native::BufferUsageFlags::INDEX_BUFFER
            | native::BufferUsageFlags::TRANSFER_DST)
            .as_raw()
    );
    let every = BufferUsage { bits: 0b111_1111 };
    assert_eq!(
        convert::to_vk_buffer_usage(every),
        (native::BufferUsageFlags::TRANSFER_SRC
            | native::BufferUsageFlags::TRANSFER_DST
            | native::BufferUsageFlags::UNIFORM_BUFFER
            | native::BufferUsageFlags::STORAGE_BUFFER
            | native::BufferUsageFlags::VERTEX_BUFFER
            | native::BufferUsageFlags::INDEX_BUFFER
            | native::BufferUsageFlags::INDIRECT_BUFFER)
            .as_raw()
    );
    assert_eq!(convert::to_vk_buffer_usage(BufferUsage::empty()), 0);

    let image = TextureUsage {
        bits: pal::types::TEXTURE_USAGE_SAMPLED | pal::types::TEXTURE_USAGE_DEPTH_STENCIL_ATTACHMENT,
    };
    assert_eq!(
        convert::to_vk_image_usage(image),
        (native::ImageUsageFlags::SAMPLED | native::ImageUsageFlags::DEPTH_STENCIL_ATTACHMENT).as_raw()
    );
    assert_eq!(
        convert::to_vk_image_usage(TextureUsage { bits: 0b11_1111 }),
        (native::ImageUsageFlags::TRANSFER_SRC
            | native::ImageUsageFlags::TRANSFER_DST
            | native::ImageUsageFlags::SAMPLED
            | native::ImageUsageFlags::STORAGE
            | native::ImageUsageFlags::COLOR_ATTACHMENT
            | native::ImageUsageFlags::DEPTH_STENCIL_ATTACHMENT)
            .as_raw()
    );
    assert!(TextureUsage::empty().contains(0));
    assert!(!TextureUsage::empty().contains(pal::types::TEXTURE_USAGE_STORAGE));
}

#[test]
fn device_and_surface_codes_are_the_native_ones() {
    assert_eq!(device::QUEUE_GRAPHICS, native::QueueFlags::GRAPHICS.as_raw());
    assert_eq!(device::QUEUE_COMPUTE, native::QueueFlags::COMPUTE.as_raw());
    assert_eq!(device::QUEUE_TRANSFER, native::QueueFlags::TRANSFER.as_raw());
    assert_eq!(device::DEVICE_TYPE_OTHER, native::PhysicalDeviceType::OTHER.as_raw());
    assert_eq!(device::DEVICE_TYPE_INTEGRATED_GPU, native::PhysicalDeviceType::INTEGRATED_GPU.as_raw());
    assert_eq!(device::DEVICE_TYPE_DISCRETE_GPU, native::PhysicalDeviceType::DISCRETE_GPU.as_raw());
    assert_eq!(device::DEVICE_TYPE_VIRTUAL_GPU, native::PhysicalDeviceType::VIRTUAL_GPU.as_raw());
    assert_eq!(device::DEVICE_TYPE_CPU, native::PhysicalDeviceType::CPU.as_raw());
    assert_eq!(surface::COLOR_SPACE_SRGB_NONLINEAR, native::ColorSpaceKHR::SRGB_NONLINEAR.as_raw());
    assert_eq!(surface::SURFACE_TRANSFORM_IDENTITY, native::SurfaceTransformFlagsKHR::IDENTITY.as_raw());
    assert_eq!(surface::PRESENT_MODE_IMMEDIATE, native::PresentModeKHR::IMMEDIATE.as_raw());
    assert_eq!(surface::SHARING_MODE_EXCLUSIVE, native::SharingMode::EXCLUSIVE.as_raw());
    assert_eq!(surface::SHARING_MODE_CONCURRENT, native::SharingMode::CONCURRENT.as_raw());
}
