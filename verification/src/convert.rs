//! The native codes of the recording interface's enumerations and flag
//! sets.

use vstd::prelude::*;
use crate::descriptor_set::DescriptorType;
use crate::types::{
    BlendFactor, BlendOp, BufferUsage, ColorComponents, CompareOp, CullMode, FrontFace, IndexType,
    LoadOp, PolygonMode, PresentMode, PrimitiveTopology, ShaderStage, StoreOp, TextureFormat,
    TextureType, TextureUsage, VertexFormat, VertexInputRate, BUFFER_USAGE_INDEX_BUFFER,
    BUFFER_USAGE_INDIRECT_BUFFER, BUFFER_USAGE_STORAGE_BUFFER, BUFFER_USAGE_TRANSFER_DST,
    BUFFER_USAGE_TRANSFER_SRC, BUFFER_USAGE_UNIFORM_BUFFER, BUFFER_USAGE_VERTEX_BUFFER,
    COLOR_COMPONENT_A, COLOR_COMPONENT_B, COLOR_COMPONENT_G, COLOR_COMPONENT_R,
    TEXTURE_USAGE_COLOR_ATTACHMENT, TEXTURE_USAGE_DEPTH_STENCIL_ATTACHMENT, TEXTURE_USAGE_SAMPLED,
    TEXTURE_USAGE_STORAGE, TEXTURE_USAGE_TRANSFER_DST, TEXTURE_USAGE_TRANSFER_SRC,
};

verus! {

/// The native present mode.
pub open spec fn spec_vk_present_mode(present_mode: PresentMode) -> i32 {
    match present_mode {
        PresentMode::Immediate => 0,
        PresentMode::Mailbox => 1,
        PresentMode::Fifo => 2,
        PresentMode::FifoRelaxed => 3,
    }
}

/// The native present mode.
pub fn to_vk_present_mode(present_mode: PresentMode) -> (r: i32)
    ensures
        r == spec_vk_present_mode(present_mode),
{
    match present_mode {
        PresentMode::Immediate => 0,
        PresentMode::Mailbox => 1,
        PresentMode::Fifo => 2,
        PresentMode::FifoRelaxed => 3,
    }
}

/// The native format of a texture format.
pub open spec fn spec_vk_format(format: TextureFormat) -> i32 {
    match format {
        TextureFormat::R8Unorm => 9,
        TextureFormat::Rgba8Unorm => 37,
        TextureFormat::Bgra8Unorm => 44,
    }
}

/// The native format of a texture format.
pub fn to_vk_format(format: TextureFormat) -> (r: i32)
    ensures
        r == spec_vk_format(format),
{
    match format {
        TextureFormat::R8Unorm => 9,
        TextureFormat::Rgba8Unorm => 37,
        TextureFormat::Bgra8Unorm => 44,
    }
}

/// The native index type.
pub open spec fn spec_vk_index_type(ty: IndexType) -> i32 {
    match ty {
        IndexType::U16 => 0,
        IndexType::U32 => 1,
    }
}

/// The native index type.
pub fn to_vk_index_type(ty: IndexType) -> (r: i32)
    ensures
        r == spec_vk_index_type(ty),
{
    match ty {
        IndexType::U16 => 0,
        IndexType::U32 => 1,
    }
}

/// The native store operation.
pub open spec fn spec_vk_store_op(store_op: StoreOp) -> i32 {
    match store_op {
        StoreOp::DontCare => 1,
        StoreOp::Store => 0,
    }
}

/// The native store operation.
pub fn to_vk_store_op(store_op: StoreOp) -> (r: i32)
    ensures
        r == spec_vk_store_op(store_op),
{
    match store_op {
        StoreOp::DontCare => 1,
        StoreOp::Store => 0,
    }
}

/// The native vertex input rate.
pub open spec fn spec_vk_vertex_rate(rate: VertexInputRate) -> i32 {
    match rate {
        VertexInputRate::Vertex => 0,
        VertexInputRate::Instance => 1,
    }
}

/// The native vertex input rate.
pub fn to_vk_vertex_rate(rate: VertexInputRate) -> (r: i32)
    ensures
        r == spec_vk_vertex_rate(rate),
{
    match rate {
        VertexInputRate::Vertex => 0,
        VertexInputRate::Instance => 1,
    }
}

/// The native format of a vertex attribute.
pub open spec fn spec_vk_vertex_format(format: VertexFormat) -> i32 {
    match format {
        VertexFormat::XF32 => 100,
        VertexFormat::XyF32 => 103,
        VertexFormat::XyzwF32 => 109,
    }
}

/// The native format of a vertex attribute.
pub fn to_vk_vertex_format(format: VertexFormat) -> (r: i32)
    ensures
        r == spec_vk_vertex_format(format),
{
    match format {
        VertexFormat::XF32 => 100,
        VertexFormat::XyF32 => 103,
        VertexFormat::XyzwF32 => 109,
    }
}

/// The native shader stage mask.
pub open spec fn spec_vk_shader_stage(ss: ShaderStage) -> u32 {
    match ss {
        ShaderStage::AllGraphics => 0x1f,
        ShaderStage::Vertex => 0x1,
        ShaderStage::Fragment => 0x10,
        ShaderStage::Compute => 0x20,
    }
}

/// The native shader stage mask.
pub fn to_vk_shader_stage(ss: ShaderStage) -> (r: u32)
    ensures
        r == spec_vk_shader_stage(ss),
{
    match ss {
        ShaderStage::AllGraphics => 0x1f,
        ShaderStage::Vertex => 0x1,
        ShaderStage::Fragment => 0x10,
        ShaderStage::Compute => 0x20,
    }
}

/// The native primitive topology.
pub open spec fn spec_vk_topology(top: PrimitiveTopology) -> i32 {
    match top {
        PrimitiveTopology::PontList => 0,
        PrimitiveTopology::LineList => 1,
        PrimitiveTopology::TriangleList => 3,
    }
}

/// The native primitive topology.
pub fn to_vk_topology(top: PrimitiveTopology) -> (r: i32)
    ensures
        r == spec_vk_topology(top),
{
    match top {
        PrimitiveTopology::PontList => 0,
        PrimitiveTopology::LineList => 1,
        PrimitiveTopology::TriangleList => 3,
    }
}

/// The native cull mode mask.
pub open spec fn spec_vk_cull_mode(cm: CullMode) -> u32 {
    match cm {
        CullMode::Neither => 0,
        CullMode::Front => 1,
        CullMode::Back => 2,
        CullMode::FrontAndBack => 3,
    }
}

/// The native cull mode mask.
pub fn to_vk_cull_mode(cm: CullMode) -> (r: u32)
    ensures
        r == spec_vk_cull_mode(cm),
{
    match cm {
        CullMode::Neither => 0,
        CullMode::Front => 1,
        CullMode::Back => 2,
        CullMode::FrontAndBack => 3,
    }
}

/// The native front face.
pub open spec fn spec_vk_front_face(ff: FrontFace) -> i32 {
    match ff {
        FrontFace::CounterClockwise => 0,
        FrontFace::Clockwise => 1,
    }
}

/// The native front face.
pub fn to_vk_front_face(ff: FrontFace) -> (r: i32)
    ensures
        r == spec_vk_front_face(ff),
{
    match ff {
        FrontFace::CounterClockwise => 0,
        FrontFace::Clockwise => 1,
    }
}

/// The native polygon mode.
pub open spec fn spec_vk_polygon_mode(pm: PolygonMode) -> i32 {
    match pm {
        PolygonMode::Fill => 0,
        PolygonMode::Line => 1,
        PolygonMode::Point => 2,
    }
}

/// The native polygon mode.
pub fn to_vk_polygon_mode(pm: PolygonMode) -> (r: i32)
    ensures
        r == spec_vk_polygon_mode(pm),
{
    match pm {
        PolygonMode::Fill => 0,
        PolygonMode::Line => 1,
        PolygonMode::Point => 2,
    }
}

/// The native comparison.
pub open spec fn spec_vk_compare_op(co: CompareOp) -> i32 {
    match co {
        CompareOp::Never => 0,
        CompareOp::Less => 1,
        CompareOp::Equal => 2,
        CompareOp::LessOrEqual => 3,
        CompareOp::Greater => 4,
        CompareOp::NotEqual => 5,
        CompareOp::GreaterOrEqual => 6,
        CompareOp::Always => 7,
    }
}

/// The native comparison.
pub fn to_vk_compare_op(co: CompareOp) -> (r: i32)
    ensures
        r == spec_vk_compare_op(co),
{
    match co {
        CompareOp::Never => 0,
        CompareOp::Less => 1,
        CompareOp::Equal => 2,
        CompareOp::LessOrEqual => 3,
        CompareOp::Greater => 4,
        CompareOp::NotEqual => 5,
        CompareOp::GreaterOrEqual => 6,
        CompareOp::Always => 7,
    }
}

/// The native blend factor.
pub open spec fn spec_vk_blend_factor(bf: BlendFactor) -> i32 {
    match bf {
        BlendFactor::Zero => 0,
        BlendFactor::One => 1,
        BlendFactor::SrcColor => 2,
        BlendFactor::OneMinusSrcColor => 3,
        BlendFactor::DstColor => 4,
        BlendFactor::OneMinusDstColor => 5,
        BlendFactor::SrcAlpha => 6,
        BlendFactor::OneMinusSrcAlpha => 7,
        BlendFactor::DstAlpha => 8,
        BlendFactor::OneMinusDstAlpha => 9,
    }
}

/// The native blend factor.
pub fn to_vk_blend_factor(bf: BlendFactor) -> (r: i32)
    ensures
        r == spec_vk_blend_factor(bf),
{
    match bf {
        BlendFactor::Zero => 0,
        BlendFactor::One => 1,
        BlendFactor::SrcColor => 2,
        BlendFactor::OneMinusSrcColor => 3,
        BlendFactor::DstColor => 4,
        BlendFactor::OneMinusDstColor => 5,
        BlendFactor::SrcAlpha => 6,
        BlendFactor::OneMinusSrcAlpha => 7,
        BlendFactor::DstAlpha => 8,
        BlendFactor::OneMinusDstAlpha => 9,
    }
}

/// The native blend operation.
pub open spec fn spec_vk_blend_op(bo: BlendOp) -> i32 {
    match bo {
        BlendOp::Add => 0,
        BlendOp::Subtract => 1,
        BlendOp::ReverseSubtract => 2,
        BlendOp::Min => 3,
        BlendOp::Max => 4,
    }
}

/// The native blend operation.
pub fn to_vk_blend_op(bo: BlendOp) -> (r: i32)
    ensures
        r == spec_vk_blend_op(bo),
{
    match bo {
        BlendOp::Add => 0,
        BlendOp::Subtract => 1,
        BlendOp::ReverseSubtract => 2,
        BlendOp::Min => 3,
        BlendOp::Max => 4,
    }
}

/// The native image type.
pub open spec fn spec_vk_image_type(it: TextureType) -> i32 {
    match it {
        TextureType::Type1D => 0,
        TextureType::Type2D => 1,
        TextureType::Type3D => 2,
    }
}

/// The native image type.
pub fn to_vk_image_type(it: TextureType) -> (r: i32)
    ensures
        r == spec_vk_image_type(it),
{
    match it {
        TextureType::Type1D => 0,
        TextureType::Type2D => 1,
        TextureType::Type3D => 2,
    }
}

/// The native load operation.
pub open spec fn spec_vk_load_op(load_op: LoadOp) -> i32 {
    match load_op {
        LoadOp::DontCare => 2,
        LoadOp::Load => 0,
        LoadOp::Clear(_) => 1,
    }
}

/// The native load operation.
pub fn to_vk_load_op(load_op: LoadOp) -> (r: i32)
    ensures
        r == spec_vk_load_op(load_op),
{
    match load_op {
        LoadOp::DontCare => 2,
        LoadOp::Load => 0,
        LoadOp::Clear(_) => 1,
    }
}

/// The native descriptor type.
pub open spec fn spec_vk_descriptor_type(ty: DescriptorType) -> i32 {
    match ty {
        DescriptorType::Texture => 1,
        DescriptorType::UniformBuffer => 6,
        DescriptorType::StorageBuffer(_) => 7,
    }
}

/// The native descriptor type.
pub fn to_vk_descriptor_type(ty: DescriptorType) -> (r: i32)
    ensures
        r == spec_vk_descriptor_type(ty),
{
    match ty {
        DescriptorType::Texture => 1,
        DescriptorType::UniformBuffer => 6,
        DescriptorType::StorageBuffer(_) => 7,
    }
}

/// `to` when `bits` holds all of `from`, else nothing.
pub open spec fn moved_flag(bits: u32, from: u32, to: u32) -> u32 {
    if bits & from == from {
        to
    } else {
        0
    }
}

/// The native color component mask: each channel that is set, at its
/// native bit.
pub open spec fn spec_vk_color_components(cc: ColorComponents) -> u32 {
    0 | moved_flag(cc.bits, COLOR_COMPONENT_R, 0x1) | moved_flag(cc.bits, COLOR_COMPONENT_G, 0x2)
        | moved_flag(cc.bits, COLOR_COMPONENT_B, 0x4) | moved_flag(cc.bits, COLOR_COMPONENT_A, 0x8)
}

/// The native color component mask.
pub fn to_vk_color_components(cc: ColorComponents) -> (r: u32)
    ensures
        r == spec_vk_color_components(cc),
{
    let mut out: u32 = 0;
    out = out | if cc.contains(COLOR_COMPONENT_R) { 0x1 } else { 0 };
    out = out | if cc.contains(COLOR_COMPONENT_G) { 0x2 } else { 0 };
    out = out | if cc.contains(COLOR_COMPONENT_B) { 0x4 } else { 0 };
    out = out | if cc.contains(COLOR_COMPONENT_A) { 0x8 } else { 0 };
    out
}

/// The native buffer usage mask: each use that is set, at its native bit.
pub open spec fn spec_vk_buffer_usage(bu: BufferUsage) -> u32 {
    0 | moved_flag(bu.bits, BUFFER_USAGE_INDEX_BUFFER, 0x40) | moved_flag(
        bu.bits,
        BUFFER_USAGE_VERTEX_BUFFER,
        0x80,
    ) | moved_flag(bu.bits, BUFFER_USAGE_UNIFORM_BUFFER, 0x10) | moved_flag(
        bu.bits,
        BUFFER_USAGE_STORAGE_BUFFER,
        0x20,
    ) | moved_flag(bu.bits, BUFFER_USAGE_TRANSFER_DST, 0x2) | moved_flag(
        bu.bits,
        BUFFER_USAGE_TRANSFER_SRC,
        0x1,
    ) | moved_flag(bu.bits, BUFFER_USAGE_INDIRECT_BUFFER, 0x100)
}

/// The native buffer usage mask.
pub fn to_vk_buffer_usage(bu: BufferUsage) -> (r: u32)
    ensures
        r == spec_vk_buffer_usage(bu),
{
    let mut out: u32 = 0;
    out = out | if bu.contains(BUFFER_USAGE_INDEX_BUFFER) { 0x40 } else { 0 };
    out = out | if bu.contains(BUFFER_USAGE_VERTEX_BUFFER) { 0x80 } else { 0 };
    out = out | if bu.contains(BUFFER_USAGE_UNIFORM_BUFFER) { 0x10 } else { 0 };
    out = out | if bu.contains(BUFFER_USAGE_STORAGE_BUFFER) { 0x20 } else { 0 };
    out = out | if bu.contains(BUFFER_USAGE_TRANSFER_DST) { 0x2 } else { 0 };
    out = out | if bu.contains(BUFFER_USAGE_TRANSFER_SRC) { 0x1 } else { 0 };
    out = out | if bu.contains(BUFFER_USAGE_INDIRECT_BUFFER) { 0x100 } else { 0 };
    out
}

/// The native image usage mask: each use that is set, at its native bit.
pub open spec fn spec_vk_image_usage(iu: TextureUsage) -> u32 {
    0 | moved_flag(iu.bits, TEXTURE_USAGE_TRANSFER_SRC, 0x1) | moved_flag(
        iu.bits,
        TEXTURE_USAGE_TRANSFER_DST,
        0x2,
    ) | moved_flag(iu.bits, TEXTURE_USAGE_SAMPLED, 0x4) | moved_flag(
        iu.bits,
        TEXTURE_USAGE_STORAGE,
        0x8,
    ) | moved_flag(iu.bits, TEXTURE_USAGE_COLOR_ATTACHMENT, 0x10) | moved_flag(
        iu.bits,
        TEXTURE_USAGE_DEPTH_STENCIL_ATTACHMENT,
        0x20,
    )
}

/// The native image usage mask.
pub fn to_vk_image_usage(iu: TextureUsage) -> (r: u32)
    ensures
        r == spec_vk_image_usage(iu),
{
    let mut out: u32 = 0;
    out = out | if iu.contains(TEXTURE_USAGE_TRANSFER_SRC) { 0x1 } else { 0 };
    out = out | if iu.contains(TEXTURE_USAGE_TRANSFER_DST) { 0x2 } else { 0 };
    out = out | if iu.contains(TEXTURE_USAGE_SAMPLED) { 0x4 } else { 0 };
    out = out | if iu.contains(TEXTURE_USAGE_STORAGE) { 0x8 } else { 0 };
    out = out | if iu.contains(TEXTURE_USAGE_COLOR_ATTACHMENT) { 0x10 } else { 0 };
    out = out | if iu.contains(TEXTURE_USAGE_DEPTH_STENCIL_ATTACHMENT) { 0x20 } else { 0 };
    out
}

/// In the native buffer usage mask a use is set exactly when it is set in
/// the source.
pub proof fn lemma_vk_buffer_usage(bu: BufferUsage)
    ensures
        spec_vk_buffer_usage(bu) & 0x40 == 0x40 <==> bu.bits & BUFFER_USAGE_INDEX_BUFFER
            == BUFFER_USAGE_INDEX_BUFFER,
        spec_vk_buffer_usage(bu) & 0x80 == 0x80 <==> bu.bits & BUFFER_USAGE_VERTEX_BUFFER
            == BUFFER_USAGE_VERTEX_BUFFER,
        spec_vk_buffer_usage(bu) & 0x10 == 0x10 <==> bu.bits & BUFFER_USAGE_UNIFORM_BUFFER
            == BUFFER_USAGE_UNIFORM_BUFFER,
        spec_vk_buffer_usage(bu) & 0x20 == 0x20 <==> bu.bits & BUFFER_USAGE_STORAGE_BUFFER
            == BUFFER_USAGE_STORAGE_BUFFER,
        spec_vk_buffer_usage(bu) & 0x2 == 0x2 <==> bu.bits & BUFFER_USAGE_TRANSFER_DST
            == BUFFER_USAGE_TRANSFER_DST,
        spec_vk_buffer_usage(bu) & 0x1 == 0x1 <==> bu.bits & BUFFER_USAGE_TRANSFER_SRC
            == BUFFER_USAGE_TRANSFER_SRC,
        spec_vk_buffer_usage(bu) & 0x100 == 0x100 <==> bu.bits & BUFFER_USAGE_INDIRECT_BUFFER
            == BUFFER_USAGE_INDIRECT_BUFFER,
        spec_vk_buffer_usage(bu) & !0x1f3u32 == 0,
{
    let a = moved_flag(bu.bits, BUFFER_USAGE_INDEX_BUFFER, 0x40);
    let b = moved_flag(bu.bits, BUFFER_USAGE_VERTEX_BUFFER, 0x80);
    let c = moved_flag(bu.bits, BUFFER_USAGE_UNIFORM_BUFFER, 0x10);
    let d = moved_flag(bu.bits, BUFFER_USAGE_STORAGE_BUFFER, 0x20);
    let e = moved_flag(bu.bits, BUFFER_USAGE_TRANSFER_DST, 0x2);
    let f = moved_flag(bu.bits, BUFFER_USAGE_TRANSFER_SRC, 0x1);
    let g = moved_flag(bu.bits, BUFFER_USAGE_INDIRECT_BUFFER, 0x100);
    let r = 0 | a | b | c | d | e | f | g;
    assert((r & 0x40 == 0x40 <==> a == 0x40) && (r & 0x80 == 0x80 <==> b == 0x80) && (r & 0x10
        == 0x10 <==> c == 0x10) && (r & 0x20 == 0x20 <==> d == 0x20) && (r & 0x2 == 0x2 <==> e
        == 0x2) && (r & 0x1 == 0x1 <==> f == 0x1) && (r & 0x100 == 0x100 <==> g == 0x100) && r
        & !0x1f3u32 == 0) by (bit_vector)
        requires
            r == 0 | a | b | c | d | e | f | g,
            a == 0 || a == 0x40,
            b == 0 || b == 0x80,
            c == 0 || c == 0x10,
            d == 0 || d == 0x20,
            e == 0 || e == 0x2,
            f == 0 || f == 0x1,
            g == 0 || g == 0x100,
    ;
}

} // verus!
