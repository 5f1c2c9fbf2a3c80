//! Graphics pipelines and the state they are created from.

use vstd::prelude::*;
use crate::shader::Shader;
use crate::types::{
    BlendFactor, BlendOp, ColorComponents, CompareOp, CullMode, FrontFace, PolygonMode,
    PrimitiveTopology, VertexFormat, VertexInputRate,
};

verus! {

#[derive(Debug, Copy, Clone)]
pub struct ShaderStages {
    pub vertex: Shader,
    pub fragment: Option<Shader>,
}

#[derive(Debug, Copy, Clone, PartialEq, Eq, Structural)]
pub struct VertexInputAttribute {
    pub location: u32,
    pub binding: u32,
    pub format: VertexFormat,
    pub offset: u32,
}

#[derive(Debug, Copy, Clone, PartialEq, Eq, Structural)]
pub struct VertexInputBinding {
    pub binding: u32,
    pub stride: u32,
    pub input_rate: VertexInputRate,
}

#[derive(Debug, Clone)]
pub struct VertexInputState {
    pub attributes: Vec<VertexInputAttribute>,
    pub bindings: Vec<VertexInputBinding>,
    pub topology: PrimitiveTopology,
}

#[derive(Debug, Copy, Clone, PartialEq, Eq, Structural)]
pub struct RasterizationState {
    pub polygon_mode: PolygonMode,
    pub cull_mode: CullMode,
    pub front_face: FrontFace,
}

/// Depth testing. The depth bounds are held as the bit patterns of 32-bit
/// IEEE-754 numbers.
#[derive(Debug, Copy, Clone, PartialEq, Eq, Structural)]
pub struct DepthStencilState {
    pub depth_clamp: bool,
    pub depth_test: bool,
    pub depth_write: bool,
    pub depth_compare: CompareOp,
    pub min_depth: u32,
    pub max_depth: u32,
}

#[derive(Debug, Copy, Clone, PartialEq, Eq, Structural)]
pub struct ColorBlendAttachment {
    pub write_mask: ColorComponents,
    pub blend: bool,
    pub color_blend_op: BlendOp,
    pub src_color_blend_factor: BlendFactor,
    pub dst_color_blend_factor: BlendFactor,
    pub alpha_blend_op: BlendOp,
    pub src_alpha_blend_factor: BlendFactor,
    pub dst_alpha_blend_factor: BlendFactor,
}

#[derive(Debug, Clone)]
pub struct ColorBlendState {
    pub attachments: Vec<ColorBlendAttachment>,
}

#[derive(Debug, Clone)]
pub struct GraphicsPipelineCreateInfo {
    pub stages: ShaderStages,
    pub vertex_input: VertexInputState,
    pub rasterization: RasterizationState,
    pub depth_stencil: Option<DepthStencilState>,
    pub color_blend: Option<ColorBlendState>,
}

/// A graphics pipeline. The native pipeline is made when the pipeline is
/// first bound within a render pass, one for each kind of render pass.
#[derive(Debug, Copy, Clone, PartialEq, Eq, Structural)]
pub struct GraphicsPipeline {
    /// Identifies the state that the native pipelines are made from.
    pub id: u64,
    /// The native pipeline layout.
    pub layout: u64,
}

#[derive(Debug)]
pub enum GraphicsPipelineCreateError {
    NoAttributesOrBindings,
    NoAttachments,
    Other(String),
}

/// The bit pattern of the number 1 as a 32-bit IEEE-754 number.
pub const ONE_F32_BITS: u32 = 0x3f80_0000;

impl Default for VertexInputState {
    fn default() -> (r: Self)
        ensures
            r.attributes@.len() == 0,
            r.bindings@.len() == 0,
            r.topology == PrimitiveTopology::TriangleList,
    {
        VertexInputState {
            attributes: Vec::new(),
            bindings: Vec::new(),
            topology: PrimitiveTopology::TriangleList,
        }
    }
}

impl Default for RasterizationState {
    fn default() -> (r: Self)
        ensures
            r == (RasterizationState {
                polygon_mode: PolygonMode::Fill,
                cull_mode: CullMode::Back,
                front_face: FrontFace::CounterClockwise,
            }),
    {
        RasterizationState {
            polygon_mode: PolygonMode::Fill,
            cull_mode: CullMode::Back,
            front_face: FrontFace::CounterClockwise,
        }
    }
}

impl Default for DepthStencilState {
    fn default() -> (r: Self)
        ensures
            r == (DepthStencilState {
                depth_clamp: false,
                depth_test: false,
                depth_write: false,
                depth_compare: CompareOp::Always,
                min_depth: 0,
                max_depth: ONE_F32_BITS,
            }),
    {
        DepthStencilState {
            depth_clamp: false,
            depth_test: false,
            depth_write: false,
            depth_compare: CompareOp::Always,
            min_depth: 0,
            max_depth: ONE_F32_BITS,
        }
    }
}

impl Default for ColorBlendAttachment {
    fn default() -> (r: Self)
        ensures
            r == (ColorBlendAttachment {
                write_mask: ColorComponents { bits: 0 },
                blend: false,
                color_blend_op: BlendOp::Add,
                src_color_blend_factor: BlendFactor::One,
                dst_color_blend_factor: BlendFactor::Zero,
                alpha_blend_op: BlendOp::Add,
                src_alpha_blend_factor: BlendFactor::One,
                dst_alpha_blend_factor: BlendFactor::Zero,
            }),
    {
        ColorBlendAttachment {
            write_mask: ColorComponents::empty(),
            blend: false,
            color_blend_op: BlendOp::Add,
            src_color_blend_factor: BlendFactor::One,
            dst_color_blend_factor: BlendFactor::Zero,
            alpha_blend_op: BlendOp::Add,
            src_alpha_blend_factor: BlendFactor::One,
            dst_alpha_blend_factor: BlendFactor::Zero,
        }
    }
}

impl Default for ColorBlendState {
    fn default() -> (r: Self)
        ensures
            r.attachments@.len() == 0,
    {
        ColorBlendState { attachments: Vec::new() }
    }
}

impl GraphicsPipeline {
    /// The pipeline with identity `id` and the native layout `layout`.
    pub fn new(id: u64, layout: u64) -> (r: Self)
        ensures
            r.id == id,
            r.layout == layout,
    {
        GraphicsPipeline { id, layout }
    }

    /// The native pipeline layout.
    pub fn layout(&self) -> (r: u64)
        ensures
            r == self.layout,
    {
        self.layout
    }
}

} // verus!
