//! Turns recorded commands into native commands.

use vstd::prelude::*;
use crate::buffer::Buffer;
use crate::command_buffer::{BufferTextureCopy, Command};
use crate::convert::{spec_vk_index_type, to_vk_index_type};
use crate::descriptor_set::DescriptorSet;
use crate::render_pass::{ColorAttachment, ColorAttachmentSource, RenderPassDescriptor, VertexBind};
use crate::render_pass_cache::{
    pass_descriptions, pass_key, AttachmentDescription, RenderPassKey, VkRenderPassDescriptor,
};
use crate::texture::{lemma_view_index, Texture};
use crate::types::{ClearColor, LoadOp, ShaderStage};
use crate::usage::{BarrierView, BufferMemoryBarrier, ImageMemoryBarrier, PipelineBarrier};
use crate::vk::{LAYOUT_TRANSFER_DST_OPTIMAL, LAYOUT_TRANSFER_SRC_OPTIMAL};

verus! {

/// The region of a copy between a buffer and an image.
#[derive(Debug, Copy, Clone, PartialEq, Eq)]
pub struct BufferImageCopy {
    pub buffer_offset: u64,
    pub buffer_row_length: u32,
    pub buffer_image_height: u32,
    pub aspect_mask: u32,
    pub mip_level: u32,
    pub base_array_layer: u32,
    pub layer_count: u32,
    pub image_offset: (i32, i32, i32),
    pub image_extent: (u32, u32, u32),
}

/// A command of the native command buffer.
#[derive(Debug)]
pub enum NativeCommand {
    /// The barriers of a scope.
    PipelineBarrier(PipelineBarrier),
    /// A viewport over the whole target, turned upside down: it starts at
    /// the bottom row and has the negated height, with depth from 0 to 1.
    SetViewport { width: u32, height: u32 },
    /// A scissor over the whole target.
    SetScissor { width: u32, height: u32 },
    /// Begins a render pass with its contents inline. The native render
    /// pass is the one for `pass`, made from `attachments` when there is
    /// none yet; the framebuffer is the one for that pass and `views`.
    BeginRenderPass {
        pass: VkRenderPassDescriptor,
        attachments: Vec<AttachmentDescription>,
        views: Vec<u64>,
        width: u32,
        height: u32,
        clear_values: Vec<ClearColor>,
    },
    EndRenderPass,
    BindComputePipeline { pipeline: u64 },
    /// Binds the native pipeline of the graphics pipeline `id` for the
    /// render pass that the command at place `pass` began.
    BindGraphicsPipeline { id: u64, layout: u64, pass: Option<usize> },
    BindDescriptorSets { compute: bool, layout: u64, first: u32, sets: Vec<u64> },
    BindVertexBuffers { first: u32, buffers: Vec<u64>, offsets: Vec<u64> },
    BindIndexBuffer { buffer: u64, offset: u64, index_type: i32 },
    Dispatch { x: u32, y: u32, z: u32 },
    Draw { vertex_count: u32, instance_count: u32, first_vertex: u32, first_instance: u32 },
    DrawIndexed {
        index_count: u32,
        instance_count: u32,
        first_index: u32,
        vertex_offset: i32,
        first_instance: u32,
    },
    DrawIndexedIndirect { buffer: u64, offset: u64, draw_count: u32, stride: u32 },
    CopyBuffer { src: u64, dst: u64, src_offset: u64, dst_offset: u64, size: u64 },
    CopyBufferToImage { buffer: u64, image: u64, layout: i32, region: BufferImageCopy },
    CopyImageToBuffer { image: u64, layout: i32, buffer: u64, region: BufferImageCopy },
}

/// The model of a [`NativeCommand`].
pub enum NativeOp {
    PipelineBarrier {
        src_stage: u32,
        dst_stage: u32,
        dependency: u32,
        buffer_barriers: Seq<BufferMemoryBarrier>,
        image_barriers: Seq<ImageMemoryBarrier>,
    },
    SetViewport { width: u32, height: u32 },
    SetScissor { width: u32, height: u32 },
    BeginRenderPass {
        pass: RenderPassKey,
        attachments: Seq<AttachmentDescription>,
        views: Seq<u64>,
        width: u32,
        height: u32,
        clear_values: Seq<ClearColor>,
    },
    EndRenderPass,
    BindComputePipeline { pipeline: u64 },
    BindGraphicsPipeline { id: u64, layout: u64, pass: Option<usize> },
    BindDescriptorSets { compute: bool, layout: u64, first: u32, sets: Seq<u64> },
    BindVertexBuffers { first: u32, buffers: Seq<u64>, offsets: Seq<u64> },
    BindIndexBuffer { buffer: u64, offset: u64, index_type: i32 },
    Dispatch { x: u32, y: u32, z: u32 },
    Draw { vertex_count: u32, instance_count: u32, first_vertex: u32, first_instance: u32 },
    DrawIndexed {
        index_count: u32,
        instance_count: u32,
        first_index: u32,
        vertex_offset: i32,
        first_instance: u32,
    },
    DrawIndexedIndirect { buffer: u64, offset: u64, draw_count: u32, stride: u32 },
    CopyBuffer { src: u64, dst: u64, src_offset: u64, dst_offset: u64, size: u64 },
    CopyBufferToImage { buffer: u64, image: u64, layout: i32, region: BufferImageCopy },
    CopyImageToBuffer { image: u64, layout: i32, buffer: u64, region: BufferImageCopy },
}

impl View for NativeCommand {
    type V = NativeOp;

    open spec fn view(&self) -> NativeOp {
        match *self {
            NativeCommand::PipelineBarrier(b) => NativeOp::PipelineBarrier {
                src_stage: b.src_stage,
                dst_stage: b.dst_stage,
                dependency: b.dependency,
                buffer_barriers: b.buffer_barriers@,
                image_barriers: b.image_barriers@,
            },
            NativeCommand::SetViewport { width, height } => NativeOp::SetViewport { width, height },
            NativeCommand::SetScissor { width, height } => NativeOp::SetScissor { width, height },
            NativeCommand::BeginRenderPass {
                pass,
                attachments,
                views,
                width,
                height,
                clear_values,
            } => NativeOp::BeginRenderPass {
                pass: pass@,
                attachments: attachments@,
                views: views@,
                width,
                height,
                clear_values: clear_values@,
            },
            NativeCommand::EndRenderPass => NativeOp::EndRenderPass,
            NativeCommand::BindComputePipeline { pipeline } => NativeOp::BindComputePipeline {
                pipeline,
            },
            NativeCommand::BindGraphicsPipeline { id, layout, pass } => NativeOp::BindGraphicsPipeline {
                id,
                layout,
                pass,
            },
            NativeCommand::BindDescriptorSets {
                compute,
                layout,
                first,
                sets,
            } => NativeOp::BindDescriptorSets { compute, layout, first, sets: sets@ },
            NativeCommand::BindVertexBuffers { first, buffers, offsets } => NativeOp::BindVertexBuffers {
                first,
                buffers: buffers@,
                offsets: offsets@,
            },
            NativeCommand::BindIndexBuffer { buffer, offset, index_type } => NativeOp::BindIndexBuffer {
                buffer,
                offset,
                index_type,
            },
            NativeCommand::Dispatch { x, y, z } => NativeOp::Dispatch { x, y, z },
            NativeCommand::Draw {
                vertex_count,
                instance_count,
                first_vertex,
                first_instance,
            } => NativeOp::Draw { vertex_count, instance_count, first_vertex, first_instance },
            NativeCommand::DrawIndexed {
                index_count,
                instance_count,
                first_index,
                vertex_offset,
                first_instance,
            } => NativeOp::DrawIndexed {
                index_count,
                instance_count,
                first_index,
                vertex_offset,
                first_instance,
            },
            NativeCommand::DrawIndexedIndirect {
                buffer,
                offset,
                draw_count,
                stride,
            } => NativeOp::DrawIndexedIndirect { buffer, offset, draw_count, stride },
            NativeCommand::CopyBuffer {
                src,
                dst,
                src_offset,
                dst_offset,
                size,
            } => NativeOp::CopyBuffer { src, dst, src_offset, dst_offset, size },
            NativeCommand::CopyBufferToImage {
                buffer,
                image,
                layout,
                region,
            } => NativeOp::CopyBufferToImage { buffer, image, layout, region },
            NativeCommand::CopyImageToBuffer {
                image,
                layout,
                buffer,
                region,
            } => NativeOp::CopyImageToBuffer { image, layout, buffer, region },
        }
    }
}

/// The models of a list of native commands.
pub open spec fn ops_view(commands: Seq<NativeCommand>) -> Seq<NativeOp> {
    Seq::new(commands.len(), |i: int| commands[i]@)
}

/// What the encoder remembers from command to command.
#[derive(Debug, Copy, Clone, PartialEq, Eq, Structural)]
pub struct EncodeState {
    /// The place of the command that began the render pass begun last.
    pub active_pass: Option<usize>,
    /// The layout of the pipeline bound last; 0 before any is bound.
    pub active_layout: u64,
}

/// Where in a buffer the byte at `offset` of element `array_element` lies.
pub open spec fn effective_offset(buffer: &Buffer, array_element: usize, offset: u64) -> int {
    buffer.aligned_size * array_element + offset
}

/// Whether a texture has the view of a mip level of an array element.
pub open spec fn has_view(texture: &Texture, array_element: usize, mip_level: usize) -> bool {
    texture.wf() && array_element < texture.array_elements && mip_level < texture.mip_count
}

/// Whether a color attachment can be encoded: a texture has the view named,
/// and the pass does not clear color with a depth value.
pub open spec fn color_encodable(a: ColorAttachment) -> bool {
    &&& match a.source {
        ColorAttachmentSource::SurfaceImage(_) => true,
        ColorAttachmentSource::Texture { texture, array_element, mip_level } => has_view(
            texture,
            array_element,
            mip_level,
        ),
    }
    &&& match a.load_op {
        LoadOp::Clear(c) => c !is D32S32,
        _ => true,
    }
}

/// Whether a render pass can be encoded: every color attachment can, the
/// depth-stencil texture has the view named, and depth is not cleared with
/// a color value.
pub open spec fn pass_encodable(d: RenderPassDescriptor) -> bool {
    &&& forall|i: int|
        0 <= i < d.color_attachments@.len() ==> color_encodable(#[trigger] d.color_attachments@[i])
    &&& match d.depth_stencil_attachment {
        Some(a) => has_view(a.texture, a.array_element, a.mip_level) && match a.load_op {
            LoadOp::Clear(c) => c is D32S32,
            _ => true,
        },
        None => true,
    }
}

/// Whether a command can be encoded: the views it names exist, its clear
/// values fit its attachments, and its buffer offsets fit in 64 bits.
pub open spec fn encodable(c: Command) -> bool {
    match c {
        Command::BeginRenderPass(d) => pass_encodable(d),
        Command::BindVertexBuffers { binds, .. } => forall|i: int|
            0 <= i < binds@.len() ==> effective_offset(
                (#[trigger] binds@[i]).buffer,
                binds@[i].array_element,
                binds@[i].offset,
            ) <= u64::MAX,
        Command::BindIndexBuffer { buffer, array_element, offset, .. } => effective_offset(
            buffer,
            array_element,
            offset,
        ) <= u64::MAX,
        Command::DrawIndexedIndirect { buffer, array_element, offset, .. } => effective_offset(
            buffer,
            array_element,
            offset,
        ) <= u64::MAX,
        Command::CopyBufferToBuffer(copy) => effective_offset(
            copy.src,
            copy.src_array_element,
            copy.src_offset,
        ) <= u64::MAX && effective_offset(copy.dst, copy.dst_array_element, copy.dst_offset)
            <= u64::MAX,
        Command::CopyBufferToTexture { buffer, copy, .. } => effective_offset(
            buffer,
            copy.buffer_array_element,
            copy.buffer_offset,
        ) <= u64::MAX,
        Command::CopyTextureToBuffer { buffer, copy, .. } => effective_offset(
            buffer,
            copy.buffer_array_element,
            copy.buffer_offset,
        ) <= u64::MAX,
        _ => true,
    }
}

/// The view that a color attachment draws to.
pub open spec fn color_view(a: ColorAttachment) -> u64 {
    match a.source {
        ColorAttachmentSource::SurfaceImage(image) => image.model().view,
        ColorAttachmentSource::Texture { texture, array_element, mip_level } => texture.views@[texture.spec_view_index(
            array_element,
            mip_level,
        )],
    }
}

/// The views of a render pass: those of the color attachments in order,
/// then that of the depth-stencil attachment.
pub open spec fn pass_views(d: RenderPassDescriptor) -> Seq<u64> {
    let colors = Seq::new(d.color_attachments@.len(), |i: int| color_view(d.color_attachments@[i]));
    match d.depth_stencil_attachment {
        Some(a) => colors.push(
            a.texture.views@[a.texture.spec_view_index(a.array_element, a.mip_level)],
        ),
        None => colors,
    }
}

/// The width and height of a render pass: those of its first color
/// attachment; 0 when it has none.
pub open spec fn pass_dims(d: RenderPassDescriptor) -> (u32, u32) {
    if d.color_attachments@.len() == 0 {
        (0, 0)
    } else {
        match d.color_attachments@[0].source {
            ColorAttachmentSource::SurfaceImage(image) => image.model().dims,
            ColorAttachmentSource::Texture { texture, .. } => (texture.dims.0, texture.dims.1),
        }
    }
}

/// The clear values of the first `n` color attachments: one for each that
/// is cleared.
pub open spec fn color_clears(attachments: Seq<ColorAttachment>, n: int) -> Seq<ClearColor>
    decreases n,
{
    if n <= 0 {
        Seq::empty()
    } else {
        match attachments[n - 1].load_op {
            LoadOp::Clear(c) => color_clears(attachments, n - 1).push(c),
            _ => color_clears(attachments, n - 1),
        }
    }
}

/// The clear values of a render pass: those of the color attachments, then
/// that of the depth-stencil attachment.
pub open spec fn pass_clears(d: RenderPassDescriptor) -> Seq<ClearColor> {
    let colors = color_clears(d.color_attachments@, d.color_attachments@.len() as int);
    match d.depth_stencil_attachment {
        Some(a) => match a.load_op {
            LoadOp::Clear(c) => colors.push(c),
            _ => colors,
        },
        None => colors,
    }
}

/// The region of a copy between a buffer and a texture: the buffer side
/// at the effective offset, the texture side as the copy names it.
pub open spec fn copy_region(buffer: &Buffer, texture: &Texture, copy: BufferTextureCopy)
    -> BufferImageCopy {
    BufferImageCopy {
        buffer_offset: effective_offset(buffer, copy.buffer_array_element, copy.buffer_offset) as u64,
        buffer_row_length: copy.buffer_row_length,
        buffer_image_height: copy.buffer_image_height,
        aspect_mask: texture.aspect_flags,
        mip_level: copy.texture_mip_level as u32,
        base_array_layer: copy.texture_array_element as u32,
        layer_count: 1,
        image_offset: (
            copy.texture_offset.0 as i32,
            copy.texture_offset.1 as i32,
            copy.texture_offset.2 as i32,
        ),
        image_extent: copy.texture_extent,
    }
}

/// The native commands of a render pass's beginning: the viewport and the
/// scissor over the whole target, then the beginning itself.
pub open spec fn begin_pass_ops(d: RenderPassDescriptor) -> Seq<NativeOp> {
    seq![
        NativeOp::SetViewport { width: pass_dims(d).0, height: pass_dims(d).1 },
        NativeOp::SetScissor { width: pass_dims(d).0, height: pass_dims(d).1 },
        NativeOp::BeginRenderPass {
            pass: pass_key(d),
            attachments: pass_descriptions(d),
            views: pass_views(d),
            width: pass_dims(d).0,
            height: pass_dims(d).1,
            clear_values: pass_clears(d),
        },
    ]
}

/// The native commands that the command `c` at place `i` is encoded as.
pub open spec fn command_ops(state: EncodeState, c: Command, i: usize) -> Seq<NativeOp> {
    match c {
        Command::BeginRenderPass(d) => begin_pass_ops(d),
        Command::EndRenderPass => seq![NativeOp::EndRenderPass],
        Command::BeginComputePass => Seq::empty(),
        Command::EndComputePass => Seq::empty(),
        Command::BindGraphicsPipeline(p) => seq![
            NativeOp::BindGraphicsPipeline { id: p.id, layout: p.layout, pass: state.active_pass },
        ],
        Command::BindComputePipeline(p) => seq![
            NativeOp::BindComputePipeline { pipeline: p.pipeline },
        ],
        Command::Dispatch(x, y, z) => seq![NativeOp::Dispatch { x, y, z }],
        Command::BindDescriptorSets { sets, first, stage } => seq![
            NativeOp::BindDescriptorSets {
                compute: stage == ShaderStage::Compute,
                layout: state.active_layout,
                first: first as u32,
                sets: Seq::new(sets@.len(), |k: int| sets@[k].set),
            },
        ],
        Command::BindVertexBuffers { first, binds } => seq![
            NativeOp::BindVertexBuffers {
                first: first as u32,
                buffers: Seq::new(binds@.len(), |k: int| binds@[k].buffer.buffer),
                offsets: Seq::new(
                    binds@.len(),
                    |k: int|
                        effective_offset(binds@[k].buffer, binds@[k].array_element, binds@[k].offset)
                            as u64,
                ),
            },
        ],
        Command::BindIndexBuffer { buffer, array_element, offset, ty } => seq![
            NativeOp::BindIndexBuffer {
                buffer: buffer.buffer,
                offset: effective_offset(buffer, array_element, offset) as u64,
                index_type: spec_vk_index_type(ty),
            },
        ],
        Command::Draw { vertex_count, instance_count, first_vertex, first_instance } => seq![
            NativeOp::Draw {
                vertex_count: vertex_count as u32,
                instance_count: instance_count as u32,
                first_vertex: first_vertex as u32,
                first_instance: first_instance as u32,
            },
        ],
        Command::DrawIndexed {
            index_count,
            instance_count,
            first_index,
            vertex_offset,
            first_instance,
        } => seq![
            NativeOp::DrawIndexed {
                index_count: index_count as u32,
                instance_count: instance_count as u32,
                first_index: first_index as u32,
                vertex_offset: vertex_offset as i32,
                first_instance: first_instance as u32,
            },
        ],
        Command::DrawIndexedIndirect { buffer, array_element, offset, draw_count, stride } => seq![
            NativeOp::DrawIndexedIndirect {
                buffer: buffer.buffer,
                offset: effective_offset(buffer, array_element, offset) as u64,
                draw_count: draw_count as u32,
                stride: stride as u32,
            },
        ],
        Command::CopyBufferToBuffer(copy) => seq![
            NativeOp::CopyBuffer {
                src: copy.src.buffer,
                dst: copy.dst.buffer,
                src_offset: effective_offset(copy.src, copy.src_array_element, copy.src_offset)
                    as u64,
                dst_offset: effective_offset(copy.dst, copy.dst_array_element, copy.dst_offset)
                    as u64,
                size: copy.len,
            },
        ],
        Command::CopyBufferToTexture { buffer, texture, copy } => seq![
            NativeOp::CopyBufferToImage {
                buffer: buffer.buffer,
                image: texture.image,
                layout: LAYOUT_TRANSFER_DST_OPTIMAL,
                region: copy_region(buffer, texture, copy),
            },
        ],
        Command::CopyTextureToBuffer { buffer, texture, copy } => seq![
            NativeOp::CopyImageToBuffer {
                image: texture.image,
                layout: LAYOUT_TRANSFER_SRC_OPTIMAL,
                buffer: buffer.buffer,
                region: copy_region(buffer, texture, copy),
            },
        ],
    }
}

/// What the encoder remembers after the command `c` at place `i`.
pub open spec fn next_state(state: EncodeState, c: Command, i: usize) -> EncodeState {
    match c {
        Command::BeginRenderPass(_) => EncodeState { active_pass: Some(i), ..state },
        Command::BindGraphicsPipeline(p) => EncodeState { active_layout: p.layout, ..state },
        Command::BindComputePipeline(p) => EncodeState { active_layout: p.layout, ..state },
        _ => state,
    }
}

/// The effective offset, where it fits in 64 bits.
pub fn checked_offset(buffer: &Buffer, array_element: usize, offset: u64) -> (r: Option<u64>)
    ensures
        r is Some <==> effective_offset(buffer, array_element, offset) <= u64::MAX,
        r is Some ==> r->0 == effective_offset(buffer, array_element, offset),
{
    match buffer.aligned_size.checked_mul(array_element as u64) {
        Some(base) => base.checked_add(offset),
        None => {
            proof {
                assert(buffer.aligned_size * array_element + offset > u64::MAX);
            }
            None
        },
    }
}

fn offset_of(buffer: &Buffer, array_element: usize, offset: u64) -> (r: u64)
    requires
        effective_offset(buffer, array_element, offset) <= u64::MAX,
    ensures
        r == effective_offset(buffer, array_element, offset),
{
    match checked_offset(buffer, array_element, offset) {
        Some(r) => r,
        None => 0,
    }
}

fn region_of(buffer: &Buffer, texture: &Texture, copy: &BufferTextureCopy) -> (r: BufferImageCopy)
    requires
        effective_offset(buffer, copy.buffer_array_element, copy.buffer_offset) <= u64::MAX,
    ensures
        r == copy_region(buffer, texture, *copy),
{
    BufferImageCopy {
        buffer_offset: offset_of(buffer, copy.buffer_array_element, copy.buffer_offset),
        buffer_row_length: copy.buffer_row_length,
        buffer_image_height: copy.buffer_image_height,
        aspect_mask: texture.aspect_flags,
        mip_level: copy.texture_mip_level as u32,
        base_array_layer: copy.texture_array_element as u32,
        layer_count: 1,
        image_offset: (
            copy.texture_offset.0 as i32,
            copy.texture_offset.1 as i32,
            copy.texture_offset.2 as i32,
        ),
        image_extent: copy.texture_extent,
    }
}

fn texture_has_view(texture: &Texture, array_element: usize, mip_level: usize) -> (r: bool)
    ensures
        r == has_view(texture, array_element, mip_level),
{
    let count = texture.views.len();
    match texture.array_elements.checked_mul(texture.mip_count as usize) {
        Some(total) => count == total && array_element < texture.array_elements && mip_level
            < texture.mip_count as usize,
        None => {
            assert(texture.array_elements * texture.mip_count > count);
            false
        },
    }
}

/// Whether a render pass can be encoded; see [`pass_encodable`].
pub fn can_encode_pass<'a>(d: &RenderPassDescriptor<'a>) -> (r: bool)
    ensures
        r == pass_encodable(*d),
{
    let mut i: usize = 0;
    while i < d.color_attachments.len()
        invariant
            i <= d.color_attachments@.len(),
            forall|k: int| 0 <= k < i ==> color_encodable(#[trigger] d.color_attachments@[k]),
        decreases d.color_attachments@.len() - i,
    {
        let a = &d.color_attachments[i];
        let source_ok = match &a.source {
            ColorAttachmentSource::SurfaceImage(_) => true,
            ColorAttachmentSource::Texture { texture, array_element, mip_level } => texture_has_view(
                texture,
                *array_element,
                *mip_level,
            ),
        };
        let clear_ok = match a.load_op {
            LoadOp::Clear(c) => match c {
                ClearColor::D32S32(_, _) => false,
                _ => true,
            },
            _ => true,
        };
        if !(source_ok && clear_ok) {
            assert(!color_encodable(d.color_attachments@[i as int]));
            return false;
        }
        i += 1;
    }
    match &d.depth_stencil_attachment {
        Some(a) => texture_has_view(a.texture, a.array_element, a.mip_level) && match a.load_op {
            LoadOp::Clear(c) => match c {
                ClearColor::D32S32(_, _) => true,
                _ => false,
            },
            _ => true,
        },
        None => true,
    }
}

/// Whether a command can be encoded; see [`encodable`].
pub fn can_encode<'a>(c: &Command<'a>) -> (r: bool)
    ensures
        r == encodable(*c),
{
    match c {
        Command::BeginRenderPass(d) => can_encode_pass(d),
        Command::BindVertexBuffers { binds, .. } => {
            let mut i: usize = 0;
            while i < binds.len()
                invariant
                    i <= binds@.len(),
                    *c is BindVertexBuffers,
                    c->binds == *binds,
                    forall|k: int|
                        0 <= k < i ==> effective_offset(
                            (#[trigger] binds@[k]).buffer,
                            binds@[k].array_element,
                            binds@[k].offset,
                        ) <= u64::MAX,
                decreases binds@.len() - i,
            {
                if checked_offset(binds[i].buffer, binds[i].array_element, binds[i].offset).is_none() {
                    assert(effective_offset(
                        binds@[i as int].buffer,
                        binds@[i as int].array_element,
                        binds@[i as int].offset,
                    ) > u64::MAX);
                    assert(!encodable(*c));
                    return false;
                }
                i += 1;
            }
            true
        },
        Command::BindIndexBuffer { buffer, array_element, offset, .. } => checked_offset(
            buffer,
            *array_element,
            *offset,
        ).is_some(),
        Command::DrawIndexedIndirect { buffer, array_element, offset, .. } => checked_offset(
            buffer,
            *array_element,
            *offset,
        ).is_some(),
        Command::CopyBufferToBuffer(copy) => checked_offset(
            copy.src,
            copy.src_array_element,
            copy.src_offset,
        ).is_some() && checked_offset(copy.dst, copy.dst_array_element, copy.dst_offset).is_some(),
        Command::CopyBufferToTexture { buffer, copy, .. } => checked_offset(
            buffer,
            copy.buffer_array_element,
            copy.buffer_offset,
        ).is_some(),
        Command::CopyTextureToBuffer { buffer, copy, .. } => checked_offset(
            buffer,
            copy.buffer_array_element,
            copy.buffer_offset,
        ).is_some(),
        _ => true,
    }
}

/// Encodes the beginning of a render pass.
fn encode_begin_pass<'a>(d: &RenderPassDescriptor<'a>, out: &mut Vec<NativeCommand>)
    requires
        pass_encodable(*d),
    ensures
        ops_view(final(out)@) == ops_view(old(out)@) + begin_pass_ops(*d),
{
    let mut dims: (u32, u32) = (0, 0);
    let mut views: Vec<u64> = Vec::new();
    let mut clear_values: Vec<ClearColor> = Vec::new();
    let mut i: usize = 0;
    while i < d.color_attachments.len()
        invariant
            i <= d.color_attachments@.len(),
            pass_encodable(*d),
            views@.len() == i,
            forall|k: int| 0 <= k < i ==> views@[k] == color_view(d.color_attachments@[k]),
            clear_values@ == color_clears(d.color_attachments@, i as int),
            i == 0 ==> dims == (0u32, 0u32),
            i > 0 ==> dims == pass_dims(*d),
        decreases d.color_attachments@.len() - i,
    {
        let attachment = &d.color_attachments[i];
        assert(color_encodable(d.color_attachments@[i as int]));
        let (view, attachment_dims) = match &attachment.source {
            ColorAttachmentSource::SurfaceImage(image) => (image.view(), image.dims()),
            ColorAttachmentSource::Texture { texture, array_element, mip_level } => (
                texture.view(*array_element, *mip_level),
                (texture.dims.0, texture.dims.1),
            ),
        };
        views.push(view);
        if i == 0 {
            dims = attachment_dims;
        }
        match attachment.load_op {
            LoadOp::Clear(c) => {
                clear_values.push(c);
            },
            _ => {},
        }
        i += 1;
    }
    match &d.depth_stencil_attachment {
        Some(a) => {
            views.push(a.texture.view(a.array_element, a.mip_level));
            match a.load_op {
                LoadOp::Clear(c) => {
                    clear_values.push(c);
                },
                _ => {},
            }
        },
        None => {},
    }
    proof {
        assert(views@ =~= pass_views(*d));
        assert(clear_values@ =~= pass_clears(*d));
        assert(dims == pass_dims(*d));
    }
    let ghost start = ops_view(out@);
    out.push(NativeCommand::SetViewport { width: dims.0, height: dims.1 });
    out.push(NativeCommand::SetScissor { width: dims.0, height: dims.1 });
    out.push(
        NativeCommand::BeginRenderPass {
            pass: VkRenderPassDescriptor::from_descriptor(d),
            attachments: VkRenderPassDescriptor::descriptions(d),
            views,
            width: dims.0,
            height: dims.1,
            clear_values,
        },
    );
    proof {
        assert(ops_view(out@) =~= start + begin_pass_ops(*d));
    }
}

/// Encodes the command at place `index` and notes what the encoder has
/// to remember of it.
pub fn encode_command<'a>(
    commands: &Vec<Command<'a>>,
    index: usize,
    state: &mut EncodeState,
    out: &mut Vec<NativeCommand>,
)
    requires
        index < commands@.len(),
        encodable(commands@[index as int]),
    ensures
        *final(state) == next_state(*old(state), commands@[index as int], index),
        ops_view(final(out)@) == ops_view(old(out)@) + command_ops(
            *old(state),
            commands@[index as int],
            index,
        ),
{
    let ghost start = ops_view(out@);
    let ghost c = commands@[index as int];
    let ghost st = *state;
    match &commands[index] {
        Command::BeginRenderPass(descriptor) => {
            encode_begin_pass(descriptor, out);
            state.active_pass = Some(index);
        },
        Command::EndRenderPass => {
            out.push(NativeCommand::EndRenderPass);
        },
        Command::BeginComputePass => {},
        Command::EndComputePass => {},
        Command::BindComputePipeline(pipeline) => {
            state.active_layout = pipeline.layout;
            out.push(NativeCommand::BindComputePipeline { pipeline: pipeline.pipeline });
        },
        Command::Dispatch(x, y, z) => {
            out.push(NativeCommand::Dispatch { x: *x, y: *y, z: *z });
        },
        Command::BindGraphicsPipeline(pipeline) => {
            out.push(
                NativeCommand::BindGraphicsPipeline {
                    id: pipeline.id,
                    layout: pipeline.layout,
                    pass: state.active_pass,
                },
            );
            state.active_layout = pipeline.layout;
        },
        Command::BindDescriptorSets { sets, first, stage } => {
            let mut vk_sets: Vec<u64> = Vec::new();
            let mut i: usize = 0;
            while i < sets.len()
                invariant
                    i <= sets@.len(),
                    vk_sets@.len() == i,
                    forall|k: int| 0 <= k < i ==> vk_sets@[k] == sets@[k].set,
                decreases sets@.len() - i,
            {
                vk_sets.push(sets[i].set);
                i += 1;
            }
            proof {
                assert(vk_sets@ =~= Seq::new(sets@.len(), |k: int| sets@[k].set));
            }
            out.push(
                NativeCommand::BindDescriptorSets {
                    compute: match *stage {
                        ShaderStage::Compute => true,
                        _ => false,
                    },
                    layout: state.active_layout,
                    first: *first as u32,
                    sets: vk_sets,
                },
            );
        },
        Command::BindVertexBuffers { first, binds } => {
            let mut buffers: Vec<u64> = Vec::new();
            let mut offsets: Vec<u64> = Vec::new();
            let mut i: usize = 0;
            while i < binds.len()
                invariant
                    i <= binds@.len(),
                    encodable(c),
                    c == (Command::BindVertexBuffers { first: *first, binds: *binds }),
                    buffers@.len() == i,
                    offsets@.len() == i,
                    forall|k: int| 0 <= k < i ==> buffers@[k] == binds@[k].buffer.buffer,
                    forall|k: int|
                        0 <= k < i ==> offsets@[k] == effective_offset(
                            binds@[k].buffer,
                            binds@[k].array_element,
                            binds@[k].offset,
                        ),
                decreases binds@.len() - i,
            {
                let bind = &binds[i];
                assert(effective_offset(
                    binds@[i as int].buffer,
                    binds@[i as int].array_element,
                    binds@[i as int].offset,
                ) <= u64::MAX);
                buffers.push(bind.buffer.buffer);
                offsets.push(offset_of(bind.buffer, bind.array_element, bind.offset));
                i += 1;
            }
            proof {
                assert(buffers@ =~= Seq::new(binds@.len(), |k: int| binds@[k].buffer.buffer));
                assert(offsets@ =~= Seq::new(
                    binds@.len(),
                    |k: int|
                        effective_offset(binds@[k].buffer, binds@[k].array_element, binds@[k].offset)
                            as u64,
                ));
            }
            out.push(NativeCommand::BindVertexBuffers { first: *first as u32, buffers, offsets });
        },
        Command::BindIndexBuffer { buffer, array_element, offset, ty } => {
            out.push(
                NativeCommand::BindIndexBuffer {
                    buffer: buffer.buffer,
                    offset: offset_of(buffer, *array_element, *offset),
                    index_type: to_vk_index_type(*ty),
                },
            );
        },
        Command::Draw { vertex_count, instance_count, first_vertex, first_instance } => {
            out.push(
                NativeCommand::Draw {
                    vertex_count: *vertex_count as u32,
                    instance_count: *instance_count as u32,
                    first_vertex: *first_vertex as u32,
                    first_instance: *first_instance as u32,
                },
            );
        },
        Command::DrawIndexed {
            index_count,
            instance_count,
            first_index,
            vertex_offset,
            first_instance,
        } => {
            out.push(
                NativeCommand::DrawIndexed {
                    index_count: *index_count as u32,
                    instance_count: *instance_count as u32,
                    first_index: *first_index as u32,
                    vertex_offset: *vertex_offset as i32,
                    first_instance: *first_instance as u32,
                },
            );
        },
        Command::DrawIndexedIndirect { buffer, array_element, offset, draw_count, stride } => {
            out.push(
                NativeCommand::DrawIndexedIndirect {
                    buffer: buffer.buffer,
                    offset: offset_of(buffer, *array_element, *offset),
                    draw_count: *draw_count as u32,
                    stride: *stride as u32,
                },
            );
        },
        Command::CopyBufferToBuffer(copy) => {
            out.push(
                NativeCommand::CopyBuffer {
                    src: copy.src.buffer,
                    dst: copy.dst.buffer,
                    src_offset: offset_of(copy.src, copy.src_array_element, copy.src_offset),
                    dst_offset: offset_of(copy.dst, copy.dst_array_element, copy.dst_offset),
                    size: copy.len,
                },
            );
        },
        Command::CopyBufferToTexture { buffer, texture, copy } => {
            out.push(
                NativeCommand::CopyBufferToImage {
                    buffer: buffer.buffer,
                    image: texture.image,
                    layout: LAYOUT_TRANSFER_DST_OPTIMAL,
                    region: region_of(buffer, texture, copy),
                },
            );
        },
        Command::CopyTextureToBuffer { buffer, texture, copy } => {
            out.push(
                NativeCommand::CopyImageToBuffer {
                    image: texture.image,
                    layout: LAYOUT_TRANSFER_SRC_OPTIMAL,
                    buffer: buffer.buffer,
                    region: region_of(buffer, texture, copy),
                },
            );
        },
    }
    proof {
        assert(ops_view(out@) =~= start + command_ops(st, c, index));
    }
}

} // verus!
