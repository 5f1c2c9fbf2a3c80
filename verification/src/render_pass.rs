//! Render passes: what they draw to, and the commands recorded in them.

use vstd::prelude::*;
use crate::buffer::Buffer;
use crate::command_buffer::Command;
use crate::descriptor_set::DescriptorSet;
use crate::graphics_pipeline::GraphicsPipeline;
use crate::surface::SurfaceImage;
use crate::texture::Texture;
use crate::types::{IndexType, LoadOp, ShaderStage, StoreOp};

verus! {

pub struct RenderPassDescriptor<'a> {
    pub color_attachments: Vec<ColorAttachment<'a>>,
    pub depth_stencil_attachment: Option<DepthStencilAttachment<'a>>,
}

pub struct ColorAttachment<'a> {
    pub source: ColorAttachmentSource<'a>,
    pub load_op: LoadOp,
    pub store_op: StoreOp,
}

pub enum ColorAttachmentSource<'a> {
    SurfaceImage(&'a SurfaceImage),
    Texture { texture: &'a Texture, array_element: usize, mip_level: usize },
}

pub struct DepthStencilAttachment<'a> {
    pub texture: &'a Texture,
    pub array_element: usize,
    pub mip_level: usize,
    pub load_op: LoadOp,
    pub store_op: StoreOp,
}

/// Records the commands of one render pass.
pub struct RenderPass<'a> {
    pub commands: Vec<Command<'a>>,
}

pub struct VertexBind<'a> {
    pub buffer: &'a Buffer,
    pub array_element: usize,
    pub offset: u64,
}

impl<'a> RenderPass<'a> {
    /// A render pass without commands.
    pub fn new() -> (r: Self)
        ensures
            r.commands@.len() == 0,
    {
        RenderPass { commands: Vec::new() }
    }

    pub fn bind_pipeline(&mut self, pipeline: GraphicsPipeline)
        ensures
            final(self).commands@ == old(self).commands@.push(
                Command::BindGraphicsPipeline(pipeline),
            ),
    {
        self.commands.push(Command::BindGraphicsPipeline(pipeline));
    }

    /// Binds descriptor sets for all graphics stages, the first to slot
    /// `first`.
    pub fn bind_sets(&mut self, first: usize, sets: Vec<&'a DescriptorSet>)
        ensures
            final(self).commands@ == old(self).commands@.push(
                Command::BindDescriptorSets { sets, first, stage: ShaderStage::AllGraphics },
            ),
    {
        self.commands.push(
            Command::BindDescriptorSets { sets, first, stage: ShaderStage::AllGraphics },
        );
    }

    pub fn bind_vertex_buffers(&mut self, first: usize, binds: Vec<VertexBind<'a>>)
        ensures
            final(self).commands@ == old(self).commands@.push(
                Command::BindVertexBuffers { first, binds },
            ),
    {
        self.commands.push(Command::BindVertexBuffers { first, binds });
    }

    pub fn bind_index_buffer(
        &mut self,
        buffer: &'a Buffer,
        array_element: usize,
        offset: u64,
        ty: IndexType,
    )
        ensures
            final(self).commands@ == old(self).commands@.push(
                Command::BindIndexBuffer { buffer, array_element, offset, ty },
            ),
    {
        self.commands.push(Command::BindIndexBuffer { buffer, array_element, offset, ty });
    }

    pub fn draw(
        &mut self,
        vertex_count: usize,
        instance_count: usize,
        first_vertex: usize,
        first_instance: usize,
    )
        ensures
            final(self).commands@ == old(self).commands@.push(
                Command::Draw { vertex_count, instance_count, first_vertex, first_instance },
            ),
    {
        self.commands.push(
            Command::Draw { vertex_count, instance_count, first_vertex, first_instance },
        );
    }

    pub fn draw_indexed(
        &mut self,
        index_count: usize,
        instance_count: usize,
        first_index: usize,
        vertex_offset: isize,
        first_instance: usize,
    )
        ensures
            final(self).commands@ == old(self).commands@.push(
                Command::DrawIndexed {
                    index_count,
                    instance_count,
                    first_index,
                    vertex_offset,
                    first_instance,
                },
            ),
    {
        self.commands.push(
            Command::DrawIndexed {
                index_count,
                instance_count,
                first_index,
                vertex_offset,
                first_instance,
            },
        );
    }

    pub fn draw_indexed_indirect(
        &mut self,
        buffer: &'a Buffer,
        array_element: usize,
        offset: u64,
        draw_count: usize,
        stride: u64,
    )
        ensures
            final(self).commands@ == old(self).commands@.push(
                Command::DrawIndexedIndirect { buffer, array_element, offset, draw_count, stride },
            ),
    {
        self.commands.push(
            Command::DrawIndexedIndirect { buffer, array_element, offset, draw_count, stride },
        );
    }
}

} // verus!
