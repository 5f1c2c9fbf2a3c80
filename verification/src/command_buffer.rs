//! The recorded commands of a submission.

use vstd::prelude::*;
use crate::buffer::Buffer;
use crate::compute_pass::ComputePass;
use crate::compute_pipeline::ComputePipeline;
use crate::descriptor_set::DescriptorSet;
use crate::graphics_pipeline::GraphicsPipeline;
use crate::render_pass::{RenderPass, RenderPassDescriptor, VertexBind};
use crate::texture::Texture;
use crate::types::{IndexType, QueueType, ShaderStage};

verus! {

pub struct CopyBufferToBuffer<'a> {
    /// The buffer to read from.
    pub src: &'a Buffer,
    /// The array element to read from.
    pub src_array_element: usize,
    /// Where in that element to start reading.
    pub src_offset: u64,
    /// The buffer to write to.
    pub dst: &'a Buffer,
    /// The array element to write to.
    pub dst_array_element: usize,
    /// Where in that element to start writing.
    pub dst_offset: u64,
    /// The number of bytes to copy.
    pub len: u64,
}

#[derive(Debug, Copy, Clone, PartialEq, Eq, Hash)]
pub struct BufferTextureCopy {
    pub buffer_offset: u64,
    pub buffer_row_length: u32,
    pub buffer_image_height: u32,
    /// The array element of the buffer.
    pub buffer_array_element: usize,
    /// Where in the texture the copied region starts.
    pub texture_offset: (u32, u32, u32),
    /// The width, height and depth of the copied region.
    pub texture_extent: (u32, u32, u32),
    /// The mip level of the texture.
    pub texture_mip_level: usize,
    /// The array element of the texture.
    pub texture_array_element: usize,
}

pub enum Command<'a> {
    BeginRenderPass(RenderPassDescriptor<'a>),
    EndRenderPass,
    BeginComputePass,
    EndComputePass,
    BindGraphicsPipeline(GraphicsPipeline),
    BindComputePipeline(&'a ComputePipeline),
    Dispatch(u32, u32, u32),
    BindDescriptorSets { sets: Vec<&'a DescriptorSet>, first: usize, stage: ShaderStage },
    BindVertexBuffers { first: usize, binds: Vec<VertexBind<'a>> },
    BindIndexBuffer { buffer: &'a Buffer, array_element: usize, offset: u64, ty: IndexType },
    Draw { vertex_count: usize, instance_count: usize, first_vertex: usize, first_instance: usize },
    DrawIndexed {
        index_count: usize,
        instance_count: usize,
        first_index: usize,
        vertex_offset: isize,
        first_instance: usize,
    },
    DrawIndexedIndirect {
        buffer: &'a Buffer,
        array_element: usize,
        offset: u64,
        draw_count: usize,
        stride: u64,
    },
    CopyBufferToBuffer(CopyBufferToBuffer<'a>),
    CopyBufferToTexture { buffer: &'a Buffer, texture: &'a Texture, copy: BufferTextureCopy },
    CopyTextureToBuffer { buffer: &'a Buffer, texture: &'a Texture, copy: BufferTextureCopy },
}

/// Records the commands of one submission to a queue of a kind.
pub struct CommandBuffer<'a> {
    pub queue_ty: QueueType,
    pub commands: Vec<Command<'a>>,
}

/// Whether a queue of kind `queue` takes render passes.
pub open spec fn takes_graphics(queue: QueueType) -> bool {
    queue == QueueType::Main
}

/// Whether a queue of kind `queue` takes compute passes.
pub open spec fn takes_compute(queue: QueueType) -> bool {
    queue == QueueType::Main || queue == QueueType::Compute
}

/// Whether a queue of kind `queue` takes copies.
pub open spec fn takes_transfer(queue: QueueType) -> bool {
    queue == QueueType::Main || queue == QueueType::Transfer
}

impl<'a> CommandBuffer<'a> {
    /// A command buffer without commands, for a queue of kind `queue_ty`.
    pub fn new(queue_ty: QueueType) -> (r: Self)
        ensures
            r.queue_ty == queue_ty,
            r.commands@.len() == 0,
    {
        CommandBuffer { queue_ty, commands: Vec::new() }
    }

    /// Whether the queue takes render passes.
    pub fn supports_graphics(&self) -> (r: bool)
        ensures
            r == takes_graphics(self.queue_ty),
    {
        self.queue_ty == QueueType::Main
    }

    /// Whether the queue takes compute passes.
    pub fn supports_compute(&self) -> (r: bool)
        ensures
            r == takes_compute(self.queue_ty),
    {
        self.queue_ty == QueueType::Main || self.queue_ty == QueueType::Compute
    }

    /// Whether the queue takes copies.
    pub fn supports_transfer(&self) -> (r: bool)
        ensures
            r == takes_transfer(self.queue_ty),
    {
        self.queue_ty == QueueType::Main || self.queue_ty == QueueType::Transfer
    }

    /// Records a render pass: its beginning, the commands of `pass`, its
    /// end. Only the main queue takes render passes.
    pub fn render_pass(&mut self, descriptor: RenderPassDescriptor<'a>, pass: RenderPass<'a>)
        requires
            takes_graphics(old(self).queue_ty),
        ensures
            final(self).queue_ty == old(self).queue_ty,
            final(self).commands@ == old(self).commands@.push(Command::BeginRenderPass(descriptor))
                + pass.commands@ + seq![Command::EndRenderPass],
    {
        let ghost body = pass.commands@;
        let mut pass = pass;
        self.commands.push(Command::BeginRenderPass(descriptor));
        self.commands.append(&mut pass.commands);
        self.commands.push(Command::EndRenderPass);
        proof {
            assert(self.commands@ =~= old(self).commands@.push(Command::BeginRenderPass(descriptor))
                + body + seq![Command::EndRenderPass]);
        }
    }

    /// Records a compute pass: its beginning, the commands of `pass`, its
    /// end. Only the main queue and the compute queue take compute passes.
    pub fn compute_pass(&mut self, pass: ComputePass<'a>)
        requires
            takes_compute(old(self).queue_ty),
        ensures
            final(self).queue_ty == old(self).queue_ty,
            final(self).commands@ == old(self).commands@.push(Command::BeginComputePass)
                + pass.commands@ + seq![Command::EndComputePass],
    {
        let ghost body = pass.commands@;
        let mut pass = pass;
        self.commands.push(Command::BeginComputePass);
        self.commands.append(&mut pass.commands);
        self.commands.push(Command::EndComputePass);
        proof {
            assert(self.commands@ =~= old(self).commands@.push(Command::BeginComputePass) + body
                + seq![Command::EndComputePass]);
        }
    }

    /// Records a copy between buffers. Only the main queue and the
    /// transfer queue take copies.
    pub fn copy_buffer_to_buffer(&mut self, copy: CopyBufferToBuffer<'a>)
        requires
            takes_transfer(old(self).queue_ty),
        ensures
            final(self).queue_ty == old(self).queue_ty,
            final(self).commands@ == old(self).commands@.push(Command::CopyBufferToBuffer(copy)),
    {
        self.commands.push(Command::CopyBufferToBuffer(copy));
    }

    /// Records a copy from a buffer into a texture. Only the main queue
    /// and the transfer queue take copies.
    pub fn copy_buffer_to_texture(
        &mut self,
        texture: &'a Texture,
        buffer: &'a Buffer,
        copy: BufferTextureCopy,
    )
        requires
            takes_transfer(old(self).queue_ty),
        ensures
            final(self).queue_ty == old(self).queue_ty,
            final(self).commands@ == old(self).commands@.push(
                Command::CopyBufferToTexture { buffer, texture, copy },
            ),
    {
        self.commands.push(Command::CopyBufferToTexture { buffer, texture, copy });
    }

    /// Records a copy from a texture into a buffer. Only the main queue
    /// and the transfer queue take copies.
    pub fn copy_texture_to_buffer(
        &mut self,
        buffer: &'a Buffer,
        texture: &'a Texture,
        copy: BufferTextureCopy,
    )
        requires
            takes_transfer(old(self).queue_ty),
        ensures
            final(self).queue_ty == old(self).queue_ty,
            final(self).commands@ == old(self).commands@.push(
                Command::CopyTextureToBuffer { buffer, texture, copy },
            ),
    {
        self.commands.push(Command::CopyTextureToBuffer { buffer, texture, copy });
    }
}

} // verus!
