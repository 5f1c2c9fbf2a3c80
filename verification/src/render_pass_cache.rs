//! What identifies a native render pass, and what one is created from.

use vstd::prelude::*;
use crate::convert::{
    spec_vk_format, spec_vk_load_op, spec_vk_store_op, to_vk_format, to_vk_load_op, to_vk_store_op,
};
use crate::render_pass::{ColorAttachment, ColorAttachmentSource, DepthStencilAttachment, RenderPassDescriptor};
use crate::types::LoadOp;
use crate::vk::{
    LAYOUT_COLOR_ATTACHMENT_OPTIMAL, LAYOUT_DEPTH_STENCIL_ATTACHMENT_OPTIMAL, LAYOUT_PRESENT_SRC,
    LAYOUT_UNDEFINED,
};

verus! {

/// What identifies one attachment of a render pass.
#[derive(Debug, Copy, Clone, PartialEq, Eq, Structural, Hash)]
pub struct VkAttachment {
    pub image_format: i32,
    pub load_op: i32,
    pub store_op: i32,
}

/// What identifies a native render pass: its attachments in order.
#[derive(Debug, Clone, PartialEq, Eq, Hash)]
pub struct VkRenderPassDescriptor {
    pub color_attachments: Vec<VkAttachment>,
    pub depth_stencil_attachment: Option<VkAttachment>,
}

/// The model of a [`VkRenderPassDescriptor`].
pub struct RenderPassKey {
    pub color_attachments: Seq<VkAttachment>,
    pub depth_stencil_attachment: Option<VkAttachment>,
}

/// What one attachment of a native render pass is created from.
#[derive(Debug, Copy, Clone, PartialEq, Eq, Structural, Hash)]
pub struct AttachmentDescription {
    pub format: i32,
    pub load_op: i32,
    pub store_op: i32,
    pub initial_layout: i32,
    pub final_layout: i32,
}

impl View for VkRenderPassDescriptor {
    type V = RenderPassKey;

    open spec fn view(&self) -> RenderPassKey {
        RenderPassKey {
            color_attachments: self.color_attachments@,
            depth_stencil_attachment: self.depth_stencil_attachment,
        }
    }
}

/// The native format of what a color attachment draws to.
pub open spec fn color_format(source: ColorAttachmentSource) -> i32 {
    match source {
        ColorAttachmentSource::SurfaceImage(image) => image.model().format,
        ColorAttachmentSource::Texture { texture, .. } => spec_vk_format(texture.format),
    }
}

/// What identifies a color attachment.
pub open spec fn color_key(a: ColorAttachment) -> VkAttachment {
    VkAttachment {
        image_format: color_format(a.source),
        load_op: spec_vk_load_op(a.load_op),
        store_op: spec_vk_store_op(a.store_op),
    }
}

/// What identifies a depth-stencil attachment.
pub open spec fn depth_key(a: DepthStencilAttachment) -> VkAttachment {
    VkAttachment {
        image_format: spec_vk_format(a.texture.format),
        load_op: spec_vk_load_op(a.load_op),
        store_op: spec_vk_store_op(a.store_op),
    }
}

/// What identifies the native render pass of a descriptor.
pub open spec fn pass_key(d: RenderPassDescriptor) -> RenderPassKey {
    RenderPassKey {
        color_attachments: Seq::new(
            d.color_attachments@.len(),
            |i: int| color_key(d.color_attachments@[i]),
        ),
        depth_stencil_attachment: match d.depth_stencil_attachment {
            Some(a) => Some(depth_key(a)),
            None => None,
        },
    }
}

/// The layout that a pass expects an attachment in: none when the pass
/// does not load what the image holds, else `attached`.
pub open spec fn initial_layout(load_op: LoadOp, attached: i32) -> i32 {
    match load_op {
        LoadOp::Load => attached,
        _ => LAYOUT_UNDEFINED,
    }
}

/// What a color attachment of a native render pass is created from. A
/// surface image is left ready for presenting, a texture ready for more
/// drawing.
pub open spec fn color_description(a: ColorAttachment) -> AttachmentDescription {
    AttachmentDescription {
        format: color_format(a.source),
        load_op: spec_vk_load_op(a.load_op),
        store_op: spec_vk_store_op(a.store_op),
        initial_layout: initial_layout(a.load_op, LAYOUT_COLOR_ATTACHMENT_OPTIMAL),
        final_layout: match a.source {
            ColorAttachmentSource::SurfaceImage(_) => LAYOUT_PRESENT_SRC,
            ColorAttachmentSource::Texture { .. } => LAYOUT_COLOR_ATTACHMENT_OPTIMAL,
        },
    }
}

/// What the depth-stencil attachment of a native render pass is created
/// from.
pub open spec fn depth_description(a: DepthStencilAttachment) -> AttachmentDescription {
    AttachmentDescription {
        format: spec_vk_format(a.texture.format),
        load_op: spec_vk_load_op(a.load_op),
        store_op: spec_vk_store_op(a.store_op),
        initial_layout: initial_layout(a.load_op, LAYOUT_DEPTH_STENCIL_ATTACHMENT_OPTIMAL),
        final_layout: LAYOUT_DEPTH_STENCIL_ATTACHMENT_OPTIMAL,
    }
}

/// What the attachments of a native render pass are created from: the
/// color attachments in order, then the depth-stencil attachment.
pub open spec fn pass_descriptions(d: RenderPassDescriptor) -> Seq<AttachmentDescription> {
    let colors = Seq::new(
        d.color_attachments@.len(),
        |i: int| color_description(d.color_attachments@[i]),
    );
    match d.depth_stencil_attachment {
        Some(a) => colors.push(depth_description(a)),
        None => colors,
    }
}

fn load_layout(load_op: LoadOp, attached: i32) -> (r: i32)
    ensures
        r == initial_layout(load_op, attached),
{
    match load_op {
        LoadOp::Load => attached,
        _ => LAYOUT_UNDEFINED,
    }
}

fn source_format(source: &ColorAttachmentSource) -> (r: i32)
    ensures
        r == color_format(*source),
{
    match source {
        ColorAttachmentSource::SurfaceImage(image) => image.format(),
        ColorAttachmentSource::Texture { texture, .. } => to_vk_format(texture.format),
    }
}

impl VkRenderPassDescriptor {
    /// What identifies the native render pass of `descriptor`.
    pub fn from_descriptor<'a>(descriptor: &RenderPassDescriptor<'a>) -> (r: VkRenderPassDescriptor)
        ensures
            r@ == pass_key(*descriptor),
    {
        let mut colors: Vec<VkAttachment> = Vec::new();
        let mut i: usize = 0;
        while i < descriptor.color_attachments.len()
            invariant
                i <= descriptor.color_attachments@.len(),
                colors@.len() == i,
                forall|k: int|
                    0 <= k < i ==> colors@[k] == color_key(descriptor.color_attachments@[k]),
            decreases descriptor.color_attachments@.len() - i,
        {
            let attachment = &descriptor.color_attachments[i];
            colors.push(
                VkAttachment {
                    image_format: source_format(&attachment.source),
                    load_op: to_vk_load_op(attachment.load_op),
                    store_op: to_vk_store_op(attachment.store_op),
                },
            );
            i += 1;
        }
        let depth = match &descriptor.depth_stencil_attachment {
            Some(a) => Some(
                VkAttachment {
                    image_format: to_vk_format(a.texture.format),
                    load_op: to_vk_load_op(a.load_op),
                    store_op: to_vk_store_op(a.store_op),
                },
            ),
            None => None,
        };
        let r = VkRenderPassDescriptor {
            color_attachments: colors,
            depth_stencil_attachment: depth,
        };
        proof {
            assert(r@.color_attachments =~= pass_key(*descriptor).color_attachments);
        }
        r
    }

    /// What the attachments of the native render pass of `descriptor` are
    /// created from.
    pub fn descriptions<'a>(descriptor: &RenderPassDescriptor<'a>) -> (r: Vec<AttachmentDescription>)
        ensures
            r@ == pass_descriptions(*descriptor),
    {
        let mut out: Vec<AttachmentDescription> = Vec::new();
        let mut i: usize = 0;
        while i < descriptor.color_attachments.len()
            invariant
                i <= descriptor.color_attachments@.len(),
                out@.len() == i,
                forall|k: int|
                    0 <= k < i ==> out@[k] == color_description(descriptor.color_attachments@[k]),
            decreases descriptor.color_attachments@.len() - i,
        {
            let attachment = &descriptor.color_attachments[i];
            out.push(
                AttachmentDescription {
                    format: source_format(&attachment.source),
                    load_op: to_vk_load_op(attachment.load_op),
                    store_op: to_vk_store_op(attachment.store_op),
                    initial_layout: load_layout(attachment.load_op, LAYOUT_COLOR_ATTACHMENT_OPTIMAL),
                    final_layout: match &attachment.source {
                        ColorAttachmentSource::SurfaceImage(_) => LAYOUT_PRESENT_SRC,
                        ColorAttachmentSource::Texture { .. } => LAYOUT_COLOR_ATTACHMENT_OPTIMAL,
                    },
                },
            );
            i += 1;
        }
        let ghost colors = out@;
        match &descriptor.depth_stencil_attachment {
            Some(a) => {
                out.push(
                    AttachmentDescription {
                        format: to_vk_format(a.texture.format),
                        load_op: to_vk_load_op(a.load_op),
                        store_op: to_vk_store_op(a.store_op),
                        initial_layout: load_layout(
                            a.load_op,
                            LAYOUT_DEPTH_STENCIL_ATTACHMENT_OPTIMAL,
                        ),
                        final_layout: LAYOUT_DEPTH_STENCIL_ATTACHMENT_OPTIMAL,
                    },
                );
            },
            None => {},
        }
        proof {
            assert(colors =~= Seq::new(
                descriptor.color_attachments@.len(),
                |i: int| color_description(descriptor.color_attachments@[i]),
            ));
        }
        out
    }
}

} // verus!
