//! Finds the sub-resources that each command of a submission uses.

use vstd::prelude::*;
use crate::assoc::Assoc;
use crate::command_buffer::{BufferTextureCopy, Command, CopyBufferToBuffer};
use crate::descriptor_set::{
    BindingView, BoundResource, BoundTable, BoundValue, DescriptorSet,
};
use crate::render_pass::{
    ColorAttachment, ColorAttachmentSource, DepthStencilAttachment, RenderPassDescriptor,
    VertexBind,
};
use crate::semaphores::{add_wait, SemaphoreTracker, SemaphoresView, WaitInfo};
use crate::usage::{
    barrier_matches, conflicts, submit_scope, use_in_scope, GlobalResourceUsage, PipelineBarrier,
    PipelineTracker, SubResource, SubResourceUsage, UsageScope,
};
use crate::vk::{
    ACCESS_COLOR_ATTACHMENT_READ, ACCESS_COLOR_ATTACHMENT_WRITE,
    ACCESS_DEPTH_STENCIL_ATTACHMENT_READ, ACCESS_DEPTH_STENCIL_ATTACHMENT_WRITE, ACCESS_INDEX_READ,
    ACCESS_TRANSFER_READ, ACCESS_TRANSFER_WRITE, ACCESS_VERTEX_ATTRIBUTE_READ, ASPECT_COLOR,
    LAYOUT_COLOR_ATTACHMENT_OPTIMAL, LAYOUT_DEPTH_STENCIL_ATTACHMENT_OPTIMAL,
    LAYOUT_SHADER_READ_ONLY_OPTIMAL, LAYOUT_TRANSFER_DST_OPTIMAL, LAYOUT_TRANSFER_SRC_OPTIMAL,
    LAYOUT_UNDEFINED, STAGE_COLOR_ATTACHMENT_OUTPUT, STAGE_EARLY_FRAGMENT_TESTS,
    STAGE_LATE_FRAGMENT_TESTS, STAGE_TRANSFER, STAGE_VERTEX_INPUT,
};

verus! {

/// One use of a sub-resource.
pub type Use = (SubResource, SubResourceUsage);

/// The sub-resource behind a color attachment: the whole of a surface
/// image, or the mip level of the texture element it names.
pub open spec fn color_resource(source: ColorAttachmentSource) -> SubResource {
    match source {
        ColorAttachmentSource::SurfaceImage(image) => SubResource::Texture {
            texture: image.model().image,
            aspect_mask: ASPECT_COLOR,
            array_elem: 0,
            mip_level: 0,
        },
        ColorAttachmentSource::Texture { texture, array_element, mip_level } => SubResource::Texture {
            texture: texture.image,
            aspect_mask: ASPECT_COLOR,
            array_elem: array_element as u32,
            mip_level: mip_level as u32,
        },
    }
}

/// How a render pass uses a color attachment.
pub open spec fn color_usage() -> SubResourceUsage {
    SubResourceUsage {
        access: ACCESS_COLOR_ATTACHMENT_WRITE | ACCESS_COLOR_ATTACHMENT_READ,
        stage: STAGE_COLOR_ATTACHMENT_OUTPUT,
        layout: LAYOUT_COLOR_ATTACHMENT_OPTIMAL,
    }
}

/// How a render pass uses its depth-stencil attachment.
pub open spec fn depth_usage() -> SubResourceUsage {
    SubResourceUsage {
        access: ACCESS_DEPTH_STENCIL_ATTACHMENT_READ | ACCESS_DEPTH_STENCIL_ATTACHMENT_WRITE,
        stage: STAGE_EARLY_FRAGMENT_TESTS | STAGE_LATE_FRAGMENT_TESTS,
        layout: LAYOUT_DEPTH_STENCIL_ATTACHMENT_OPTIMAL,
    }
}

/// The sub-resource behind a depth-stencil attachment.
pub open spec fn depth_resource(d: DepthStencilAttachment) -> SubResource {
    SubResource::Texture {
        texture: d.texture.image,
        aspect_mask: d.texture.aspect_flags,
        array_elem: d.array_element as u32,
        mip_level: d.mip_level as u32,
    }
}

/// The uses of the first `n` color attachments.
pub open spec fn color_uses(attachments: Seq<ColorAttachment>, n: int) -> Seq<Use>
    decreases n,
{
    if n <= 0 {
        Seq::empty()
    } else {
        color_uses(attachments, n - 1).push(
            (color_resource(attachments[n - 1].source), color_usage()),
        )
    }
}

/// The uses of the attachments of a render pass: the color attachments in
/// order, then the depth-stencil attachment.
pub open spec fn attachment_uses(d: RenderPassDescriptor) -> Seq<Use> {
    let colors = color_uses(d.color_attachments@, d.color_attachments@.len() as int);
    match d.depth_stencil_attachment {
        Some(a) => colors.push((depth_resource(a), depth_usage())),
        None => colors,
    }
}

/// How a buffer element is used that is read or written at `stage` with
/// `access`.
pub open spec fn buffer_use(buffer: u64, array_element: usize, access: u32, stage: u32) -> Use {
    (
        SubResource::Buffer { buffer, array_elem: array_element as u32 },
        SubResourceUsage { access, stage, layout: LAYOUT_UNDEFINED },
    )
}

/// The uses of the first `n` vertex buffer binds.
pub open spec fn vertex_uses(binds: Seq<VertexBind>, n: int) -> Seq<Use>
    decreases n,
{
    if n <= 0 {
        Seq::empty()
    } else {
        vertex_uses(binds, n - 1).push(
            buffer_use(
                binds[n - 1].buffer.buffer,
                binds[n - 1].array_element,
                ACCESS_VERTEX_ATTRIBUTE_READ,
                STAGE_VERTEX_INPUT,
            ),
        )
    }
}

/// The uses of the first `n` mip levels of a bound texture element.
pub open spec fn mip_uses(
    image: u64,
    aspect_mask: u32,
    array_element: usize,
    access: u32,
    stage: u32,
    n: int,
) -> Seq<Use>
    decreases n,
{
    if n <= 0 {
        Seq::empty()
    } else {
        mip_uses(image, aspect_mask, array_element, access, stage, n - 1).push(
            (
                SubResource::Texture {
                    texture: image,
                    aspect_mask,
                    array_elem: array_element as u32,
                    mip_level: (n - 1) as u32,
                },
                SubResourceUsage { access, stage, layout: LAYOUT_SHADER_READ_ONLY_OPTIMAL },
            ),
        )
    }
}

/// The uses of one bound descriptor: the buffer element, or every mip
/// level of the texture element.
pub open spec fn binding_uses(b: BindingView) -> Seq<Use> {
    match b.value {
        BoundResource::UniformBuffer { buffer, array_element } => seq![
            buffer_use(buffer, array_element, b.access, b.stage),
        ],
        BoundResource::StorageBuffer { buffer, array_element } => seq![
            buffer_use(buffer, array_element, b.access, b.stage),
        ],
        BoundResource::Texture { image, array_element, aspect_mask, mip_count, .. } => mip_uses(
            image,
            aspect_mask,
            array_element,
            b.access,
            b.stage,
            mip_count as int,
        ),
    }
}

/// The uses of the first `n` descriptors of one binding.
pub open spec fn row_uses(row: Seq<Option<BindingView>>, n: int) -> Seq<Use>
    decreases n,
{
    if n <= 0 {
        Seq::empty()
    } else {
        row_uses(row, n - 1) + (match row[n - 1] {
            Some(b) => binding_uses(b),
            None => Seq::empty(),
        })
    }
}

/// The uses of the first `n` bindings of a set.
pub open spec fn table_uses(table: BoundTable, n: int) -> Seq<Use>
    decreases n,
{
    if n <= 0 {
        Seq::empty()
    } else {
        table_uses(table, n - 1) + row_uses(table[n - 1], table[n - 1].len() as int)
    }
}

/// The uses of a descriptor set: those of everything bound to it.
pub open spec fn set_uses(set: &DescriptorSet) -> Seq<Use> {
    table_uses(set.table(), set.table().len() as int)
}

/// The uses of the first `n` of `sets`.
pub open spec fn sets_uses(sets: Seq<&DescriptorSet>, n: int) -> Seq<Use>
    decreases n,
{
    if n <= 0 {
        Seq::empty()
    } else {
        sets_uses(sets, n - 1) + set_uses(sets[n - 1])
    }
}

/// The uses that a command adds to the scope of the render pass it is in.
pub open spec fn pass_command_uses(c: Command) -> Seq<Use> {
    match c {
        Command::BindVertexBuffers { binds, .. } => vertex_uses(binds@, binds@.len() as int),
        Command::BindIndexBuffer { buffer, array_element, .. } => seq![
            buffer_use(buffer.buffer, array_element, ACCESS_INDEX_READ, STAGE_VERTEX_INPUT),
        ],
        Command::BindDescriptorSets { sets, .. } => sets_uses(sets@, sets@.len() as int),
        _ => Seq::empty(),
    }
}

/// The uses of the commands from place `k` up to the end of the render
/// pass.
pub open spec fn pass_uses_from(commands: Seq<Command>, k: int) -> Seq<Use>
    decreases commands.len() - k,
{
    if k < 0 || k >= commands.len() {
        Seq::empty()
    } else if commands[k] is EndRenderPass {
        Seq::empty()
    } else {
        pass_command_uses(commands[k]) + pass_uses_from(commands, k + 1)
    }
}

/// The uses of the render pass that begins at place `i` with descriptor
/// `d`: its attachments, and what the commands up to its end bind.
pub open spec fn render_pass_uses(commands: Seq<Command>, i: int, d: RenderPassDescriptor) -> Seq<
    Use,
> {
    attachment_uses(d) + pass_uses_from(commands, i)
}

/// The uses of a copy between buffers.
pub open spec fn buffer_copy_uses(copy: CopyBufferToBuffer) -> Seq<Use> {
    seq![
        buffer_use(copy.src.buffer, copy.src_array_element, ACCESS_TRANSFER_READ, STAGE_TRANSFER),
        buffer_use(copy.dst.buffer, copy.dst_array_element, ACCESS_TRANSFER_WRITE, STAGE_TRANSFER),
    ]
}

/// How a copy uses the texture element and mip level it names.
pub open spec fn copy_texture_use(
    image: u64,
    aspect_mask: u32,
    copy: BufferTextureCopy,
    access: u32,
    layout: i32,
) -> Use {
    (
        SubResource::Texture {
            texture: image,
            aspect_mask,
            array_elem: copy.texture_array_element as u32,
            mip_level: copy.texture_mip_level as u32,
        },
        SubResourceUsage { access, stage: STAGE_TRANSFER, layout },
    )
}

/// The place of the compute pipeline that is bound at place `k`: the
/// closest bind at or before `k` within the compute pass.
pub open spec fn find_pipeline(commands: Seq<Command>, k: int) -> Option<int>
    decreases k + 1,
{
    if k < 0 || k >= commands.len() {
        None
    } else if commands[k] is BindComputePipeline {
        Some(k)
    } else if commands[k] is BeginComputePass {
        None
    } else {
        find_pipeline(commands, k - 1)
    }
}

/// What is known while the sets of a dispatch are gathered: which slots
/// are covered, how many, and the uses so far.
pub struct Gather {
    pub bound: Seq<bool>,
    pub total: int,
    pub uses: Seq<Use>,
}

/// The state after the first `n` sets of one bind were looked at: a set
/// for a slot that is not covered yet covers it and adds its uses. `None`
/// when a set is bound to a slot that the pipeline does not have.
pub open spec fn gather_sets(g: Option<Gather>, sets: Seq<&DescriptorSet>, first: usize, n: int)
    -> Option<Gather>
    decreases n,
{
    if n <= 0 {
        g
    } else {
        match gather_sets(g, sets, first, n - 1) {
            None => None,
            Some(p) => {
                let slot = first + (n - 1);
                if slot >= p.bound.len() {
                    None
                } else if p.bound[slot] {
                    Some(p)
                } else {
                    Some(
                        Gather {
                            bound: p.bound.update(slot, true),
                            total: p.total + 1,
                            uses: p.uses + set_uses(sets[n - 1]),
                        },
                    )
                }
            },
        }
    }
}

/// The state after one command was looked at.
pub open spec fn gather_command(g: Gather, c: Command) -> Option<Gather> {
    match c {
        Command::BindDescriptorSets { sets, first, .. } => if first + sets@.len() > usize::MAX {
            None
        } else {
            gather_sets(Some(g), sets@, first, sets@.len() as int)
        },
        _ => Some(g),
    }
}

/// The state after the commands from place `k` back to place `idx` were
/// looked at, latest first, stopping once every slot is covered.
pub open spec fn gather_from(g: Gather, commands: Seq<Command>, k: int, idx: int) -> Option<Gather>
    decreases k - idx + 1,
{
    if k < idx || k < 0 || k >= commands.len() || g.total == g.bound.len() {
        Some(g)
    } else {
        match gather_command(g, commands[k]) {
            None => None,
            Some(g2) => gather_from(g2, commands, k - 1, idx),
        }
    }
}

/// The uses of the dispatch at place `i`: those of the latest set bound
/// to each slot of the bound pipeline; none when no pipeline is bound.
/// `None` when a set is bound to a slot that the pipeline does not have.
pub open spec fn dispatch_uses(commands: Seq<Command>, i: int) -> Option<Seq<Use>> {
    match find_pipeline(commands, i) {
        None => Some(Seq::empty()),
        Some(idx) => {
            let slots = commands[idx]->BindComputePipeline_0.layouts@.len();
            let start = Gather { bound: Seq::new(slots, |j: int| false), total: 0, uses: Seq::empty() };
            match gather_from(start, commands, i, idx) {
                None => None,
                Some(g) => Some(g.uses),
            }
        },
    }
}

/// The uses of the command at place `i`, in the order in which they are
/// added to its scope. A render pass is one scope, from its beginning to
/// its end; a command that uses nothing by itself has no uses. `None` when
/// a dispatch finds a set bound to a slot that its pipeline does not have.
pub open spec fn command_uses(commands: Seq<Command>, i: int) -> Option<Seq<Use>> {
    match commands[i] {
        Command::BeginRenderPass(d) => Some(render_pass_uses(commands, i, d)),
        Command::Dispatch(_, _, _) => dispatch_uses(commands, i),
        Command::CopyBufferToBuffer(copy) => Some(buffer_copy_uses(copy)),
        Command::CopyBufferToTexture { buffer, texture, copy } => Some(
            seq![
                buffer_use(
                    buffer.buffer,
                    copy.buffer_array_element,
                    ACCESS_TRANSFER_READ,
                    STAGE_TRANSFER,
                ),
                copy_texture_use(
                    texture.image,
                    texture.aspect_flags,
                    copy,
                    ACCESS_TRANSFER_WRITE,
                    LAYOUT_TRANSFER_DST_OPTIMAL,
                ),
            ],
        ),
        Command::CopyTextureToBuffer { buffer, texture, copy } => Some(
            seq![
                buffer_use(
                    buffer.buffer,
                    copy.buffer_array_element,
                    ACCESS_TRANSFER_WRITE,
                    STAGE_TRANSFER,
                ),
                copy_texture_use(
                    texture.image,
                    texture.aspect_flags,
                    copy,
                    ACCESS_TRANSFER_READ,
                    LAYOUT_TRANSFER_SRC_OPTIMAL,
                ),
            ],
        ),
        _ => Some(Seq::empty()),
    }
}

/// The scope of the first `n` of `uses`. `None` when a use asks for a
/// sub-resource in a defined layout other than the one already asked for.
pub open spec fn scope_from_uses(uses: Seq<Use>, n: int) -> Option<Assoc<SubResource, SubResourceUsage>>
    decreases n,
{
    if n <= 0 {
        Some(Assoc::empty())
    } else {
        match scope_from_uses(uses, n - 1) {
            None => None,
            Some(s) => if conflicts(s, uses[n - 1].0, uses[n - 1].1) {
                None
            } else {
                Some(use_in_scope(s, uses[n - 1].0, uses[n - 1].1))
            },
        }
    }
}

/// The scope of the command at place `i`; `None` when the command cannot
/// be tracked.
pub open spec fn command_scope(commands: Seq<Command>, i: int) -> Option<
    Assoc<SubResource, SubResourceUsage>,
> {
    match command_uses(commands, i) {
        None => None,
        Some(uses) => scope_from_uses(uses, uses.len() as int),
    }
}

/// The semaphores after the surface images among the first `n` color
/// attachments were noted: each is waited for until available, where color
/// is written, and signalled as presentable.
pub open spec fn surface_semaphores(s: SemaphoresView, attachments: Seq<ColorAttachment>, n: int)
    -> SemaphoresView
    decreases n,
{
    if n <= 0 {
        s
    } else {
        let p = surface_semaphores(s, attachments, n - 1);
        match attachments[n - 1].source {
            ColorAttachmentSource::SurfaceImage(image) => SemaphoresView {
                signals: p.signals.insert(image.model().semaphores.presentable, None),
                waits: add_wait(
                    p.waits,
                    image.model().semaphores.available,
                    WaitInfo { value: None, stage: STAGE_COLOR_ATTACHMENT_OUTPUT },
                ),
            },
            ColorAttachmentSource::Texture { .. } => p,
        }
    }
}

/// The semaphores after the command `c` was tracked.
pub open spec fn command_semaphores(s: SemaphoresView, c: Command) -> SemaphoresView {
    match c {
        Command::BeginRenderPass(d) => surface_semaphores(
            s,
            d.color_attachments@,
            d.color_attachments@.len() as int,
        ),
        _ => s,
    }
}

/// Adds the uses of everything bound to `set`.
pub fn track_descriptor_set(set: &DescriptorSet, uses: &mut Vec<Use>)
    ensures
        final(uses)@ == old(uses)@ + set_uses(set),
{
    let ghost start = uses@;
    let ghost table = set.table();
    let mut i: usize = 0;
    while i < set.bound.len()
        invariant
            i <= set.bound@.len(),
            table == set.table(),
            table.len() == set.bound@.len(),
            uses@ == start + table_uses(table, i as int),
        decreases set.bound@.len() - i,
    {
        let row = &set.bound[i];
        let ghost row_start = uses@;
        let ghost row_view = table[i as int];
        let mut j: usize = 0;
        while j < row.len()
            invariant
                j <= row@.len(),
                i < set.bound@.len(),
                table == set.table(),
                row_view == table[i as int],
                *row == set.bound@[i as int],
                row_view.len() == row@.len(),
                uses@ == row_start + row_uses(row_view, j as int),
            decreases row@.len() - j,
        {
            let ghost elem_start = uses@;
            match &row[j] {
                Some(elem) => {
                    assert(row_view[j as int] == Some(elem@));
                    match &elem.value {
                        BoundValue::UniformBuffer { buffer, array_element, .. } => {
                            uses.push(
                                (
                                    SubResource::Buffer {
                                        buffer: *buffer,
                                        array_elem: *array_element as u32,
                                    },
                                    SubResourceUsage {
                                        access: elem.access,
                                        stage: elem.stage,
                                        layout: LAYOUT_UNDEFINED,
                                    },
                                ),
                            );
                            assert(uses@ =~= elem_start + binding_uses(elem@));
                        },
                        BoundValue::StorageBuffer { buffer, array_element, .. } => {
                            uses.push(
                                (
                                    SubResource::Buffer {
                                        buffer: *buffer,
                                        array_elem: *array_element as u32,
                                    },
                                    SubResourceUsage {
                                        access: elem.access,
                                        stage: elem.stage,
                                        layout: LAYOUT_UNDEFINED,
                                    },
                                ),
                            );
                            assert(uses@ =~= elem_start + binding_uses(elem@));
                        },
                        BoundValue::Texture {
                            image,
                            array_element,
                            aspect_mask,
                            mip_count,
                            ..
                        } => {
                            // Every mip level is a sub-resource of its own.
                            let mut m: u32 = 0;
                            while m < *mip_count
                                invariant
                                    m <= *mip_count,
                                    uses@ == elem_start + mip_uses(
                                        *image,
                                        *aspect_mask,
                                        *array_element,
                                        elem.access,
                                        elem.stage,
                                        m as int,
                                    ),
                                decreases *mip_count - m,
                            {
                                uses.push(
                                    (
                                        SubResource::Texture {
                                            texture: *image,
                                            aspect_mask: *aspect_mask,
                                            array_elem: *array_element as u32,
                                            mip_level: m,
                                        },
                                        SubResourceUsage {
                                            access: elem.access,
                                            stage: elem.stage,
                                            layout: LAYOUT_SHADER_READ_ONLY_OPTIMAL,
                                        },
                                    ),
                                );
                                m += 1;
                                assert(uses@ =~= elem_start + mip_uses(
                                    *image,
                                    *aspect_mask,
                                    *array_element,
                                    elem.access,
                                    elem.stage,
                                    m as int,
                                ));
                            }
                        },
                    }
                    assert(uses@ == elem_start + binding_uses(elem@));
                },
                None => {
                    assert(row_view[j as int] is None);
                    assert(uses@ =~= elem_start + Seq::<Use>::empty());
                },
            }
            j += 1;
            assert(uses@ =~= row_start + row_uses(row_view, j as int));
        }
        i += 1;
        assert(uses@ =~= start + table_uses(table, i as int));
    }
}

/// Adds the uses of everything bound to `sets`.
pub fn track_descriptor_sets(sets: &Vec<&DescriptorSet>, uses: &mut Vec<Use>)
    ensures
        final(uses)@ == old(uses)@ + sets_uses(sets@, sets@.len() as int),
{
    let ghost start = uses@;
    let mut i: usize = 0;
    while i < sets.len()
        invariant
            i <= sets@.len(),
            uses@ == start + sets_uses(sets@, i as int),
        decreases sets@.len() - i,
    {
        track_descriptor_set(sets[i], uses);
        i += 1;
        assert(uses@ =~= start + sets_uses(sets@, i as int));
    }
}

/// The uses of the render pass that begins at place `index`.
pub fn track_render_pass<'a>(
    commands: &Vec<Command<'a>>,
    index: usize,
    descriptor: &RenderPassDescriptor<'a>,
) -> (uses: Vec<Use>)
    requires
        index < commands@.len(),
        commands@[index as int] is BeginRenderPass,
        commands@[index as int]->BeginRenderPass_0 == *descriptor,
    ensures
        uses@ == render_pass_uses(commands@, index as int, *descriptor),
{
    let mut uses: Vec<Use> = Vec::new();
    let color = SubResourceUsage {
        access: ACCESS_COLOR_ATTACHMENT_WRITE | ACCESS_COLOR_ATTACHMENT_READ,
        stage: STAGE_COLOR_ATTACHMENT_OUTPUT,
        layout: LAYOUT_COLOR_ATTACHMENT_OPTIMAL,
    };
    let mut a: usize = 0;
    while a < descriptor.color_attachments.len()
        invariant
            a <= descriptor.color_attachments@.len(),
            color == color_usage(),
            uses@ == color_uses(descriptor.color_attachments@, a as int),
        decreases descriptor.color_attachments@.len() - a,
    {
        let subresource = match &descriptor.color_attachments[a].source {
            ColorAttachmentSource::SurfaceImage(image) => SubResource::Texture {
                texture: image.image(),
                aspect_mask: ASPECT_COLOR,
                array_elem: 0,
                mip_level: 0,
            },
            ColorAttachmentSource::Texture { texture, array_element, mip_level } => SubResource::Texture {
                texture: texture.image,
                aspect_mask: ASPECT_COLOR,
                array_elem: *array_element as u32,
                mip_level: *mip_level as u32,
            },
        };
        uses.push((subresource, color));
        a += 1;
    }
    match &descriptor.depth_stencil_attachment {
        Some(attachment) => {
            uses.push(
                (
                    SubResource::Texture {
                        texture: attachment.texture.image,
                        aspect_mask: attachment.texture.aspect_flags,
                        array_elem: attachment.array_element as u32,
                        mip_level: attachment.mip_level as u32,
                    },
                    SubResourceUsage {
                        access: ACCESS_DEPTH_STENCIL_ATTACHMENT_READ
                            | ACCESS_DEPTH_STENCIL_ATTACHMENT_WRITE,
                        stage: STAGE_EARLY_FRAGMENT_TESTS | STAGE_LATE_FRAGMENT_TESTS,
                        layout: LAYOUT_DEPTH_STENCIL_ATTACHMENT_OPTIMAL,
                    },
                ),
            );
        },
        None => {},
    }
    assert(uses@ == attachment_uses(*descriptor));

    // Everything bound up to the end of the pass is used by the pass.
    let ghost total = render_pass_uses(commands@, index as int, *descriptor);
    let mut k: usize = index;
    while k < commands.len()
        invariant_except_break
            index <= k <= commands@.len(),
            uses@ + pass_uses_from(commands@, k as int) == total,
        ensures
            uses@ == total,
        decreases commands@.len() - k,
    {
        let ghost before = uses@;
        match &commands[k] {
            Command::BindVertexBuffers { binds, .. } => {
                let mut b: usize = 0;
                while b < binds.len()
                    invariant
                        b <= binds@.len(),
                        uses@ == before + vertex_uses(binds@, b as int),
                    decreases binds@.len() - b,
                {
                    uses.push(
                        (
                            SubResource::Buffer {
                                buffer: binds[b].buffer.buffer,
                                array_elem: binds[b].array_element as u32,
                            },
                            SubResourceUsage {
                                access: ACCESS_VERTEX_ATTRIBUTE_READ,
                                stage: STAGE_VERTEX_INPUT,
                                layout: LAYOUT_UNDEFINED,
                            },
                        ),
                    );
                    b += 1;
                    assert(uses@ =~= before + vertex_uses(binds@, b as int));
                }
            },
            Command::BindIndexBuffer { buffer, array_element, .. } => {
                uses.push(
                    (
                        SubResource::Buffer {
                            buffer: buffer.buffer,
                            array_elem: *array_element as u32,
                        },
                        SubResourceUsage {
                            access: ACCESS_INDEX_READ,
                            stage: STAGE_VERTEX_INPUT,
                            layout: LAYOUT_UNDEFINED,
                        },
                    ),
                );
                assert(uses@ =~= before + pass_command_uses(commands@[k as int]));
            },
            Command::BindDescriptorSets { sets, .. } => {
                track_descriptor_sets(sets, &mut uses);
            },
            Command::EndRenderPass => {
                assert(pass_uses_from(commands@, k as int) =~= Seq::<Use>::empty());
                assert(uses@ =~= total);
                break ;
            },
            _ => {
                assert(uses@ =~= before + pass_command_uses(commands@[k as int]));
            },
        }
        assert(uses@ == before + pass_command_uses(commands@[k as int]));
        k += 1;
        assert(uses@ + pass_uses_from(commands@, k as int) =~= before + pass_uses_from(
            commands@,
            k as int - 1,
        ));
    }
    assert(uses@ =~= total) by {
        if k >= commands@.len() {
            assert(uses@ + pass_uses_from(commands@, k as int) =~= uses@);
        }
    }
    uses
}

/// The uses of a copy between buffers.
pub fn track_buffer_to_buffer_copy(copy: &CopyBufferToBuffer) -> (uses: Vec<Use>)
    ensures
        uses@ == buffer_copy_uses(*copy),
{
    let mut uses: Vec<Use> = Vec::new();
    uses.push(
        (
            SubResource::Buffer {
                buffer: copy.src.buffer,
                array_elem: copy.src_array_element as u32,
            },
            SubResourceUsage {
                access: ACCESS_TRANSFER_READ,
                stage: STAGE_TRANSFER,
                layout: LAYOUT_UNDEFINED,
            },
        ),
    );
    uses.push(
        (
            SubResource::Buffer {
                buffer: copy.dst.buffer,
                array_elem: copy.dst_array_element as u32,
            },
            SubResourceUsage {
                access: ACCESS_TRANSFER_WRITE,
                stage: STAGE_TRANSFER,
                layout: LAYOUT_UNDEFINED,
            },
        ),
    );
    assert(uses@ =~= buffer_copy_uses(*copy));
    uses
}

/// The uses of a copy between a buffer element and a mip level of a
/// texture element, each with the given access, the texture in `layout`.
fn track_buffer_texture_copy(
    buffer: u64,
    image: u64,
    aspect_mask: u32,
    copy: &BufferTextureCopy,
    buffer_access: u32,
    texture_access: u32,
    layout: i32,
) -> (uses: Vec<Use>)
    ensures
        uses@ == seq![
            buffer_use(buffer, copy.buffer_array_element, buffer_access, STAGE_TRANSFER),
            copy_texture_use(image, aspect_mask, *copy, texture_access, layout),
        ],
{
    let mut uses: Vec<Use> = Vec::new();
    uses.push(
        (
            SubResource::Buffer { buffer, array_elem: copy.buffer_array_element as u32 },
            SubResourceUsage {
                access: buffer_access,
                stage: STAGE_TRANSFER,
                layout: LAYOUT_UNDEFINED,
            },
        ),
    );
    uses.push(
        (
            SubResource::Texture {
                texture: image,
                aspect_mask,
                array_elem: copy.texture_array_element as u32,
                mip_level: copy.texture_mip_level as u32,
            },
            SubResourceUsage { access: texture_access, stage: STAGE_TRANSFER, layout },
        ),
    );
    assert(uses@ =~= seq![
        buffer_use(buffer, copy.buffer_array_element, buffer_access, STAGE_TRANSFER),
        copy_texture_use(image, aspect_mask, *copy, texture_access, layout),
    ]);
    uses
}

/// The uses of a copy from a buffer into a texture.
pub fn track_buffer_to_texture_copy(
    buffer: &crate::buffer::Buffer,
    texture: &crate::texture::Texture,
    copy: &BufferTextureCopy,
) -> (uses: Vec<Use>)
    ensures
        uses@ == seq![
            buffer_use(
                buffer.buffer,
                copy.buffer_array_element,
                ACCESS_TRANSFER_READ,
                STAGE_TRANSFER,
            ),
            copy_texture_use(
                texture.image,
                texture.aspect_flags,
                *copy,
                ACCESS_TRANSFER_WRITE,
                LAYOUT_TRANSFER_DST_OPTIMAL,
            ),
        ],
{
    track_buffer_texture_copy(
        buffer.buffer,
        texture.image,
        texture.aspect_flags,
        copy,
        ACCESS_TRANSFER_READ,
        ACCESS_TRANSFER_WRITE,
        LAYOUT_TRANSFER_DST_OPTIMAL,
    )
}

/// The uses of a copy from a texture into a buffer.
pub fn track_texture_to_buffer_copy(
    buffer: &crate::buffer::Buffer,
    texture: &crate::texture::Texture,
    copy: &BufferTextureCopy,
) -> (uses: Vec<Use>)
    ensures
        uses@ == seq![
            buffer_use(
                buffer.buffer,
                copy.buffer_array_element,
                ACCESS_TRANSFER_WRITE,
                STAGE_TRANSFER,
            ),
            copy_texture_use(
                texture.image,
                texture.aspect_flags,
                *copy,
                ACCESS_TRANSFER_READ,
                LAYOUT_TRANSFER_SRC_OPTIMAL,
            ),
        ],
{
    track_buffer_texture_copy(
        buffer.buffer,
        texture.image,
        texture.aspect_flags,
        copy,
        ACCESS_TRANSFER_WRITE,
        ACCESS_TRANSFER_READ,
        LAYOUT_TRANSFER_SRC_OPTIMAL,
    )
}

/// The number of slots that are covered.
pub open spec fn covered(bound: Seq<bool>) -> int
    decreases bound.len(),
{
    if bound.len() == 0 {
        0
    } else {
        covered(bound.drop_last()) + if bound.last() {
            1int
        } else {
            0int
        }
    }
}

/// No more slots are covered than there are, and covering one more slot
/// raises the number by one.
pub proof fn lemma_covered(bound: Seq<bool>, slot: int)
    requires
        0 <= slot < bound.len(),
    ensures
        0 <= covered(bound) <= bound.len(),
        !bound[slot] ==> covered(bound.update(slot, true)) == covered(bound) + 1,
        !bound[slot] ==> covered(bound) < bound.len(),
    decreases bound.len(),
{
    lemma_covered_bound(bound);
    if slot == bound.len() - 1 {
        assert(bound.update(slot, true).drop_last() =~= bound.drop_last());
        lemma_covered_bound(bound.drop_last());
    } else {
        lemma_covered(bound.drop_last(), slot);
        assert(bound.update(slot, true).drop_last() =~= bound.drop_last().update(slot, true));
    }
}

proof fn lemma_covered_bound(bound: Seq<bool>)
    ensures
        0 <= covered(bound) <= bound.len(),
    decreases bound.len(),
{
    if bound.len() > 0 {
        lemma_covered_bound(bound.drop_last());
    }
}

proof fn lemma_covered_none(n: nat)
    ensures
        covered(Seq::new(n, |j: int| false)) == 0,
    decreases n,
{
    if n > 0 {
        lemma_covered_none((n - 1) as nat);
        assert(Seq::new(n, |j: int| false).drop_last() =~= Seq::new((n - 1) as nat, |j: int| false));
    }
}

/// The uses of the dispatch at place `index`, or `None` when a set is
/// bound to a slot that the bound pipeline does not have.
pub fn track_dispatch<'a>(commands: &Vec<Command<'a>>, index: usize) -> (r: Option<Vec<Use>>)
    requires
        index < commands@.len(),
    ensures
        match dispatch_uses(commands@, index as int) {
            Some(uses) => r is Some && r->0@ == uses,
            None => r is None,
        },
{
    // Find the pipeline that is bound.
    let mut found: Option<usize> = None;
    let count = commands.len();
    let mut k1: usize = index + 1;
    while k1 > 0
        invariant_except_break
            k1 <= index + 1,
            index < commands@.len(),
            found is None,
            find_pipeline(commands@, index as int) == find_pipeline(commands@, k1 as int - 1),
        ensures
            index < commands@.len(),
            found is Some ==> found->0 <= index && commands@[found->0 as int]
                is BindComputePipeline && find_pipeline(commands@, index as int) == Some(
                found->0 as int,
            ),
            found is None ==> find_pipeline(commands@, index as int) is None,
        decreases k1,
    {
        let k = k1 - 1;
        match &commands[k] {
            Command::BindComputePipeline(_) => {
                found = Some(k);
                break ;
            },
            Command::BeginComputePass => {
                break ;
            },
            _ => {},
        }
        k1 -= 1;
    }
    let idx = match found {
        Some(idx) => idx,
        // Without a pipeline the dispatch uses nothing.
        None => {
            return Some(Vec::new());
        },
    };
    let pipeline = match &commands[idx] {
        Command::BindComputePipeline(pipeline) => pipeline,
        // The search stops at nothing but the bind of a pipeline.
        _ => {
            assert(false);
            return None;
        },
    };
    let slots = pipeline.layouts.len();
    let mut bound: Vec<bool> = Vec::new();
    let mut j: usize = 0;
    while j < slots
        invariant
            j <= slots,
            bound@.len() == j,
            forall|i: int| 0 <= i < j ==> !bound@[i],
        decreases slots - j,
    {
        bound.push(false);
        j += 1;
    }
    let mut total: usize = 0;
    let mut uses: Vec<Use> = Vec::new();
    let ghost start = Gather {
        bound: Seq::new(slots as nat, |j: int| false),
        total: 0,
        uses: Seq::empty(),
    };
    proof {
        assert(bound@ =~= start.bound);
        lemma_covered_none(slots as nat);
    }
    let ghost want = gather_from(start, commands@, index as int, idx as int);

    // Look at the binds, latest first, until every slot is covered.
    let mut k1: usize = index + 1;
    while k1 > idx
        invariant_except_break
            idx <= k1 <= index + 1,
            index < commands@.len(),
            dispatch_uses(commands@, index as int) == (match want {
                None => None,
                Some(g) => Some(g.uses),
            }),
            bound@.len() == slots,
            total == covered(bound@),
            gather_from(
                Gather { bound: bound@, total: total as int, uses: uses@ },
                commands@,
                k1 as int - 1,
                idx as int,
            ) == want,
        ensures
            dispatch_uses(commands@, index as int) == (match want {
                None => None,
                Some(g) => Some(g.uses),
            }),
            want == Some(Gather { bound: bound@, total: total as int, uses: uses@ }),
        decreases k1,
    {
        if total == bound.len() {
            break ;
        }
        let k = k1 - 1;
        let ghost g = Gather { bound: bound@, total: total as int, uses: uses@ };
        assert(gather_from(g, commands@, k as int, idx as int) == want);
        assert(want == (match gather_command(g, commands@[k as int]) {
            None => None,
            Some(g2) => gather_from(g2, commands@, k as int - 1, idx as int),
        }));
        match &commands[k] {
            Command::BindDescriptorSets { sets, first, .. } => {
                if *first > usize::MAX - sets.len() {
                    return None;
                }
                let mut i: usize = 0;
                while i < sets.len()
                    invariant
                        i <= sets@.len(),
                        *first + sets@.len() <= usize::MAX,
                        bound@.len() == slots,
                        total == covered(bound@),
                        gather_sets(Some(g), sets@, *first, i as int) == Some(
                            Gather { bound: bound@, total: total as int, uses: uses@ },
                        ),
                        gather_sets(Some(g), sets@, *first, sets@.len() as int) is None
                            ==> dispatch_uses(commands@, index as int) is None,
                        gather_sets(Some(g), sets@, *first, sets@.len() as int) is Some
                            ==> want == gather_from(
                            gather_sets(Some(g), sets@, *first, sets@.len() as int)->0,
                            commands@,
                            k as int - 1,
                            idx as int,
                        ),
                    decreases sets@.len() - i,
                {
                    let set_slot = *first + i;
                    if set_slot >= bound.len() {
                        proof {
                            assert(gather_sets(Some(g), sets@, *first, i as int + 1) is None);
                            lemma_gather_sets_none(
                                Some(g),
                                sets@,
                                *first,
                                i as int + 1,
                                sets@.len() as int,
                            );
                        }
                        return None;
                    }
                    if !bound[set_slot] {
                        proof {
                            lemma_covered(bound@, set_slot as int);
                        }
                        track_descriptor_set(sets[i], &mut uses);
                        bound.set(set_slot, true);
                        total += 1;
                    }
                    i += 1;
                }
            },
            _ => {},
        }
        k1 -= 1;
    }
    Some(uses)
}

/// Once gathering the sets of a bind has failed, it stays failed.
proof fn lemma_gather_sets_none(
    g: Option<Gather>,
    sets: Seq<&DescriptorSet>,
    first: usize,
    m: int,
    n: int,
)
    requires
        0 <= m <= n,
        gather_sets(g, sets, first, m) is None,
    ensures
        gather_sets(g, sets, first, n) is None,
    decreases n,
{
    if m < n {
        lemma_gather_sets_none(g, sets, first, m, n - 1);
    }
}

/// The scope of `uses`, or `None` when a use asks for a sub-resource in a
/// defined layout other than the one already asked for.
pub fn scope_from(uses: &Vec<Use>) -> (r: Option<UsageScope>)
    ensures
        match scope_from_uses(uses@, uses@.len() as int) {
            Some(s) => r is Some && r->0.wf() && r->0@ == s,
            None => r is None,
        },
{
    let mut scope = UsageScope::new();
    let mut i: usize = 0;
    while i < uses.len()
        invariant
            i <= uses@.len(),
            scope.wf(),
            scope_from_uses(uses@, i as int) == Some(scope@),
        decreases uses@.len() - i,
    {
        let (resource, usage) = uses[i];
        if !scope.try_use_resource(resource, usage) {
            proof {
                lemma_scope_none(uses@, i as int + 1, uses@.len() as int);
            }
            return None;
        }
        i += 1;
    }
    Some(scope)
}

/// Once building a scope has failed, it stays failed.
proof fn lemma_scope_none(uses: Seq<Use>, m: int, n: int)
    requires
        0 <= m <= n,
        scope_from_uses(uses, m) is None,
    ensures
        scope_from_uses(uses, n) is None,
    decreases n,
{
    if m < n {
        lemma_scope_none(uses, m, n - 1);
    }
}

/// The scope of the command at place `index`, or `None` when the command
/// cannot be tracked: a dispatch with a set bound to a slot that its
/// pipeline does not have, or a scope that asks for a sub-resource in two
/// defined layouts.
pub fn scope_of_command<'a>(commands: &Vec<Command<'a>>, index: usize) -> (r: Option<UsageScope>)
    requires
        index < commands@.len(),
    ensures
        match command_scope(commands@, index as int) {
            Some(s) => r is Some && r->0.wf() && r->0@ == s,
            None => r is None,
        },
{
    let uses = match &commands[index] {
        Command::BeginRenderPass(descriptor) => track_render_pass(commands, index, descriptor),
        Command::Dispatch(_, _, _) => match track_dispatch(commands, index) {
            Some(uses) => uses,
            None => {
                return None;
            },
        },
        Command::CopyBufferToBuffer(copy) => track_buffer_to_buffer_copy(copy),
        Command::CopyBufferToTexture { buffer, texture, copy } => track_buffer_to_texture_copy(
            buffer,
            texture,
            copy,
        ),
        Command::CopyTextureToBuffer { buffer, texture, copy } => track_texture_to_buffer_copy(
            buffer,
            texture,
            copy,
        ),
        // Other commands use nothing by themselves.
        _ => Vec::new(),
    };
    scope_from(&uses)
}

/// Tracks the command at place `index`: notes the semaphores of the
/// surface images it draws to, handles its scope, and hands back the
/// barrier to record before it, if one is needed.
pub fn track_resources<'a>(
    commands: &Vec<Command<'a>>,
    index: usize,
    pipeline_tracker: &mut PipelineTracker,
    global: &mut GlobalResourceUsage,
    semaphores: &mut SemaphoreTracker,
) -> (out: Option<PipelineBarrier>)
    requires
        index < commands@.len(),
        command_scope(commands@, index as int) is Some,
        old(pipeline_tracker).wf(),
        old(global).wf(),
        old(semaphores).wf(),
    ensures
        final(pipeline_tracker).wf(),
        final(global).wf(),
        final(semaphores).wf(),
        final(semaphores)@ == command_semaphores(old(semaphores)@, commands@[index as int]),
        final(global)@ == submit_scope(
            old(global)@,
            old(pipeline_tracker)@,
            command_scope(commands@, index as int)->0,
        ).registry,
        final(pipeline_tracker)@ == submit_scope(
            old(global)@,
            old(pipeline_tracker)@,
            command_scope(commands@, index as int)->0,
        ).tracker,
        barrier_matches(
            out,
            submit_scope(
                old(global)@,
                old(pipeline_tracker)@,
                command_scope(commands@, index as int)->0,
            ).barrier,
        ),
{
    match &commands[index] {
        Command::BeginRenderPass(descriptor) => {
            let mut a: usize = 0;
            while a < descriptor.color_attachments.len()
                invariant
                    a <= descriptor.color_attachments@.len(),
                    semaphores.wf(),
                    semaphores@ == surface_semaphores(
                        old(semaphores)@,
                        descriptor.color_attachments@,
                        a as int,
                    ),
                decreases descriptor.color_attachments@.len() - a,
            {
                match &descriptor.color_attachments[a].source {
                    ColorAttachmentSource::SurfaceImage(image) => {
                        let sems = image.semaphores();
                        semaphores.register_signal(sems.presentable, None);
                        semaphores.register_wait(
                            sems.available,
                            WaitInfo { value: None, stage: STAGE_COLOR_ATTACHMENT_OUTPUT },
                        );
                    },
                    ColorAttachmentSource::Texture { .. } => {},
                }
                a += 1;
            }
        },
        _ => {},
    }
    let scope = scope_of_command(commands, index).unwrap();
    pipeline_tracker.submit(global, &scope)
}

} // verus!
