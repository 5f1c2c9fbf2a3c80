//! Numeric codes of the native API: access masks, pipeline stages, image
//! layouts and aspects, as the driver defines them.

use vstd::prelude::*;

verus! {

/// A mask of memory access kinds.
pub type AccessFlags = u32;

/// A mask of pipeline stages.
pub type PipelineStageFlags = u32;

/// A mask of image aspects.
pub type ImageAspectFlags = u32;

/// The code of an image layout.
pub type ImageLayout = i32;

pub const ACCESS_NONE: u32 = 0x0;
pub const ACCESS_INDIRECT_COMMAND_READ: u32 = 0x1;
pub const ACCESS_INDEX_READ: u32 = 0x2;
pub const ACCESS_VERTEX_ATTRIBUTE_READ: u32 = 0x4;
pub const ACCESS_UNIFORM_READ: u32 = 0x8;
pub const ACCESS_SHADER_READ: u32 = 0x20;
pub const ACCESS_SHADER_WRITE: u32 = 0x40;
pub const ACCESS_COLOR_ATTACHMENT_READ: u32 = 0x80;
pub const ACCESS_COLOR_ATTACHMENT_WRITE: u32 = 0x100;
pub const ACCESS_DEPTH_STENCIL_ATTACHMENT_READ: u32 = 0x200;
pub const ACCESS_DEPTH_STENCIL_ATTACHMENT_WRITE: u32 = 0x400;
pub const ACCESS_TRANSFER_READ: u32 = 0x800;
pub const ACCESS_TRANSFER_WRITE: u32 = 0x1000;
pub const ACCESS_MEMORY_READ: u32 = 0x8000;
pub const ACCESS_MEMORY_WRITE: u32 = 0x10000;

/// Every access kind that only reads: index, indirect command, vertex
/// attribute, uniform, shader, transfer, color and depth attachment, memory.
pub const READ_ACCESSES: u32 = 0x8aaf;

pub const STAGE_TOP_OF_PIPE: u32 = 0x1;
pub const STAGE_DRAW_INDIRECT: u32 = 0x2;
pub const STAGE_VERTEX_INPUT: u32 = 0x4;
pub const STAGE_VERTEX_SHADER: u32 = 0x8;
pub const STAGE_TESSELLATION_CONTROL_SHADER: u32 = 0x10;
pub const STAGE_TESSELLATION_EVALUATION_SHADER: u32 = 0x20;
pub const STAGE_GEOMETRY_SHADER: u32 = 0x40;
pub const STAGE_FRAGMENT_SHADER: u32 = 0x80;
pub const STAGE_EARLY_FRAGMENT_TESTS: u32 = 0x100;
pub const STAGE_LATE_FRAGMENT_TESTS: u32 = 0x200;
pub const STAGE_COLOR_ATTACHMENT_OUTPUT: u32 = 0x400;
pub const STAGE_COMPUTE_SHADER: u32 = 0x800;
pub const STAGE_TRANSFER: u32 = 0x1000;
pub const STAGE_BOTTOM_OF_PIPE: u32 = 0x2000;
pub const STAGE_ALL_GRAPHICS: u32 = 0x8000;

pub const LAYOUT_UNDEFINED: i32 = 0;
pub const LAYOUT_GENERAL: i32 = 1;
pub const LAYOUT_COLOR_ATTACHMENT_OPTIMAL: i32 = 2;
pub const LAYOUT_DEPTH_STENCIL_ATTACHMENT_OPTIMAL: i32 = 3;
pub const LAYOUT_SHADER_READ_ONLY_OPTIMAL: i32 = 5;
pub const LAYOUT_TRANSFER_SRC_OPTIMAL: i32 = 6;
pub const LAYOUT_TRANSFER_DST_OPTIMAL: i32 = 7;
pub const LAYOUT_PRESENT_SRC: i32 = 1000001002;

pub const ASPECT_COLOR: u32 = 0x1;
pub const ASPECT_DEPTH: u32 = 0x2;
pub const ASPECT_STENCIL: u32 = 0x4;

/// Marks a dependency that is local to a region of the framebuffer.
pub const DEPENDENCY_BY_REGION: u32 = 0x1;

/// Marks a barrier that moves no ownership between queue families.
pub const QUEUE_FAMILY_IGNORED: u32 = 0xffff_ffff;

/// Marks a range that runs to the end of the buffer.
pub const WHOLE_SIZE: u64 = 0xffff_ffff_ffff_ffff;

/// `mask` holds every bit of `bits`.
pub open spec fn mask_contains(mask: u32, bits: u32) -> bool {
    mask & bits == bits
}

/// Tests whether `mask` holds every bit of `bits`.
pub fn contains(mask: u32, bits: u32) -> (r: bool)
    ensures
        r == mask_contains(mask, bits),
{
    mask & bits == bits
}

/// `access` names only reading access kinds.
pub open spec fn spec_is_read_access(access: u32) -> bool {
    mask_contains(READ_ACCESSES, access)
}

/// Tests whether `access` names only reading access kinds.
pub fn is_read_access(access: u32) -> (r: bool)
    ensures
        r == spec_is_read_access(access),
{
    contains(READ_ACCESSES, access)
}

/// The place of a single pipeline stage in the order of execution; lower is
/// earlier. A mask that is not exactly one of the ranked stages gets
/// `u32::MAX`.
pub open spec fn spec_rank_pipeline_stage(stage: u32) -> u32 {
    if stage == STAGE_TOP_OF_PIPE {
        0
    } else if stage == STAGE_DRAW_INDIRECT {
        1
    } else if stage == STAGE_VERTEX_INPUT {
        2
    } else if stage == STAGE_VERTEX_SHADER {
        3
    } else if stage == STAGE_TESSELLATION_CONTROL_SHADER {
        4
    } else if stage == STAGE_TESSELLATION_EVALUATION_SHADER {
        5
    } else if stage == STAGE_GEOMETRY_SHADER {
        6
    } else if stage == STAGE_FRAGMENT_SHADER {
        7
    } else if stage == STAGE_EARLY_FRAGMENT_TESTS {
        8
    } else if stage == STAGE_LATE_FRAGMENT_TESTS {
        9
    } else if stage == STAGE_COLOR_ATTACHMENT_OUTPUT {
        10
    } else if stage == STAGE_TRANSFER {
        11
    } else if stage == STAGE_COMPUTE_SHADER {
        12
    } else if stage == STAGE_BOTTOM_OF_PIPE {
        13
    } else {
        u32::MAX
    }
}

/// Ranks a single pipeline stage; see [`spec_rank_pipeline_stage`].
pub fn rank_pipeline_stage(stage: u32) -> (r: u32)
    ensures
        r == spec_rank_pipeline_stage(stage),
{
    if stage == STAGE_TOP_OF_PIPE {
        0
    } else if stage == STAGE_DRAW_INDIRECT {
        1
    } else if stage == STAGE_VERTEX_INPUT {
        2
    } else if stage == STAGE_VERTEX_SHADER {
        3
    } else if stage == STAGE_TESSELLATION_CONTROL_SHADER {
        4
    } else if stage == STAGE_TESSELLATION_EVALUATION_SHADER {
        5
    } else if stage == STAGE_GEOMETRY_SHADER {
        6
    } else if stage == STAGE_FRAGMENT_SHADER {
        7
    } else if stage == STAGE_EARLY_FRAGMENT_TESTS {
        8
    } else if stage == STAGE_LATE_FRAGMENT_TESTS {
        9
    } else if stage == STAGE_COLOR_ATTACHMENT_OUTPUT {
        10
    } else if stage == STAGE_TRANSFER {
        11
    } else if stage == STAGE_COMPUTE_SHADER {
        12
    } else if stage == STAGE_BOTTOM_OF_PIPE {
        13
    } else {
        u32::MAX
    }
}

/// The ranked stages, earliest first.
pub open spec fn ranked_stages() -> Seq<u32> {
    seq![
        STAGE_TOP_OF_PIPE,
        STAGE_DRAW_INDIRECT,
        STAGE_VERTEX_INPUT,
        STAGE_VERTEX_SHADER,
        STAGE_TESSELLATION_CONTROL_SHADER,
        STAGE_TESSELLATION_EVALUATION_SHADER,
        STAGE_GEOMETRY_SHADER,
        STAGE_FRAGMENT_SHADER,
        STAGE_EARLY_FRAGMENT_TESTS,
        STAGE_LATE_FRAGMENT_TESTS,
        STAGE_COLOR_ATTACHMENT_OUTPUT,
        STAGE_TRANSFER,
        STAGE_COMPUTE_SHADER,
        STAGE_BOTTOM_OF_PIPE,
    ]
}

/// The earliest ranked stage that `mask` holds, searching `ranked_stages`
/// from position `from`; the start of the pipeline when it holds none.
pub open spec fn earliest_stage_from(mask: u32, from: int) -> u32
    decreases 14 - from,
{
    if from < 0 || from >= 14 {
        STAGE_TOP_OF_PIPE
    } else if mask_contains(mask, ranked_stages()[from]) {
        ranked_stages()[from]
    } else {
        earliest_stage_from(mask, from + 1)
    }
}

/// The earliest ranked stage among those that `mask` holds. A mask that
/// holds no ranked stage is taken to start at the top of the pipeline.
pub open spec fn spec_earliest_stage(mask: u32) -> u32 {
    earliest_stage_from(mask, 0)
}

/// The earliest stage of a mask is one of the ranked stages, so its rank is
/// at most that of the end of the pipeline, and no ranked stage held by the
/// mask comes before it.
pub proof fn lemma_earliest_stage(mask: u32)
    ensures
        spec_rank_pipeline_stage(spec_earliest_stage(mask)) <= 13,
        ranked_stages()[spec_rank_pipeline_stage(spec_earliest_stage(mask)) as int]
            == spec_earliest_stage(mask),
        forall|i: int|
            0 <= i < 14 && mask_contains(mask, #[trigger] ranked_stages()[i])
                ==> spec_rank_pipeline_stage(spec_earliest_stage(mask)) <= i,
        forall|i: int|
            0 <= i < 14 && mask_contains(mask, #[trigger] ranked_stages()[i])
                ==> mask_contains(mask, spec_earliest_stage(mask)),
{
    reveal_with_fuel(earliest_stage_from, 16);
}

/// Picks the earliest ranked stage among those that `mask` holds.
pub fn earliest_stage(mask: u32) -> (r: u32)
    ensures
        r == spec_earliest_stage(mask),
{
    proof {
        reveal_with_fuel(earliest_stage_from, 16);
    }
    if contains(mask, STAGE_TOP_OF_PIPE) {
        STAGE_TOP_OF_PIPE
    } else if contains(mask, STAGE_DRAW_INDIRECT) {
        STAGE_DRAW_INDIRECT
    } else if contains(mask, STAGE_VERTEX_INPUT) {
        STAGE_VERTEX_INPUT
    } else if contains(mask, STAGE_VERTEX_SHADER) {
        STAGE_VERTEX_SHADER
    } else if contains(mask, STAGE_TESSELLATION_CONTROL_SHADER) {
        STAGE_TESSELLATION_CONTROL_SHADER
    } else if contains(mask, STAGE_TESSELLATION_EVALUATION_SHADER) {
        STAGE_TESSELLATION_EVALUATION_SHADER
    } else if contains(mask, STAGE_GEOMETRY_SHADER) {
        STAGE_GEOMETRY_SHADER
    } else if contains(mask, STAGE_FRAGMENT_SHADER) {
        STAGE_FRAGMENT_SHADER
    } else if contains(mask, STAGE_EARLY_FRAGMENT_TESTS) {
        STAGE_EARLY_FRAGMENT_TESTS
    } else if contains(mask, STAGE_LATE_FRAGMENT_TESTS) {
        STAGE_LATE_FRAGMENT_TESTS
    } else if contains(mask, STAGE_COLOR_ATTACHMENT_OUTPUT) {
        STAGE_COLOR_ATTACHMENT_OUTPUT
    } else if contains(mask, STAGE_TRANSFER) {
        STAGE_TRANSFER
    } else if contains(mask, STAGE_COMPUTE_SHADER) {
        STAGE_COMPUTE_SHADER
    } else if contains(mask, STAGE_BOTTOM_OF_PIPE) {
        STAGE_BOTTOM_OF_PIPE
    } else {
        STAGE_TOP_OF_PIPE
    }
}

} // verus!
