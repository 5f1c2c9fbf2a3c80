//! The plain enumerations and flag sets of the recording interface.

use vstd::prelude::*;
use crate::assoc::Key;

verus! {

#[derive(Debug, Copy, Clone, PartialEq, Eq, Structural, Hash, PartialOrd, Ord)]
pub enum TextureFormat {
    R8Unorm,
    Rgba8Unorm,
    Bgra8Unorm,
}

impl TextureFormat {
    /// Whether the format stores color; every format offered does.
    pub fn is_color(&self) -> (r: bool)
        ensures
            r,
    {
        true
    }

    /// Whether the format has a stencil part; no format offered has.
    pub fn is_stencil(&self) -> (r: bool)
        ensures
            !r,
    {
        false
    }
}

#[derive(Debug, Copy, Clone, PartialEq, Eq, Structural, Hash, PartialOrd, Ord)]
pub enum VertexFormat {
    XF32,
    XyF32,
    XyzwF32,
}

#[derive(Debug, Copy, Clone, PartialEq, Eq, Structural, Hash, PartialOrd, Ord)]
pub enum IndexType {
    U16,
    U32,
}

#[derive(Debug, Copy, Clone, PartialEq, Eq, Structural, Hash, PartialOrd, Ord)]
pub enum VertexInputRate {
    Vertex,
    Instance,
}

#[derive(Debug, Copy, Clone, PartialEq, Eq, Structural, Hash, PartialOrd, Ord)]
pub enum PrimitiveTopology {
    PontList,
    LineList,
    TriangleList,
}

#[derive(Debug, Copy, Clone, PartialEq, Eq, Structural, Hash, PartialOrd, Ord)]
pub enum PolygonMode {
    Fill,
    Line,
    Point,
}

#[derive(Debug, Copy, Clone, PartialEq, Eq, Structural, Hash, PartialOrd, Ord)]
pub enum CullMode {
    /// Nothing is culled.
    Neither,
    Front,
    Back,
    FrontAndBack,
}

#[derive(Debug, Copy, Clone, PartialEq, Eq, Structural, Hash, PartialOrd, Ord)]
pub enum FrontFace {
    CounterClockwise,
    Clockwise,
}

#[derive(Debug, Copy, Clone, PartialEq, Eq, Structural, Hash, PartialOrd, Ord)]
pub enum CompareOp {
    Never,
    Less,
    Equal,
    LessOrEqual,
    Greater,
    NotEqual,
    GreaterOrEqual,
    Always,
}

#[derive(Debug, Copy, Clone, PartialEq, Eq, Structural, Hash, PartialOrd, Ord)]
pub enum BlendFactor {
    Zero,
    One,
    SrcColor,
    OneMinusSrcColor,
    DstColor,
    OneMinusDstColor,
    SrcAlpha,
    OneMinusSrcAlpha,
    DstAlpha,
    OneMinusDstAlpha,
}

#[derive(Debug, Copy, Clone, PartialEq, Eq, Structural, Hash, PartialOrd, Ord)]
pub enum BlendOp {
    Add,
    Subtract,
    ReverseSubtract,
    Min,
    Max,
}

#[derive(Debug, Copy, Clone, PartialEq, Eq, Structural, Hash, PartialOrd, Ord)]
pub enum JobStatus {
    /// The job is still running.
    Running,
    /// The job is complete.
    Complete,
}

#[derive(Debug, Copy, Clone, PartialEq, Eq, Structural, Hash, PartialOrd, Ord)]
pub enum QueueType {
    /// Supports graphics, transfer and compute work.
    Main,
    /// Supports transfer work, usually beside the other queues.
    Transfer,
    /// Supports compute work, usually beside the other queues.
    Compute,
    /// Supports presenting to a surface.
    Present,
}

impl Key for QueueType {
    fn same(&self, other: &Self) -> (r: bool) {
        *self == *other
    }
}

#[derive(Debug, Copy, Clone, PartialEq, Eq, Structural, Hash, PartialOrd, Ord)]
pub enum StoreOp {
    /// What the image holds after the pass does not matter.
    DontCare,
    /// The image keeps what the pass wrote.
    Store,
}

/// A clear value. Floating-point channels are held as their IEEE-754 bit
/// patterns.
#[derive(Debug, Copy, Clone, PartialEq, Eq, Structural, Hash)]
pub enum ClearColor {
    RgbaF32(u32, u32, u32, u32),
    RU32(u32),
    D32S32(u32, u32),
}

#[derive(Debug, Copy, Clone, PartialEq, Eq, Structural, Hash)]
pub enum LoadOp {
    /// What the image held before the pass does not matter.
    DontCare,
    /// The pass starts from what the image holds.
    Load,
    /// The pass starts from the given clear value.
    Clear(ClearColor),
}

#[derive(Debug, Copy, Clone, PartialEq, Eq, Structural, Hash, PartialOrd, Ord)]
pub enum PresentMode {
    /// Present at once; tearing may show.
    Immediate,
    /// Present at the next vertical blank from a one-entry queue.
    Mailbox,
    /// Present at vertical blanks from a first-in first-out queue.
    Fifo,
    /// As `Fifo`, but a late image is presented at once.
    FifoRelaxed,
}

#[derive(Debug, Copy, Clone, PartialEq, Eq, Structural, Hash, PartialOrd, Ord)]
pub enum ShaderStage {
    AllGraphics,
    Vertex,
    Fragment,
    Compute,
}

#[derive(Debug, Copy, Clone, PartialEq, Eq, Structural, Hash, PartialOrd, Ord)]
pub enum MemoryUsage {
    Unknown,
    GpuOnly,
    CpuToGpu,
    GpuToCpu,
}

#[derive(Debug, Copy, Clone, PartialEq, Eq, Structural, Hash, PartialOrd, Ord)]
pub enum AccessType {
    Read,
    ReadWrite,
}

#[derive(Debug, Copy, Clone, PartialEq, Eq, Structural, Hash, PartialOrd, Ord)]
pub enum TextureType {
    Type1D,
    Type2D,
    Type3D,
}

/// The color channels a blend attachment writes.
#[derive(Debug, Copy, Clone, PartialEq, Eq, Structural, Hash)]
pub struct ColorComponents {
    pub bits: u32,
}

pub const COLOR_COMPONENT_R: u32 = 0x1;
pub const COLOR_COMPONENT_G: u32 = 0x2;
pub const COLOR_COMPONENT_B: u32 = 0x4;
pub const COLOR_COMPONENT_A: u32 = 0x8;

/// The ways a buffer may be used.
#[derive(Debug, Copy, Clone, PartialEq, Eq, Structural, Hash)]
pub struct BufferUsage {
    pub bits: u32,
}

pub const BUFFER_USAGE_TRANSFER_SRC: u32 = 0x01;
pub const BUFFER_USAGE_TRANSFER_DST: u32 = 0x02;
pub const BUFFER_USAGE_UNIFORM_BUFFER: u32 = 0x04;
pub const BUFFER_USAGE_STORAGE_BUFFER: u32 = 0x08;
pub const BUFFER_USAGE_VERTEX_BUFFER: u32 = 0x10;
pub const BUFFER_USAGE_INDEX_BUFFER: u32 = 0x20;
pub const BUFFER_USAGE_INDIRECT_BUFFER: u32 = 0x40;

/// The ways a texture may be used.
#[derive(Debug, Copy, Clone, PartialEq, Eq, Structural, Hash)]
pub struct TextureUsage {
    pub bits: u32,
}

pub const TEXTURE_USAGE_TRANSFER_SRC: u32 = 0x01;
pub const TEXTURE_USAGE_TRANSFER_DST: u32 = 0x02;
pub const TEXTURE_USAGE_SAMPLED: u32 = 0x04;
pub const TEXTURE_USAGE_STORAGE: u32 = 0x08;
pub const TEXTURE_USAGE_COLOR_ATTACHMENT: u32 = 0x10;
pub const TEXTURE_USAGE_DEPTH_STENCIL_ATTACHMENT: u32 = 0x20;

impl ColorComponents {
    /// The set with no channel.
    pub fn empty() -> (r: Self)
        ensures
            r.bits == 0,
    {
        ColorComponents { bits: 0 }
    }

    /// Whether every channel of `other` is in the set.
    pub fn contains(&self, other: u32) -> (r: bool)
        ensures
            r == (self.bits & other == other),
    {
        self.bits & other == other
    }
}

impl BufferUsage {
    /// The set with no use.
    pub fn empty() -> (r: Self)
        ensures
            r.bits == 0,
    {
        BufferUsage { bits: 0 }
    }

    /// Whether every use of `other` is in the set.
    pub fn contains(&self, other: u32) -> (r: bool)
        ensures
            r == (self.bits & other == other),
    {
        self.bits & other == other
    }
}

impl TextureUsage {
    /// The set with no use.
    pub fn empty() -> (r: Self)
        ensures
            r.bits == 0,
    {
        TextureUsage { bits: 0 }
    }

    /// Whether every use of `other` is in the set.
    pub fn contains(&self, other: u32) -> (r: bool)
        ensures
            r == (self.bits & other == other),
    {
        self.bits & other == other
    }
}

} // verus!
