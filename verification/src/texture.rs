//! Textures: an image with one view for each mip level of each array
//! element.

use vstd::prelude::*;
use crate::garbage_collector::TextureRefCounter;
use crate::types::{MemoryUsage, TextureFormat, TextureType, TextureUsage};
use crate::vk::{ASPECT_COLOR, ASPECT_DEPTH, ASPECT_STENCIL};

verus! {

/// What a texture is created from.
pub struct TextureCreateInfo {
    pub format: TextureFormat,
    pub ty: TextureType,
    pub width: u32,
    pub height: u32,
    pub depth: u32,
    pub array_elements: usize,
    pub mip_levels: usize,
    pub texture_usage: TextureUsage,
    pub memory_usage: MemoryUsage,
    pub debug_name: Option<String>,
}

#[derive(Debug)]
pub enum TextureCreateError {
    Other(String),
}

/// A texture of the device.
pub struct Texture {
    /// The native image.
    pub image: u64,
    /// The views, element by element and, within an element, mip level by
    /// mip level.
    pub views: Vec<u64>,
    pub image_usage: TextureUsage,
    pub memory_usage: MemoryUsage,
    pub array_elements: usize,
    /// The size of the image's memory in bytes.
    pub size: u64,
    pub ref_counter: TextureRefCounter,
    pub format: TextureFormat,
    pub mip_count: u32,
    pub aspect_flags: u32,
    pub dims: (u32, u32, u32),
}

/// The aspects of an image of a format: color for a color format, else
/// depth, with stencil where the format has it.
pub open spec fn spec_aspect_flags(color: bool, stencil: bool) -> u32 {
    if color {
        ASPECT_COLOR
    } else if stencil {
        ASPECT_DEPTH | ASPECT_STENCIL
    } else {
        ASPECT_DEPTH
    }
}

/// The aspects of an image of `format`; see [`spec_aspect_flags`].
pub fn aspect_flags(format: TextureFormat) -> (r: u32)
    ensures
        r == spec_aspect_flags(true, false),
{
    if format.is_color() {
        ASPECT_COLOR
    } else if format.is_stencil() {
        ASPECT_DEPTH | ASPECT_STENCIL
    } else {
        ASPECT_DEPTH
    }
}

impl Default for TextureCreateInfo {
    fn default() -> (r: Self)
        ensures
            r.format == TextureFormat::Rgba8Unorm,
            r.ty == TextureType::Type2D,
            r.width == 128,
            r.height == 128,
            r.depth == 1,
            r.array_elements == 1,
            r.mip_levels == 1,
            r.texture_usage.bits == 0,
            r.memory_usage == MemoryUsage::GpuOnly,
            r.debug_name is None,
    {
        TextureCreateInfo {
            format: TextureFormat::Rgba8Unorm,
            ty: TextureType::Type2D,
            width: 128,
            height: 128,
            depth: 1,
            array_elements: 1,
            mip_levels: 1,
            texture_usage: TextureUsage::empty(),
            memory_usage: MemoryUsage::GpuOnly,
            debug_name: None,
        }
    }
}

impl Texture {
    /// There is one view for each mip level of each array element.
    pub open spec fn wf(&self) -> bool {
        self.views@.len() == self.array_elements * self.mip_count
    }

    /// The place among the views of the view of mip level `mip_level` of
    /// array element `array_element`.
    pub open spec fn spec_view_index(&self, array_element: usize, mip_level: usize) -> int {
        array_element * self.mip_count + mip_level
    }

    /// The texture around the native image `image` and its views, which
    /// were created for `create_info`, element by element and mip level by
    /// mip level; `size` is the size of the image's memory.
    pub fn new(image: u64, views: Vec<u64>, size: u64, create_info: &TextureCreateInfo) -> (r: Self)
        requires
            create_info.mip_levels <= u32::MAX,
            views@.len() == create_info.array_elements * create_info.mip_levels,
        ensures
            r.wf(),
            r.image == image,
            r.views == views,
            r.size == size,
            r.image_usage == create_info.texture_usage,
            r.memory_usage == create_info.memory_usage,
            r.array_elements == create_info.array_elements,
            r.format == create_info.format,
            r.mip_count == create_info.mip_levels,
            r.aspect_flags == spec_aspect_flags(true, false),
            r.dims == (create_info.width, create_info.height, create_info.depth),
    {
        Texture {
            image,
            views,
            image_usage: create_info.texture_usage,
            memory_usage: create_info.memory_usage,
            array_elements: create_info.array_elements,
            size,
            ref_counter: TextureRefCounter::new(),
            format: create_info.format,
            mip_count: create_info.mip_levels as u32,
            aspect_flags: aspect_flags(create_info.format),
            dims: (create_info.width, create_info.height, create_info.depth),
        }
    }

    /// The width, height and depth.
    pub fn dims(&self) -> (r: (u32, u32, u32))
        ensures
            r == self.dims,
    {
        self.dims
    }

    /// The view of mip level `mip_level` of array element `array_element`.
    pub fn view(&self, array_element: usize, mip_level: usize) -> (r: u64)
        requires
            self.wf(),
            array_element < self.array_elements,
            mip_level < self.mip_count,
        ensures
            0 <= self.spec_view_index(array_element, mip_level) < self.views@.len(),
            r == self.views@[self.spec_view_index(array_element, mip_level)],
    {
        let n = self.views.len();
        proof {
            lemma_view_index(
                array_element as int,
                mip_level as int,
                self.array_elements as int,
                self.mip_count as int,
            );
            assert(n <= usize::MAX);
            assert(array_element * self.mip_count + mip_level < self.views@.len());
        }
        self.views[array_element * (self.mip_count as usize) + mip_level]
    }
}

/// The view of a mip level of an array element lies among the views.
pub proof fn lemma_view_index(e: int, m: int, elements: int, mips: int)
    requires
        0 <= e < elements,
        0 <= m < mips,
    ensures
        0 <= e * mips <= e * mips + m < elements * mips,
{
    assert(e * mips + mips <= elements * mips) by (nonlinear_arith)
        requires
            0 <= e < elements,
            0 <= mips,
    ;
    assert(0 <= e * mips) by (nonlinear_arith)
        requires
            0 <= e,
            0 <= mips,
    ;
}

} // verus!
