//! Buffers: arrays of equally sized, aligned elements.

use vstd::prelude::*;
use crate::garbage_collector::BufferRefCounter;
use crate::types::{
    BufferUsage, MemoryUsage, BUFFER_USAGE_STORAGE_BUFFER, BUFFER_USAGE_TRANSFER_SRC,
    BUFFER_USAGE_UNIFORM_BUFFER,
};

verus! {

/// What a buffer is created from.
pub struct BufferCreateInfo {
    /// The size of one array element in bytes.
    pub size: u64,
    pub array_elements: usize,
    pub buffer_usage: BufferUsage,
    pub memory_usage: MemoryUsage,
    pub debug_name: Option<String>,
}

#[derive(Debug)]
pub enum BufferCreateError {
    Other(String),
}

#[derive(Debug)]
pub enum BufferViewError {
    NotMapable,
    Other(String),
}

/// The alignments that the device asks of buffer offsets.
#[derive(Debug, Copy, Clone, PartialEq, Eq, Structural)]
pub struct DeviceLimits {
    pub non_coherent_atom_size: u64,
    pub min_uniform_buffer_offset_alignment: u64,
    pub min_storage_buffer_offset_alignment: u64,
}

/// A buffer of the device.
pub struct Buffer {
    /// The native buffer.
    pub buffer: u64,
    pub buffer_usage: BufferUsage,
    pub memory_usage: MemoryUsage,
    pub array_elements: usize,
    /// The size of one array element as asked for.
    pub size: u64,
    /// The size of one array element after alignment.
    pub aligned_size: u64,
    pub ref_counter: BufferRefCounter,
}

/// The greater of two alignments.
pub open spec fn max_align(a: u64, b: u64) -> u64 {
    if a >= b {
        a
    } else {
        b
    }
}

/// The alignment that the elements of a buffer need: the worst of the
/// non-coherent atom size for memory that the host writes, the uniform
/// offset alignment for a uniform buffer, and the storage offset alignment
/// for a storage buffer; 0 when none applies.
pub open spec fn spec_alignment_requirement(
    memory_usage: MemoryUsage,
    buffer_usage: BufferUsage,
    limits: DeviceLimits,
) -> u64 {
    let a = if memory_usage == MemoryUsage::CpuToGpu {
        limits.non_coherent_atom_size
    } else {
        0
    };
    let b = if buffer_usage.bits & BUFFER_USAGE_UNIFORM_BUFFER == BUFFER_USAGE_UNIFORM_BUFFER {
        max_align(a, limits.min_uniform_buffer_offset_alignment)
    } else {
        a
    };
    if buffer_usage.bits & BUFFER_USAGE_STORAGE_BUFFER == BUFFER_USAGE_STORAGE_BUFFER {
        max_align(b, limits.min_storage_buffer_offset_alignment)
    } else {
        b
    }
}

/// The size of an element of `size` bytes rounded up for the alignment
/// `align`: `size` itself when `align` is 0.
pub open spec fn spec_aligned_size(size: u64, align: u64) -> u64 {
    if align == 0 {
        size
    } else {
        ((size + (align - 1)) as u64) & !((align - 1) as u64)
    }
}

/// For an alignment that is a power of two, the rounded size is the least
/// multiple of the alignment that is no less than the size.
pub proof fn lemma_aligned_size(size: u64, align: u64)
    requires
        align > 0,
        align & ((align - 1) as u64) == 0,
        size + (align - 1) <= u64::MAX,
    ensures
        spec_aligned_size(size, align) >= size,
        spec_aligned_size(size, align) - size < align,
        spec_aligned_size(size, align) & ((align - 1) as u64) == 0,
{
    let mask: u64 = (align - 1) as u64;
    let sum: u64 = (size + mask) as u64;
    assert(sum & !mask >= size && (sum & !mask) - size <= mask && (sum & !mask) & mask == 0)
        by (bit_vector)
        requires
            align > 0,
            mask == align - 1,
            align & mask == 0,
            sum >= size,
            sum - size == mask,
    ;
}

/// The alignment that the elements of a buffer need; see
/// [`spec_alignment_requirement`].
pub fn alignment_requirement(
    memory_usage: MemoryUsage,
    buffer_usage: BufferUsage,
    limits: &DeviceLimits,
) -> (r: u64)
    ensures
        r == spec_alignment_requirement(memory_usage, buffer_usage, *limits),
{
    let mut alignment_req: u64 = 0;
    if memory_usage == MemoryUsage::CpuToGpu {
        alignment_req = limits.non_coherent_atom_size;
    }
    if buffer_usage.contains(BUFFER_USAGE_UNIFORM_BUFFER) {
        if limits.min_uniform_buffer_offset_alignment > alignment_req {
            alignment_req = limits.min_uniform_buffer_offset_alignment;
        }
    }
    if buffer_usage.contains(BUFFER_USAGE_STORAGE_BUFFER) {
        if limits.min_storage_buffer_offset_alignment > alignment_req {
            alignment_req = limits.min_storage_buffer_offset_alignment;
        }
    }
    alignment_req
}

/// Rounds the size of an element up for an alignment.
pub fn aligned_size(size: u64, align: u64) -> (r: u64)
    requires
        align > 0 ==> size + (align - 1) <= u64::MAX,
    ensures
        r == spec_aligned_size(size, align),
{
    if align == 0 {
        size
    } else {
        let align_mask = align - 1;
        (size + align_mask) & !align_mask
    }
}

impl BufferCreateInfo {
    /// What a staging buffer for `len` bytes is created from: one element,
    /// a source of transfers, written by the host.
    pub fn staging(len: u64, debug_name: Option<String>) -> (r: Self)
        ensures
            r.size == len,
            r.array_elements == 1,
            r.buffer_usage.bits == BUFFER_USAGE_TRANSFER_SRC,
            r.memory_usage == MemoryUsage::CpuToGpu,
            r.debug_name == debug_name,
    {
        BufferCreateInfo {
            size: len,
            array_elements: 1,
            buffer_usage: BufferUsage { bits: BUFFER_USAGE_TRANSFER_SRC },
            memory_usage: MemoryUsage::CpuToGpu,
            debug_name,
        }
    }

    /// The size of one element after alignment on a device with `limits`.
    pub open spec fn spec_element_size(&self, limits: DeviceLimits) -> u64 {
        spec_aligned_size(
            self.size,
            spec_alignment_requirement(self.memory_usage, self.buffer_usage, limits),
        )
    }

    /// The size of the native buffer to create: every element at its
    /// aligned size. `None` when that size does not fit in 64 bits.
    pub fn native_size(&self, limits: &DeviceLimits) -> (r: Option<u64>)
        ensures
            r is Some <==> {
                &&& self.size + spec_alignment_requirement(
                    self.memory_usage,
                    self.buffer_usage,
                    *limits,
                ) <= u64::MAX
                &&& self.spec_element_size(*limits) * self.array_elements <= u64::MAX
            },
            r is Some ==> r->0 == self.spec_element_size(*limits) * self.array_elements,
    {
        let align = alignment_requirement(self.memory_usage, self.buffer_usage, limits);
        if self.size > u64::MAX - align {
            return None;
        }
        let element = aligned_size(self.size, align);
        match element.checked_mul(self.array_elements as u64) {
            Some(total) => Some(total),
            None => None,
        }
    }
}

impl Buffer {
    /// The elements of the buffer fit in 64 bits of address.
    pub open spec fn wf(&self) -> bool {
        self.aligned_size * self.array_elements <= u64::MAX
    }

    /// The buffer around the native buffer `buffer`, which was created
    /// with the size that `native_size` gives for `create_info`.
    pub fn new(buffer: u64, create_info: &BufferCreateInfo, limits: &DeviceLimits) -> (r: Self)
        requires
            create_info.size + spec_alignment_requirement(
                create_info.memory_usage,
                create_info.buffer_usage,
                *limits,
            ) <= u64::MAX,
            create_info.spec_element_size(*limits) * create_info.array_elements <= u64::MAX,
        ensures
            r.wf(),
            r.buffer == buffer,
            r.buffer_usage == create_info.buffer_usage,
            r.memory_usage == create_info.memory_usage,
            r.array_elements == create_info.array_elements,
            r.size == create_info.size,
            r.aligned_size == create_info.spec_element_size(*limits),
    {
        let align = alignment_requirement(
            create_info.memory_usage,
            create_info.buffer_usage,
            limits,
        );
        Buffer {
            buffer,
            buffer_usage: create_info.buffer_usage,
            memory_usage: create_info.memory_usage,
            array_elements: create_info.array_elements,
            size: create_info.size,
            aligned_size: aligned_size(create_info.size, align),
            ref_counter: BufferRefCounter::new(),
        }
    }

    /// The size of one element as asked for.
    pub fn size(&self) -> (r: u64)
        ensures
            r == self.size,
    {
        self.size
    }

    /// Where element `idx` lies in a buffer whose elements are
    /// `aligned_size` bytes apart.
    pub open spec fn spec_element_offset(aligned_size: u64, idx: usize) -> int {
        aligned_size * idx
    }

    /// The byte range of element `idx` for mapping: its offset and the
    /// size asked for. Memory that only the device reaches cannot be
    /// mapped.
    pub fn map(&self, idx: usize) -> (r: Result<(u64, u64), BufferViewError>)
        requires
            self.wf(),
            idx < self.array_elements,
        ensures
            self.memory_usage == MemoryUsage::GpuOnly ==> r is Err && r->Err_0 is NotMapable,
            self.memory_usage != MemoryUsage::GpuOnly ==> r == Ok::<(u64, u64), BufferViewError>(
                (Self::spec_element_offset(self.aligned_size, idx) as u64, self.size),
            ),
    {
        if self.memory_usage == MemoryUsage::GpuOnly {
            return Err(BufferViewError::NotMapable);
        }
        proof {
            assert(self.aligned_size * idx <= self.aligned_size * self.array_elements)
                by (nonlinear_arith)
                requires
                    idx < self.array_elements,
            ;
        }
        Ok((self.aligned_size * (idx as u64), self.size))
    }
}

} // verus!
