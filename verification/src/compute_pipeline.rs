//! Compute pipelines.

use vstd::prelude::*;
use crate::descriptor_set::DescriptorSetLayout;
use crate::shader::Shader;

verus! {

/// What a compute pipeline is created from.
pub struct ComputePipelineCreateInfo {
    pub layouts: Vec<DescriptorSetLayout>,
    pub module: Shader,
    pub work_group_size: (u32, u32, u32),
    pub debug_name: Option<String>,
}

#[derive(Debug)]
pub enum ComputePipelineCreateError {
    Other(String),
}

/// A compute pipeline of the device.
pub struct ComputePipeline {
    /// The native pipeline.
    pub pipeline: u64,
    /// The native pipeline layout.
    pub layout: u64,
    /// The layouts of the descriptor sets that the pipeline reads, slot by
    /// slot.
    pub layouts: Vec<DescriptorSetLayout>,
}

impl ComputePipeline {
    /// The pipeline around the native pipeline `pipeline` and its native
    /// layout `layout`, which were created for `create_info`.
    pub fn new(pipeline: u64, layout: u64, create_info: ComputePipelineCreateInfo) -> (r: Self)
        ensures
            r.pipeline == pipeline,
            r.layout == layout,
            r.layouts == create_info.layouts,
    {
        ComputePipeline { pipeline, layout, layouts: create_info.layouts }
    }

    /// The layouts of the descriptor sets that the pipeline reads.
    pub fn layouts(&self) -> (r: &Vec<DescriptorSetLayout>)
        ensures
            *r == self.layouts,
    {
        &self.layouts
    }
}

} // verus!
