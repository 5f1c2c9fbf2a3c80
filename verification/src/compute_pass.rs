//! Compute passes: the commands recorded in them.

use vstd::prelude::*;
use crate::command_buffer::Command;
use crate::compute_pipeline::ComputePipeline;
use crate::descriptor_set::DescriptorSet;
use crate::types::ShaderStage;

verus! {

/// Records the commands of one compute pass.
pub struct ComputePass<'a> {
    pub commands: Vec<Command<'a>>,
}

impl<'a> ComputePass<'a> {
    /// A compute pass without commands.
    pub fn new() -> (r: Self)
        ensures
            r.commands@.len() == 0,
    {
        ComputePass { commands: Vec::new() }
    }

    pub fn bind_pipeline(&mut self, pipeline: &'a ComputePipeline)
        ensures
            final(self).commands@ == old(self).commands@.push(Command::BindComputePipeline(pipeline)),
    {
        self.commands.push(Command::BindComputePipeline(pipeline));
    }

    /// Binds descriptor sets for the compute stage, the first to slot
    /// `first`.
    pub fn bind_sets(&mut self, first: usize, sets: Vec<&'a DescriptorSet>)
        ensures
            final(self).commands@ == old(self).commands@.push(
                Command::BindDescriptorSets { sets, first, stage: ShaderStage::Compute },
            ),
    {
        self.commands.push(Command::BindDescriptorSets { sets, first, stage: ShaderStage::Compute });
    }

    pub fn dispatch(&mut self, x: u32, y: u32, z: u32)
        ensures
            final(self).commands@ == old(self).commands@.push(Command::Dispatch(x, y, z)),
    {
        self.commands.push(Command::Dispatch(x, y, z));
    }
}

} // verus!
