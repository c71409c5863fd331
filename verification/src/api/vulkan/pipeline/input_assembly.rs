//! The input assembly of a pipeline.

use vstd::prelude::*;
use crate::api::vulkan::constants::VulkanPrimitiveTopologyConstants;
use crate::api::vulkan::native::{
    VK_FALSE, VK_STRUCTURE_TYPE_PIPELINE_INPUT_ASSEMBLY_STATE_CREATE_INFO,
};
use crate::datatypes::PrimitiveTopology;

verus! {

/// How a pipeline assembles primitives, as `vkCreateGraphicsPipelines` is told.
#[derive(Debug, Copy, Clone, PartialEq, Eq, Structural)]
pub struct VulkanPipelineInputAssemblyStateCreateInfo {
    pub s_type: i32,
    pub flags: u32,
    pub topology: i32,
    pub primitive_restart_enable: u32,
}

impl VulkanPipelineInputAssemblyStateCreateInfo {
    /// Primitives of the given topology, never restarted.
    pub open spec fn of(topology: PrimitiveTopology) -> VulkanPipelineInputAssemblyStateCreateInfo {
        VulkanPipelineInputAssemblyStateCreateInfo {
            s_type: VK_STRUCTURE_TYPE_PIPELINE_INPUT_ASSEMBLY_STATE_CREATE_INFO,
            flags: 0,
            topology: topology.native::<VulkanPrimitiveTopologyConstants>(),
            primitive_restart_enable: VK_FALSE,
        }
    }

    /// Primitives of the given topology, never restarted.
    pub fn from_topology(topology: PrimitiveTopology) -> (state:
        VulkanPipelineInputAssemblyStateCreateInfo)
        ensures
            state == Self::of(topology),
    {
        VulkanPipelineInputAssemblyStateCreateInfo {
            s_type: VK_STRUCTURE_TYPE_PIPELINE_INPUT_ASSEMBLY_STATE_CREATE_INFO,
            flags: 0,
            topology: topology.to_native::<VulkanPrimitiveTopologyConstants>(),
            primitive_restart_enable: VK_FALSE,
        }
    }
}

impl Default for VulkanPipelineInputAssemblyStateCreateInfo {
    fn default() -> (state: VulkanPipelineInputAssemblyStateCreateInfo)
        ensures
            state == VulkanPipelineInputAssemblyStateCreateInfo::of(PrimitiveTopology::TriangleList),
    {
        VulkanPipelineInputAssemblyStateCreateInfo::from_topology(PrimitiveTopology::TriangleList)
    }
}

} // verus!
