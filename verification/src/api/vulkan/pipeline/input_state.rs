//! The vertex input of a pipeline.

use vstd::prelude::*;
use crate::api::vulkan::native::VK_STRUCTURE_TYPE_PIPELINE_VERTEX_INPUT_STATE_CREATE_INFO;

verus! {

/// How a pipeline reads its vertices, as `vkCreateGraphicsPipelines` is told.
#[derive(Debug, Copy, Clone, PartialEq, Eq, Structural)]
pub struct VulkanPipelineVertexInputStateCreateInfo {
    pub s_type: i32,
    pub flags: u32,
    pub vertex_binding_description_count: u32,
    pub vertex_attribute_description_count: u32,
}

impl VulkanPipelineVertexInputStateCreateInfo {
    /// A pipeline that reads no vertex data.
    pub open spec fn nothing() -> VulkanPipelineVertexInputStateCreateInfo {
        VulkanPipelineVertexInputStateCreateInfo {
            s_type: VK_STRUCTURE_TYPE_PIPELINE_VERTEX_INPUT_STATE_CREATE_INFO,
            flags: 0,
            vertex_binding_description_count: 0,
            vertex_attribute_description_count: 0,
        }
    }
}

impl Default for VulkanPipelineVertexInputStateCreateInfo {
    fn default() -> (state: VulkanPipelineVertexInputStateCreateInfo)
        ensures
            state == VulkanPipelineVertexInputStateCreateInfo::nothing(),
    {
        VulkanPipelineVertexInputStateCreateInfo {
            s_type: VK_STRUCTURE_TYPE_PIPELINE_VERTEX_INPUT_STATE_CREATE_INFO,
            flags: 0,
            vertex_binding_description_count: 0,
            vertex_attribute_description_count: 0,
        }
    }
}

} // verus!
