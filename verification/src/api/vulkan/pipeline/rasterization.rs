//! The rasterisation of a pipeline.

use vstd::prelude::*;
use crate::api::vulkan::constants::{
    VulkanCullModeConstants, VulkanFrontFaceConstants, VulkanPolygonModeConstants,
};
use crate::api::vulkan::native::{
    VK_FALSE, VK_STRUCTURE_TYPE_PIPELINE_RASTERIZATION_STATE_CREATE_INFO,
};
use crate::datatypes::{CullMode, FrontFace, PolygonMode};
use crate::info::RasterizationState;

verus! {

/// How a pipeline rasterises, as `vkCreateGraphicsPipelines` is told.  Depth
/// is neither clamped nor biased, nothing is discarded, and lines are one
/// pixel wide.
#[derive(Debug, Copy, Clone, PartialEq, Eq, Structural)]
pub struct VulkanPipelineRasterizationStateCreateInfo {
    pub s_type: i32,
    pub flags: u32,
    pub depth_clamp_enable: u32,
    pub rasterizer_discard_enable: u32,
    pub polygon_mode: i32,
    pub cull_mode: i32,
    pub front_face: i32,
    pub depth_bias_enable: u32,
}

impl VulkanPipelineRasterizationStateCreateInfo {
    /// The rasterisation that `state` asks for.
    pub open spec fn of(state: RasterizationState) -> VulkanPipelineRasterizationStateCreateInfo {
        VulkanPipelineRasterizationStateCreateInfo {
            s_type: VK_STRUCTURE_TYPE_PIPELINE_RASTERIZATION_STATE_CREATE_INFO,
            flags: 0,
            depth_clamp_enable: VK_FALSE,
            rasterizer_discard_enable: VK_FALSE,
            polygon_mode: state.polygon_mode.native::<VulkanPolygonModeConstants>(),
            cull_mode: state.cull_mode.native::<VulkanCullModeConstants>(),
            front_face: state.front_face.native::<VulkanFrontFaceConstants>(),
            depth_bias_enable: VK_FALSE,
        }
    }

    /// The rasterisation that `state` asks for.
    pub fn from_state(state: &RasterizationState) -> (native:
        VulkanPipelineRasterizationStateCreateInfo)
        ensures
            native == Self::of(*state),
    {
        VulkanPipelineRasterizationStateCreateInfo {
            s_type: VK_STRUCTURE_TYPE_PIPELINE_RASTERIZATION_STATE_CREATE_INFO,
            flags: 0,
            depth_clamp_enable: VK_FALSE,
            rasterizer_discard_enable: VK_FALSE,
            polygon_mode: state.polygon_mode.to_native::<VulkanPolygonModeConstants>(),
            cull_mode: state.cull_mode.to_native::<VulkanCullModeConstants>(),
            front_face: state.front_face.to_native::<VulkanFrontFaceConstants>(),
            depth_bias_enable: VK_FALSE,
        }
    }
}

impl Default for VulkanPipelineRasterizationStateCreateInfo {
    fn default() -> (state: VulkanPipelineRasterizationStateCreateInfo)
        ensures
            state == VulkanPipelineRasterizationStateCreateInfo::of(
                RasterizationState {
                    polygon_mode: PolygonMode::Fill,
                    cull_mode: CullMode::Back,
                    front_face: FrontFace::CounterClockwise,
                },
            ),
    {
        VulkanPipelineRasterizationStateCreateInfo::from_state(
            &RasterizationState {
                polygon_mode: PolygonMode::Fill,
                cull_mode: CullMode::Back,
                front_face: FrontFace::CounterClockwise,
            },
        )
    }
}

} // verus!
