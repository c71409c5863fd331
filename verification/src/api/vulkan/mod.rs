//! The realisation over Vulkan.

pub mod command;
pub mod constants;
pub mod destroy;
pub mod device;
pub mod fence;
pub mod framebuffer;
pub mod image;
pub mod instance;
pub mod native;
pub mod physical_device;
pub mod pipeline;
pub mod semaphore;
pub mod shader;
pub mod surface;
pub mod swapchain;

use vstd::prelude::*;
use crate::api::traits::{GraphicsApi, Object};
use crate::error::Error;
use crate::ownership::ObjectId;

pub use self::command::buffer::{VulkanCommandBuffer, VulkanCommandBufferAllocateInfo};
pub use self::command::pool::{VulkanCommandPool, VulkanCommandPoolCreateInfo};
pub use self::constants::{
    VulkanBlendFactorConstants, VulkanBlendOpConstants, VulkanColorComponentConstants,
    VulkanColorSpaces, VulkanCompositeAlphaModes, VulkanCullModeConstants, VulkanDeviceTypes,
    VulkanFrontFaceConstants, VulkanPolygonModeConstants, VulkanPresentModeConstants,
    VulkanPrimitiveTopologyConstants, VulkanRenderTargetFormatConstants,
};
pub use self::destroy::VulkanDestroy;
pub use self::device::{
    VulkanDevice, VulkanDeviceCreateInfo, VulkanDeviceQueueCreateInfo, VulkanQueue,
};
pub use self::fence::{VulkanFence, VulkanFenceCreateInfo};
pub use self::framebuffer::{VulkanFramebuffer, VulkanFramebufferCreateInfo};
pub use self::image::{
    VulkanComponentMapping, VulkanImage, VulkanImageSubresourceRange, VulkanImageView,
    VulkanImageViewCreateInfo,
};
pub use self::instance::{
    DebugAction, LogLevel, VulkanDebugUtilsMessengerCreateInfo, VulkanExtension, VulkanInstance,
    VulkanInstanceCreateInfo, VulkanLayer,
};
pub use self::physical_device::{
    VulkanPhysicalDevice, VulkanPhysicalDeviceProperties, VulkanSurfaceCapabilities,
    VulkanSurfaceFormat,
};
pub use self::pipeline::graphics::{
    VulkanGraphicsPipeline, VulkanGraphicsPipelineCreateInfo, VulkanGraphicsPipelineExt,
    VulkanPipelineColorBlendAttachmentState, VulkanPipelineColorBlendStateCreateInfo,
    VulkanPipelineDepthStencilStateCreateInfo, VulkanPipelineDynamicStateCreateInfo,
    VulkanPipelineMultisampleStateCreateInfo, VulkanPipelineShaderStageCreateInfo,
    VulkanPipelineViewportStateCreateInfo, VulkanStencilOpState,
};
pub use self::pipeline::input_assembly::VulkanPipelineInputAssemblyStateCreateInfo;
pub use self::pipeline::input_state::VulkanPipelineVertexInputStateCreateInfo;
pub use self::pipeline::layout::{VulkanPipelineLayout, VulkanPipelineLayoutCreateInfo};
pub use self::pipeline::rasterization::VulkanPipelineRasterizationStateCreateInfo;
pub use self::pipeline::render_pass::{
    VulkanAttachmentDescription, VulkanAttachmentReference, VulkanRenderPass,
    VulkanRenderPassCreateInfo, VulkanSubpassDescription,
};
pub use self::semaphore::{VulkanSemaphore, VulkanSemaphoreCreateInfo};
pub use self::shader::{VulkanShaderCode, VulkanShaderModule, VulkanShaderModuleCreateInfo};
pub use self::surface::{VulkanSurface, VulkanWin32SurfaceCreateInfo};
pub use self::swapchain::{VulkanAcquireNextImage, VulkanSwapchain, VulkanSwapchainCreateInfo};


verus! {

/// The Vulkan backend.
pub struct VulkanApi;

impl GraphicsApi for VulkanApi {
    type Root = VulkanInstance;

    type Device = VulkanPhysicalDevice;

    type DeviceProperties = VulkanPhysicalDeviceProperties;

    type Surface = VulkanSurface;

    type SurfaceCapabilities = VulkanSurfaceCapabilities;

    type Context = VulkanDevice;

    type Queue = VulkanQueue;

    type CommandPool = VulkanCommandPool;

    type CommandBuffer = VulkanCommandBuffer;

    type Swapchain = VulkanSwapchain;

    type Image = VulkanImage;

    type ImageView = VulkanImageView;

    type Shader = VulkanShaderModule;

    type RenderPass = VulkanRenderPass;

    type Framebuffer = VulkanFramebuffer;

    type PipelineLayout = VulkanPipelineLayout;

    type GraphicsPipeline = VulkanGraphicsPipeline;

    type Fence = VulkanFence;

    type Semaphore = VulkanSemaphore;

    type DeviceTypeConstants = VulkanDeviceTypes;

    type CompositeAlphaConstants = VulkanCompositeAlphaModes;

    type ColorSpaceConstants = VulkanColorSpaces;

    type DataFormatConstants = VulkanRenderTargetFormatConstants;

    type PresentModeConstants = VulkanPresentModeConstants;

    type BlendOpConstants = VulkanBlendOpConstants;

    type BlendFactorConstants = VulkanBlendFactorConstants;

    type ColorComponentConstants = VulkanColorComponentConstants;

    type PolygonModeConstants = VulkanPolygonModeConstants;

    type CullModeConstants = VulkanCullModeConstants;

    type FrontFaceConstants = VulkanFrontFaceConstants;

    type PrimitiveTopologyConstants = VulkanPrimitiveTopologyConstants;
}

/// What a Vulkan call that creates an object handed back, with a failure put
/// as this library reports it.
pub open spec fn api_outcome(native: Result<u64, i32>) -> Result<u64, Error> {
    match native {
        Ok(handle) => Ok(handle),
        Err(code) => Err(Error::ApiError(code)),
    }
}

/// Puts the failure of a Vulkan call as this library reports it.
pub fn api_result(native: Result<u64, i32>) -> (outcome: Result<u64, Error>)
    ensures
        outcome == api_outcome(native),
{
    match native {
        Ok(handle) => Ok(handle),
        Err(code) => Err(Error::ApiError(code)),
    }
}

/// An object of the Vulkan backend: what fails in Vulkan is reported as an
/// error of the native API.
pub trait VulkanObject: Object {
    proof fn api_error(code: i32)
        ensures
            Self::failure(code) == Error::ApiError(code),
    ;
}

/// A Vulkan object that was created under an instance.
pub trait VulkanInstanceObject: VulkanObject {
    /// The record of the instance.
    spec fn instance_record(&self) -> ObjectId;

    /// The record of the instance.
    fn instance(&self) -> (id: ObjectId)
        ensures
            id == self.instance_record(),
    ;
}

/// A Vulkan object that was created on a device.
pub trait VulkanDeviceObject: VulkanObject {
    /// The record of the device.
    spec fn device_record(&self) -> ObjectId;

    /// The record of the device.
    fn device(&self) -> (id: ObjectId)
        ensures
            id == self.device_record(),
    ;
}

} // verus!
