//! The realisation over DirectX 12.

pub mod adapter;
pub mod command;
pub mod constants;
pub mod device;
pub mod factory;
pub mod fence;
pub mod framebuffer;
pub mod image;
pub mod native;
pub mod pipeline;
pub mod queue;
pub mod semaphore;
pub mod surface;
pub mod swapchain;

use vstd::prelude::*;
use crate::api::traits::{GraphicsApi, Object};
use crate::error::Error;
use crate::ownership::ObjectId;

pub use self::adapter::{
    DirectXAdapter, DirectXAdapterDescription, DirectXRect, DirectXSurfaceCapabilities,
};
pub use self::command::{
    DirectXCommandAllocator, DirectXCommandAllocatorDescription, DirectXCommandList,
    DirectXCommandListDescription,
};
pub use self::constants::{
    DirectXBlendFactors, DirectXBlendOps, DirectXColorComponentConstants, DirectXColorSpaces,
    DirectXCompositeAlphaModes, DirectXCullModes, DirectXDataFormats, DirectXDeviceTypes,
    DirectXFrontFaces, DirectXPolygonModes, DirectXPresentModes, DirectXPrimitiveTopologies,
};
pub use self::device::{DirectXCommandQueueDescription, DirectXDevice, DirectXDeviceDescription};
pub use self::factory::{DirectXFactory, DirectXFactoryDescription};
pub use self::fence::{DirectXFence, DirectXFenceDescription};
pub use self::framebuffer::{DirectXFramebuffer, DirectXFramebufferDescription};
pub use self::image::{DirectXImage, DirectXImageView, DirectXImageViewDescription};
pub use self::semaphore::{DirectXSemaphore, DirectXSemaphoreDescription};
pub use self::pipeline::graphics::{
    DirectXBlendDescription, DirectXDepthStencilDescription, DirectXGraphicsPipeline,
    DirectXGraphicsPipelineDescription, DirectXRasterizerDescription,
    DirectXRenderTargetBlendDescription, DirectXStencilDescription,
};
pub use self::pipeline::layout::{DirectXPipelineLayout, DirectXPipelineLayoutDescription};
pub use self::pipeline::render_pass::{DirectXRenderPass, DirectXRenderPassDescription};
pub use self::pipeline::shader::{DirectXShader, DirectXShaderDescription};
pub use self::queue::DirectXCommandQueue;
pub use self::surface::{DirectXSurface, DirectXSurfaceDescription};
pub use self::swapchain::{DirectXSwapchain, DirectXSwapchainDescription};

verus! {

/// The DirectX backend.
pub struct DirectXApi;

impl GraphicsApi for DirectXApi {
    type Root = DirectXFactory;

    type Device = DirectXAdapter;

    type DeviceProperties = DirectXAdapterDescription;

    type Surface = DirectXSurface;

    type SurfaceCapabilities = DirectXSurfaceCapabilities;

    type Context = DirectXDevice;

    type Queue = DirectXCommandQueue;

    type CommandPool = DirectXCommandAllocator;

    type CommandBuffer = DirectXCommandList;

    type Swapchain = DirectXSwapchain;

    type Image = DirectXImage;

    type ImageView = DirectXImageView;

    type Shader = DirectXShader;

    type RenderPass = DirectXRenderPass;

    type Framebuffer = DirectXFramebuffer;

    type PipelineLayout = DirectXPipelineLayout;

    type GraphicsPipeline = DirectXGraphicsPipeline;

    type Fence = DirectXFence;

    type Semaphore = DirectXSemaphore;

    type DeviceTypeConstants = DirectXDeviceTypes;

    type CompositeAlphaConstants = DirectXCompositeAlphaModes;

    type ColorSpaceConstants = DirectXColorSpaces;

    type DataFormatConstants = DirectXDataFormats;

    type PresentModeConstants = DirectXPresentModes;

    type BlendOpConstants = DirectXBlendOps;

    type BlendFactorConstants = DirectXBlendFactors;

    type ColorComponentConstants = DirectXColorComponentConstants;

    type PolygonModeConstants = DirectXPolygonModes;

    type CullModeConstants = DirectXCullModes;

    type FrontFaceConstants = DirectXFrontFaces;

    type PrimitiveTopologyConstants = DirectXPrimitiveTopologies;
}

/// What a call that creates an object handed back, with a failure put as this
/// library reports it.
pub open spec fn windows_outcome(native: Result<u64, i32>) -> Result<u64, Error> {
    match native {
        Ok(handle) => Ok(handle),
        Err(code) => Err(Error::WindowsError(code)),
    }
}

/// Puts the failure of a call as this library reports it.
pub fn windows_result(native: Result<u64, i32>) -> (outcome: Result<u64, Error>)
    ensures
        outcome == windows_outcome(native),
{
    match native {
        Ok(handle) => Ok(handle),
        Err(code) => Err(Error::WindowsError(code)),
    }
}

/// An object of the DirectX backend: what fails in DirectX is reported as an
/// error of the system.
pub trait DirectXObject: Object {
    proof fn windows_error(code: i32)
        ensures
            Self::failure(code) == Error::WindowsError(code),
    ;
}

/// A DirectX object that was created under a factory.
pub trait DirectXFactoryObject: DirectXObject {
    /// The record of the factory.
    spec fn factory_record(&self) -> ObjectId;

    /// The record of the factory.
    fn factory(&self) -> (id: ObjectId)
        ensures
            id == self.factory_record(),
    ;
}

/// A DirectX object that was created on a device.
pub trait DirectXDeviceObject: DirectXObject {
    /// The record of the device.
    spec fn device_record(&self) -> ObjectId;

    /// The record of the device.
    fn device(&self) -> (id: ObjectId)
        ensures
            id == self.device_record(),
    ;
}

} // verus!
