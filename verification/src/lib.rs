//! A portable graphics-API object model.
//!
//! One set of abstract entities (root, device, surface, context, queue,
//! swapchain, pipeline, command buffer, ...) is realised over two native
//! backends.  This crate is the part of that layer that decides: the tables that
//! convert abstract enumerants into each backend's numbers, the native
//! descriptions built from abstract configuration, the negotiation of swapchain
//! parameters, and the shared-ownership rules that say when a native object is
//! destroyed.  Performing the native calls is left to the code that embeds it:
//! it asks the backend to describe what to create, makes the call, and hands the
//! outcome back.

pub mod api;
pub mod convert;
pub mod datatypes;
pub mod error;
pub mod info;
pub mod ownership;
pub mod util;

/// The capabilities, as most code wants to import them.
pub mod prelude;

pub use datatypes::{
    BlendFactor, BlendOp, ColorComponentFlags, Colorspace, CompositeAlphaMode, CullMode,
    DeviceType, Extent2D, Format, FrontFace, Offset2D, PolygonMode, PresentMode,
    PrimitiveTopology, Rect2D, SurfaceFormat, Vendor,
};
pub use error::Error;
pub use info::{
    AttachmentDescription, AttachmentReference, BlendAttachmentState, BlendState,
    CommandBufferAllocateInfo, CommandPoolCreateInfo, ContextCreateInfo, Features,
    FenceCreateInfo, FramebufferCreateInfo, GraphicsPipelineCreateInfo, ImageViewCreateInfo,
    PipelineLayoutCreateInfo, Platform, RasterizationState, RenderPassBeginInfo,
    RenderPassCreateInfo, RootCreateInfo, SemaphoreCreateInfo, ShaderCode, ShaderStages,
    SubpassDescription, SurfaceCreateInfo, SwapchainCreateInfo,
};

use vstd::prelude::*;
use crate::api::traits::GraphicsApi;

verus! {

/// The root of the backend `A`.
pub type Root<A> = <A as GraphicsApi>::Root;

/// The devices of the backend `A`.
pub type Device<A> = <A as GraphicsApi>::Device;

/// The surfaces of the backend `A`.
pub type Surface<A> = <A as GraphicsApi>::Surface;

/// What a device of the backend `A` reports of a surface.
pub type SurfaceCapabilities<A> = <A as GraphicsApi>::SurfaceCapabilities;

/// The contexts of the backend `A`.
pub type Context<A> = <A as GraphicsApi>::Context;

/// The queues of the backend `A`.
pub type Queue<A> = <A as GraphicsApi>::Queue;

/// The command pools of the backend `A`.
pub type CommandPool<A> = <A as GraphicsApi>::CommandPool;

/// The command buffers of the backend `A`.
pub type CommandBuffer<A> = <A as GraphicsApi>::CommandBuffer;

/// The fences of the backend `A`.
pub type Fence<A> = <A as GraphicsApi>::Fence;

/// The swapchains of the backend `A`.
pub type Swapchain<A> = <A as GraphicsApi>::Swapchain;

/// The images of the backend `A`.
pub type Image<A> = <A as GraphicsApi>::Image;

/// The image views of the backend `A`.
pub type ImageView<A> = <A as GraphicsApi>::ImageView;

/// The framebuffers of the backend `A`.
pub type Framebuffer<A> = <A as GraphicsApi>::Framebuffer;

/// The semaphores of the backend `A`.
pub type Semaphore<A> = <A as GraphicsApi>::Semaphore;

/// The render passes of the backend `A`.
pub type RenderPass<A> = <A as GraphicsApi>::RenderPass;

/// The pipeline layouts of the backend `A`.
pub type PipelineLayout<A> = <A as GraphicsApi>::PipelineLayout;

/// The shaders of the backend `A`.
pub type Shader<A> = <A as GraphicsApi>::Shader;

/// The graphics pipelines of the backend `A`.
pub type GraphicsPipeline<A> = <A as GraphicsApi>::GraphicsPipeline;

} // verus!
