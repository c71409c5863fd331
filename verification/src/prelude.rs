pub use crate::api::traits::constants::{
    BlendFactorConstants, BlendOpConstants, ColorComponentConstants, ColorSpaceConstants,
    CompositeAlphaConstants, CullModeConstants, DataFormatConstants, DeviceTypeConstants,
    FrontFaceConstants, PolygonModeConstants, PresentModeConstants, PrimitiveTopologyConstants,
};
pub use crate::api::traits::{
    ApiRoot, CommandBuffer, CommandPool, Context, Device, DeviceFeatures, DeviceProperties,
    Fence, Framebuffer, GraphicsApi, GraphicsPipeline, Image, ImageView, Object, PipelineLayout,
    Queue, RenderPass, Semaphore, Shader, Surface, SurfaceCapabilities, Swapchain,
};
