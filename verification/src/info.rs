//! The configuration that the constructors of the abstract entities take.

use vstd::prelude::*;
use vstd::slice::slice_index_get;
use crate::datatypes::{
    BlendFactor, BlendOp, ColorComponentFlags, Colorspace, CompositeAlphaMode, CullMode,
    Extent2D, Format, FrontFace, PolygonMode, PresentMode, PrimitiveTopology, SurfaceFormat,
};

verus! {

/// The system the library runs on.
#[derive(Debug, Copy, Clone, PartialEq, Eq, Structural)]
pub enum Platform {
    Windows,
    Other,
}

/// What the library was asked to provide beyond the bare object model.
#[derive(Debug, Copy, Clone, PartialEq, Eq, Structural)]
pub struct Features {
    /// The system to present on.
    pub platform: Platform,
    /// Presenting to windows.
    pub graphics: bool,
    /// Reports of the native debugging layers.
    pub gpu_debugging: bool,
    /// Treating every reported failure as fatal.
    pub validation: bool,
}

/// Compiled shader code: either code that lives as long as the process, or
/// code borrowed from the caller.
#[derive(Debug, Copy, Clone)]
pub enum ShaderCode<'a> {
    Static(&'static [u8]),
    Dynamic(&'a [u8]),
}

impl<'a> ShaderCode<'a> {
    /// The code, wherever it lives.
    pub open spec fn bytes(self) -> Seq<u8> {
        match self {
            ShaderCode::Static(code) => code@,
            ShaderCode::Dynamic(code) => code@,
        }
    }

    /// The code, wherever it lives.
    pub fn into_bytes(self) -> (code: &'a [u8])
        ensures
            code@ == self.bytes(),
    {
        match self {
            ShaderCode::Static(code) => code,
            ShaderCode::Dynamic(code) => code,
        }
    }
}

/// How to create a root.
#[derive(Debug, Default)]
pub struct RootCreateInfo {}

/// The window a surface presents to, by the handles the system gave for it.
#[derive(Debug, Copy, Clone, PartialEq, Eq, Structural)]
pub struct SurfaceCreateInfo {
    pub hwnd: u64,
    pub hinstance: u64,
}

impl SurfaceCreateInfo {
    /// A window of the running program.
    pub fn new(hwnd: u64) -> (info: SurfaceCreateInfo)
        ensures
            info == (SurfaceCreateInfo { hwnd, hinstance: 0 }),
    {
        SurfaceCreateInfo { hwnd, hinstance: 0 }
    }
}

/// How to create a context.
#[derive(Debug, Default)]
pub struct ContextCreateInfo {}

/// How to create a command pool.
#[derive(Debug, Copy, Clone, PartialEq, Eq, Structural)]
pub struct CommandPoolCreateInfo {
    /// The buffers of the pool are short-lived.
    pub transient: bool,
    /// The buffers of the pool can be reset one by one.
    pub reset: bool,
}

/// How to allocate a command buffer.
#[derive(Debug, Copy, Clone)]
pub struct CommandBufferAllocateInfo {}

/// How to begin a render pass.
#[derive(Debug)]
pub struct RenderPassBeginInfo {}

/// How to create a swapchain.
#[derive(Debug, Copy, Clone, PartialEq, Eq, Structural)]
pub struct SwapchainCreateInfo {
    pub min_image_count: u32,
    pub format: Format,
    pub colorspace: Colorspace,
    pub extent: Extent2D,
    pub composite_alpha: CompositeAlphaMode,
    pub present_mode: PresentMode,
}

impl SwapchainCreateInfo {
    /// The surface format this swapchain asks for.
    pub open spec fn surface_format(self) -> SurfaceFormat {
        SurfaceFormat { format: self.format, colorspace: self.colorspace }
    }

    /// A surface that allows between `min` and `max` images, where a `max` of
    /// zero allows any number, and presents the formats `formats`, can carry
    /// this swapchain.
    pub open spec fn fits(self, min: u32, max: u32, formats: Seq<SurfaceFormat>) -> bool {
        &&& min <= self.min_image_count
        &&& max == 0 || self.min_image_count <= max
        &&& formats.contains(self.surface_format())
    }

    /// Whether a surface with these limits and formats can carry this
    /// swapchain: the number of images lies within the limits, and the format
    /// and colour space are among those the device reported.
    pub fn is_supported(&self, min: u32, max: u32, formats: &[SurfaceFormat]) -> (yes: bool)
        ensures
            yes == self.fits(min, max, formats@),
    {
        if self.min_image_count < min || (max != 0 && self.min_image_count > max) {
            return false;
        }
        let wanted = SurfaceFormat { format: self.format, colorspace: self.colorspace };
        let mut i: usize = 0;
        while i < formats.len()
            invariant
                i <= formats@.len(),
                min <= self.min_image_count,
                max == 0 || self.min_image_count <= max,
                wanted == self.surface_format(),
                forall|j: int| 0 <= j < i ==> formats@[j] != wanted,
            decreases formats@.len() - i,
        {
            if *slice_index_get(formats, i) == wanted {
                assert(formats@[i as int] == wanted);
                return true;
            }
            i = i + 1;
        }
        false
    }
}

/// How to create an image view.
#[derive(Debug, Copy, Clone, PartialEq, Eq, Structural)]
pub struct ImageViewCreateInfo {
    pub format: Format,
}

/// One attachment slot of a render pass.
#[derive(Debug, Copy, Clone, PartialEq, Eq, Structural)]
pub struct AttachmentDescription {
    pub format: Format,
}

/// The use of one attachment slot by a subpass.
#[derive(Debug, Copy, Clone, PartialEq, Eq, Structural)]
pub struct AttachmentReference {
    /// The index of the slot among the attachments of the render pass.
    pub attachment: u32,
}

/// One subpass of a render pass: the slots it reads and the slots it draws to.
#[derive(Debug, Copy, Clone)]
pub struct SubpassDescription<'a> {
    pub input_attachments: &'a [AttachmentReference],
    pub color_attachments: &'a [AttachmentReference],
}

/// Every one of `references` names one of `count` attachment slots.
pub open spec fn references_within(references: Seq<AttachmentReference>, count: int) -> bool {
    forall|i: int| 0 <= i < references.len() ==> (#[trigger] references[i]).attachment < count
}

/// Whether every one of `references` names one of `count` attachment slots.
fn check_references(references: &[AttachmentReference], count: usize) -> (yes: bool)
    ensures
        yes == references_within(references@, count as int),
{
    let mut i: usize = 0;
    while i < references.len()
        invariant
            i <= references@.len(),
            forall|j: int| 0 <= j < i ==> (#[trigger] references@[j]).attachment < count,
        decreases references@.len() - i,
    {
        if slice_index_get(references, i).attachment as usize >= count {
            return false;
        }
        i = i + 1;
    }
    true
}

impl<'a> SubpassDescription<'a> {
    /// Every slot this subpass uses is one of `count` attachment slots.
    pub open spec fn within(self, count: int) -> bool {
        references_within(self.input_attachments@, count) && references_within(
            self.color_attachments@,
            count,
        )
    }
}

/// How to create a render pass: its attachment slots and its subpasses.
#[derive(Debug, Copy, Clone)]
pub struct RenderPassCreateInfo<'a> {
    pub attachments: &'a [AttachmentDescription],
    pub subpasses: &'a [SubpassDescription<'a>],
}

impl<'a> RenderPassCreateInfo<'a> {
    /// Every slot that a subpass uses is a slot of the render pass.
    pub open spec fn valid(self) -> bool {
        forall|i: int|
            0 <= i < self.subpasses@.len() ==> (#[trigger] self.subpasses@[i]).within(
                self.attachments@.len() as int,
            )
    }

    /// Whether every slot that a subpass uses is a slot of the render pass.
    pub fn is_valid(&self) -> (yes: bool)
        ensures
            yes == self.valid(),
    {
        let count = self.attachments.len();
        let mut i: usize = 0;
        while i < self.subpasses.len()
            invariant
                i <= self.subpasses@.len(),
                count == self.attachments@.len(),
                forall|j: int| 0 <= j < i ==> (#[trigger] self.subpasses@[j]).within(count as int),
            decreases self.subpasses@.len() - i,
        {
            let subpass = slice_index_get(self.subpasses, i);
            if !check_references(subpass.input_attachments, count) || !check_references(
                subpass.color_attachments,
                count,
            ) {
                return false;
            }
            i = i + 1;
        }
        true
    }
}

/// How to create a framebuffer: the render pass whose slots it fills, its
/// size, and the image view bound to each slot.
#[derive(Debug)]
pub struct FramebufferCreateInfo<'a, RenderPass, ImageView> {
    pub render_pass: &'a RenderPass,
    pub extent: Extent2D,
    pub attachments: &'a [ImageView],
}

/// How to create a pipeline layout.
#[derive(Debug, Copy, Clone)]
pub struct PipelineLayoutCreateInfo {}

/// The shader of each programmable stage, where the pipeline has one.
#[derive(Debug)]
pub struct ShaderStages<'a, Shader> {
    pub vertex: Option<&'a Shader>,
    pub tess_ctrl: Option<&'a Shader>,
    pub tess_eval: Option<&'a Shader>,
    pub geometry: Option<&'a Shader>,
    pub fragment: Option<&'a Shader>,
}

/// How primitives are turned into fragments.
#[derive(Debug, Copy, Clone, PartialEq, Eq, Structural)]
pub struct RasterizationState {
    pub polygon_mode: PolygonMode,
    pub cull_mode: CullMode,
    pub front_face: FrontFace,
}

impl Default for RasterizationState {
    fn default() -> (state: RasterizationState)
        ensures
            state == (RasterizationState {
                polygon_mode: PolygonMode::Fill,
                cull_mode: CullMode::Back,
                front_face: FrontFace::CounterClockwise,
            }),
    {
        RasterizationState {
            polygon_mode: PolygonMode::Fill,
            cull_mode: CullMode::Back,
            front_face: FrontFace::CounterClockwise,
        }
    }
}

/// How the colour written to one attachment is blended with what is there.
#[derive(Debug, Copy, Clone, PartialEq, Eq, Structural)]
pub struct BlendAttachmentState {
    pub blend_enable: bool,
    pub src_color_blend_factor: BlendFactor,
    pub dst_color_blend_factor: BlendFactor,
    pub color_blend_op: BlendOp,
    pub src_alpha_blend_factor: BlendFactor,
    pub dst_alpha_blend_factor: BlendFactor,
    pub alpha_blend_op: BlendOp,
    pub color_write_mask: ColorComponentFlags,
}

impl Default for BlendAttachmentState {
    fn default() -> (state: BlendAttachmentState)
        ensures
            state == (BlendAttachmentState {
                blend_enable: false,
                src_color_blend_factor: BlendFactor::Zero,
                dst_color_blend_factor: BlendFactor::Zero,
                color_blend_op: BlendOp::Add,
                src_alpha_blend_factor: BlendFactor::Zero,
                dst_alpha_blend_factor: BlendFactor::Zero,
                alpha_blend_op: BlendOp::Add,
                color_write_mask: ColorComponentFlags::every(),
            }),
    {
        BlendAttachmentState {
            blend_enable: false,
            src_color_blend_factor: BlendFactor::Zero,
            dst_color_blend_factor: BlendFactor::Zero,
            color_blend_op: BlendOp::Add,
            src_alpha_blend_factor: BlendFactor::Zero,
            dst_alpha_blend_factor: BlendFactor::Zero,
            alpha_blend_op: BlendOp::Add,
            color_write_mask: ColorComponentFlags::all(),
        }
    }
}

/// The blending of every colour attachment of a subpass, slot by slot.
#[derive(Debug, Copy, Clone)]
pub struct BlendState<'a> {
    pub attachments: &'a [BlendAttachmentState],
}

/// How to create a graphics pipeline.
#[derive(Debug)]
pub struct GraphicsPipelineCreateInfo<'a, Shader, PipelineLayout, RenderPass> {
    pub shaders: ShaderStages<'a, Shader>,
    pub topology: PrimitiveTopology,
    pub rasterization: RasterizationState,
    pub blend: BlendState<'a>,
    /// The layout of what the pipeline binds, for a backend that has layouts.
    pub layout: Option<&'a PipelineLayout>,
    /// The render pass in which the pipeline draws, for a backend that has
    /// render passes.
    pub render_pass: Option<&'a RenderPass>,
    pub subpass: u32,
}

/// How to create a fence.
#[derive(Debug, Copy, Clone, PartialEq, Eq, Structural)]
pub struct FenceCreateInfo {
    /// The fence starts out signalled.
    pub signaled: bool,
}

/// How to create a semaphore.
#[derive(Debug, Copy, Clone)]
pub struct SemaphoreCreateInfo {}

} // verus!
