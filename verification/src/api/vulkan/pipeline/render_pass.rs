//! Render passes.

use vstd::prelude::*;
use vstd::slice::slice_index_get;
use crate::api::traits::{Object, RenderPass};
use crate::api::vulkan::constants::VulkanRenderTargetFormatConstants;
use crate::api::vulkan::device::VulkanDevice;
use crate::api::vulkan::native::{
    VK_ATTACHMENT_LOAD_OP_DONT_CARE, VK_ATTACHMENT_STORE_OP_DONT_CARE,
    VK_ATTACHMENT_STORE_OP_STORE, VK_IMAGE_LAYOUT_COLOR_ATTACHMENT_OPTIMAL,
    VK_IMAGE_LAYOUT_PRESENT_SRC_KHR, VK_IMAGE_LAYOUT_UNDEFINED, VK_PIPELINE_BIND_POINT_GRAPHICS,
    VK_SAMPLE_COUNT_1_BIT, VK_STRUCTURE_TYPE_RENDER_PASS_CREATE_INFO,
};
use crate::api::vulkan::{api_result, VulkanDeviceObject, VulkanObject};
use crate::error::Error;
use crate::info::{
    AttachmentDescription, AttachmentReference, RenderPassCreateInfo, SubpassDescription,
};
use crate::ownership::{ObjectId, ObjectKind, Objects};

verus! {

/// One attachment slot, as `vkCreateRenderPass` is told of it.
#[derive(Debug, Copy, Clone, PartialEq, Eq, Structural)]
pub struct VulkanAttachmentDescription {
    pub flags: u32,
    pub format: i32,
    pub samples: i32,
    pub load_op: i32,
    pub store_op: i32,
    pub stencil_load_op: i32,
    pub stencil_store_op: i32,
    pub initial_layout: i32,
    pub final_layout: i32,
}

/// The use of one attachment slot, as `vkCreateRenderPass` is told of it.
#[derive(Debug, Copy, Clone, PartialEq, Eq, Structural)]
pub struct VulkanAttachmentReference {
    pub attachment: u32,
    pub layout: i32,
}

/// One subpass, as `vkCreateRenderPass` is told of it.
#[derive(Debug)]
pub struct VulkanSubpassDescription {
    pub flags: u32,
    pub pipeline_bind_point: i32,
    pub input_attachments: Vec<VulkanAttachmentReference>,
    pub color_attachments: Vec<VulkanAttachmentReference>,
}

/// What `vkCreateRenderPass` is given.  The subpasses depend on nothing.
#[derive(Debug)]
pub struct VulkanRenderPassCreateInfo {
    pub s_type: i32,
    pub flags: u32,
    pub attachments: Vec<VulkanAttachmentDescription>,
    pub subpasses: Vec<VulkanSubpassDescription>,
}

impl VulkanAttachmentDescription {
    /// The slot that `description` asks for: one sample per pixel; what the
    /// slot held before does not matter, what is drawn is kept, and the image
    /// is left ready to be presented.
    pub open spec fn of(description: AttachmentDescription) -> VulkanAttachmentDescription {
        VulkanAttachmentDescription {
            flags: 0,
            format: description.format.native::<VulkanRenderTargetFormatConstants>(),
            samples: VK_SAMPLE_COUNT_1_BIT,
            load_op: VK_ATTACHMENT_LOAD_OP_DONT_CARE,
            store_op: VK_ATTACHMENT_STORE_OP_STORE,
            stencil_load_op: VK_ATTACHMENT_LOAD_OP_DONT_CARE,
            stencil_store_op: VK_ATTACHMENT_STORE_OP_DONT_CARE,
            initial_layout: VK_IMAGE_LAYOUT_UNDEFINED,
            final_layout: VK_IMAGE_LAYOUT_PRESENT_SRC_KHR,
        }
    }

    /// Every slot of `descriptions`, in order.
    pub open spec fn of_each(descriptions: Seq<AttachmentDescription>) -> Seq<
        VulkanAttachmentDescription,
    > {
        descriptions.map_values(|d: AttachmentDescription| Self::of(d))
    }

    /// Converts one attachment slot.
    pub fn from_description(description: &AttachmentDescription) -> (native:
        VulkanAttachmentDescription)
        ensures
            native == Self::of(*description),
    {
        VulkanAttachmentDescription {
            flags: 0,
            format: description.format.to_native::<VulkanRenderTargetFormatConstants>(),
            samples: VK_SAMPLE_COUNT_1_BIT,
            load_op: VK_ATTACHMENT_LOAD_OP_DONT_CARE,
            store_op: VK_ATTACHMENT_STORE_OP_STORE,
            stencil_load_op: VK_ATTACHMENT_LOAD_OP_DONT_CARE,
            stencil_store_op: VK_ATTACHMENT_STORE_OP_DONT_CARE,
            initial_layout: VK_IMAGE_LAYOUT_UNDEFINED,
            final_layout: VK_IMAGE_LAYOUT_PRESENT_SRC_KHR,
        }
    }
}

impl VulkanAttachmentReference {
    /// The use that `reference` asks for: of the same slot, laid out to be
    /// drawn to.
    pub open spec fn of(reference: AttachmentReference) -> VulkanAttachmentReference {
        VulkanAttachmentReference {
            attachment: reference.attachment,
            layout: VK_IMAGE_LAYOUT_COLOR_ATTACHMENT_OPTIMAL,
        }
    }

    /// Every use of `references`, in order.
    pub open spec fn of_each(
        references: Seq<AttachmentReference>,
    ) -> Seq<VulkanAttachmentReference> {
        references.map_values(|r: AttachmentReference| Self::of(r))
    }

    /// Converts the use of one attachment slot.
    pub fn from_reference(reference: &AttachmentReference) -> (native: VulkanAttachmentReference)
        ensures
            native == Self::of(*reference),
    {
        VulkanAttachmentReference {
            attachment: reference.attachment,
            layout: VK_IMAGE_LAYOUT_COLOR_ATTACHMENT_OPTIMAL,
        }
    }

    /// Converts the uses of attachment slots, in order.
    pub fn from_references(references: &[AttachmentReference]) -> (native: Vec<
        VulkanAttachmentReference,
    >)
        ensures
            native@ == Self::of_each(references@),
    {
        let mut native: Vec<VulkanAttachmentReference> = Vec::new();
        let mut i: usize = 0;
        while i < references.len()
            invariant
                i <= references@.len(),
                native@ == Self::of_each(references@.take(i as int)),
            decreases references@.len() - i,
        {
            native.push(Self::from_reference(slice_index_get(references, i)));
            assert(Self::of_each(references@.take(i as int + 1)) =~= Self::of_each(
                references@.take(i as int),
            ).push(Self::of(references@[i as int])));
            i = i + 1;
        }
        assert(references@.take(references@.len() as int) =~= references@);
        native
    }
}

impl VulkanSubpassDescription {
    /// This is the subpass that `description` asks for: a graphics subpass
    /// that reads and draws to the same slots.
    pub open spec fn is(&self, description: SubpassDescription) -> bool {
        &&& self.flags == 0
        &&& self.pipeline_bind_point == VK_PIPELINE_BIND_POINT_GRAPHICS
        &&& self.input_attachments@ == VulkanAttachmentReference::of_each(
            description.input_attachments@,
        )
        &&& self.color_attachments@ == VulkanAttachmentReference::of_each(
            description.color_attachments@,
        )
    }

    /// Converts one subpass.
    pub fn from_description(description: &SubpassDescription) -> (native: VulkanSubpassDescription)
        ensures
            native.is(*description),
    {
        VulkanSubpassDescription {
            flags: 0,
            pipeline_bind_point: VK_PIPELINE_BIND_POINT_GRAPHICS,
            input_attachments: VulkanAttachmentReference::from_references(
                description.input_attachments,
            ),
            color_attachments: VulkanAttachmentReference::from_references(
                description.color_attachments,
            ),
        }
    }
}

/// A Vulkan render pass.  It keeps its device alive.
#[derive(Debug)]
pub struct VulkanRenderPass {
    handle: u64,
    ownership: ObjectId,
    device: ObjectId,
}

impl Object for VulkanRenderPass {
    closed spec fn native(&self) -> u64 {
        self.handle
    }

    closed spec fn record(&self) -> ObjectId {
        self.ownership
    }

    open spec fn failure(code: i32) -> Error {
        Error::ApiError(code)
    }

    fn handle(&self) -> (handle: u64) {
        self.handle
    }

    fn ownership(&self) -> (id: ObjectId) {
        self.ownership
    }

    fn share(&self, objects: &mut Objects) -> (twin: Result<Self, Error>)
        ensures
            twin matches Ok(other) ==> other.device_record() == self.device_record(),
    {
        match objects.share(self.ownership) {
            Ok(()) => Ok(
                VulkanRenderPass {
                    handle: self.handle,
                    ownership: self.ownership,
                    device: self.device,
                },
            ),
            Err(e) => Err(e),
        }
    }
}

impl VulkanObject for VulkanRenderPass {
    proof fn api_error(code: i32) {
    }
}

impl VulkanDeviceObject for VulkanRenderPass {
    closed spec fn device_record(&self) -> ObjectId {
        self.device
    }

    fn device(&self) -> (id: ObjectId) {
        self.device
    }
}

impl RenderPass for VulkanRenderPass {
    type Context = VulkanDevice;

    type Description = VulkanRenderPassCreateInfo;

    open spec fn supported() -> bool {
        true
    }

    fn describe(create_info: &RenderPassCreateInfo) -> (description: VulkanRenderPassCreateInfo)
        ensures
            description.s_type == VK_STRUCTURE_TYPE_RENDER_PASS_CREATE_INFO,
            description.flags == 0,
            description.attachments@ == VulkanAttachmentDescription::of_each(create_info.attachments@),
            description.subpasses@.len() == create_info.subpasses@.len(),
            forall|i: int|
                0 <= i < create_info.subpasses@.len() ==> (#[trigger] description.subpasses@[i]).is(
                    create_info.subpasses@[i],
                ),
    {
        let slots = create_info.attachments;
        let mut attachments: Vec<VulkanAttachmentDescription> = Vec::new();
        let mut i: usize = 0;
        while i < slots.len()
            invariant
                i <= slots@.len(),
                attachments@ == VulkanAttachmentDescription::of_each(slots@.take(i as int)),
            decreases slots@.len() - i,
        {
            attachments.push(VulkanAttachmentDescription::from_description(slice_index_get(slots, i)));
            assert(VulkanAttachmentDescription::of_each(slots@.take(i as int + 1))
                =~= VulkanAttachmentDescription::of_each(slots@.take(i as int)).push(
                VulkanAttachmentDescription::of(slots@[i as int]),
            ));
            i = i + 1;
        }
        assert(slots@.take(slots@.len() as int) =~= slots@);
        let passes = create_info.subpasses;
        let mut subpasses: Vec<VulkanSubpassDescription> = Vec::new();
        let mut j: usize = 0;
        while j < passes.len()
            invariant
                j <= passes@.len(),
                subpasses@.len() == j,
                forall|k: int| 0 <= k < j ==> (#[trigger] subpasses@[k]).is(passes@[k]),
            decreases passes@.len() - j,
        {
            subpasses.push(VulkanSubpassDescription::from_description(slice_index_get(passes, j)));
            j = j + 1;
        }
        VulkanRenderPassCreateInfo {
            s_type: VK_STRUCTURE_TYPE_RENDER_PASS_CREATE_INFO,
            flags: 0,
            attachments,
            subpasses,
        }
    }

    fn new(
        objects: &mut Objects,
        context: &Self::Context,
        native: Result<u64, i32>,
    ) -> (pass: Result<Self, Error>)
        ensures
            pass matches Ok(p) ==> p.device_record() == context.record(),
    {
        let retains = vec![context.ownership()];
        assert(retains@ =~= seq![context.record()]);
        match objects.enter(ObjectKind::RenderPass, retains, api_result(native)) {
            Ok((handle, ownership)) => Ok(
                VulkanRenderPass {
                    handle,
                    ownership,
                    device: context.ownership(),
                },
            ),
            Err(e) => Err(e),
        }
    }
}

} // verus!
