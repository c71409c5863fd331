//! Framebuffers.

use vstd::prelude::*;
use vstd::slice::slice_index_get;
use crate::api::traits::{Framebuffer, Object};
use crate::api::vulkan::device::VulkanDevice;
use crate::api::vulkan::image::VulkanImageView;
use crate::api::vulkan::native::VK_STRUCTURE_TYPE_FRAMEBUFFER_CREATE_INFO;
use crate::api::vulkan::pipeline::render_pass::VulkanRenderPass;
use crate::api::vulkan::{api_result, VulkanDeviceObject, VulkanObject};
use crate::error::Error;
use crate::info::FramebufferCreateInfo;
use crate::ownership::{ObjectId, ObjectKind, Objects};

verus! {

/// What `vkCreateFramebuffer` is given.
#[derive(Debug)]
pub struct VulkanFramebufferCreateInfo {
    pub s_type: i32,
    pub flags: u32,
    pub render_pass: u64,
    pub attachments: Vec<u64>,
    pub width: u32,
    pub height: u32,
    pub layers: u32,
}

/// A Vulkan framebuffer.  It keeps its render pass alive, and with it the
/// device.
#[derive(Debug)]
pub struct VulkanFramebuffer {
    handle: u64,
    ownership: ObjectId,
    render_pass: ObjectId,
    device: ObjectId,
}

/// The native handle of each of `views`.
pub open spec fn view_handles(views: Seq<VulkanImageView>) -> Seq<u64> {
    views.map_values(|view: VulkanImageView| view.native())
}

impl Object for VulkanFramebuffer {
    closed spec fn native(&self) -> u64 {
        self.handle
    }

    closed spec fn record(&self) -> ObjectId {
        self.ownership
    }

    open spec fn failure(code: i32) -> Error {
        Error::ApiError(code)
    }

    fn handle(&self) -> (handle: u64) {
        self.handle
    }

    fn ownership(&self) -> (id: ObjectId) {
        self.ownership
    }

    fn share(&self, objects: &mut Objects) -> (twin: Result<Self, Error>)
        ensures
            twin matches Ok(other) ==> other.render_pass_record() ==
                self.render_pass_record() && other.device_record() ==
                self.device_record(),
    {
        match objects.share(self.ownership) {
            Ok(()) => Ok(
                VulkanFramebuffer {
                    handle: self.handle,
                    ownership: self.ownership,
                    render_pass: self.render_pass,
                    device: self.device,
                },
            ),
            Err(e) => Err(e),
        }
    }
}

impl VulkanObject for VulkanFramebuffer {
    proof fn api_error(code: i32) {
    }
}

impl VulkanDeviceObject for VulkanFramebuffer {
    closed spec fn device_record(&self) -> ObjectId {
        self.device
    }

    fn device(&self) -> (id: ObjectId) {
        self.device
    }
}

impl VulkanFramebuffer {
    /// The record of the render pass whose slots the framebuffer fills.
    pub closed spec fn render_pass_record(&self) -> ObjectId {
        self.render_pass
    }

    /// The record of the render pass whose slots the framebuffer fills.
    pub fn render_pass(&self) -> (id: ObjectId)
        ensures
            id == self.render_pass_record(),
    {
        self.render_pass
    }
}

impl Framebuffer for VulkanFramebuffer {
    type Context = VulkanDevice;

    type RenderPass = VulkanRenderPass;

    type ImageView = VulkanImageView;

    type Description = VulkanFramebufferCreateInfo;

    open spec fn supported() -> bool {
        true
    }

    fn describe(
        create_info: &FramebufferCreateInfo<VulkanRenderPass, VulkanImageView>,
    ) -> (description:
        VulkanFramebufferCreateInfo)
        ensures
            description.s_type == VK_STRUCTURE_TYPE_FRAMEBUFFER_CREATE_INFO,
            description.flags == 0,
            description.render_pass == create_info.render_pass.native(),
            description.attachments@ == view_handles(create_info.attachments@),
            description.width == create_info.extent.width,
            description.height == create_info.extent.height,
            description.layers == 1,
    {
        let views = create_info.attachments;
        let mut attachments: Vec<u64> = Vec::new();
        let mut i: usize = 0;
        while i < views.len()
            invariant
                i <= views@.len(),
                attachments@ == view_handles(views@.take(i as int)),
            decreases views@.len() - i,
        {
            attachments.push(slice_index_get(views, i).handle());
            assert(view_handles(views@.take(i as int + 1)) =~= view_handles(views@.take(i as int)).push(
                views@[i as int].native(),
            ));
            i = i + 1;
        }
        assert(views@.take(views@.len() as int) =~= views@);
        VulkanFramebufferCreateInfo {
            s_type: VK_STRUCTURE_TYPE_FRAMEBUFFER_CREATE_INFO,
            flags: 0,
            render_pass: create_info.render_pass.handle(),
            attachments,
            width: create_info.extent.width,
            height: create_info.extent.height,
            layers: 1,
        }
    }

    fn new(
        objects: &mut Objects,
        context: &VulkanDevice,
        render_pass: &VulkanRenderPass,
        native: Result<u64, i32>,
    ) -> (framebuffer: Result<Self, Error>)
        ensures
            framebuffer matches Ok(f) ==> f.render_pass_record() == render_pass.record()
                && f.device_record() == render_pass.device_record(),
    {
        let retains = vec![render_pass.ownership()];
        assert(retains@ =~= seq![render_pass.record()]);
        match objects.enter(ObjectKind::Framebuffer, retains, api_result(native)) {
            Ok((handle, ownership)) => Ok(
                VulkanFramebuffer {
                    handle,
                    ownership,
                    render_pass: render_pass.ownership(),
                    device: render_pass.device(),
                },
            ),
            Err(e) => Err(e),
        }
    }
}

} // verus!
