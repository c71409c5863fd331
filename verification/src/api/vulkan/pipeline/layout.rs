//! Pipeline layouts.

use vstd::prelude::*;
use crate::api::traits::{Object, PipelineLayout};
use crate::api::vulkan::device::VulkanDevice;
use crate::api::vulkan::native::VK_STRUCTURE_TYPE_PIPELINE_LAYOUT_CREATE_INFO;
use crate::api::vulkan::{api_result, VulkanDeviceObject, VulkanObject};
use crate::error::Error;
use crate::info::PipelineLayoutCreateInfo;
use crate::ownership::{ObjectId, ObjectKind, Objects};

verus! {

/// What `vkCreatePipelineLayout` is given.  A layout binds nothing yet.
#[derive(Debug, Copy, Clone, PartialEq, Eq, Structural)]
pub struct VulkanPipelineLayoutCreateInfo {
    pub s_type: i32,
    pub flags: u32,
    pub set_layout_count: u32,
    pub push_constant_range_count: u32,
}

/// A Vulkan pipeline layout.  It keeps its device alive.
#[derive(Debug)]
pub struct VulkanPipelineLayout {
    handle: u64,
    ownership: ObjectId,
    device: ObjectId,
}

impl Object for VulkanPipelineLayout {
    closed spec fn native(&self) -> u64 {
        self.handle
    }

    closed spec fn record(&self) -> ObjectId {
        self.ownership
    }

    open spec fn failure(code: i32) -> Error {
        Error::ApiError(code)
    }

    fn handle(&self) -> (handle: u64) {
        self.handle
    }

    fn ownership(&self) -> (id: ObjectId) {
        self.ownership
    }

    fn share(&self, objects: &mut Objects) -> (twin: Result<Self, Error>)
        ensures
            twin matches Ok(other) ==> other.device_record() == self.device_record(),
    {
        match objects.share(self.ownership) {
            Ok(()) => Ok(
                VulkanPipelineLayout {
                    handle: self.handle,
                    ownership: self.ownership,
                    device: self.device,
                },
            ),
            Err(e) => Err(e),
        }
    }
}

impl VulkanObject for VulkanPipelineLayout {
    proof fn api_error(code: i32) {
    }
}

impl VulkanDeviceObject for VulkanPipelineLayout {
    closed spec fn device_record(&self) -> ObjectId {
        self.device
    }

    fn device(&self) -> (id: ObjectId) {
        self.device
    }
}

impl PipelineLayout for VulkanPipelineLayout {
    type Context = VulkanDevice;

    type Description = VulkanPipelineLayoutCreateInfo;

    open spec fn supported() -> bool {
        true
    }

    fn describe(create_info: &PipelineLayoutCreateInfo) -> (description:
        VulkanPipelineLayoutCreateInfo)
        ensures
            description == (VulkanPipelineLayoutCreateInfo {
                s_type: VK_STRUCTURE_TYPE_PIPELINE_LAYOUT_CREATE_INFO,
                flags: 0,
                set_layout_count: 0,
                push_constant_range_count: 0,
            }),
    {
        VulkanPipelineLayoutCreateInfo {
            s_type: VK_STRUCTURE_TYPE_PIPELINE_LAYOUT_CREATE_INFO,
            flags: 0,
            set_layout_count: 0,
            push_constant_range_count: 0,
        }
    }

    fn new(
        objects: &mut Objects,
        context: &Self::Context,
        native: Result<u64, i32>,
    ) -> (layout: Result<Self, Error>)
        ensures
            layout matches Ok(l) ==> l.device_record() == context.record(),
    {
        let retains = vec![context.ownership()];
        assert(retains@ =~= seq![context.record()]);
        match objects.enter(ObjectKind::PipelineLayout, retains, api_result(native)) {
            Ok((handle, ownership)) => Ok(
                VulkanPipelineLayout {
                    handle,
                    ownership,
                    device: context.ownership(),
                },
            ),
            Err(e) => Err(e),
        }
    }
}

} // verus!
