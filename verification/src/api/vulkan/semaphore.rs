//! Semaphores.

use vstd::prelude::*;
use crate::api::traits::{Object, Semaphore};
use crate::api::vulkan::device::VulkanDevice;
use crate::api::vulkan::native::VK_STRUCTURE_TYPE_SEMAPHORE_CREATE_INFO;
use crate::api::vulkan::{api_result, VulkanDeviceObject, VulkanObject};
use crate::error::Error;
use crate::info::SemaphoreCreateInfo;
use crate::ownership::{ObjectId, ObjectKind, Objects};

verus! {

/// What `vkCreateSemaphore` is given.
#[derive(Debug, Copy, Clone, PartialEq, Eq, Structural)]
pub struct VulkanSemaphoreCreateInfo {
    pub s_type: i32,
    pub flags: u32,
}

/// A Vulkan semaphore.  It keeps its device alive.
#[derive(Debug)]
pub struct VulkanSemaphore {
    handle: u64,
    ownership: ObjectId,
    device: ObjectId,
}

impl Object for VulkanSemaphore {
    closed spec fn native(&self) -> u64 {
        self.handle
    }

    closed spec fn record(&self) -> ObjectId {
        self.ownership
    }

    open spec fn failure(code: i32) -> Error {
        Error::ApiError(code)
    }

    fn handle(&self) -> (handle: u64) {
        self.handle
    }

    fn ownership(&self) -> (id: ObjectId) {
        self.ownership
    }

    fn share(&self, objects: &mut Objects) -> (twin: Result<Self, Error>)
        ensures
            twin matches Ok(other) ==> other.device_record() == self.device_record(),
    {
        match objects.share(self.ownership) {
            Ok(()) => Ok(
                VulkanSemaphore {
                    handle: self.handle,
                    ownership: self.ownership,
                    device: self.device,
                },
            ),
            Err(e) => Err(e),
        }
    }
}

impl VulkanObject for VulkanSemaphore {
    proof fn api_error(code: i32) {
    }
}

impl VulkanDeviceObject for VulkanSemaphore {
    closed spec fn device_record(&self) -> ObjectId {
        self.device
    }

    fn device(&self) -> (id: ObjectId) {
        self.device
    }
}

impl Semaphore for VulkanSemaphore {
    type Context = VulkanDevice;

    type Description = VulkanSemaphoreCreateInfo;

    open spec fn supported() -> bool {
        true
    }

    fn describe(create_info: &SemaphoreCreateInfo) -> (description: VulkanSemaphoreCreateInfo)
        ensures
            description == (VulkanSemaphoreCreateInfo {
                s_type: VK_STRUCTURE_TYPE_SEMAPHORE_CREATE_INFO,
                flags: 0,
            }),
    {
        VulkanSemaphoreCreateInfo { s_type: VK_STRUCTURE_TYPE_SEMAPHORE_CREATE_INFO, flags: 0 }
    }

    fn new(
        objects: &mut Objects,
        context: &Self::Context,
        native: Result<u64, i32>,
    ) -> (semaphore: Result<Self, Error>)
        ensures
            semaphore matches Ok(s) ==> s.device_record() == context.record(),
    {
        let retains = vec![context.ownership()];
        assert(retains@ =~= seq![context.record()]);
        match objects.enter(ObjectKind::Semaphore, retains, api_result(native)) {
            Ok((handle, ownership)) => Ok(
                VulkanSemaphore {
                    handle,
                    ownership,
                    device: context.ownership(),
                },
            ),
            Err(e) => Err(e),
        }
    }
}

} // verus!
