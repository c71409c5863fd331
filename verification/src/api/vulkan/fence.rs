//! Fences.

use vstd::prelude::*;
use crate::api::traits::{Fence, Object};
use crate::api::vulkan::device::VulkanDevice;
use crate::api::vulkan::native::{
    VK_FENCE_CREATE_SIGNALED_BIT, VK_STRUCTURE_TYPE_FENCE_CREATE_INFO,
};
use crate::api::vulkan::{api_result, VulkanDeviceObject, VulkanObject};
use crate::error::Error;
use crate::info::FenceCreateInfo;
use crate::ownership::{ObjectId, ObjectKind, Objects};

verus! {

/// What `vkCreateFence` is given.
#[derive(Debug, Copy, Clone, PartialEq, Eq, Structural)]
pub struct VulkanFenceCreateInfo {
    pub s_type: i32,
    pub flags: u32,
}

/// A Vulkan fence.  It keeps its device alive.
#[derive(Debug)]
pub struct VulkanFence {
    handle: u64,
    ownership: ObjectId,
    device: ObjectId,
}

impl Object for VulkanFence {
    closed spec fn native(&self) -> u64 {
        self.handle
    }

    closed spec fn record(&self) -> ObjectId {
        self.ownership
    }

    open spec fn failure(code: i32) -> Error {
        Error::ApiError(code)
    }

    fn handle(&self) -> (handle: u64) {
        self.handle
    }

    fn ownership(&self) -> (id: ObjectId) {
        self.ownership
    }

    fn share(&self, objects: &mut Objects) -> (twin: Result<Self, Error>)
        ensures
            twin matches Ok(other) ==> other.device_record() == self.device_record(),
    {
        match objects.share(self.ownership) {
            Ok(()) => Ok(
                VulkanFence {
                    handle: self.handle,
                    ownership: self.ownership,
                    device: self.device,
                },
            ),
            Err(e) => Err(e),
        }
    }
}

impl VulkanObject for VulkanFence {
    proof fn api_error(code: i32) {
    }
}

impl VulkanDeviceObject for VulkanFence {
    closed spec fn device_record(&self) -> ObjectId {
        self.device
    }

    fn device(&self) -> (id: ObjectId) {
        self.device
    }
}

impl VulkanFence {
    /// The description of the fence that `create_info` asks for.
    pub open spec fn description(create_info: FenceCreateInfo) -> VulkanFenceCreateInfo {
        VulkanFenceCreateInfo {
            s_type: VK_STRUCTURE_TYPE_FENCE_CREATE_INFO,
            flags: if create_info.signaled {
                VK_FENCE_CREATE_SIGNALED_BIT
            } else {
                0
            },
        }
    }
}

impl Fence for VulkanFence {
    type Context = VulkanDevice;

    type Description = VulkanFenceCreateInfo;

    fn describe(create_info: &FenceCreateInfo) -> (description: VulkanFenceCreateInfo)
        ensures
            description == Self::description(*create_info),
    {
        VulkanFenceCreateInfo {
            s_type: VK_STRUCTURE_TYPE_FENCE_CREATE_INFO,
            flags: if create_info.signaled {
                VK_FENCE_CREATE_SIGNALED_BIT
            } else {
                0
            },
        }
    }

    fn new(
        objects: &mut Objects,
        context: &Self::Context,
        native: Result<u64, i32>,
    ) -> (fence: Result<Self, Error>)
        ensures
            fence matches Ok(f) ==> f.device_record() == context.record(),
    {
        let retains = vec![context.ownership()];
        assert(retains@ =~= seq![context.record()]);
        match objects.enter(ObjectKind::Fence, retains, api_result(native)) {
            Ok((handle, ownership)) => Ok(
                VulkanFence {
                    handle,
                    ownership,
                    device: context.ownership(),
                },
            ),
            Err(e) => Err(e),
        }
    }
}

} // verus!
