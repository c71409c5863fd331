//! Command pools.

use vstd::prelude::*;
use crate::api::traits::{CommandPool, Object};
use crate::api::vulkan::device::VulkanDevice;
use crate::api::vulkan::native::{
    VK_COMMAND_POOL_CREATE_RESET_COMMAND_BUFFER_BIT, VK_COMMAND_POOL_CREATE_TRANSIENT_BIT,
    VK_STRUCTURE_TYPE_COMMAND_POOL_CREATE_INFO,
};
use crate::api::vulkan::{api_result, VulkanDeviceObject, VulkanObject};
use crate::error::Error;
use crate::info::CommandPoolCreateInfo;
use crate::ownership::{ObjectId, ObjectKind, Objects};

verus! {

/// What `vkCreateCommandPool` is given.
#[derive(Debug, Copy, Clone, PartialEq, Eq, Structural)]
pub struct VulkanCommandPoolCreateInfo {
    pub s_type: i32,
    pub flags: u32,
    pub queue_family_index: u32,
}

/// A Vulkan command pool.  It keeps its device alive.
#[derive(Debug)]
pub struct VulkanCommandPool {
    handle: u64,
    ownership: ObjectId,
    device: ObjectId,
}

impl Object for VulkanCommandPool {
    closed spec fn native(&self) -> u64 {
        self.handle
    }

    closed spec fn record(&self) -> ObjectId {
        self.ownership
    }

    open spec fn failure(code: i32) -> Error {
        Error::ApiError(code)
    }

    fn handle(&self) -> (handle: u64) {
        self.handle
    }

    fn ownership(&self) -> (id: ObjectId) {
        self.ownership
    }

    fn share(&self, objects: &mut Objects) -> (twin: Result<Self, Error>)
        ensures
            twin matches Ok(other) ==> other.device_record() == self.device_record(),
    {
        match objects.share(self.ownership) {
            Ok(()) => Ok(
                VulkanCommandPool {
                    handle: self.handle,
                    ownership: self.ownership,
                    device: self.device,
                },
            ),
            Err(e) => Err(e),
        }
    }
}

impl VulkanObject for VulkanCommandPool {
    proof fn api_error(code: i32) {
    }
}

impl VulkanDeviceObject for VulkanCommandPool {
    closed spec fn device_record(&self) -> ObjectId {
        self.device
    }

    fn device(&self) -> (id: ObjectId) {
        self.device
    }
}

impl VulkanCommandPool {
    /// The flags of the pool that `create_info` asks for: one bit for each
    /// property that is wanted.
    pub open spec fn flags(create_info: CommandPoolCreateInfo) -> u32 {
        match (create_info.transient, create_info.reset) {
            (false, false) => 0,
            (true, false) => VK_COMMAND_POOL_CREATE_TRANSIENT_BIT,
            (false, true) => VK_COMMAND_POOL_CREATE_RESET_COMMAND_BUFFER_BIT,
            (true, true) => (VK_COMMAND_POOL_CREATE_TRANSIENT_BIT
                + VK_COMMAND_POOL_CREATE_RESET_COMMAND_BUFFER_BIT) as u32,
        }
    }

    /// The description of the pool that `create_info` asks for.  The pool
    /// serves the queue family that the device takes its queue from.
    pub open spec fn description(
        create_info: CommandPoolCreateInfo,
    ) -> VulkanCommandPoolCreateInfo {
        VulkanCommandPoolCreateInfo {
            s_type: VK_STRUCTURE_TYPE_COMMAND_POOL_CREATE_INFO,
            flags: Self::flags(create_info),
            queue_family_index: 0,
        }
    }
}

impl CommandPool for VulkanCommandPool {
    type Context = VulkanDevice;

    type Description = VulkanCommandPoolCreateInfo;

    open spec fn scope(&self) -> ObjectId {
        self.device_record()
    }

    fn describe(create_info: &CommandPoolCreateInfo) -> (description: VulkanCommandPoolCreateInfo)
        ensures
            description == Self::description(*create_info),
    {
        let mut flags: u32 = 0;
        if create_info.transient {
            flags = flags + VK_COMMAND_POOL_CREATE_TRANSIENT_BIT;
        }
        if create_info.reset {
            flags = flags + VK_COMMAND_POOL_CREATE_RESET_COMMAND_BUFFER_BIT;
        }
        VulkanCommandPoolCreateInfo {
            s_type: VK_STRUCTURE_TYPE_COMMAND_POOL_CREATE_INFO,
            flags,
            queue_family_index: 0,
        }
    }

    fn new(
        objects: &mut Objects,
        context: &Self::Context,
        native: Result<u64, i32>,
    ) -> (pool: Result<Self, Error>)
        ensures
            pool matches Ok(p) ==> p.device_record() == context.record(),
    {
        let retains = vec![context.ownership()];
        assert(retains@ =~= seq![context.record()]);
        match objects.enter(ObjectKind::CommandPool, retains, api_result(native)) {
            Ok((handle, ownership)) => Ok(
                VulkanCommandPool {
                    handle,
                    ownership,
                    device: context.ownership(),
                },
            ),
            Err(e) => Err(e),
        }
    }
}

} // verus!
