//! Command buffers.

use vstd::prelude::*;
use crate::api::traits::{CommandBuffer, Object};
use crate::api::vulkan::command::pool::VulkanCommandPool;
use crate::api::vulkan::native::{
    VK_COMMAND_BUFFER_LEVEL_PRIMARY, VK_STRUCTURE_TYPE_COMMAND_BUFFER_ALLOCATE_INFO,
};
use crate::api::vulkan::{api_result, VulkanDeviceObject, VulkanObject};
use crate::error::Error;
use crate::info::CommandBufferAllocateInfo;
use crate::ownership::{ObjectId, ObjectKind, Objects};

verus! {

/// What `vkAllocateCommandBuffers` is given.
#[derive(Debug, Copy, Clone, PartialEq, Eq, Structural)]
pub struct VulkanCommandBufferAllocateInfo {
    pub s_type: i32,
    pub command_pool: u64,
    pub level: i32,
    pub command_buffer_count: u32,
}

/// A Vulkan command buffer.  It keeps its pool and its device alive.
#[derive(Debug)]
pub struct VulkanCommandBuffer {
    handle: u64,
    ownership: ObjectId,
    pool: ObjectId,
    device: ObjectId,
}

impl Object for VulkanCommandBuffer {
    closed spec fn native(&self) -> u64 {
        self.handle
    }

    closed spec fn record(&self) -> ObjectId {
        self.ownership
    }

    open spec fn failure(code: i32) -> Error {
        Error::ApiError(code)
    }

    fn handle(&self) -> (handle: u64) {
        self.handle
    }

    fn ownership(&self) -> (id: ObjectId) {
        self.ownership
    }

    fn share(&self, objects: &mut Objects) -> (twin: Result<Self, Error>)
        ensures
            twin matches Ok(other) ==> other.pool_record() == self.pool_record()
                && other.device_record() == self.device_record(),
    {
        match objects.share(self.ownership) {
            Ok(()) => Ok(
                VulkanCommandBuffer {
                    handle: self.handle,
                    ownership: self.ownership,
                    pool: self.pool,
                    device: self.device,
                },
            ),
            Err(e) => Err(e),
        }
    }
}

impl VulkanObject for VulkanCommandBuffer {
    proof fn api_error(code: i32) {
    }
}

impl VulkanDeviceObject for VulkanCommandBuffer {
    closed spec fn device_record(&self) -> ObjectId {
        self.device
    }

    fn device(&self) -> (id: ObjectId) {
        self.device
    }
}

impl VulkanCommandBuffer {
    /// The record of the pool the buffer was allocated from.
    pub closed spec fn pool_record(&self) -> ObjectId {
        self.pool
    }

    /// The record of the pool the buffer was allocated from.
    pub fn pool(&self) -> (id: ObjectId)
        ensures
            id == self.pool_record(),
    {
        self.pool
    }
}

impl CommandBuffer for VulkanCommandBuffer {
    type CommandPool = VulkanCommandPool;

    type Description = VulkanCommandBufferAllocateInfo;

    fn describe(pool: &VulkanCommandPool, create_info: &CommandBufferAllocateInfo) -> (description:
        VulkanCommandBufferAllocateInfo)
        ensures
            description == (VulkanCommandBufferAllocateInfo {
                s_type: VK_STRUCTURE_TYPE_COMMAND_BUFFER_ALLOCATE_INFO,
                command_pool: pool.native(),
                level: VK_COMMAND_BUFFER_LEVEL_PRIMARY,
                command_buffer_count: 1,
            }),
    {
        VulkanCommandBufferAllocateInfo {
            s_type: VK_STRUCTURE_TYPE_COMMAND_BUFFER_ALLOCATE_INFO,
            command_pool: pool.handle(),
            level: VK_COMMAND_BUFFER_LEVEL_PRIMARY,
            command_buffer_count: 1,
        }
    }

    fn allocate(
        objects: &mut Objects,
        pool: &VulkanCommandPool,
        native: Result<u64, i32>,
    ) -> (buffer: Result<Self, Error>)
        ensures
            buffer matches Ok(b) ==> b.pool_record() == pool.record()
                && b.device_record() == pool.device_record(),
    {
        let retains = vec![pool.ownership(), pool.device()];
        assert(retains@ =~= seq![pool.record(), pool.device_record()]);
        match objects.enter(ObjectKind::CommandBuffer, retains, api_result(native)) {
            Ok((handle, ownership)) => Ok(
                VulkanCommandBuffer {
                    handle,
                    ownership,
                    pool: pool.ownership(),
                    device: pool.device(),
                },
            ),
            Err(e) => Err(e),
        }
    }
}

} // verus!
