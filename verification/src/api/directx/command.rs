//! Command allocators and the command lists allocated from them.

use vstd::prelude::*;
use crate::api::directx::device::DirectXDevice;
use crate::api::directx::native::D3D12_COMMAND_LIST_TYPE_DIRECT;
use crate::api::directx::{windows_result, DirectXDeviceObject, DirectXObject};
use crate::api::traits::{CommandBuffer, CommandPool, Object};
use crate::error::Error;
use crate::info::{CommandBufferAllocateInfo, CommandPoolCreateInfo};
use crate::ownership::{ObjectId, ObjectKind, Objects};

verus! {

/// What `ID3D12Device::CreateCommandAllocator` is given.
#[derive(Debug, Copy, Clone, PartialEq, Eq, Structural)]
pub struct DirectXCommandAllocatorDescription {
    pub list_type: i32,
}

/// A DirectX command allocator.  It keeps its device alive.
#[derive(Debug)]
pub struct DirectXCommandAllocator {
    handle: u64,
    ownership: ObjectId,
    device: ObjectId,
}

impl Object for DirectXCommandAllocator {
    closed spec fn native(&self) -> u64 {
        self.handle
    }

    closed spec fn record(&self) -> ObjectId {
        self.ownership
    }

    open spec fn failure(code: i32) -> Error {
        Error::WindowsError(code)
    }

    fn handle(&self) -> (handle: u64) {
        self.handle
    }

    fn ownership(&self) -> (id: ObjectId) {
        self.ownership
    }

    fn share(&self, objects: &mut Objects) -> (twin: Result<Self, Error>)
        ensures
            twin matches Ok(other) ==> other.device_record() == self.device_record(),
    {
        match objects.share(self.ownership) {
            Ok(()) => Ok(
                DirectXCommandAllocator {
                    handle: self.handle,
                    ownership: self.ownership,
                    device: self.device,
                },
            ),
            Err(e) => Err(e),
        }
    }
}

impl DirectXObject for DirectXCommandAllocator {
    proof fn windows_error(code: i32) {
    }
}

impl DirectXDeviceObject for DirectXCommandAllocator {
    closed spec fn device_record(&self) -> ObjectId {
        self.device
    }

    fn device(&self) -> (id: ObjectId) {
        self.device
    }
}

impl CommandPool for DirectXCommandAllocator {
    type Context = DirectXDevice;

    type Description = DirectXCommandAllocatorDescription;

    open spec fn scope(&self) -> ObjectId {
        self.device_record()
    }

    /// An allocator takes every kind of command, whatever is asked of the pool.
    fn describe(create_info: &CommandPoolCreateInfo) -> (description:
        DirectXCommandAllocatorDescription)
        ensures
            description == (DirectXCommandAllocatorDescription {
                list_type: D3D12_COMMAND_LIST_TYPE_DIRECT,
            }),
    {
        DirectXCommandAllocatorDescription { list_type: D3D12_COMMAND_LIST_TYPE_DIRECT }
    }

    fn new(
        objects: &mut Objects,
        context: &Self::Context,
        native: Result<u64, i32>,
    ) -> (pool: Result<Self, Error>)
        ensures
            pool matches Ok(p) ==> p.device_record() == context.record(),
    {
        let retains = vec![context.ownership()];
        assert(retains@ =~= seq![context.record()]);
        match objects.enter(ObjectKind::CommandPool, retains, windows_result(native)) {
            Ok((handle, ownership)) => Ok(
                DirectXCommandAllocator {
                    handle,
                    ownership,
                    device: context.ownership(),
                },
            ),
            Err(e) => Err(e),
        }
    }
}

/// What `ID3D12Device::CreateCommandList` is given.  The list starts with no
/// pipeline state.
#[derive(Debug, Copy, Clone, PartialEq, Eq, Structural)]
pub struct DirectXCommandListDescription {
    pub node_mask: u32,
    pub list_type: i32,
    pub allocator: u64,
}

/// A DirectX command list.  It keeps its allocator and its device alive.
#[derive(Debug)]
pub struct DirectXCommandList {
    handle: u64,
    ownership: ObjectId,
    allocator: ObjectId,
    device: ObjectId,
}

impl Object for DirectXCommandList {
    closed spec fn native(&self) -> u64 {
        self.handle
    }

    closed spec fn record(&self) -> ObjectId {
        self.ownership
    }

    open spec fn failure(code: i32) -> Error {
        Error::WindowsError(code)
    }

    fn handle(&self) -> (handle: u64) {
        self.handle
    }

    fn ownership(&self) -> (id: ObjectId) {
        self.ownership
    }

    fn share(&self, objects: &mut Objects) -> (twin: Result<Self, Error>)
        ensures
            twin matches Ok(other) ==> other.allocator_record() ==
                self.allocator_record() && other.device_record() == self.device_record(),
    {
        match objects.share(self.ownership) {
            Ok(()) => Ok(
                DirectXCommandList {
                    handle: self.handle,
                    ownership: self.ownership,
                    allocator: self.allocator,
                    device: self.device,
                },
            ),
            Err(e) => Err(e),
        }
    }
}

impl DirectXObject for DirectXCommandList {
    proof fn windows_error(code: i32) {
    }
}

impl DirectXDeviceObject for DirectXCommandList {
    closed spec fn device_record(&self) -> ObjectId {
        self.device
    }

    fn device(&self) -> (id: ObjectId) {
        self.device
    }
}

impl DirectXCommandList {
    /// The record of the allocator the list was allocated from.
    pub closed spec fn allocator_record(&self) -> ObjectId {
        self.allocator
    }

    /// The record of the allocator the list was allocated from.
    pub fn allocator(&self) -> (id: ObjectId)
        ensures
            id == self.allocator_record(),
    {
        self.allocator
    }
}

impl CommandBuffer for DirectXCommandList {
    type CommandPool = DirectXCommandAllocator;

    type Description = DirectXCommandListDescription;

    fn describe(
        pool: &DirectXCommandAllocator,
        create_info: &CommandBufferAllocateInfo,
    ) -> (description:
        DirectXCommandListDescription)
        ensures
            description == (DirectXCommandListDescription {
                node_mask: 0,
                list_type: D3D12_COMMAND_LIST_TYPE_DIRECT,
                allocator: pool.native(),
            }),
    {
        DirectXCommandListDescription {
            node_mask: 0,
            list_type: D3D12_COMMAND_LIST_TYPE_DIRECT,
            allocator: pool.handle(),
        }
    }

    fn allocate(
        objects: &mut Objects,
        pool: &DirectXCommandAllocator,
        native: Result<u64, i32>,
    ) -> (buffer: Result<Self, Error>)
        ensures
            buffer matches Ok(b) ==> b.allocator_record() == pool.record()
                && b.device_record() == pool.device_record(),
    {
        let retains = vec![pool.ownership(), pool.device()];
        assert(retains@ =~= seq![pool.record(), pool.device_record()]);
        match objects.enter(ObjectKind::CommandBuffer, retains, windows_result(native)) {
            Ok((handle, ownership)) => Ok(
                DirectXCommandList {
                    handle,
                    ownership,
                    allocator: pool.ownership(),
                    device: pool.device(),
                },
            ),
            Err(e) => Err(e),
        }
    }
}

} // verus!
