//! Fences.

use vstd::prelude::*;
use crate::api::directx::device::DirectXDevice;
use crate::api::directx::native::D3D12_FENCE_FLAG_NONE;
use crate::api::directx::{windows_result, DirectXDeviceObject, DirectXObject};
use crate::api::traits::{Fence, Object};
use crate::error::Error;
use crate::info::FenceCreateInfo;
use crate::ownership::{ObjectId, ObjectKind, Objects};

verus! {

/// What `ID3D12Device::CreateFence` is given.
#[derive(Debug, Copy, Clone, PartialEq, Eq, Structural)]
pub struct DirectXFenceDescription {
    pub initial_value: u64,
    pub flags: i32,
}

/// A DirectX fence.  It keeps its device alive.
#[derive(Debug)]
pub struct DirectXFence {
    handle: u64,
    ownership: ObjectId,
    device: ObjectId,
}

impl Object for DirectXFence {
    closed spec fn native(&self) -> u64 {
        self.handle
    }

    closed spec fn record(&self) -> ObjectId {
        self.ownership
    }

    open spec fn failure(code: i32) -> Error {
        Error::WindowsError(code)
    }

    fn handle(&self) -> (handle: u64) {
        self.handle
    }

    fn ownership(&self) -> (id: ObjectId) {
        self.ownership
    }

    fn share(&self, objects: &mut Objects) -> (twin: Result<Self, Error>)
        ensures
            twin matches Ok(other) ==> other.device_record() == self.device_record(),
    {
        match objects.share(self.ownership) {
            Ok(()) => Ok(
                DirectXFence {
                    handle: self.handle,
                    ownership: self.ownership,
                    device: self.device,
                },
            ),
            Err(e) => Err(e),
        }
    }
}

impl DirectXObject for DirectXFence {
    proof fn windows_error(code: i32) {
    }
}

impl DirectXDeviceObject for DirectXFence {
    closed spec fn device_record(&self) -> ObjectId {
        self.device
    }

    fn device(&self) -> (id: ObjectId) {
        self.device
    }
}

impl DirectXFence {
    /// The description of the fence that `create_info` asks for: a fence that
    /// starts out signalled starts at one, any other at zero.
    pub open spec fn description(create_info: FenceCreateInfo) -> DirectXFenceDescription {
        DirectXFenceDescription {
            initial_value: if create_info.signaled {
                1
            } else {
                0
            },
            flags: D3D12_FENCE_FLAG_NONE,
        }
    }
}

impl Fence for DirectXFence {
    type Context = DirectXDevice;

    type Description = DirectXFenceDescription;

    fn describe(create_info: &FenceCreateInfo) -> (description: DirectXFenceDescription)
        ensures
            description == Self::description(*create_info),
    {
        DirectXFenceDescription {
            initial_value: if create_info.signaled {
                1
            } else {
                0
            },
            flags: D3D12_FENCE_FLAG_NONE,
        }
    }

    fn new(
        objects: &mut Objects,
        context: &Self::Context,
        native: Result<u64, i32>,
    ) -> (fence: Result<Self, Error>)
        ensures
            fence matches Ok(f) ==> f.device_record() == context.record(),
    {
        let retains = vec![context.ownership()];
        assert(retains@ =~= seq![context.record()]);
        match objects.enter(ObjectKind::Fence, retains, windows_result(native)) {
            Ok((handle, ownership)) => Ok(
                DirectXFence {
                    handle,
                    ownership,
                    device: context.ownership(),
                },
            ),
            Err(e) => Err(e),
        }
    }
}

} // verus!
