//! Semaphores.

use vstd::prelude::*;
use crate::api::directx::device::DirectXDevice;
use crate::api::directx::{DirectXDeviceObject, DirectXObject};
use crate::api::traits::{Object, Semaphore};
use crate::error::Error;
use crate::info::SemaphoreCreateInfo;
use crate::ownership::{ObjectId, Objects};

verus! {

/// DirectX has nothing to say of a semaphore.
#[derive(Debug, Copy, Clone, PartialEq, Eq, Structural)]
pub struct DirectXSemaphoreDescription {}

/// A semaphore under DirectX.  DirectX orders work with fences alone, so none
/// can be created.
#[derive(Debug)]
pub struct DirectXSemaphore {
    handle: u64,
    ownership: ObjectId,
    device: ObjectId,
}

impl Object for DirectXSemaphore {
    closed spec fn native(&self) -> u64 {
        self.handle
    }

    closed spec fn record(&self) -> ObjectId {
        self.ownership
    }

    open spec fn failure(code: i32) -> Error {
        Error::WindowsError(code)
    }

    fn handle(&self) -> (handle: u64) {
        self.handle
    }

    fn ownership(&self) -> (id: ObjectId) {
        self.ownership
    }

    fn share(&self, objects: &mut Objects) -> (twin: Result<Self, Error>)
        ensures
            twin matches Ok(other) ==> other.device_record() == self.device_record(),
    {
        match objects.share(self.ownership) {
            Ok(()) => Ok(
                DirectXSemaphore {
                    handle: self.handle,
                    ownership: self.ownership,
                    device: self.device,
                },
            ),
            Err(e) => Err(e),
        }
    }
}

impl DirectXObject for DirectXSemaphore {
    proof fn windows_error(code: i32) {
    }
}

impl DirectXDeviceObject for DirectXSemaphore {
    closed spec fn device_record(&self) -> ObjectId {
        self.device
    }

    fn device(&self) -> (id: ObjectId) {
        self.device
    }
}

impl Semaphore for DirectXSemaphore {
    type Context = DirectXDevice;

    type Description = DirectXSemaphoreDescription;

    open spec fn supported() -> bool {
        false
    }

    fn describe(create_info: &SemaphoreCreateInfo) -> (description: DirectXSemaphoreDescription)
        ensures
            description == (DirectXSemaphoreDescription {  }),
    {
        DirectXSemaphoreDescription {  }
    }

    /// Reports that DirectX cannot do this, unless the caller has a failure of
    /// its own to report.
    fn new(
        objects: &mut Objects,
        context: &DirectXDevice,
        native: Result<u64, i32>,
    ) -> (semaphore: Result<Self, Error>)
    {
        match native {
            Err(code) => Err(Error::WindowsError(code)),
            Ok(_) => Err(Error::Unsupported),
        }
    }
}

} // verus!
