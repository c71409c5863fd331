//! Pipeline layouts.

use vstd::prelude::*;
use crate::api::directx::device::DirectXDevice;
use crate::api::directx::{DirectXDeviceObject, DirectXObject};
use crate::api::traits::{Object, PipelineLayout};
use crate::error::Error;
use crate::info::PipelineLayoutCreateInfo;
use crate::ownership::{ObjectId, Objects};

verus! {

/// DirectX has nothing to say of a pipeline layout.
#[derive(Debug, Copy, Clone, PartialEq, Eq, Structural)]
pub struct DirectXPipelineLayoutDescription {}

/// A pipeline layout under DirectX.  There is no such thing yet, so none can be
/// created.
#[derive(Debug)]
pub struct DirectXPipelineLayout {
    handle: u64,
    ownership: ObjectId,
    device: ObjectId,
}

impl Object for DirectXPipelineLayout {
    closed spec fn native(&self) -> u64 {
        self.handle
    }

    closed spec fn record(&self) -> ObjectId {
        self.ownership
    }

    open spec fn failure(code: i32) -> Error {
        Error::WindowsError(code)
    }

    fn handle(&self) -> (handle: u64) {
        self.handle
    }

    fn ownership(&self) -> (id: ObjectId) {
        self.ownership
    }

    fn share(&self, objects: &mut Objects) -> (twin: Result<Self, Error>)
        ensures
            twin matches Ok(other) ==> other.device_record() == self.device_record(),
    {
        match objects.share(self.ownership) {
            Ok(()) => Ok(
                DirectXPipelineLayout {
                    handle: self.handle,
                    ownership: self.ownership,
                    device: self.device,
                },
            ),
            Err(e) => Err(e),
        }
    }
}

impl DirectXObject for DirectXPipelineLayout {
    proof fn windows_error(code: i32) {
    }
}

impl DirectXDeviceObject for DirectXPipelineLayout {
    closed spec fn device_record(&self) -> ObjectId {
        self.device
    }

    fn device(&self) -> (id: ObjectId) {
        self.device
    }
}

impl PipelineLayout for DirectXPipelineLayout {
    type Context = DirectXDevice;

    type Description = DirectXPipelineLayoutDescription;

    open spec fn supported() -> bool {
        false
    }

    fn describe(
        create_info: &PipelineLayoutCreateInfo,
    ) -> (description: DirectXPipelineLayoutDescription)
        ensures
            description == (DirectXPipelineLayoutDescription {  }),
    {
        DirectXPipelineLayoutDescription {  }
    }

    /// Reports that DirectX cannot do this, unless the caller has a failure of
    /// its own to report.
    fn new(
        objects: &mut Objects,
        context: &DirectXDevice,
        native: Result<u64, i32>,
    ) -> (layout: Result<Self, Error>)
    {
        match native {
            Err(code) => Err(Error::WindowsError(code)),
            Ok(_) => Err(Error::Unsupported),
        }
    }
}

} // verus!
