//! Framebuffers.

use vstd::prelude::*;
use crate::api::directx::device::DirectXDevice;
use crate::api::directx::{DirectXDeviceObject, DirectXObject};
use crate::api::directx::image::DirectXImageView;
use crate::api::directx::pipeline::render_pass::DirectXRenderPass;
use crate::api::traits::{Framebuffer, Object};
use crate::error::Error;
use crate::info::FramebufferCreateInfo;
use crate::ownership::{ObjectId, Objects};

verus! {

/// DirectX has nothing to say of a framebuffer.
#[derive(Debug, Copy, Clone, PartialEq, Eq, Structural)]
pub struct DirectXFramebufferDescription {}

/// A framebuffer under DirectX.  There is no such thing, so none can be
/// created.
#[derive(Debug)]
pub struct DirectXFramebuffer {
    handle: u64,
    ownership: ObjectId,
    device: ObjectId,
}

impl Object for DirectXFramebuffer {
    closed spec fn native(&self) -> u64 {
        self.handle
    }

    closed spec fn record(&self) -> ObjectId {
        self.ownership
    }

    open spec fn failure(code: i32) -> Error {
        Error::WindowsError(code)
    }

    fn handle(&self) -> (handle: u64) {
        self.handle
    }

    fn ownership(&self) -> (id: ObjectId) {
        self.ownership
    }

    fn share(&self, objects: &mut Objects) -> (twin: Result<Self, Error>)
        ensures
            twin matches Ok(other) ==> other.device_record() == self.device_record(),
    {
        match objects.share(self.ownership) {
            Ok(()) => Ok(
                DirectXFramebuffer {
                    handle: self.handle,
                    ownership: self.ownership,
                    device: self.device,
                },
            ),
            Err(e) => Err(e),
        }
    }
}

impl DirectXObject for DirectXFramebuffer {
    proof fn windows_error(code: i32) {
    }
}

impl DirectXDeviceObject for DirectXFramebuffer {
    closed spec fn device_record(&self) -> ObjectId {
        self.device
    }

    fn device(&self) -> (id: ObjectId) {
        self.device
    }
}

impl Framebuffer for DirectXFramebuffer {
    type Context = DirectXDevice;

    type RenderPass = DirectXRenderPass;

    type ImageView = DirectXImageView;

    type Description = DirectXFramebufferDescription;

    open spec fn supported() -> bool {
        false
    }

    fn describe(
        create_info: &FramebufferCreateInfo<DirectXRenderPass, DirectXImageView>,
    ) -> (description: DirectXFramebufferDescription)
        ensures
            description == (DirectXFramebufferDescription {  }),
    {
        DirectXFramebufferDescription {  }
    }

    /// Reports that DirectX cannot do this, unless the caller has a failure of
    /// its own to report.
    fn new(
        objects: &mut Objects,
        context: &DirectXDevice,
        render_pass: &DirectXRenderPass,
        native: Result<u64, i32>,
    ) -> (framebuffer: Result<Self, Error>) {
        match native {
            Err(code) => Err(Error::WindowsError(code)),
            Ok(_) => Err(Error::Unsupported),
        }
    }
}

} // verus!
