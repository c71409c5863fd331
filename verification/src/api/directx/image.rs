//! The buffers of a swapchain, and views of them.

use vstd::prelude::*;
use crate::api::directx::device::DirectXDevice;
use crate::api::directx::{DirectXDeviceObject, DirectXObject};
use crate::api::traits::{Image, ImageView, Object};
use crate::error::Error;
use crate::info::ImageViewCreateInfo;
use crate::ownership::{ObjectId, Objects};

verus! {

/// A buffer of a swapchain.  The buffers belong to the swapchain, so a value
/// of this type owns nothing.
#[derive(Debug, Copy, Clone, PartialEq, Eq, Structural)]
pub struct DirectXImage {
    pub handle: u64,
}

impl DirectXImage {
    /// A buffer of a swapchain.
    pub fn swapchain(handle: u64) -> (image: DirectXImage)
        ensures
            image == (DirectXImage { handle }),
    {
        DirectXImage { handle }
    }

    /// The native handle.
    pub fn handle(&self) -> (handle: u64)
        ensures
            handle == self.handle,
    {
        self.handle
    }
}

impl Image for DirectXImage {

}

/// DirectX has nothing to say of an image view.
#[derive(Debug, Copy, Clone, PartialEq, Eq, Structural)]
pub struct DirectXImageViewDescription {}

/// An image view under DirectX.  There is no such thing yet, so none can be
/// created.
#[derive(Debug)]
pub struct DirectXImageView {
    handle: u64,
    ownership: ObjectId,
    device: ObjectId,
}

impl Object for DirectXImageView {
    closed spec fn native(&self) -> u64 {
        self.handle
    }

    closed spec fn record(&self) -> ObjectId {
        self.ownership
    }

    open spec fn failure(code: i32) -> Error {
        Error::WindowsError(code)
    }

    fn handle(&self) -> (handle: u64) {
        self.handle
    }

    fn ownership(&self) -> (id: ObjectId) {
        self.ownership
    }

    fn share(&self, objects: &mut Objects) -> (twin: Result<Self, Error>)
        ensures
            twin matches Ok(other) ==> other.device_record() == self.device_record(),
    {
        match objects.share(self.ownership) {
            Ok(()) => Ok(
                DirectXImageView {
                    handle: self.handle,
                    ownership: self.ownership,
                    device: self.device,
                },
            ),
            Err(e) => Err(e),
        }
    }
}

impl DirectXObject for DirectXImageView {
    proof fn windows_error(code: i32) {
    }
}

impl DirectXDeviceObject for DirectXImageView {
    closed spec fn device_record(&self) -> ObjectId {
        self.device
    }

    fn device(&self) -> (id: ObjectId) {
        self.device
    }
}

impl ImageView for DirectXImageView {
    type Context = DirectXDevice;

    type Image = DirectXImage;

    type Description = DirectXImageViewDescription;

    open spec fn supported() -> bool {
        false
    }

    fn describe(
        image: &DirectXImage,
        create_info: &ImageViewCreateInfo,
    ) -> (description: DirectXImageViewDescription)
        ensures
            description == (DirectXImageViewDescription {  }),
    {
        DirectXImageViewDescription {  }
    }

    /// Reports that DirectX cannot do this, unless the caller has a failure of
    /// its own to report.
    fn new(
        objects: &mut Objects,
        context: &DirectXDevice,
        image: &DirectXImage,
        native: Result<u64, i32>,
    ) -> (view: Result<Self, Error>) {
        match native {
            Err(code) => Err(Error::WindowsError(code)),
            Ok(_) => Err(Error::Unsupported),
        }
    }
}

} // verus!
