//! Images and the views through which they are read and written.

use vstd::prelude::*;
use crate::api::traits::{Image, ImageView, Object};
use crate::api::vulkan::constants::VulkanRenderTargetFormatConstants;
use crate::api::vulkan::device::VulkanDevice;
use crate::api::vulkan::native::{
    VK_COMPONENT_SWIZZLE_IDENTITY, VK_IMAGE_ASPECT_COLOR_BIT, VK_IMAGE_VIEW_TYPE_2D,
    VK_STRUCTURE_TYPE_IMAGE_VIEW_CREATE_INFO,
};
use crate::api::vulkan::{api_result, VulkanDeviceObject, VulkanObject};
use crate::error::Error;
use crate::info::ImageViewCreateInfo;
use crate::ownership::{ObjectId, ObjectKind, Objects};

verus! {

/// A Vulkan image.  The images of a swapchain belong to the swapchain, so a
/// value of this type owns nothing.
#[derive(Debug, Copy, Clone, PartialEq, Eq, Structural)]
pub struct VulkanImage {
    pub handle: u64,
}

impl VulkanImage {
    /// An image of a swapchain.
    pub fn swapchain(handle: u64) -> (image: VulkanImage)
        ensures
            image == (VulkanImage { handle }),
    {
        VulkanImage { handle }
    }

    /// The native handle.
    pub fn handle(&self) -> (handle: u64)
        ensures
            handle == self.handle,
    {
        self.handle
    }
}

impl Image for VulkanImage {

}

/// How the components of a view are taken from those of the image.
#[derive(Debug, Copy, Clone, PartialEq, Eq, Structural)]
pub struct VulkanComponentMapping {
    pub r: i32,
    pub g: i32,
    pub b: i32,
    pub a: i32,
}

/// The part of an image that a view shows.
#[derive(Debug, Copy, Clone, PartialEq, Eq, Structural)]
pub struct VulkanImageSubresourceRange {
    pub aspect_mask: u32,
    pub base_mip_level: u32,
    pub level_count: u32,
    pub base_array_layer: u32,
    pub layer_count: u32,
}

/// What `vkCreateImageView` is given.
#[derive(Debug, Copy, Clone, PartialEq, Eq, Structural)]
pub struct VulkanImageViewCreateInfo {
    pub s_type: i32,
    pub flags: u32,
    pub image: u64,
    pub view_type: i32,
    pub format: i32,
    pub components: VulkanComponentMapping,
    pub subresource_range: VulkanImageSubresourceRange,
}

/// A Vulkan image view.  It keeps its device alive, and remembers its image.
#[derive(Debug)]
pub struct VulkanImageView {
    handle: u64,
    ownership: ObjectId,
    image: VulkanImage,
    device: ObjectId,
}

impl Object for VulkanImageView {
    closed spec fn native(&self) -> u64 {
        self.handle
    }

    closed spec fn record(&self) -> ObjectId {
        self.ownership
    }

    open spec fn failure(code: i32) -> Error {
        Error::ApiError(code)
    }

    fn handle(&self) -> (handle: u64) {
        self.handle
    }

    fn ownership(&self) -> (id: ObjectId) {
        self.ownership
    }

    fn share(&self, objects: &mut Objects) -> (twin: Result<Self, Error>)
        ensures
            twin matches Ok(other) ==> other.viewed() == self.viewed()
                && other.device_record() == self.device_record(),
    {
        match objects.share(self.ownership) {
            Ok(()) => Ok(
                VulkanImageView {
                    handle: self.handle,
                    ownership: self.ownership,
                    image: self.image,
                    device: self.device,
                },
            ),
            Err(e) => Err(e),
        }
    }
}

impl VulkanObject for VulkanImageView {
    proof fn api_error(code: i32) {
    }
}

impl VulkanDeviceObject for VulkanImageView {
    closed spec fn device_record(&self) -> ObjectId {
        self.device
    }

    fn device(&self) -> (id: ObjectId) {
        self.device
    }
}

impl VulkanImageView {
    /// The image that the view shows.
    pub closed spec fn viewed(&self) -> VulkanImage {
        self.image
    }

    /// The image that the view shows.
    pub fn image(&self) -> (image: VulkanImage)
        ensures
            image == self.viewed(),
    {
        self.image
    }

    /// The description of the view of `image` that `create_info` asks for: a
    /// two-dimensional view of the colour of the whole image, with every
    /// component where the image has it.
    pub open spec fn description(
        image: VulkanImage,
        create_info: ImageViewCreateInfo,
    ) -> VulkanImageViewCreateInfo {
        VulkanImageViewCreateInfo {
            s_type: VK_STRUCTURE_TYPE_IMAGE_VIEW_CREATE_INFO,
            flags: 0,
            image: image.handle,
            view_type: VK_IMAGE_VIEW_TYPE_2D,
            format: create_info.format.native::<VulkanRenderTargetFormatConstants>(),
            components: VulkanComponentMapping {
                r: VK_COMPONENT_SWIZZLE_IDENTITY,
                g: VK_COMPONENT_SWIZZLE_IDENTITY,
                b: VK_COMPONENT_SWIZZLE_IDENTITY,
                a: VK_COMPONENT_SWIZZLE_IDENTITY,
            },
            subresource_range: VulkanImageSubresourceRange {
                aspect_mask: VK_IMAGE_ASPECT_COLOR_BIT,
                base_mip_level: 0,
                level_count: 1,
                base_array_layer: 0,
                layer_count: 1,
            },
        }
    }
}

impl ImageView for VulkanImageView {
    type Context = VulkanDevice;

    type Image = VulkanImage;

    type Description = VulkanImageViewCreateInfo;

    open spec fn supported() -> bool {
        true
    }

    fn describe(image: &VulkanImage, create_info: &ImageViewCreateInfo) -> (description:
        VulkanImageViewCreateInfo)
        ensures
            description == Self::description(*image, *create_info),
    {
        VulkanImageViewCreateInfo {
            s_type: VK_STRUCTURE_TYPE_IMAGE_VIEW_CREATE_INFO,
            flags: 0,
            image: image.handle,
            view_type: VK_IMAGE_VIEW_TYPE_2D,
            format: create_info.format.to_native::<VulkanRenderTargetFormatConstants>(),
            components: VulkanComponentMapping {
                r: VK_COMPONENT_SWIZZLE_IDENTITY,
                g: VK_COMPONENT_SWIZZLE_IDENTITY,
                b: VK_COMPONENT_SWIZZLE_IDENTITY,
                a: VK_COMPONENT_SWIZZLE_IDENTITY,
            },
            subresource_range: VulkanImageSubresourceRange {
                aspect_mask: VK_IMAGE_ASPECT_COLOR_BIT,
                base_mip_level: 0,
                level_count: 1,
                base_array_layer: 0,
                layer_count: 1,
            },
        }
    }

    fn new(
        objects: &mut Objects,
        context: &VulkanDevice,
        image: &VulkanImage,
        native: Result<u64, i32>,
    ) -> (view: Result<Self, Error>)
        ensures
            view matches Ok(v) ==> v.device_record() == context.record() && v.viewed() == *image,
    {
        let retains = vec![context.ownership()];
        assert(retains@ =~= seq![context.record()]);
        match objects.enter(ObjectKind::ImageView, retains, api_result(native)) {
            Ok((handle, ownership)) => Ok(
                VulkanImageView {
                    handle,
                    ownership,
                    image: *image,
                    device: context.ownership(),
                },
            ),
            Err(e) => Err(e),
        }
    }
}

} // verus!
