//! Swapchains.

use vstd::prelude::*;
use crate::api::traits::{belongs, Object, Swapchain};
use crate::api::vulkan::constants::{
    VulkanColorSpaces, VulkanCompositeAlphaModes, VulkanPresentModeConstants,
    VulkanRenderTargetFormatConstants,
};
use crate::api::vulkan::device::VulkanDevice;
use crate::api::vulkan::fence::VulkanFence;
use crate::api::vulkan::image::VulkanImage;
use crate::api::vulkan::native::{
    VK_FALSE, VK_IMAGE_USAGE_COLOR_ATTACHMENT_BIT, VK_SHARING_MODE_EXCLUSIVE,
    VK_STRUCTURE_TYPE_SWAPCHAIN_CREATE_INFO_KHR, VK_SURFACE_TRANSFORM_IDENTITY_BIT_KHR,
};
use crate::api::vulkan::semaphore::VulkanSemaphore;
use crate::api::vulkan::surface::VulkanSurface;
use crate::api::vulkan::{VulkanDeviceObject, VulkanObject};
use crate::datatypes::Extent2D;
use crate::error::Error;
use crate::info::SwapchainCreateInfo;
use crate::ownership::{release, Destroy, ObjectId, ObjectKind, Objects};

verus! {

/// What `vkCreateSwapchainKHR` is given.
#[derive(Debug, Copy, Clone, PartialEq, Eq, Structural)]
pub struct VulkanSwapchainCreateInfo {
    pub s_type: i32,
    pub flags: u32,
    pub surface: u64,
    pub min_image_count: u32,
    pub image_format: i32,
    pub image_color_space: i32,
    pub image_extent: Extent2D,
    pub image_array_layers: u32,
    pub image_usage: u32,
    pub image_sharing_mode: i32,
    pub queue_family_index_count: u32,
    pub pre_transform: i32,
    pub composite_alpha: i32,
    pub present_mode: i32,
    pub clipped: u32,
    pub old_swapchain: u64,
}

/// What `vkAcquireNextImageKHR` is given.
#[derive(Debug, Copy, Clone, PartialEq, Eq, Structural)]
pub struct VulkanAcquireNextImage {
    pub swapchain: u64,
    /// How long to wait, in nanoseconds.
    pub timeout: u64,
    /// The semaphore to signal, or the null handle.
    pub semaphore: u64,
    /// The fence to signal, or the null handle.
    pub fence: u64,
}

/// A Vulkan swapchain.  It keeps its surface and its device alive, and owns
/// its images.
#[derive(Debug)]
pub struct VulkanSwapchain {
    handle: u64,
    ownership: ObjectId,
    surface: ObjectId,
    device: ObjectId,
    images: Vec<VulkanImage>,
}

/// The image behind each of `handles`.
pub open spec fn swapchain_images(handles: Seq<u64>) -> Seq<VulkanImage> {
    handles.map_values(|handle: u64| VulkanImage { handle })
}

/// The number of nanoseconds to wait for, where `timeout` is the wait in
/// nanoseconds: as long as a wait can be where there is none, and otherwise
/// the wait itself, of which only the low 64 bits are kept.
pub open spec fn timeout_nanos(timeout: Option<u128>) -> u64 {
    match timeout {
        Some(nanos) => (nanos % 0x1_0000_0000_0000_0000) as u64,
        None => u64::MAX,
    }
}

/// The handle that a native call is given for an object that may be left out:
/// the handle of the object, or the null handle.
pub open spec fn null_or(handle: Option<u64>) -> u64 {
    match handle {
        Some(h) => h,
        None => 0,
    }
}

impl Object for VulkanSwapchain {
    closed spec fn native(&self) -> u64 {
        self.handle
    }

    closed spec fn record(&self) -> ObjectId {
        self.ownership
    }

    open spec fn failure(code: i32) -> Error {
        Error::ApiError(code)
    }

    fn handle(&self) -> (handle: u64) {
        self.handle
    }

    fn ownership(&self) -> (id: ObjectId) {
        self.ownership
    }

    fn share(&self, objects: &mut Objects) -> (twin: Result<Self, Error>)
        ensures
            twin matches Ok(other) ==> other.surface_record() == self.surface_record()
                && other.device_record() == self.device_record() && other.presentable()
                == self.presentable(),
    {
        match objects.share(self.ownership) {
            Ok(()) => Ok(
                VulkanSwapchain {
                    handle: self.handle,
                    ownership: self.ownership,
                    surface: self.surface,
                    device: self.device,
                    images: self.images.clone(),
                },
            ),
            Err(e) => Err(e),
        }
    }
}

impl VulkanObject for VulkanSwapchain {
    proof fn api_error(code: i32) {
    }
}

impl VulkanDeviceObject for VulkanSwapchain {
    closed spec fn device_record(&self) -> ObjectId {
        self.device
    }

    fn device(&self) -> (id: ObjectId) {
        self.device
    }
}

impl VulkanSwapchain {
    /// The description of the swapchain on the surface `surface` that
    /// `create_info` asks for: its images have one layer, are drawn to as
    /// colour attachments by one queue family at a time, and are presented as
    /// they are, unclipped.
    pub open spec fn description(
        surface: u64,
        create_info: SwapchainCreateInfo,
    ) -> VulkanSwapchainCreateInfo {
        VulkanSwapchainCreateInfo {
            s_type: VK_STRUCTURE_TYPE_SWAPCHAIN_CREATE_INFO_KHR,
            flags: 0,
            surface,
            min_image_count: create_info.min_image_count,
            image_format: create_info.format.native::<VulkanRenderTargetFormatConstants>(),
            image_color_space: create_info.colorspace.native::<VulkanColorSpaces>(),
            image_extent: create_info.extent,
            image_array_layers: 1,
            image_usage: VK_IMAGE_USAGE_COLOR_ATTACHMENT_BIT,
            image_sharing_mode: VK_SHARING_MODE_EXCLUSIVE,
            queue_family_index_count: 0,
            pre_transform: VK_SURFACE_TRANSFORM_IDENTITY_BIT_KHR,
            composite_alpha: create_info.composite_alpha.native::<VulkanCompositeAlphaModes>(),
            present_mode: create_info.present_mode.native::<VulkanPresentModeConstants>(),
            clipped: VK_FALSE,
            old_swapchain: 0,
        }
    }

    /// The record of the surface the swapchain presents to.
    pub closed spec fn surface_record(&self) -> ObjectId {
        self.surface
    }

    /// The record of the surface the swapchain presents to.
    pub fn surface(&self) -> (id: ObjectId)
        ensures
            id == self.surface_record(),
    {
        self.surface
    }

    /// Gives this handle up, and says whether that destroyed the swapchain:
    /// it did if nothing else held or retained the swapchain.
    pub fn destroy(self, objects: &mut Objects) -> (destroyed: Result<Vec<Destroy>, ()>)
        requires
            old(objects).wf(),
            belongs(&self, old(objects)@),
        ensures
            final(objects).wf(),
            final(objects)@ == release(old(objects)@, self.record()@).0,
            destroyed is Ok <==> self.record()@ < old(objects)@.len()
                && old(objects)@[self.record()@].handles == 1
                && old(objects)@[self.record()@].retained == 0,
            destroyed matches Ok(actions) ==> actions@ == release(old(objects)@, self.record()@).1,
            destroyed is Err ==> release(old(objects)@, self.record()@).1 == Seq::<Destroy>::empty(),
    {
        let last = objects.handles(self.ownership) == 1 && objects.retained(self.ownership) == 0;
        let actions = objects.release(self.ownership);
        if last {
            Ok(actions)
        } else {
            Err(())
        }
    }
}

impl Swapchain for VulkanSwapchain {
    type Context = VulkanDevice;

    type Surface = VulkanSurface;

    type Image = VulkanImage;

    type Semaphore = VulkanSemaphore;

    type Fence = VulkanFence;

    type Description = VulkanSwapchainCreateInfo;

    type Acquisition = VulkanAcquireNextImage;

    closed spec fn presentable(&self) -> Seq<VulkanImage> {
        self.images@
    }

    open spec fn retains(context: &VulkanDevice, surface: &VulkanSurface) -> Seq<ObjectId> {
        seq![surface.record(), context.record()]
    }

    open spec fn image(handle: u64) -> VulkanImage {
        VulkanImage { handle }
    }

    open spec fn acquisition(
        &self,
        timeout: Option<u128>,
        semaphore: Option<u64>,
        fence: Option<u64>,
    ) -> Result<VulkanAcquireNextImage, Error> {
        Ok(
            VulkanAcquireNextImage {
                swapchain: self.native(),
                timeout: timeout_nanos(timeout),
                semaphore: null_or(semaphore),
                fence: null_or(fence),
            },
        )
    }

    fn describe(
        context: &VulkanDevice,
        surface: &VulkanSurface,
        create_info: &SwapchainCreateInfo,
    ) -> (description: VulkanSwapchainCreateInfo)
        ensures
            description == Self::description(surface.native(), *create_info),
    {
        VulkanSwapchainCreateInfo {
            s_type: VK_STRUCTURE_TYPE_SWAPCHAIN_CREATE_INFO_KHR,
            flags: 0,
            surface: surface.handle(),
            min_image_count: create_info.min_image_count,
            image_format: create_info.format.to_native::<VulkanRenderTargetFormatConstants>(),
            image_color_space: create_info.colorspace.to_native::<VulkanColorSpaces>(),
            image_extent: create_info.extent,
            image_array_layers: 1,
            image_usage: VK_IMAGE_USAGE_COLOR_ATTACHMENT_BIT,
            image_sharing_mode: VK_SHARING_MODE_EXCLUSIVE,
            queue_family_index_count: 0,
            pre_transform: VK_SURFACE_TRANSFORM_IDENTITY_BIT_KHR,
            composite_alpha: create_info.composite_alpha.to_native::<VulkanCompositeAlphaModes>(),
            present_mode: create_info.present_mode.to_native::<VulkanPresentModeConstants>(),
            clipped: VK_FALSE,
            old_swapchain: 0,
        }
    }

    fn new(
        objects: &mut Objects,
        context: &VulkanDevice,
        surface: &VulkanSurface,
        native: Result<u64, i32>,
        images: Result<Vec<u64>, i32>,
    ) -> (swapchain: Result<Self, Error>)
        ensures
            swapchain matches Ok(s) ==> s.device_record() == context.record() && s.surface_record()
                == surface.record(),
    {
        let handle = match native {
            Ok(handle) => handle,
            Err(code) => {
                return Err(Error::ApiError(code));
            },
        };
        let handles = match images {
            Ok(handles) => handles,
            Err(code) => {
                return Err(Error::ApiError(code));
            },
        };
        let retains = vec![surface.ownership(), context.ownership()];
        assert(retains@ =~= seq![surface.record(), context.record()]);
        match objects.enter(ObjectKind::Swapchain, retains, Ok(handle)) {
            Err(e) => Err(e),
            Ok((handle, ownership)) => {
                let mut images: Vec<VulkanImage> = Vec::new();
                let mut i: usize = 0;
                while i < handles.len()
                    invariant
                        i <= handles@.len(),
                        images@ == swapchain_images(handles@.take(i as int)),
                    decreases handles@.len() - i,
                {
                    images.push(VulkanImage::swapchain(handles[i]));
                    assert(swapchain_images(handles@.take(i as int + 1)) =~= swapchain_images(
                        handles@.take(i as int),
                    ).push(VulkanImage { handle: handles@[i as int] }));
                    i = i + 1;
                }
                assert(handles@.take(handles@.len() as int) =~= handles@);
                Ok(
                    VulkanSwapchain {
                        handle,
                        ownership,
                        surface: surface.ownership(),
                        device: context.ownership(),
                        images,
                    },
                )
            },
        }
    }

    fn images(&self) -> (images: &[VulkanImage]) {
        self.images.as_slice()
    }

    fn acquire_next_image(
        &self,
        timeout: Option<u128>,
        semaphore: Option<&VulkanSemaphore>,
        fence: Option<&VulkanFence>,
    ) -> (acquisition: Result<VulkanAcquireNextImage, Error>) {
        Ok(
            VulkanAcquireNextImage {
                swapchain: self.handle,
                timeout: match timeout {
                    Some(nanos) => (nanos % 0x1_0000_0000_0000_0000) as u64,
                    None => u64::MAX,
                },
                semaphore: match semaphore {
                    Some(s) => s.handle(),
                    None => 0,
                },
                fence: match fence {
                    Some(f) => f.handle(),
                    None => 0,
                },
            },
        )
    }

    fn acquired(native: Result<u32, i32>) -> (index: Result<u32, Error>) {
        match native {
            Ok(i) => Ok(i),
            Err(code) => Err(Error::ApiError(code)),
        }
    }
}

} // verus!
