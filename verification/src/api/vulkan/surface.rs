//! Surfaces: the windows that Vulkan presents to.

use vstd::prelude::*;
use crate::api::traits::{Object, Surface};
use crate::api::vulkan::instance::VulkanInstance;
use crate::api::vulkan::native::VK_STRUCTURE_TYPE_WIN32_SURFACE_CREATE_INFO_KHR;
use crate::api::vulkan::{api_result, VulkanInstanceObject, VulkanObject};
use crate::error::Error;
use crate::info::SurfaceCreateInfo;
use crate::ownership::{ObjectId, ObjectKind, Objects};

verus! {

/// What `vkCreateWin32SurfaceKHR` is given.
#[derive(Debug, Copy, Clone, PartialEq, Eq, Structural)]
pub struct VulkanWin32SurfaceCreateInfo {
    pub s_type: i32,
    pub flags: u32,
    pub hinstance: u64,
    pub hwnd: u64,
}

/// A Vulkan surface.  It keeps its instance alive.
#[derive(Debug)]
pub struct VulkanSurface {
    handle: u64,
    ownership: ObjectId,
    instance: ObjectId,
}

impl Object for VulkanSurface {
    closed spec fn native(&self) -> u64 {
        self.handle
    }

    closed spec fn record(&self) -> ObjectId {
        self.ownership
    }

    open spec fn failure(code: i32) -> Error {
        Error::ApiError(code)
    }

    fn handle(&self) -> (handle: u64) {
        self.handle
    }

    fn ownership(&self) -> (id: ObjectId) {
        self.ownership
    }

    fn share(&self, objects: &mut Objects) -> (twin: Result<Self, Error>)
        ensures
            twin matches Ok(other) ==> other.instance_record() == self.instance_record(),
    {
        match objects.share(self.ownership) {
            Ok(()) => Ok(
                VulkanSurface {
                    handle: self.handle,
                    ownership: self.ownership,
                    instance: self.instance,
                },
            ),
            Err(e) => Err(e),
        }
    }
}

impl VulkanObject for VulkanSurface {
    proof fn api_error(code: i32) {
    }
}

impl VulkanInstanceObject for VulkanSurface {
    closed spec fn instance_record(&self) -> ObjectId {
        self.instance
    }

    fn instance(&self) -> (id: ObjectId) {
        self.instance
    }
}

impl VulkanSurface {
    /// The description of the surface that `create_info` asks for.
    pub open spec fn description(create_info: SurfaceCreateInfo) -> VulkanWin32SurfaceCreateInfo {
        VulkanWin32SurfaceCreateInfo {
            s_type: VK_STRUCTURE_TYPE_WIN32_SURFACE_CREATE_INFO_KHR,
            flags: 0,
            hinstance: create_info.hinstance,
            hwnd: create_info.hwnd,
        }
    }
}

impl Surface for VulkanSurface {
    type Root = VulkanInstance;

    type Description = VulkanWin32SurfaceCreateInfo;

    open spec fn retains(root: &VulkanInstance) -> Seq<ObjectId> {
        seq![root.record()]
    }

    fn describe(create_info: &SurfaceCreateInfo) -> (description: VulkanWin32SurfaceCreateInfo)
        ensures
            description == Self::description(*create_info),
    {
        VulkanWin32SurfaceCreateInfo {
            s_type: VK_STRUCTURE_TYPE_WIN32_SURFACE_CREATE_INFO_KHR,
            flags: 0,
            hinstance: create_info.hinstance,
            hwnd: create_info.hwnd,
        }
    }

    fn new(
        objects: &mut Objects,
        root: &Self::Root,
        native: Result<u64, i32>,
    ) -> (surface: Result<Self, Error>)
        ensures
            surface matches Ok(s) ==> s.instance_record() == root.record(),
    {
        let retains = vec![root.ownership()];
        assert(retains@ =~= seq![root.record()]);
        match objects.enter(ObjectKind::Surface, retains, api_result(native)) {
            Ok((handle, ownership)) => Ok(
                VulkanSurface {
                    handle,
                    ownership,
                    instance: root.ownership(),
                },
            ),
            Err(e) => Err(e),
        }
    }
}

} // verus!
