//! Shader modules.

use vstd::prelude::*;
use crate::api::traits::{Object, Shader};
use crate::api::vulkan::device::VulkanDevice;
use crate::api::vulkan::native::VK_STRUCTURE_TYPE_SHADER_MODULE_CREATE_INFO;
use crate::api::vulkan::{api_result, VulkanDeviceObject, VulkanObject};
use crate::error::Error;
use crate::info::ShaderCode;
use crate::ownership::{ObjectId, ObjectKind, Objects};

verus! {

/// Compiled code in the form Vulkan takes it.
#[derive(Debug, Copy, Clone)]
pub struct VulkanShaderCode<'a> {
    pub code: &'a [u8],
}

impl<'a> VulkanShaderCode<'a> {
    /// Code borrowed from the caller.
    pub fn from_bytes(code: &'a [u8]) -> (wrapped: VulkanShaderCode<'a>)
        ensures
            wrapped.code@ == code@,
    {
        VulkanShaderCode { code }
    }
}

/// What `vkCreateShaderModule` is given, but for the code itself.
#[derive(Debug, Copy, Clone, PartialEq, Eq, Structural)]
pub struct VulkanShaderModuleCreateInfo {
    pub s_type: i32,
    pub flags: u32,
    /// The length of the code, in bytes.
    pub code_size: usize,
}

/// A Vulkan shader module.  It keeps its device alive.
#[derive(Debug)]
pub struct VulkanShaderModule {
    handle: u64,
    ownership: ObjectId,
    device: ObjectId,
}

impl Object for VulkanShaderModule {
    closed spec fn native(&self) -> u64 {
        self.handle
    }

    closed spec fn record(&self) -> ObjectId {
        self.ownership
    }

    open spec fn failure(code: i32) -> Error {
        Error::ApiError(code)
    }

    fn handle(&self) -> (handle: u64) {
        self.handle
    }

    fn ownership(&self) -> (id: ObjectId) {
        self.ownership
    }

    fn share(&self, objects: &mut Objects) -> (twin: Result<Self, Error>)
        ensures
            twin matches Ok(other) ==> other.device_record() == self.device_record(),
    {
        match objects.share(self.ownership) {
            Ok(()) => Ok(
                VulkanShaderModule {
                    handle: self.handle,
                    ownership: self.ownership,
                    device: self.device,
                },
            ),
            Err(e) => Err(e),
        }
    }
}

impl VulkanObject for VulkanShaderModule {
    proof fn api_error(code: i32) {
    }
}

impl VulkanDeviceObject for VulkanShaderModule {
    closed spec fn device_record(&self) -> ObjectId {
        self.device
    }

    fn device(&self) -> (id: ObjectId) {
        self.device
    }
}

impl Shader for VulkanShaderModule {
    type Context = VulkanDevice;

    type Description = VulkanShaderModuleCreateInfo;

    fn describe(code: ShaderCode) -> (description: VulkanShaderModuleCreateInfo)
        ensures
            description == (VulkanShaderModuleCreateInfo {
                s_type: VK_STRUCTURE_TYPE_SHADER_MODULE_CREATE_INFO,
                flags: 0,
                code_size: code.bytes().len() as usize,
            }),
    {
        VulkanShaderModuleCreateInfo {
            s_type: VK_STRUCTURE_TYPE_SHADER_MODULE_CREATE_INFO,
            flags: 0,
            code_size: code.into_bytes().len(),
        }
    }

    fn from_code(
        objects: &mut Objects,
        context: &VulkanDevice,
        code: ShaderCode,
        native: Result<u64, i32>,
    ) -> (shader: Result<Self, Error>)
        ensures
            shader matches Ok(s) ==> s.device_record() == context.record(),
    {
        let retains = vec![context.ownership()];
        assert(retains@ =~= seq![context.record()]);
        match objects.enter(ObjectKind::Shader, retains, api_result(native)) {
            Ok((handle, ownership)) => Ok(
                VulkanShaderModule {
                    handle,
                    ownership,
                    device: context.ownership(),
                },
            ),
            Err(e) => Err(e),
        }
    }
}

} // verus!
