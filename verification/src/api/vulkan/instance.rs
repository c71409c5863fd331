//! The instance: the root of everything Vulkan.

use vstd::prelude::*;
use crate::api::traits::{ApiRoot, Device, Object};
use crate::api::vulkan::native::{
    VK_DEBUG_UTILS_MESSAGE_SEVERITY_ERROR_BIT_EXT, VK_DEBUG_UTILS_MESSAGE_SEVERITY_INFO_BIT_EXT,
    VK_DEBUG_UTILS_MESSAGE_SEVERITY_VERBOSE_BIT_EXT,
    VK_DEBUG_UTILS_MESSAGE_SEVERITY_WARNING_BIT_EXT,
    VK_DEBUG_UTILS_MESSAGE_TYPE_GENERAL_BIT_EXT,
    VK_DEBUG_UTILS_MESSAGE_TYPE_PERFORMANCE_BIT_EXT,
    VK_DEBUG_UTILS_MESSAGE_TYPE_VALIDATION_BIT_EXT,
    VK_STRUCTURE_TYPE_DEBUG_UTILS_MESSENGER_CREATE_INFO_EXT,
    VK_STRUCTURE_TYPE_INSTANCE_CREATE_INFO,
};
use crate::api::vulkan::physical_device::{VulkanPhysicalDevice, VulkanPhysicalDeviceProperties};
use crate::api::vulkan::{api_result, VulkanObject};
use crate::error::Error;
use crate::info::{Features, RootCreateInfo};
use crate::ownership::{kept, Kept, ObjectId, ObjectKind, Objects};

verus! {

/// A layer that an instance or a device can load.
#[derive(Debug, Copy, Clone, PartialEq, Eq, Structural)]
pub enum VulkanLayer {
    KhronosValidation,
}

impl VulkanLayer {
    /// The name by which Vulkan knows the layer.
    pub open spec fn spelled(self) -> Seq<char> {
        match self {
            VulkanLayer::KhronosValidation => "VK_LAYER_KHRONOS_validation"@,
        }
    }

    /// The name by which Vulkan knows the layer.
    pub fn name(self) -> (name: &'static str)
        ensures
            name@ == self.spelled(),
    {
        match self {
            VulkanLayer::KhronosValidation => "VK_LAYER_KHRONOS_validation",
        }
    }
}

/// An extension that an instance or a device can enable.
#[derive(Debug, Copy, Clone, PartialEq, Eq, Structural)]
pub enum VulkanExtension {
    Surface,
    Win32Surface,
    DebugUtils,
    Swapchain,
}

impl VulkanExtension {
    /// The name by which Vulkan knows the extension.
    pub open spec fn spelled(self) -> Seq<char> {
        match self {
            VulkanExtension::Surface => "VK_KHR_surface"@,
            VulkanExtension::Win32Surface => "VK_KHR_win32_surface"@,
            VulkanExtension::DebugUtils => "VK_EXT_debug_utils"@,
            VulkanExtension::Swapchain => "VK_KHR_swapchain"@,
        }
    }

    /// The name by which Vulkan knows the extension.
    pub fn name(self) -> (name: &'static str)
        ensures
            name@ == self.spelled(),
    {
        match self {
            VulkanExtension::Surface => "VK_KHR_surface",
            VulkanExtension::Win32Surface => "VK_KHR_win32_surface",
            VulkanExtension::DebugUtils => "VK_EXT_debug_utils",
            VulkanExtension::Swapchain => "VK_KHR_swapchain",
        }
    }
}

/// The layers that an instance loads: the validation layer when the native
/// debugging layers are to report.
pub open spec fn instance_layers(features: Features) -> Seq<VulkanLayer> {
    if features.gpu_debugging {
        seq![VulkanLayer::KhronosValidation]
    } else {
        Seq::empty()
    }
}

/// The extensions that an instance enables: those for presenting to a window
/// of the system, then the one through which the debugging layers report.
pub open spec fn instance_extensions(features: Features) -> Seq<VulkanExtension> {
    let presenting = if features.graphics {
        seq![VulkanExtension::Surface, VulkanExtension::Win32Surface]
    } else {
        Seq::empty()
    };
    if features.gpu_debugging {
        presenting.push(VulkanExtension::DebugUtils)
    } else {
        presenting
    }
}

/// The layers that an instance loads.
pub fn get_instance_layers(features: &Features) -> (layers: Vec<VulkanLayer>)
    ensures
        layers@ == instance_layers(*features),
{
    let mut layers: Vec<VulkanLayer> = Vec::new();
    if features.gpu_debugging {
        layers.push(VulkanLayer::KhronosValidation);
    }
    layers
}

/// The extensions that an instance enables.  Presenting is only known how to
/// do on Windows.
pub fn get_instance_extensions(features: &Features) -> (extensions: Vec<VulkanExtension>)
    requires
        features.graphics ==> features.platform is Windows,
    ensures
        extensions@ == instance_extensions(*features),
{
    let mut extensions: Vec<VulkanExtension> = Vec::new();
    if features.graphics {
        extensions.push(VulkanExtension::Surface);
        extensions.push(VulkanExtension::Win32Surface);
    }
    if features.gpu_debugging {
        extensions.push(VulkanExtension::DebugUtils);
    }
    extensions
}

/// What `vkCreateDebugUtilsMessengerEXT` is given.  The messenger hears
/// messages of every severity and about every subject.
#[derive(Debug, Copy, Clone, PartialEq, Eq, Structural)]
pub struct VulkanDebugUtilsMessengerCreateInfo {
    pub s_type: i32,
    pub flags: u32,
    pub message_severity: u32,
    pub message_type: u32,
}

/// What `vkCreateInstance` is given, and the messenger to create next to the
/// instance where the debugging layers are to report.
#[derive(Debug)]
pub struct VulkanInstanceCreateInfo {
    pub s_type: i32,
    pub flags: u32,
    pub enabled_layers: Vec<VulkanLayer>,
    pub enabled_extensions: Vec<VulkanExtension>,
    pub debug_messenger: Option<VulkanDebugUtilsMessengerCreateInfo>,
}

/// How much attention a message deserves.
#[derive(Debug, Copy, Clone, PartialEq, Eq, Structural)]
pub enum LogLevel {
    Trace,
    Debug,
    Warn,
}

/// What to do with a message of the debugging layers.
#[derive(Debug, Copy, Clone, PartialEq, Eq, Structural)]
pub enum DebugAction {
    /// The message reports an error, or is of no known severity: stop.
    Abort,
    /// Log the message at this level.
    Log(LogLevel),
}

/// A Vulkan instance.
#[derive(Debug)]
pub struct VulkanInstance {
    handle: u64,
    ownership: ObjectId,
}

impl Object for VulkanInstance {
    closed spec fn native(&self) -> u64 {
        self.handle
    }

    closed spec fn record(&self) -> ObjectId {
        self.ownership
    }

    open spec fn failure(code: i32) -> Error {
        Error::ApiError(code)
    }

    fn handle(&self) -> (handle: u64) {
        self.handle
    }

    fn ownership(&self) -> (id: ObjectId) {
        self.ownership
    }

    fn share(&self, objects: &mut Objects) -> (twin: Result<Self, Error>) {
        match objects.share(self.ownership) {
            Ok(()) => Ok(
                VulkanInstance { handle: self.handle, ownership: self.ownership },
            ),
            Err(e) => Err(e),
        }
    }
}

impl VulkanObject for VulkanInstance {
    proof fn api_error(code: i32) {
    }
}

/// The text of a message of the debugging layers: its name, a colon, and what
/// it says.
pub fn create_message(name: &str, message: &str) -> (text: String)
    ensures
        text@ == name@ + ": "@ + message@,
{
    let mut text = name.to_owned();
    text.append(": ");
    text.append(message);
    text
}

impl VulkanInstance {
    /// The description of the messenger through which the debugging layers
    /// report.
    pub open spec fn messenger_description() -> VulkanDebugUtilsMessengerCreateInfo {
        VulkanDebugUtilsMessengerCreateInfo {
            s_type: VK_STRUCTURE_TYPE_DEBUG_UTILS_MESSENGER_CREATE_INFO_EXT,
            flags: 0,
            message_severity: VK_DEBUG_UTILS_MESSAGE_SEVERITY_ERROR_BIT_EXT
                | VK_DEBUG_UTILS_MESSAGE_SEVERITY_WARNING_BIT_EXT
                | VK_DEBUG_UTILS_MESSAGE_SEVERITY_INFO_BIT_EXT
                | VK_DEBUG_UTILS_MESSAGE_SEVERITY_VERBOSE_BIT_EXT,
            message_type: VK_DEBUG_UTILS_MESSAGE_TYPE_GENERAL_BIT_EXT
                | VK_DEBUG_UTILS_MESSAGE_TYPE_VALIDATION_BIT_EXT
                | VK_DEBUG_UTILS_MESSAGE_TYPE_PERFORMANCE_BIT_EXT,
        }
    }

    /// What to do with a message of the given severity.
    pub open spec fn action(severity: u32) -> DebugAction {
        if severity == VK_DEBUG_UTILS_MESSAGE_SEVERITY_VERBOSE_BIT_EXT {
            DebugAction::Log(LogLevel::Trace)
        } else if severity == VK_DEBUG_UTILS_MESSAGE_SEVERITY_INFO_BIT_EXT {
            DebugAction::Log(LogLevel::Debug)
        } else if severity == VK_DEBUG_UTILS_MESSAGE_SEVERITY_WARNING_BIT_EXT {
            DebugAction::Log(LogLevel::Warn)
        } else {
            DebugAction::Abort
        }
    }

    /// Decides what to do with a message of the debugging layers, by its
    /// severity: an error stops the program, as does a severity that Vulkan
    /// does not define; anything less is logged.
    pub fn debug_utils_callback_safe(severity: u32) -> (action: DebugAction)
        ensures
            action == Self::action(severity),
    {
        if severity == VK_DEBUG_UTILS_MESSAGE_SEVERITY_VERBOSE_BIT_EXT {
            DebugAction::Log(LogLevel::Trace)
        } else if severity == VK_DEBUG_UTILS_MESSAGE_SEVERITY_INFO_BIT_EXT {
            DebugAction::Log(LogLevel::Debug)
        } else if severity == VK_DEBUG_UTILS_MESSAGE_SEVERITY_WARNING_BIT_EXT {
            DebugAction::Log(LogLevel::Warn)
        } else {
            DebugAction::Abort
        }
    }

    /// The messenger that was created next to the instance, if one was.  It is
    /// kept beside the record of the instance, and is to be destroyed just
    /// before the instance.
    pub fn debug_messenger(&self, messengers: &Kept<u64>) -> (messenger: Option<u64>)
        ensures
            messenger == messengers.at(self.record()@),
    {
        match messengers.get(self.ownership) {
            Some(messenger) => Some(*messenger),
            None => None,
        }
    }

    /// Notes the messenger that was created next to the instance, for every
    /// handle on the instance to find.  An instance has one messenger: the
    /// first that is noted stands.
    pub fn set_debug_messenger(&self, messengers: &mut Kept<u64>, messenger: u64)
        ensures
            final(messengers).at(self.record()@) == kept(
                old(messengers).at(self.record()@),
                messenger,
            ),
            forall|record: int|
                record != self.record()@ ==> final(messengers).at(record) == old(messengers).at(
                    record,
                ),
    {
        messengers.keep(self.ownership, messenger);
    }

    /// The devices that enumeration found, each with what it says of itself,
    /// or the failure of the enumeration.
    pub fn enumerate_physical_device(
        native: Result<Vec<(u64, VulkanPhysicalDeviceProperties)>, i32>,
    ) -> (devices: Result<Vec<VulkanPhysicalDevice>, Error>)
        ensures
            match native {
                Ok(found) => devices matches Ok(list) && list@.len() == found@.len() && forall|i: int|
                    0 <= i < found@.len() ==> (#[trigger] list@[i]).native() == found@[i].0
                        && list@[i].described() == found@[i].1,
                Err(code) => devices matches Err(e) && e == Error::ApiError(code),
            },
    {
        match native {
            Err(code) => Err(Error::ApiError(code)),
            Ok(found) => {
                let mut list: Vec<VulkanPhysicalDevice> = Vec::new();
                let mut i: usize = 0;
                while i < found.len()
                    invariant
                        i <= found@.len(),
                        list@.len() == i,
                        forall|j: int|
                            0 <= j < i ==> (#[trigger] list@[j]).native() == found@[j].0
                                && list@[j].described() == found@[j].1,
                    decreases found@.len() - i,
                {
                    list.push(VulkanPhysicalDevice::new(found[i].0, found[i].1.duplicate()));
                    i = i + 1;
                }
                Ok(list)
            },
        }
    }
}

impl ApiRoot for VulkanInstance {
    type Device = VulkanPhysicalDevice;

    type Description = VulkanInstanceCreateInfo;

    fn describe(create_info: &RootCreateInfo, features: &Features) -> (description:
        VulkanInstanceCreateInfo)
        ensures
            description.s_type == VK_STRUCTURE_TYPE_INSTANCE_CREATE_INFO,
            description.flags == 0,
            description.enabled_layers@ == instance_layers(*features),
            description.enabled_extensions@ == instance_extensions(*features),
            description.debug_messenger == if features.gpu_debugging {
                Some(Self::messenger_description())
            } else {
                None
            },
    {
        VulkanInstanceCreateInfo {
            s_type: VK_STRUCTURE_TYPE_INSTANCE_CREATE_INFO,
            flags: 0,
            enabled_layers: get_instance_layers(features),
            enabled_extensions: get_instance_extensions(features),
            debug_messenger: if features.gpu_debugging {
                Some(
                    VulkanDebugUtilsMessengerCreateInfo {
                        s_type: VK_STRUCTURE_TYPE_DEBUG_UTILS_MESSENGER_CREATE_INFO_EXT,
                        flags: 0,
                        message_severity: VK_DEBUG_UTILS_MESSAGE_SEVERITY_ERROR_BIT_EXT
                            | VK_DEBUG_UTILS_MESSAGE_SEVERITY_WARNING_BIT_EXT
                            | VK_DEBUG_UTILS_MESSAGE_SEVERITY_INFO_BIT_EXT
                            | VK_DEBUG_UTILS_MESSAGE_SEVERITY_VERBOSE_BIT_EXT,
                        message_type: VK_DEBUG_UTILS_MESSAGE_TYPE_GENERAL_BIT_EXT
                            | VK_DEBUG_UTILS_MESSAGE_TYPE_VALIDATION_BIT_EXT
                            | VK_DEBUG_UTILS_MESSAGE_TYPE_PERFORMANCE_BIT_EXT,
                    },
                )
            } else {
                None
            },
        }
    }

    fn new(objects: &mut Objects, native: Result<u64, i32>) -> (root: Result<Self, Error>) {
        match objects.enter(ObjectKind::Root, Vec::new(), api_result(native)) {
            Ok((handle, ownership)) => Ok(VulkanInstance { handle, ownership }),
            Err(e) => Err(e),
        }
    }
}

} // verus!
