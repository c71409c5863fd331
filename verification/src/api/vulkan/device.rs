//! Logical devices and their queues.

use vstd::prelude::*;
use crate::api::traits::{Context, ContextHandles, Object, Queue};
use crate::api::vulkan::instance::{VulkanExtension, VulkanInstance, VulkanLayer};
use crate::api::vulkan::native::{
    VK_STRUCTURE_TYPE_DEVICE_CREATE_INFO, VK_STRUCTURE_TYPE_DEVICE_QUEUE_CREATE_INFO,
};
use crate::api::vulkan::physical_device::VulkanPhysicalDevice;
use crate::api::vulkan::{VulkanDeviceObject, VulkanInstanceObject, VulkanObject};
use crate::error::Error;
use crate::info::{ContextCreateInfo, Features};
use crate::ownership::{ObjectId, ObjectKind, Objects};

verus! {

/// The queues to create from one family, as `vkCreateDevice` is told.  Every
/// queue has the highest priority.
#[derive(Debug, Copy, Clone, PartialEq, Eq, Structural)]
pub struct VulkanDeviceQueueCreateInfo {
    pub s_type: i32,
    pub flags: u32,
    pub queue_family_index: u32,
    pub queue_count: u32,
}

/// What `vkCreateDevice` is given.  No optional feature of the device is
/// enabled.
#[derive(Debug)]
pub struct VulkanDeviceCreateInfo {
    pub s_type: i32,
    pub flags: u32,
    pub queue_create_infos: Vec<VulkanDeviceQueueCreateInfo>,
    pub enabled_layers: Vec<VulkanLayer>,
    pub enabled_extensions: Vec<VulkanExtension>,
}

/// The family from which the one queue of a device is taken.
pub const GRAPHICS_QUEUE_FAMILY: u32 = 0;

/// The extensions that a device enables: the one for swapchains when
/// presenting is wanted.
pub open spec fn device_extensions(features: Features) -> Seq<VulkanExtension> {
    if features.graphics {
        seq![VulkanExtension::Swapchain]
    } else {
        Seq::empty()
    }
}

/// The layers that a device loads: none.
pub fn get_device_layers() -> (layers: Vec<VulkanLayer>)
    ensures
        layers@ == Seq::<VulkanLayer>::empty(),
{
    Vec::new()
}

/// The extensions that a device enables.
pub fn get_device_extensions(features: &Features) -> (extensions: Vec<VulkanExtension>)
    ensures
        extensions@ == device_extensions(*features),
{
    let mut extensions: Vec<VulkanExtension> = Vec::new();
    if features.graphics {
        extensions.push(VulkanExtension::Swapchain);
    }
    extensions
}

/// A queue of a Vulkan device.  It knows its device without keeping it alive.
#[derive(Debug)]
pub struct VulkanQueue {
    handle: u64,
    ownership: ObjectId,
    device: ObjectId,
}

impl Object for VulkanQueue {
    closed spec fn native(&self) -> u64 {
        self.handle
    }

    closed spec fn record(&self) -> ObjectId {
        self.ownership
    }

    open spec fn failure(code: i32) -> Error {
        Error::ApiError(code)
    }

    fn handle(&self) -> (handle: u64) {
        self.handle
    }

    fn ownership(&self) -> (id: ObjectId) {
        self.ownership
    }

    fn share(&self, objects: &mut Objects) -> (twin: Result<Self, Error>)
        ensures
            twin matches Ok(other) ==> other.device_record() == self.device_record(),
    {
        match objects.share(self.ownership) {
            Ok(()) => Ok(
                VulkanQueue {
                    handle: self.handle,
                    ownership: self.ownership,
                    device: self.device,
                },
            ),
            Err(e) => Err(e),
        }
    }
}

impl VulkanObject for VulkanQueue {
    proof fn api_error(code: i32) {
    }
}

impl VulkanDeviceObject for VulkanQueue {
    closed spec fn device_record(&self) -> ObjectId {
        self.device
    }

    fn device(&self) -> (id: ObjectId) {
        self.device
    }
}

impl Queue for VulkanQueue {

}

impl VulkanQueue {
    /// A name for the same queue, which holds nothing.
    fn alias(&self) -> (queue: VulkanQueue)
        ensures
            queue == *self,
    {
        VulkanQueue { handle: self.handle, ownership: self.ownership, device: self.device }
    }
}

/// A Vulkan logical device.  It keeps its instance and its queue alive.
#[derive(Debug)]
pub struct VulkanDevice {
    handle: u64,
    ownership: ObjectId,
    instance: ObjectId,
    queues: Vec<VulkanQueue>,
}

/// A name for each of `queues`.
fn alias_all(queues: &Vec<VulkanQueue>) -> (names: Vec<VulkanQueue>)
    ensures
        names@ == queues@,
{
    let mut names: Vec<VulkanQueue> = Vec::new();
    let mut i: usize = 0;
    while i < queues.len()
        invariant
            i <= queues@.len(),
            names@ == queues@.take(i as int),
        decreases queues@.len() - i,
    {
        names.push(queues[i].alias());
        assert(queues@.take(i as int + 1) =~= queues@.take(i as int).push(queues@[i as int]));
        i = i + 1;
    }
    assert(queues@.take(queues@.len() as int) =~= queues@);
    names
}

impl Object for VulkanDevice {
    closed spec fn native(&self) -> u64 {
        self.handle
    }

    closed spec fn record(&self) -> ObjectId {
        self.ownership
    }

    open spec fn failure(code: i32) -> Error {
        Error::ApiError(code)
    }

    fn handle(&self) -> (handle: u64) {
        self.handle
    }

    fn ownership(&self) -> (id: ObjectId) {
        self.ownership
    }

    fn share(&self, objects: &mut Objects) -> (twin: Result<Self, Error>)
        ensures
            twin matches Ok(other) ==> other.instance_record() == self.instance_record()
                && other.owned_queues() == self.owned_queues(),
    {
        match objects.share(self.ownership) {
            Ok(()) => Ok(
                VulkanDevice {
                    handle: self.handle,
                    ownership: self.ownership,
                    instance: self.instance,
                    queues: alias_all(&self.queues),
                },
            ),
            Err(e) => Err(e),
        }
    }
}

impl VulkanObject for VulkanDevice {
    proof fn api_error(code: i32) {
    }
}

impl VulkanInstanceObject for VulkanDevice {
    closed spec fn instance_record(&self) -> ObjectId {
        self.instance
    }

    fn instance(&self) -> (id: ObjectId) {
        self.instance
    }
}

impl Context for VulkanDevice {
    type Root = VulkanInstance;

    type Device = VulkanPhysicalDevice;

    type Queue = VulkanQueue;

    type Description = VulkanDeviceCreateInfo;

    closed spec fn owned_queues(&self) -> Seq<VulkanQueue> {
        self.queues@
    }

    fn describe(create_info: &ContextCreateInfo, features: &Features) -> (description:
        VulkanDeviceCreateInfo)
        ensures
            description.s_type == VK_STRUCTURE_TYPE_DEVICE_CREATE_INFO,
            description.flags == 0,
            description.queue_create_infos@ == seq![
                VulkanDeviceQueueCreateInfo {
                    s_type: VK_STRUCTURE_TYPE_DEVICE_QUEUE_CREATE_INFO,
                    flags: 0,
                    queue_family_index: GRAPHICS_QUEUE_FAMILY,
                    queue_count: 1,
                },
            ],
            description.enabled_layers@ == Seq::<VulkanLayer>::empty(),
            description.enabled_extensions@ == device_extensions(*features),
    {
        let mut queue_create_infos: Vec<VulkanDeviceQueueCreateInfo> = Vec::new();
        queue_create_infos.push(
            VulkanDeviceQueueCreateInfo {
                s_type: VK_STRUCTURE_TYPE_DEVICE_QUEUE_CREATE_INFO,
                flags: 0,
                queue_family_index: GRAPHICS_QUEUE_FAMILY,
                queue_count: 1,
            },
        );
        VulkanDeviceCreateInfo {
            s_type: VK_STRUCTURE_TYPE_DEVICE_CREATE_INFO,
            flags: 0,
            queue_create_infos,
            enabled_layers: get_device_layers(),
            enabled_extensions: get_device_extensions(features),
        }
    }

    fn new(
        objects: &mut Objects,
        root: &VulkanInstance,
        device: &VulkanPhysicalDevice,
        native: Result<ContextHandles, i32>,
    ) -> (context: Result<Self, Error>)
        ensures
            context matches Ok(c) ==> c.instance_record() == root.record()
                && c.owned_queues()[0].device_record() == c.record(),
    {
        match native {
            Err(code) => Err(Error::ApiError(code)),
            Ok(handles) => {
                let retains = vec![root.ownership()];
                assert(retains@ =~= seq![root.record()]);
                match objects.adopt_cyclic(
                    ObjectKind::Context,
                    handles.context,
                    retains,
                    ObjectKind::Queue,
                    handles.queue,
                ) {
                    Err(e) => Err(e),
                    Ok((owner, member)) => {
                        let mut queues: Vec<VulkanQueue> = Vec::new();
                        queues.push(
                            VulkanQueue { handle: handles.queue, ownership: member, device: owner },
                        );
                        Ok(
                            VulkanDevice {
                                handle: handles.context,
                                ownership: owner,
                                instance: root.ownership(),
                                queues,
                            },
                        )
                    },
                }
            },
        }
    }

    fn queues(&self) -> (queues: &[VulkanQueue]) {
        self.queues.as_slice()
    }
}

} // verus!
