//! Devices and the queue each comes with.

use vstd::prelude::*;
use crate::api::directx::adapter::DirectXAdapter;
use crate::api::directx::factory::DirectXFactory;
use crate::api::directx::native::{
    D3D12_COMMAND_LIST_TYPE_DIRECT, D3D12_COMMAND_QUEUE_FLAG_NONE,
    D3D12_COMMAND_QUEUE_PRIORITY_NORMAL, D3D_FEATURE_LEVEL_12_0,
};
use crate::api::directx::queue::DirectXCommandQueue;
use crate::api::directx::{DirectXDeviceObject, DirectXFactoryObject, DirectXObject};
use crate::api::traits::{Context, ContextHandles, Object};
use crate::error::Error;
use crate::info::{ContextCreateInfo, Features};
use crate::ownership::{ObjectId, ObjectKind, Objects};

verus! {

/// What `ID3D12Device::CreateCommandQueue` is given.
#[derive(Debug, Copy, Clone, PartialEq, Eq, Structural)]
pub struct DirectXCommandQueueDescription {
    pub list_type: i32,
    pub priority: i32,
    pub flags: i32,
    pub node_mask: u32,
}

/// What `D3D12CreateDevice` is given, whether the debug layer is to be switched
/// on first, and the queue to create on the device.
#[derive(Debug, Copy, Clone, PartialEq, Eq, Structural)]
pub struct DirectXDeviceDescription {
    pub debug_layer: bool,
    pub minimum_feature_level: i32,
    pub queue: DirectXCommandQueueDescription,
}

/// A DirectX device.  It keeps its factory and its queue alive.
#[derive(Debug)]
pub struct DirectXDevice {
    handle: u64,
    ownership: ObjectId,
    factory: ObjectId,
    queues: Vec<DirectXCommandQueue>,
}

/// A name for each of `queues`.
fn alias_all(queues: &Vec<DirectXCommandQueue>) -> (names: Vec<DirectXCommandQueue>)
    ensures
        names@ == queues@,
{
    let mut names: Vec<DirectXCommandQueue> = Vec::new();
    let mut i: usize = 0;
    while i < queues.len()
        invariant
            i <= queues@.len(),
            names@ == queues@.take(i as int),
        decreases queues@.len() - i,
    {
        names.push(queues[i].alias());
        assert(queues@.take(i as int + 1) =~= queues@.take(i as int).push(queues@[i as int]));
        i = i + 1;
    }
    assert(queues@.take(queues@.len() as int) =~= queues@);
    names
}

impl Object for DirectXDevice {
    closed spec fn native(&self) -> u64 {
        self.handle
    }

    closed spec fn record(&self) -> ObjectId {
        self.ownership
    }

    open spec fn failure(code: i32) -> Error {
        Error::WindowsError(code)
    }

    fn handle(&self) -> (handle: u64) {
        self.handle
    }

    fn ownership(&self) -> (id: ObjectId) {
        self.ownership
    }

    fn share(&self, objects: &mut Objects) -> (twin: Result<Self, Error>)
        ensures
            twin matches Ok(other) ==> other.factory_record() == self.factory_record()
                && other.owned_queues() == self.owned_queues(),
    {
        match objects.share(self.ownership) {
            Ok(()) => Ok(
                DirectXDevice {
                    handle: self.handle,
                    ownership: self.ownership,
                    factory: self.factory,
                    queues: alias_all(&self.queues),
                },
            ),
            Err(e) => Err(e),
        }
    }
}

impl DirectXObject for DirectXDevice {
    proof fn windows_error(code: i32) {
    }
}

impl DirectXFactoryObject for DirectXDevice {
    closed spec fn factory_record(&self) -> ObjectId {
        self.factory
    }

    fn factory(&self) -> (id: ObjectId) {
        self.factory
    }
}

impl DirectXDevice {
    /// The description of the device to create: one of feature level 12.0 at
    /// the least, with one queue that takes every kind of command.
    pub open spec fn description(features: Features) -> DirectXDeviceDescription {
        DirectXDeviceDescription {
            debug_layer: features.validation,
            minimum_feature_level: D3D_FEATURE_LEVEL_12_0,
            queue: DirectXCommandQueueDescription {
                list_type: D3D12_COMMAND_LIST_TYPE_DIRECT,
                priority: D3D12_COMMAND_QUEUE_PRIORITY_NORMAL,
                flags: D3D12_COMMAND_QUEUE_FLAG_NONE,
                node_mask: 0,
            },
        }
    }
}

impl Context for DirectXDevice {
    type Root = DirectXFactory;

    type Device = DirectXAdapter;

    type Queue = DirectXCommandQueue;

    type Description = DirectXDeviceDescription;

    closed spec fn owned_queues(&self) -> Seq<DirectXCommandQueue> {
        self.queues@
    }

    fn describe(create_info: &ContextCreateInfo, features: &Features) -> (description:
        DirectXDeviceDescription)
        ensures
            description == Self::description(*features),
    {
        DirectXDeviceDescription {
            debug_layer: features.validation,
            minimum_feature_level: D3D_FEATURE_LEVEL_12_0,
            queue: DirectXCommandQueueDescription {
                list_type: D3D12_COMMAND_LIST_TYPE_DIRECT,
                priority: D3D12_COMMAND_QUEUE_PRIORITY_NORMAL,
                flags: D3D12_COMMAND_QUEUE_FLAG_NONE,
                node_mask: 0,
            },
        }
    }

    fn new(
        objects: &mut Objects,
        root: &DirectXFactory,
        device: &DirectXAdapter,
        native: Result<ContextHandles, i32>,
    ) -> (context: Result<Self, Error>)
        ensures
            context matches Ok(c) ==> c.factory_record() == root.record()
                && c.owned_queues()[0].device_record() == c.record(),
    {
        match native {
            Err(code) => Err(Error::WindowsError(code)),
            Ok(handles) => {
                let retains = vec![root.ownership()];
                assert(retains@ =~= seq![root.record()]);
                match objects.adopt_cyclic(
                    ObjectKind::Context,
                    handles.context,
                    retains,
                    ObjectKind::Queue,
                    handles.queue,
                ) {
                    Err(e) => Err(e),
                    Ok((owner, member)) => {
                        let mut queues: Vec<DirectXCommandQueue> = Vec::new();
                        queues.push(DirectXCommandQueue::new(handles.queue, member, owner));
                        Ok(
                            DirectXDevice {
                                handle: handles.context,
                                ownership: owner,
                                factory: root.ownership(),
                                queues,
                            },
                        )
                    },
                }
            },
        }
    }

    fn queues(&self) -> (queues: &[DirectXCommandQueue]) {
        self.queues.as_slice()
    }
}

} // verus!
