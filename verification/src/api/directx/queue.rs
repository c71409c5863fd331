//! Command queues.

use vstd::prelude::*;
use crate::api::directx::{DirectXDeviceObject, DirectXObject};
use crate::api::traits::{Object, Queue};
use crate::error::Error;
use crate::ownership::{ObjectId, Objects};

verus! {

/// A command queue of a DirectX device.  It knows its device without keeping
/// it alive.
#[derive(Debug)]
pub struct DirectXCommandQueue {
    handle: u64,
    ownership: ObjectId,
    device: ObjectId,
}

impl Object for DirectXCommandQueue {
    closed spec fn native(&self) -> u64 {
        self.handle
    }

    closed spec fn record(&self) -> ObjectId {
        self.ownership
    }

    open spec fn failure(code: i32) -> Error {
        Error::WindowsError(code)
    }

    fn handle(&self) -> (handle: u64) {
        self.handle
    }

    fn ownership(&self) -> (id: ObjectId) {
        self.ownership
    }

    fn share(&self, objects: &mut Objects) -> (twin: Result<Self, Error>)
        ensures
            twin matches Ok(other) ==> other.device_record() == self.device_record(),
    {
        match objects.share(self.ownership) {
            Ok(()) => Ok(
                DirectXCommandQueue {
                    handle: self.handle,
                    ownership: self.ownership,
                    device: self.device,
                },
            ),
            Err(e) => Err(e),
        }
    }
}

impl DirectXObject for DirectXCommandQueue {
    proof fn windows_error(code: i32) {
    }
}

impl DirectXDeviceObject for DirectXCommandQueue {
    closed spec fn device_record(&self) -> ObjectId {
        self.device
    }

    fn device(&self) -> (id: ObjectId) {
        self.device
    }
}

impl Queue for DirectXCommandQueue {

}

impl DirectXCommandQueue {
    /// The queue that came with a device.
    pub(crate) fn new(handle: u64, ownership: ObjectId, device: ObjectId) -> (queue:
        DirectXCommandQueue)
        ensures
            queue.native() == handle,
            queue.record() == ownership,
            queue.device_record() == device,
    {
        DirectXCommandQueue { handle, ownership, device }
    }

    /// A name for the same queue, which holds nothing.
    pub(crate) fn alias(&self) -> (queue: DirectXCommandQueue)
        ensures
            queue == *self,
    {
        DirectXCommandQueue { handle: self.handle, ownership: self.ownership, device: self.device }
    }
}

} // verus!
