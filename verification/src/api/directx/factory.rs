//! The factory: the root of everything DirectX.

use vstd::prelude::*;
use crate::api::directx::adapter::{DirectXAdapter, DirectXAdapterDescription};
use crate::api::directx::native::DXGI_CREATE_FACTORY_DEBUG;
use crate::api::directx::{windows_result, DirectXObject};
use crate::api::traits::{ApiRoot, Device, Object};
use crate::error::Error;
use crate::info::{Features, RootCreateInfo};
use crate::ownership::{ObjectId, ObjectKind, Objects};

verus! {

/// What `CreateDXGIFactory2` is given.
#[derive(Debug, Copy, Clone, PartialEq, Eq, Structural)]
pub struct DirectXFactoryDescription {
    pub flags: u32,
}

/// A DirectX factory.
#[derive(Debug)]
pub struct DirectXFactory {
    handle: u64,
    ownership: ObjectId,
}

impl Object for DirectXFactory {
    closed spec fn native(&self) -> u64 {
        self.handle
    }

    closed spec fn record(&self) -> ObjectId {
        self.ownership
    }

    open spec fn failure(code: i32) -> Error {
        Error::WindowsError(code)
    }

    fn handle(&self) -> (handle: u64) {
        self.handle
    }

    fn ownership(&self) -> (id: ObjectId) {
        self.ownership
    }

    fn share(&self, objects: &mut Objects) -> (twin: Result<Self, Error>) {
        match objects.share(self.ownership) {
            Ok(()) => Ok(DirectXFactory { handle: self.handle, ownership: self.ownership }),
            Err(e) => Err(e),
        }
    }
}

impl DirectXObject for DirectXFactory {
    proof fn windows_error(code: i32) {
    }
}

impl DirectXFactory {
    /// The adapters that enumeration found, each with what it says of itself.
    pub fn enumerate_adapters(found: Vec<(u64, DirectXAdapterDescription)>) -> (adapters: Vec<
        DirectXAdapter,
    >)
        ensures
            adapters@.len() == found@.len(),
            forall|i: int|
                0 <= i < found@.len() ==> (#[trigger] adapters@[i]).native() == found@[i].0
                    && adapters@[i].described() == found@[i].1,
    {
        let mut adapters: Vec<DirectXAdapter> = Vec::new();
        let mut i: usize = 0;
        while i < found.len()
            invariant
                i <= found@.len(),
                adapters@.len() == i,
                forall|j: int|
                    0 <= j < i ==> (#[trigger] adapters@[j]).native() == found@[j].0
                        && adapters@[j].described() == found@[j].1,
            decreases found@.len() - i,
        {
            adapters.push(DirectXAdapter::new(found[i].0, found[i].1.duplicate()));
            i = i + 1;
        }
        adapters
    }
}

impl ApiRoot for DirectXFactory {
    type Device = DirectXAdapter;

    type Description = DirectXFactoryDescription;

    fn describe(create_info: &RootCreateInfo, features: &Features) -> (description:
        DirectXFactoryDescription)
        ensures
            description == (DirectXFactoryDescription {
                flags: if features.gpu_debugging {
                    DXGI_CREATE_FACTORY_DEBUG
                } else {
                    0
                },
            }),
    {
        DirectXFactoryDescription {
            flags: if features.gpu_debugging {
                DXGI_CREATE_FACTORY_DEBUG
            } else {
                0
            },
        }
    }

    fn new(objects: &mut Objects, native: Result<u64, i32>) -> (root: Result<Self, Error>) {
        match objects.enter(ObjectKind::Root, Vec::new(), windows_result(native)) {
            Ok((handle, ownership)) => Ok(DirectXFactory { handle, ownership }),
            Err(e) => Err(e),
        }
    }
}

} // verus!
