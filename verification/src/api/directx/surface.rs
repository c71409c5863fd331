//! Surfaces: the windows that DirectX presents to.

use vstd::prelude::*;
use crate::api::directx::factory::DirectXFactory;
use crate::api::directx::{windows_result, DirectXObject};
use crate::api::traits::{Object, Surface};
use crate::error::Error;
use crate::info::SurfaceCreateInfo;
use crate::ownership::{ObjectId, ObjectKind, Objects};

verus! {

/// The window that a surface stands for.  DirectX creates nothing for it: the
/// handle of the window is the native handle of the surface.
#[derive(Debug, Copy, Clone, PartialEq, Eq, Structural)]
pub struct DirectXSurfaceDescription {
    pub hwnd: u64,
}

/// A DirectX surface.  It keeps nothing alive.
#[derive(Debug)]
pub struct DirectXSurface {
    handle: u64,
    ownership: ObjectId,
}

impl Object for DirectXSurface {
    closed spec fn native(&self) -> u64 {
        self.handle
    }

    closed spec fn record(&self) -> ObjectId {
        self.ownership
    }

    open spec fn failure(code: i32) -> Error {
        Error::WindowsError(code)
    }

    fn handle(&self) -> (handle: u64) {
        self.handle
    }

    fn ownership(&self) -> (id: ObjectId) {
        self.ownership
    }

    fn share(&self, objects: &mut Objects) -> (twin: Result<Self, Error>) {
        match objects.share(self.ownership) {
            Ok(()) => Ok(
                DirectXSurface {
                    handle: self.handle,
                    ownership: self.ownership,
                },
            ),
            Err(e) => Err(e),
        }
    }
}

impl DirectXObject for DirectXSurface {
    proof fn windows_error(code: i32) {
    }
}

impl Surface for DirectXSurface {
    type Root = DirectXFactory;

    type Description = DirectXSurfaceDescription;

    open spec fn retains(root: &DirectXFactory) -> Seq<ObjectId> {
        Seq::empty()
    }

    fn describe(create_info: &SurfaceCreateInfo) -> (description: DirectXSurfaceDescription)
        ensures
            description == (DirectXSurfaceDescription { hwnd: create_info.hwnd }),
    {
        DirectXSurfaceDescription { hwnd: create_info.hwnd }
    }

    fn new(
        objects: &mut Objects,
        root: &DirectXFactory,
        native: Result<u64, i32>,
    ) -> (surface: Result<Self, Error>)
    {
        let retains = Vec::<ObjectId>::new();
        assert(retains@ =~= Seq::<ObjectId>::empty());
        match objects.enter(ObjectKind::Surface, retains, windows_result(native)) {
            Ok((handle, ownership)) => Ok(DirectXSurface { handle, ownership }),
            Err(e) => Err(e),
        }
    }
}

} // verus!
