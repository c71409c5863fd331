//! Swapchains.

use vstd::prelude::*;
use crate::api::directx::constants::{DirectXCompositeAlphaModes, DirectXDataFormats};
use crate::api::directx::device::DirectXDevice;
use crate::api::directx::fence::DirectXFence;
use crate::api::directx::image::DirectXImage;
use crate::api::directx::semaphore::DirectXSemaphore;
use crate::api::directx::native::{
    DXGI_SCALING_STRETCH, DXGI_SWAP_EFFECT_FLIP_SEQUENTIAL, DXGI_USAGE_RENDER_TARGET_OUTPUT,
};
use crate::api::directx::surface::DirectXSurface;
use crate::api::directx::{DirectXDeviceObject, DirectXObject};
use crate::api::traits::{Context, Object, Swapchain};
use crate::error::Error;
use crate::info::SwapchainCreateInfo;
use crate::ownership::{ObjectId, ObjectKind, Objects};

verus! {

/// What `IDXGIFactory2::CreateSwapChainForHwnd` is given: the queue that
/// presents, the window, and the buffers of the swapchain.
#[derive(Debug, Copy, Clone, PartialEq, Eq, Structural)]
pub struct DirectXSwapchainDescription {
    pub queue: u64,
    pub hwnd: u64,
    pub width: u32,
    pub height: u32,
    pub format: i32,
    pub stereo: bool,
    pub sample_count: u32,
    pub sample_quality: u32,
    pub buffer_usage: u32,
    pub buffer_count: u32,
    pub scaling: i32,
    pub swap_effect: i32,
    pub alpha_mode: i32,
    pub flags: u32,
}

/// A DirectX swapchain.  It keeps its device and its surface alive.
#[derive(Debug)]
pub struct DirectXSwapchain {
    handle: u64,
    ownership: ObjectId,
    device: ObjectId,
    surface: ObjectId,
    buffers: Vec<DirectXImage>,
}

impl Object for DirectXSwapchain {
    closed spec fn native(&self) -> u64 {
        self.handle
    }

    closed spec fn record(&self) -> ObjectId {
        self.ownership
    }

    open spec fn failure(code: i32) -> Error {
        Error::WindowsError(code)
    }

    fn handle(&self) -> (handle: u64) {
        self.handle
    }

    fn ownership(&self) -> (id: ObjectId) {
        self.ownership
    }

    fn share(&self, objects: &mut Objects) -> (twin: Result<Self, Error>)
        ensures
            twin matches Ok(other) ==> other.device_record() == self.device_record()
                && other.surface_record() == self.surface_record() && other.presentable()
                == self.presentable(),
    {
        match objects.share(self.ownership) {
            Ok(()) => Ok(
                DirectXSwapchain {
                    handle: self.handle,
                    ownership: self.ownership,
                    device: self.device,
                    surface: self.surface,
                    buffers: self.buffers.clone(),
                },
            ),
            Err(e) => Err(e),
        }
    }
}

impl DirectXObject for DirectXSwapchain {
    proof fn windows_error(code: i32) {
    }
}

impl DirectXDeviceObject for DirectXSwapchain {
    closed spec fn device_record(&self) -> ObjectId {
        self.device
    }

    fn device(&self) -> (id: ObjectId) {
        self.device
    }
}

impl DirectXSwapchain {
    /// The description of the swapchain that `create_info` asks for, presented
    /// by `queue` to the window `hwnd`: unscaled single-sampled buffers to
    /// render to, flipped in sequence, with alpha composed as asked.
    pub open spec fn description(
        queue: u64,
        hwnd: u64,
        create_info: SwapchainCreateInfo,
    ) -> DirectXSwapchainDescription {
        DirectXSwapchainDescription {
            queue,
            hwnd,
            width: create_info.extent.width,
            height: create_info.extent.height,
            format: create_info.format.native::<DirectXDataFormats>(),
            stereo: false,
            sample_count: 1,
            sample_quality: 0,
            buffer_usage: DXGI_USAGE_RENDER_TARGET_OUTPUT,
            buffer_count: create_info.min_image_count,
            scaling: DXGI_SCALING_STRETCH,
            swap_effect: DXGI_SWAP_EFFECT_FLIP_SEQUENTIAL,
            alpha_mode: create_info.composite_alpha.native::<DirectXCompositeAlphaModes>(),
            flags: 0,
        }
    }

    /// The record of the surface the swapchain presents to.
    pub closed spec fn surface_record(&self) -> ObjectId {
        self.surface
    }

    /// The record of the surface the swapchain presents to.
    pub fn surface(&self) -> (id: ObjectId)
        ensures
            id == self.surface_record(),
    {
        self.surface
    }
}

impl Swapchain for DirectXSwapchain {
    type Context = DirectXDevice;

    type Surface = DirectXSurface;

    type Image = DirectXImage;

    type Semaphore = DirectXSemaphore;

    type Fence = DirectXFence;

    type Description = DirectXSwapchainDescription;

    type Acquisition = ();

    closed spec fn presentable(&self) -> Seq<DirectXImage> {
        self.buffers@
    }

    open spec fn retains(context: &DirectXDevice, surface: &DirectXSurface) -> Seq<ObjectId> {
        seq![context.record(), surface.record()]
    }

    open spec fn image(handle: u64) -> DirectXImage {
        DirectXImage { handle }
    }

    open spec fn acquisition(
        &self,
        timeout: Option<u128>,
        semaphore: Option<u64>,
        fence: Option<u64>,
    ) -> Result<(), Error> {
        Err(Error::Unsupported)
    }

    fn describe(
        context: &DirectXDevice,
        surface: &DirectXSurface,
        create_info: &SwapchainCreateInfo,
    ) -> (description: DirectXSwapchainDescription)
        ensures
            description == Self::description(
                context.owned_queues()[0].native(),
                surface.native(),
                *create_info,
            ),
    {
        DirectXSwapchainDescription {
            queue: context.queues()[0].handle(),
            hwnd: surface.handle(),
            width: create_info.extent.width,
            height: create_info.extent.height,
            format: create_info.format.to_native::<DirectXDataFormats>(),
            stereo: false,
            sample_count: 1,
            sample_quality: 0,
            buffer_usage: DXGI_USAGE_RENDER_TARGET_OUTPUT,
            buffer_count: create_info.min_image_count,
            scaling: DXGI_SCALING_STRETCH,
            swap_effect: DXGI_SWAP_EFFECT_FLIP_SEQUENTIAL,
            alpha_mode: create_info.composite_alpha.to_native::<DirectXCompositeAlphaModes>(),
            flags: 0,
        }
    }

    fn new(
        objects: &mut Objects,
        context: &DirectXDevice,
        surface: &DirectXSurface,
        native: Result<u64, i32>,
        images: Result<Vec<u64>, i32>,
    ) -> (swapchain: Result<Self, Error>)
        ensures
            swapchain matches Ok(s) ==> s.device_record() == context.record() && s.surface_record()
                == surface.record(),
    {
        let handle = match native {
            Ok(handle) => handle,
            Err(code) => {
                return Err(Error::WindowsError(code));
            },
        };
        let handles = match images {
            Ok(handles) => handles,
            Err(code) => {
                return Err(Error::WindowsError(code));
            },
        };
        let retains = vec![context.ownership(), surface.ownership()];
        assert(retains@ =~= seq![context.record(), surface.record()]);
        match objects.enter(ObjectKind::Swapchain, retains, Ok(handle)) {
            Err(e) => Err(e),
            Ok((handle, ownership)) => {
                let mut buffers: Vec<DirectXImage> = Vec::new();
                let mut i: usize = 0;
                while i < handles.len()
                    invariant
                        i <= handles@.len(),
                        buffers@ == handles@.take(i as int).map_values(
                            |handle: u64| DirectXImage { handle },
                        ),
                    decreases handles@.len() - i,
                {
                    buffers.push(DirectXImage::swapchain(handles[i]));
                    assert(handles@.take(i as int + 1).map_values(
                        |handle: u64| DirectXImage { handle },
                    ) =~= handles@.take(i as int).map_values(
                        |handle: u64| DirectXImage { handle },
                    ).push(DirectXImage { handle: handles@[i as int] }));
                    i = i + 1;
                }
                assert(handles@.take(handles@.len() as int) =~= handles@);
                Ok(
                    DirectXSwapchain {
                        handle,
                        ownership,
                        device: context.ownership(),
                        surface: surface.ownership(),
                        buffers,
                    },
                )
            },
        }
    }

    fn images(&self) -> (images: &[DirectXImage]) {
        self.buffers.as_slice()
    }

    /// Reports that DirectX cannot do this: a swapchain of DirectX presents
    /// its buffers in turn, and none is acquired.
    fn acquire_next_image(
        &self,
        timeout: Option<u128>,
        semaphore: Option<&DirectXSemaphore>,
        fence: Option<&DirectXFence>,
    ) -> (acquisition: Result<(), Error>) {
        Err(Error::Unsupported)
    }

    fn acquired(native: Result<u32, i32>) -> (index: Result<u32, Error>) {
        match native {
            Ok(i) => Ok(i),
            Err(code) => Err(Error::WindowsError(code)),
        }
    }
}

} // verus!
