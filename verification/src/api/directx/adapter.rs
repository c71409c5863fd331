//! Adapters: what they say of themselves and of a surface.

use vstd::prelude::*;
use vstd::slice::{slice_index_get, slice_subrange};
use crate::api::directx::native::DXGI_MAX_SWAP_CHAIN_BUFFERS;
use crate::api::traits::{Device, DeviceProperties, SurfaceCapabilities, SurfaceLimits};
use crate::datatypes::{
    Colorspace, DeviceType, Extent2D, Format, PresentMode, SurfaceFormat, Vendor,
};
use crate::error::Error;

verus! {

/// What `IDXGIAdapter1::GetDesc1` says of an adapter, as far as this library
/// reads it.
#[derive(Debug)]
pub struct DirectXAdapterDescription {
    pub name: String,
    pub vendor_id: u32,
    pub device_id: u32,
    pub sub_sys_id: u32,
    pub revision: u32,
}

/// How many of `units` are left when the zeros at the end are taken off.
pub open spec fn trimmed(units: Seq<u16>) -> nat
    decreases units.len(),
{
    if units.len() > 0 && units.last() == 0 {
        trimmed(units.drop_last())
    } else {
        units.len()
    }
}

/// The text that `units` are the UTF-16 encoding of, if they are the encoding
/// of any.
pub uninterp spec fn utf16_text(units: Seq<u16>) -> Option<Seq<char>>;

/// `String::from_utf16`: the text that `units` are the UTF-16 encoding of, and
/// nothing where they are the encoding of none.
#[verifier::external_body]
fn decode_utf16(units: &[u16]) -> (text: Option<String>)
    ensures
        match text {
            Some(s) => utf16_text(units@) == Some(s@),
            None => utf16_text(units@) is None,
        },
{
    match String::from_utf16(units) {
        Ok(text) => Some(text),
        Err(_) => None,
    }
}

impl DirectXAdapterDescription {
    /// The description of an adapter with this name, if there is a name.
    pub fn with_name(
        name: Option<String>,
        vendor_id: u32,
        device_id: u32,
        sub_sys_id: u32,
        revision: u32,
    ) -> (description: Option<DirectXAdapterDescription>)
        ensures
            match name {
                Some(text) => description == Some(
                    DirectXAdapterDescription { name: text, vendor_id, device_id, sub_sys_id, revision },
                ),
                None => description is None,
            },
    {
        match name {
            Some(text) => Some(
                DirectXAdapterDescription { name: text, vendor_id, device_id, sub_sys_id, revision },
            ),
            None => None,
        }
    }

    /// The description of an adapter as DXGI fills it, where the name is what
    /// is left of `description` when the zeros that pad it are taken off.
    /// There is none where that name is not UTF-16.
    pub fn from_native(
        description: &[u16],
        vendor_id: u32,
        device_id: u32,
        sub_sys_id: u32,
        revision: u32,
    ) -> (properties: Option<DirectXAdapterDescription>)
        ensures
            match utf16_text(description@.take(trimmed(description@) as int)) {
                Some(text) => {
                    &&& properties matches Some(p)
                    &&& p.name@ == text
                    &&& p.vendor_id == vendor_id
                    &&& p.device_id == device_id
                    &&& p.sub_sys_id == sub_sys_id
                    &&& p.revision == revision
                },
                None => properties is None,
            },
    {
        let length = Self::name_length(description);
        let name = decode_utf16(slice_subrange(description, 0, length));
        Self::with_name(name, vendor_id, device_id, sub_sys_id, revision)
    }

    /// The length of the name in the description that DXGI fills, which pads
    /// the name with zeros at the end.
    pub fn name_length(description: &[u16]) -> (length: usize)
        ensures
            length == trimmed(description@),
            length <= description@.len(),
            length > 0 ==> description@[length - 1] != 0,
            forall|i: int| length <= i < description@.len() ==> description@[i] == 0,
    {
        let mut length = description.len();
        assert(description@.take(length as int) =~= description@);
        while length > 0 && *slice_index_get(description, length - 1) == 0
            invariant
                length <= description@.len(),
                trimmed(description@) == trimmed(description@.take(length as int)),
                forall|i: int| length <= i < description@.len() ==> description@[i] == 0,
            decreases length,
        {
            assert(description@.take(length as int).drop_last() =~= description@.take(length as int - 1));
            length = length - 1;
        }
        assert(length > 0 ==> description@.take(length as int).last() == description@[length - 1]);
        length
    }

    /// A copy of this description.
    pub fn duplicate(&self) -> (copy: DirectXAdapterDescription)
        ensures
            copy == *self,
    {
        DirectXAdapterDescription {
            name: self.name.clone(),
            vendor_id: self.vendor_id,
            device_id: self.device_id,
            sub_sys_id: self.sub_sys_id,
            revision: self.revision,
        }
    }
}

impl DeviceProperties for DirectXAdapterDescription {
    /// The name of an adapter is text from the start.
    open spec fn named(&self) -> bool {
        true
    }

    open spec fn device_name(&self) -> Seq<char> {
        self.name@
    }

    fn is_named(&self) -> (yes: bool) {
        true
    }

    /// DXGI does not tell the class of an adapter.
    open spec fn class(&self) -> Option<DeviceType> {
        None
    }

    open spec fn maker(&self) -> Option<Vendor> {
        Vendor::decode(self.vendor_id)
    }

    fn name(&self) -> (name: &str) {
        self.name.as_str()
    }

    fn device_type(&self) -> (class: Option<DeviceType>) {
        None
    }

    fn vendor(&self) -> (maker: Option<Vendor>) {
        Vendor::try_from_id(self.vendor_id)
    }
}

/// The client area of a window, as `GetClientRect` reports it.
#[derive(Debug, Copy, Clone, PartialEq, Eq, Structural)]
pub struct DirectXRect {
    pub left: i32,
    pub top: i32,
    pub right: i32,
    pub bottom: i32,
}

impl DirectXRect {
    /// The rectangle has its corners the right way round.
    pub open spec fn ordered(self) -> bool {
        self.left <= self.right && self.top <= self.bottom
    }

    /// The size of the rectangle.
    pub open spec fn extent(self) -> Extent2D {
        Extent2D {
            width: (self.right - self.left) as u32,
            height: (self.bottom - self.top) as u32,
        }
    }

    /// Whether the rectangle has its corners the right way round.
    pub fn is_ordered(&self) -> (yes: bool)
        ensures
            yes == self.ordered(),
    {
        self.left <= self.right && self.top <= self.bottom
    }

    /// The size of the rectangle.
    pub fn to_extent(&self) -> (extent: Extent2D)
        requires
            self.ordered(),
        ensures
            extent == self.extent(),
            extent.width == self.right - self.left,
            extent.height == self.bottom - self.top,
    {
        Extent2D {
            width: (self.right as i64 - self.left as i64) as u32,
            height: (self.bottom as i64 - self.top as i64) as u32,
        }
    }
}

/// What DirectX allows of a swapchain on a surface: a fixed range of buffers,
/// of the size of the window, each of one layer.
#[derive(Debug, Copy, Clone, PartialEq, Eq, Structural)]
pub struct DirectXSurfaceCapabilities {
    pub current_extent: Extent2D,
}

impl SurfaceCapabilities for DirectXSurfaceCapabilities {
    open spec fn limits(&self) -> SurfaceLimits {
        SurfaceLimits {
            min_image_count: 2,
            max_image_count: DXGI_MAX_SWAP_CHAIN_BUFFERS,
            current_extent: self.current_extent,
            min_image_extent: self.current_extent,
            max_image_extent: self.current_extent,
            max_image_array_layers: 1,
        }
    }

    fn min_image_count(&self) -> (count: u32) {
        2
    }

    fn max_image_count(&self) -> (count: u32) {
        DXGI_MAX_SWAP_CHAIN_BUFFERS
    }

    fn current_extent(&self) -> (extent: Extent2D) {
        self.current_extent
    }

    fn min_image_extent(&self) -> (extent: Extent2D) {
        self.current_extent
    }

    fn max_image_extent(&self) -> (extent: Extent2D) {
        self.current_extent
    }

    fn max_image_array_layers(&self) -> (layers: u32) {
        1
    }
}

/// The surface formats that DirectX presents, in the order in which they are
/// offered.
pub open spec fn surface_formats() -> Seq<SurfaceFormat> {
    seq![
        SurfaceFormat { format: Format::B8G8R8A8_UNORM, colorspace: Colorspace::SRGB_NONLINEAR },
        SurfaceFormat { format: Format::B8G8R8A8_UNORM, colorspace: Colorspace::SRGB_NONLINEAR },
        SurfaceFormat { format: Format::R8G8B8A8_UNORM, colorspace: Colorspace::SRGB_NONLINEAR },
        SurfaceFormat { format: Format::R8G8B8A8_UNORM, colorspace: Colorspace::SRGB_NONLINEAR },
        SurfaceFormat {
            format: Format::R16G16B16A16_SFLOAT,
            colorspace: Colorspace::SRGB_EXT_LINEAR,
        },
        SurfaceFormat { format: Format::R10G10B10A2_UNORM, colorspace: Colorspace::HDR10_ST2084 },
        SurfaceFormat { format: Format::R10G10B10A2_UNORM, colorspace: Colorspace::SRGB_NONLINEAR },
    ]
}

/// The present modes that DirectX offers, in the order in which they are
/// offered.
pub open spec fn present_modes() -> Seq<PresentMode> {
    seq![PresentMode::Fifo, PresentMode::FifoRelaxed, PresentMode::Mailbox, PresentMode::Immediate]
}

/// A DirectX adapter.
#[derive(Debug)]
pub struct DirectXAdapter {
    adapter: u64,
    description: DirectXAdapterDescription,
}

impl DirectXAdapter {
    /// The native handle.
    pub closed spec fn native(&self) -> u64 {
        self.adapter
    }

    /// An adapter as the factory enumerated it.
    pub fn new(adapter: u64, description: DirectXAdapterDescription) -> (device: DirectXAdapter)
        ensures
            device.native() == adapter,
            device.described() == description,
    {
        DirectXAdapter { adapter, description }
    }

    /// The native handle.
    pub fn handle(&self) -> (handle: u64)
        ensures
            handle == self.native(),
    {
        self.adapter
    }

    /// A copy of this adapter.
    pub fn duplicate(&self) -> (copy: DirectXAdapter)
        ensures
            copy == *self,
    {
        DirectXAdapter { adapter: self.adapter, description: self.description.duplicate() }
    }
}

impl Device for DirectXAdapter {
    type Properties = DirectXAdapterDescription;

    type Capabilities = DirectXSurfaceCapabilities;

    type NativeCapabilities = DirectXRect;

    type NativeFormats = ();

    type NativeModes = ();

    closed spec fn described(&self) -> DirectXAdapterDescription {
        self.description
    }

    /// Every adapter is taken to present to every surface.
    open spec fn presents(native: bool) -> bool {
        true
    }

    open spec fn understands_capabilities(native: DirectXRect) -> bool {
        native.ordered()
    }

    open spec fn understands_formats(native: ()) -> bool {
        true
    }

    open spec fn understands_modes(native: ()) -> bool {
        true
    }

    /// The swapchain of a window has the size of the client area of the
    /// window.
    open spec fn capabilities_of(native: DirectXRect) -> DirectXSurfaceCapabilities {
        DirectXSurfaceCapabilities { current_extent: native.extent() }
    }

    open spec fn formats_of(native: ()) -> Seq<SurfaceFormat> {
        surface_formats()
    }

    open spec fn modes_of(native: ()) -> Seq<PresentMode> {
        present_modes()
    }

    open spec fn query_failure(code: i32) -> Error {
        Error::WindowsError(code)
    }

    fn properties(&self) -> (properties: &DirectXAdapterDescription) {
        &self.description
    }

    fn supports_surface(&self, native: bool) -> (yes: bool) {
        true
    }

    fn get_surface_capabilities(
        &self,
        native: Result<DirectXRect, i32>,
    ) -> (capabilities: Result<DirectXSurfaceCapabilities, Error>) {
        match native {
            Ok(rect) => Ok(DirectXSurfaceCapabilities { current_extent: rect.to_extent() }),
            Err(code) => Err(Error::WindowsError(code)),
        }
    }

    fn get_surface_formats(
        &self,
        native: Result<(), i32>,
    ) -> (formats: Result<Vec<SurfaceFormat>, Error>) {
        match native {
            Err(code) => Err(Error::WindowsError(code)),
            Ok(()) => {
                let list = vec![
                    SurfaceFormat {
                        format: Format::B8G8R8A8_UNORM,
                        colorspace: Colorspace::SRGB_NONLINEAR,
                    },
                    SurfaceFormat {
                        format: Format::B8G8R8A8_UNORM,
                        colorspace: Colorspace::SRGB_NONLINEAR,
                    },
                    SurfaceFormat {
                        format: Format::R8G8B8A8_UNORM,
                        colorspace: Colorspace::SRGB_NONLINEAR,
                    },
                    SurfaceFormat {
                        format: Format::R8G8B8A8_UNORM,
                        colorspace: Colorspace::SRGB_NONLINEAR,
                    },
                    SurfaceFormat {
                        format: Format::R16G16B16A16_SFLOAT,
                        colorspace: Colorspace::SRGB_EXT_LINEAR,
                    },
                    SurfaceFormat {
                        format: Format::R10G10B10A2_UNORM,
                        colorspace: Colorspace::HDR10_ST2084,
                    },
                    SurfaceFormat {
                        format: Format::R10G10B10A2_UNORM,
                        colorspace: Colorspace::SRGB_NONLINEAR,
                    },
                ];
                assert(list@ =~= surface_formats());
                Ok(list)
            },
        }
    }

    fn get_surface_present_modes(
        &self,
        native: Result<(), i32>,
    ) -> (modes: Result<Vec<PresentMode>, Error>) {
        match native {
            Err(code) => Err(Error::WindowsError(code)),
            Ok(()) => {
                let list = vec![
                    PresentMode::Fifo,
                    PresentMode::FifoRelaxed,
                    PresentMode::Mailbox,
                    PresentMode::Immediate,
                ];
                assert(list@ =~= present_modes());
                Ok(list)
            },
        }
    }
}

} // verus!
