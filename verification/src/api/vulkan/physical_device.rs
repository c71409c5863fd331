//! Physical devices: what they say of themselves and of a surface.

use vstd::prelude::*;
use vstd::pervasive::unreached;
use vstd::slice::{slice_index_get, slice_subrange};
use vstd::utf8::{decode_utf8, valid_utf8};
use crate::api::traits::{Device, DeviceProperties, SurfaceCapabilities, SurfaceLimits};
use crate::api::vulkan::constants::{
    VulkanColorSpaces, VulkanDeviceTypes, VulkanPresentModeConstants,
    VulkanRenderTargetFormatConstants,
};
use crate::datatypes::{
    Colorspace, DeviceType, Extent2D, Format, PresentMode, SurfaceFormat, Vendor,
};
use crate::error::Error;

verus! {

/// What `vkGetPhysicalDeviceProperties` says of a device, as far as this
/// library reads it.
#[derive(Debug)]
pub struct VulkanPhysicalDeviceProperties {
    pub api_version: u32,
    pub driver_version: u32,
    pub vendor_id: u32,
    pub device_id: u32,
    pub device_type: i32,
    /// The name that the device gave, where it gave one that is text.
    pub device_name: Option<String>,
}

/// How many bytes of `bytes` come before its first zero byte: all of them
/// where none is zero.
pub open spec fn terminated(bytes: Seq<u8>) -> nat
    decreases bytes.len(),
{
    if bytes.len() == 0 || bytes[0] == 0 {
        0
    } else {
        1 + terminated(bytes.drop_first())
    }
}

/// The text of the C string that `bytes` begins with.
pub open spec fn c_string(bytes: Seq<u8>) -> Seq<u8> {
    bytes.take(terminated(bytes) as int)
}

/// `core::str::from_utf8`: the text that `bytes` are the UTF-8 encoding of,
/// and nothing where they are the encoding of none.
#[verifier::external_body]
fn utf8_text(bytes: &[u8]) -> (text: Option<&str>)
    ensures
        match text {
            Some(s) => valid_utf8(bytes@) && s@ == decode_utf8(bytes@),
            None => !valid_utf8(bytes@),
        },
{
    match core::str::from_utf8(bytes) {
        Ok(text) => Some(text),
        Err(_) => None,
    }
}

impl VulkanPhysicalDeviceProperties {
    /// The length of the C string that `bytes` begins with.
    pub fn name_length(bytes: &[u8]) -> (length: usize)
        ensures
            length == terminated(bytes@),
            length <= bytes@.len(),
            forall|i: int| 0 <= i < length ==> bytes@[i] != 0,
            length < bytes@.len() ==> bytes@[length as int] == 0,
    {
        let mut length: usize = 0;
        assert(bytes@.skip(0) =~= bytes@);
        while length < bytes.len() && *slice_index_get(bytes, length) != 0
            invariant
                length <= bytes@.len(),
                terminated(bytes@) == length + terminated(bytes@.skip(length as int)),
                forall|i: int| 0 <= i < length ==> bytes@[i] != 0,
            decreases bytes@.len() - length,
        {
            assert(bytes@.skip(length as int).drop_first() =~= bytes@.skip(length as int + 1));
            length = length + 1;
        }
        length
    }

    /// The properties of a device as Vulkan reports them, where the name is
    /// the C string that `device_name` begins with, if that is UTF-8.  A
    /// device that gave a name that is no text is described all the same: it
    /// only cannot be asked for its name.
    pub fn from_native(
        api_version: u32,
        driver_version: u32,
        vendor_id: u32,
        device_id: u32,
        device_type: i32,
        device_name: &[u8],
    ) -> (properties: VulkanPhysicalDeviceProperties)
        ensures
            properties.api_version == api_version,
            properties.driver_version == driver_version,
            properties.vendor_id == vendor_id,
            properties.device_id == device_id,
            properties.device_type == device_type,
            properties.device_name is Some <==> valid_utf8(c_string(device_name@)),
            properties.device_name matches Some(name) ==> name@ == decode_utf8(
                c_string(device_name@),
            ),
    {
        let length = Self::name_length(device_name);
        VulkanPhysicalDeviceProperties {
            api_version,
            driver_version,
            vendor_id,
            device_id,
            device_type,
            device_name: match utf8_text(slice_subrange(device_name, 0, length)) {
                Some(text) => Some(text.to_owned()),
                None => None,
            },
        }
    }

    /// A copy of these properties.
    pub fn duplicate(&self) -> (copy: VulkanPhysicalDeviceProperties)
        ensures
            copy == *self,
    {
        VulkanPhysicalDeviceProperties {
            api_version: self.api_version,
            driver_version: self.driver_version,
            vendor_id: self.vendor_id,
            device_id: self.device_id,
            device_type: self.device_type,
            device_name: match &self.device_name {
                Some(name) => Some(name.clone()),
                None => None,
            },
        }
    }
}

impl DeviceProperties for VulkanPhysicalDeviceProperties {
    open spec fn named(&self) -> bool {
        self.device_name is Some
    }

    open spec fn device_name(&self) -> Seq<char> {
        self.device_name->0@
    }

    fn is_named(&self) -> (yes: bool) {
        self.device_name.is_some()
    }

    open spec fn class(&self) -> Option<DeviceType> {
        DeviceType::decode::<VulkanDeviceTypes>(self.device_type)
    }

    open spec fn maker(&self) -> Option<Vendor> {
        Vendor::decode(self.vendor_id)
    }

    fn name(&self) -> (name: &str) {
        match &self.device_name {
            Some(name) => name.as_str(),
            None => unreached(),
        }
    }

    fn device_type(&self) -> (class: Option<DeviceType>) {
        DeviceType::try_from_native::<VulkanDeviceTypes>(self.device_type)
    }

    fn vendor(&self) -> (maker: Option<Vendor>) {
        Vendor::try_from_id(self.vendor_id)
    }
}

/// What `vkGetPhysicalDeviceSurfaceCapabilitiesKHR` says of a surface, as far
/// as this library reads it.
#[derive(Debug, Copy, Clone, PartialEq, Eq, Structural)]
pub struct VulkanSurfaceCapabilities {
    pub min_image_count: u32,
    pub max_image_count: u32,
    pub current_extent: Extent2D,
    pub min_image_extent: Extent2D,
    pub max_image_extent: Extent2D,
    pub max_image_array_layers: u32,
}

impl SurfaceCapabilities for VulkanSurfaceCapabilities {
    open spec fn limits(&self) -> SurfaceLimits {
        SurfaceLimits {
            min_image_count: self.min_image_count,
            max_image_count: self.max_image_count,
            current_extent: self.current_extent,
            min_image_extent: self.min_image_extent,
            max_image_extent: self.max_image_extent,
            max_image_array_layers: self.max_image_array_layers,
        }
    }

    fn min_image_count(&self) -> (count: u32) {
        self.min_image_count
    }

    fn max_image_count(&self) -> (count: u32) {
        self.max_image_count
    }

    fn current_extent(&self) -> (extent: Extent2D) {
        self.current_extent
    }

    fn min_image_extent(&self) -> (extent: Extent2D) {
        self.min_image_extent
    }

    fn max_image_extent(&self) -> (extent: Extent2D) {
        self.max_image_extent
    }

    fn max_image_array_layers(&self) -> (layers: u32) {
        self.max_image_array_layers
    }
}

/// A format and colour space as `vkGetPhysicalDeviceSurfaceFormatsKHR` reports
/// them.
#[derive(Debug, Copy, Clone, PartialEq, Eq, Structural)]
pub struct VulkanSurfaceFormat {
    pub format: i32,
    pub color_space: i32,
}

impl VulkanSurfaceFormat {
    /// The surface format that these Vulkan numbers stand for, if both stand
    /// for something.
    pub open spec fn decode(self) -> Option<SurfaceFormat> {
        match (
            Format::decode::<VulkanRenderTargetFormatConstants>(self.format),
            Colorspace::decode::<VulkanColorSpaces>(self.color_space),
        ) {
            (Some(format), Some(colorspace)) => Some(SurfaceFormat { format, colorspace }),
            _ => None,
        }
    }

    /// The Vulkan numbers of a surface format.
    pub open spec fn encode(format: SurfaceFormat) -> VulkanSurfaceFormat {
        VulkanSurfaceFormat {
            format: format.format.native::<VulkanRenderTargetFormatConstants>(),
            color_space: format.colorspace.native::<VulkanColorSpaces>(),
        }
    }

    /// Converts these Vulkan numbers into the surface format they stand for,
    /// if both stand for something.
    pub fn to_surface_format(self) -> (format: Option<SurfaceFormat>)
        ensures
            format == self.decode(),
    {
        match (
            Format::try_from_native::<VulkanRenderTargetFormatConstants>(self.format),
            Colorspace::try_from_native::<VulkanColorSpaces>(self.color_space),
        ) {
            (Some(format), Some(colorspace)) => Some(SurfaceFormat { format, colorspace }),
            _ => None,
        }
    }

    /// Converts Vulkan numbers that both stand for something into the surface
    /// format they stand for.
    pub fn into_surface_format(self) -> (format: SurfaceFormat)
        requires
            self.decode() is Some,
        ensures
            self.decode() == Some(format),
    {
        SurfaceFormat {
            format: Format::from_native::<VulkanRenderTargetFormatConstants>(self.format),
            colorspace: Colorspace::from_native::<VulkanColorSpaces>(self.color_space),
        }
    }

    /// Converts a surface format into its Vulkan numbers.
    pub fn from_surface_format(format: SurfaceFormat) -> (native: VulkanSurfaceFormat)
        ensures
            native == Self::encode(format),
    {
        VulkanSurfaceFormat {
            format: format.format.to_native::<VulkanRenderTargetFormatConstants>(),
            color_space: format.colorspace.to_native::<VulkanColorSpaces>(),
        }
    }

    /// A surface format is found again from its own Vulkan numbers.
    pub proof fn law_round_trip(format: SurfaceFormat)
        ensures
            Self::encode(format).decode() == Some(format),
    {
        crate::api::vulkan::constants::law_vulkan_formats(format.format);
        crate::api::vulkan::constants::law_vulkan_color_spaces(format.colorspace);
    }
}

/// Every one of `native` stands for a surface format.
pub open spec fn formats_known(native: Seq<VulkanSurfaceFormat>) -> bool {
    forall|i: int| 0 <= i < native.len() ==> (#[trigger] native[i]).decode() is Some
}

/// Every one of `native` stands for a present mode.
pub open spec fn modes_known(native: Seq<i32>) -> bool {
    forall|i: int|
        0 <= i < native.len() ==> PresentMode::decode::<VulkanPresentModeConstants>(
            #[trigger] native[i],
        ) is Some
}

/// A Vulkan physical device.
#[derive(Debug)]
pub struct VulkanPhysicalDevice {
    handle: u64,
    properties: VulkanPhysicalDeviceProperties,
}

impl VulkanPhysicalDevice {
    /// The native handle.
    pub closed spec fn native(&self) -> u64 {
        self.handle
    }

    /// A device as the instance enumerated it.
    pub fn new(handle: u64, properties: VulkanPhysicalDeviceProperties) -> (device:
        VulkanPhysicalDevice)
        ensures
            device.native() == handle,
            device.described() == properties,
    {
        VulkanPhysicalDevice { handle, properties }
    }

    /// The native handle.
    pub fn handle(&self) -> (handle: u64)
        ensures
            handle == self.native(),
    {
        self.handle
    }

    /// A copy of this device: it owns nothing that would have to be counted.
    pub fn duplicate(&self) -> (copy: VulkanPhysicalDevice)
        ensures
            copy == *self,
    {
        VulkanPhysicalDevice { handle: self.handle, properties: self.properties.duplicate() }
    }

    /// Whether every one of `native` stands for a surface format.
    pub fn knows_formats(native: &Vec<VulkanSurfaceFormat>) -> (yes: bool)
        ensures
            yes == formats_known(native@),
    {
        let mut i: usize = 0;
        while i < native.len()
            invariant
                i <= native@.len(),
                forall|j: int| 0 <= j < i ==> (#[trigger] native@[j]).decode() is Some,
            decreases native@.len() - i,
        {
            if native[i].to_surface_format().is_none() {
                return false;
            }
            i = i + 1;
        }
        true
    }

    /// Whether every one of `native` stands for a present mode.
    pub fn knows_modes(native: &Vec<i32>) -> (yes: bool)
        ensures
            yes == modes_known(native@),
    {
        let mut i: usize = 0;
        while i < native.len()
            invariant
                i <= native@.len(),
                forall|j: int|
                    0 <= j < i ==> PresentMode::decode::<VulkanPresentModeConstants>(
                        #[trigger] native@[j],
                    ) is Some,
            decreases native@.len() - i,
        {
            if PresentMode::try_from_native::<VulkanPresentModeConstants>(native[i]).is_none() {
                return false;
            }
            i = i + 1;
        }
        true
    }
}

/// The surface formats that `native` stand for, in the same order.
pub open spec fn surface_formats(native: Seq<VulkanSurfaceFormat>) -> Seq<SurfaceFormat> {
    native.map_values(|format: VulkanSurfaceFormat| format.decode()->0)
}

/// The present modes that `native` stand for, in the same order.
pub open spec fn present_modes(native: Seq<i32>) -> Seq<PresentMode> {
    native.map_values(|mode: i32| PresentMode::decode::<VulkanPresentModeConstants>(mode)->0)
}

impl Device for VulkanPhysicalDevice {
    type Properties = VulkanPhysicalDeviceProperties;

    type Capabilities = VulkanSurfaceCapabilities;

    type NativeCapabilities = VulkanSurfaceCapabilities;

    type NativeFormats = Vec<VulkanSurfaceFormat>;

    type NativeModes = Vec<i32>;

    closed spec fn described(&self) -> VulkanPhysicalDeviceProperties {
        self.properties
    }

    /// The device presents where Vulkan says so.
    open spec fn presents(native: bool) -> bool {
        native
    }

    open spec fn understands_capabilities(native: VulkanSurfaceCapabilities) -> bool {
        true
    }

    open spec fn understands_formats(native: Vec<VulkanSurfaceFormat>) -> bool {
        formats_known(native@)
    }

    open spec fn understands_modes(native: Vec<i32>) -> bool {
        modes_known(native@)
    }

    open spec fn capabilities_of(native: VulkanSurfaceCapabilities) -> VulkanSurfaceCapabilities {
        native
    }

    open spec fn formats_of(native: Vec<VulkanSurfaceFormat>) -> Seq<SurfaceFormat> {
        surface_formats(native@)
    }

    open spec fn modes_of(native: Vec<i32>) -> Seq<PresentMode> {
        present_modes(native@)
    }

    open spec fn query_failure(code: i32) -> Error {
        Error::ApiError(code)
    }

    fn properties(&self) -> (properties: &VulkanPhysicalDeviceProperties) {
        &self.properties
    }

    fn supports_surface(&self, native: bool) -> (yes: bool) {
        native
    }

    fn get_surface_capabilities(
        &self,
        native: Result<VulkanSurfaceCapabilities, i32>,
    ) -> (capabilities: Result<VulkanSurfaceCapabilities, Error>) {
        match native {
            Ok(answer) => Ok(answer),
            Err(code) => Err(Error::ApiError(code)),
        }
    }

    fn get_surface_formats(
        &self,
        native: Result<Vec<VulkanSurfaceFormat>, i32>,
    ) -> (formats: Result<Vec<SurfaceFormat>, Error>) {
        match native {
            Err(code) => Err(Error::ApiError(code)),
            Ok(answer) => {
                let mut list: Vec<SurfaceFormat> = Vec::new();
                let mut i: usize = 0;
                while i < answer.len()
                    invariant
                        i <= answer@.len(),
                        formats_known(answer@),
                        list@ == surface_formats(answer@.take(i as int)),
                    decreases answer@.len() - i,
                {
                    assert(answer@[i as int].decode() is Some);
                    list.push(answer[i].into_surface_format());
                    assert(surface_formats(answer@.take(i as int + 1)) =~= surface_formats(
                        answer@.take(i as int),
                    ).push(answer@[i as int].decode()->0));
                    i = i + 1;
                }
                assert(answer@.take(answer@.len() as int) =~= answer@);
                Ok(list)
            },
        }
    }

    fn get_surface_present_modes(
        &self,
        native: Result<Vec<i32>, i32>,
    ) -> (modes: Result<Vec<PresentMode>, Error>) {
        match native {
            Err(code) => Err(Error::ApiError(code)),
            Ok(answer) => {
                let mut list: Vec<PresentMode> = Vec::new();
                let mut i: usize = 0;
                while i < answer.len()
                    invariant
                        i <= answer@.len(),
                        modes_known(answer@),
                        list@ == present_modes(answer@.take(i as int)),
                    decreases answer@.len() - i,
                {
                    assert(PresentMode::decode::<VulkanPresentModeConstants>(answer@[i as int]) is Some);
                    list.push(PresentMode::from_native::<VulkanPresentModeConstants>(answer[i]));
                    assert(present_modes(answer@.take(i as int + 1)) =~= present_modes(
                        answer@.take(i as int),
                    ).push(PresentMode::decode::<VulkanPresentModeConstants>(answer@[i as int])->0));
                    i = i + 1;
                }
                assert(answer@.take(answer@.len() as int) =~= answer@);
                Ok(list)
            },
        }
    }
}

} // verus!
