//! The plain values that configuration and queries are made of.

pub mod format;

use vstd::prelude::*;
use vstd::pervasive::unreached;
use crate::api::traits::constants::{
    BlendFactorConstants, BlendOpConstants, ColorComponentConstants, ColorSpaceConstants,
    CompositeAlphaConstants, CullModeConstants, DeviceTypeConstants, FrontFaceConstants,
    PolygonModeConstants, PresentModeConstants, PrimitiveTopologyConstants,
};

pub use format::Format;

verus! {

/// A width and a height, in pixels.
#[derive(Debug, Copy, Clone, PartialEq, Eq, Structural)]
pub struct Extent2D {
    pub width: u32,
    pub height: u32,
}

/// A position, in pixels.
#[derive(Debug, Copy, Clone, PartialEq, Eq, Structural)]
pub struct Offset2D {
    pub x: i32,
    pub y: i32,
}

/// A rectangle: where it starts and how far it extends.
#[derive(Debug, Copy, Clone, PartialEq, Eq, Structural)]
pub struct Rect2D {
    pub offset: Offset2D,
    pub extent: Extent2D,
}

/// The broad class of hardware a device belongs to.
#[derive(Debug, Copy, Clone, PartialEq, Eq, Structural)]
pub enum DeviceType {
    Other,
    IntegratedGpu,
    DiscreteGpu,
    VirtualGpu,
    Cpu,
}

impl DeviceType {
    /// Whether this class of device is a GPU of some kind.
    pub open spec fn gpu(self) -> bool {
        self is IntegratedGpu || self is DiscreteGpu || self is VirtualGpu
    }

    /// Whether this class of device is a GPU of some kind.
    pub fn is_gpu(self) -> (yes: bool)
        ensures
            yes == self.gpu(),
    {
        match self {
            DeviceType::IntegratedGpu | DeviceType::DiscreteGpu | DeviceType::VirtualGpu => true,
            _ => false,
        }
    }

    /// The number by which a backend with the table `C` knows this device type.
    pub open spec fn native<C: DeviceTypeConstants>(self) -> i32 {
        match self {
            DeviceType::Other => C::OTHER,
            DeviceType::IntegratedGpu => C::INTEGRATED_GPU,
            DeviceType::DiscreteGpu => C::DISCRETE_GPU,
            DeviceType::VirtualGpu => C::VIRTUAL_GPU,
            DeviceType::Cpu => C::CPU,
        }
    }

    /// The device type that a backend with the table `C` knows by `code`: the first, in
    /// the order of declaration, that has this number, if any has.
    pub open spec fn decode<C: DeviceTypeConstants>(code: i32) -> Option<DeviceType> {
        if code == C::OTHER {
            Some(DeviceType::Other)
        } else if code == C::INTEGRATED_GPU {
            Some(DeviceType::IntegratedGpu)
        } else if code == C::DISCRETE_GPU {
            Some(DeviceType::DiscreteGpu)
        } else if code == C::VIRTUAL_GPU {
            Some(DeviceType::VirtualGpu)
        } else if code == C::CPU {
            Some(DeviceType::Cpu)
        } else {
            None
        }
    }

    /// The table `C` gives no two values the same number.
    pub open spec fn injective<C: DeviceTypeConstants>() -> bool {
        forall|a: DeviceType, b: DeviceType|
            #![trigger a.native::<C>(), b.native::<C>()]
            a.native::<C>() == b.native::<C>() ==> a == b
    }

    /// Converts this device type into the number by which the backend knows it.
    pub fn to_native<C: DeviceTypeConstants>(self) -> (code: i32)
        ensures
            code == self.native::<C>(),
    {
        match self {
            DeviceType::Other => C::OTHER,
            DeviceType::IntegratedGpu => C::INTEGRATED_GPU,
            DeviceType::DiscreteGpu => C::DISCRETE_GPU,
            DeviceType::VirtualGpu => C::VIRTUAL_GPU,
            DeviceType::Cpu => C::CPU,
        }
    }

    /// Converts a number of the backend into the device type it stands for, if it
    /// stands for one.
    pub fn try_from_native<C: DeviceTypeConstants>(code: i32) -> (value: Option<DeviceType>)
        ensures
            value == Self::decode::<C>(code),
    {
        if code == C::OTHER {
            Some(DeviceType::Other)
        } else if code == C::INTEGRATED_GPU {
            Some(DeviceType::IntegratedGpu)
        } else if code == C::DISCRETE_GPU {
            Some(DeviceType::DiscreteGpu)
        } else if code == C::VIRTUAL_GPU {
            Some(DeviceType::VirtualGpu)
        } else if code == C::CPU {
            Some(DeviceType::Cpu)
        } else {
            None
        }
    }

    /// Converts a number of the backend that stands for a device type.  A number
    /// that stands for none is a defect of the table, not an input.
    pub fn from_native<C: DeviceTypeConstants>(code: i32) -> (value: DeviceType)
        requires
            Self::decode::<C>(code) is Some,
        ensures
            Self::decode::<C>(code) == Some(value),
    {
        match Self::try_from_native::<C>(code) {
            Some(value) => value,
            None => unreached(),
        }
    }

    /// What [`decode`](Self::decode) finds stands for the number it was given, and
    /// it finds nothing only for a number that stands for nothing.
    pub proof fn law_decode<C: DeviceTypeConstants>(code: i32)
        ensures
            match Self::decode::<C>(code) {
                Some(value) => value.native::<C>() == code,
                None => forall|value: DeviceType| #[trigger] value.native::<C>() != code,
            },
    {
    }

    /// Converting a device type into the number of a backend and back gives the
    /// same device type again, provided the backend gives no two of them one number.
    pub proof fn law_round_trip<C: DeviceTypeConstants>(value: DeviceType)
        requires
            Self::injective::<C>(),
        ensures
            Self::decode::<C>(value.native::<C>()) == Some(value),
    {
        Self::law_decode::<C>(value.native::<C>());
    }
}

/// The maker of a device, for the makers this library knows by name.
#[derive(Debug, Copy, Clone, PartialEq, Eq, Structural)]
#[non_exhaustive]
pub enum Vendor {
    Nvidia,
    Amd,
    Intel,
}

impl Vendor {
    /// The identifier under which the maker is registered.
    pub open spec fn id(self) -> u32 {
        match self {
            Vendor::Nvidia => 0x10DE,
            Vendor::Amd => 0x1022,
            Vendor::Intel => 0x8086,
        }
    }

    /// The maker registered under `id`, if this library knows it by name.
    pub open spec fn decode(id: u32) -> Option<Vendor> {
        if id == 0x10DE {
            Some(Vendor::Nvidia)
        } else if id == 0x1022 {
            Some(Vendor::Amd)
        } else if id == 0x8086 {
            Some(Vendor::Intel)
        } else {
            None
        }
    }

    /// The identifier under which the maker is registered.
    pub fn to_id(self) -> (id: u32)
        ensures
            id == self.id(),
    {
        match self {
            Vendor::Nvidia => 0x10DE,
            Vendor::Amd => 0x1022,
            Vendor::Intel => 0x8086,
        }
    }

    /// The maker registered under `id`, if this library knows it by name.
    pub fn try_from_id(id: u32) -> (vendor: Option<Vendor>)
        ensures
            vendor == Self::decode(id),
    {
        if id == 0x10DE {
            Some(Vendor::Nvidia)
        } else if id == 0x1022 {
            Some(Vendor::Amd)
        } else if id == 0x8086 {
            Some(Vendor::Intel)
        } else {
            None
        }
    }

    /// The maker registered under `id`, which must be one this library knows.
    pub fn from_id(id: u32) -> (vendor: Vendor)
        requires
            Self::decode(id) is Some,
        ensures
            Self::decode(id) == Some(vendor),
    {
        match Self::try_from_id(id) {
            Some(vendor) => vendor,
            None => unreached(),
        }
    }

    /// A maker is found again under its own identifier, and an identifier
    /// under which a maker is found is that maker's.
    pub proof fn law_round_trip(vendor: Vendor, id: u32)
        ensures
            Self::decode(vendor.id()) == Some(vendor),
            Self::decode(id) matches Some(found) ==> found.id() == id,
    {
    }
}

/// How finished images are handed to the presentation engine.
#[derive(Debug, Copy, Clone, PartialEq, Eq, Structural)]
#[non_exhaustive]
pub enum PresentMode {
    Immediate,
    Mailbox,
    Fifo,
    FifoRelaxed,
}

impl PresentMode {
    /// The number by which a backend with the table `C` knows this present mode.
    pub open spec fn native<C: PresentModeConstants>(self) -> i32 {
        match self {
            PresentMode::Immediate => C::IMMEDIATE,
            PresentMode::Mailbox => C::MAILBOX,
            PresentMode::Fifo => C::FIFO,
            PresentMode::FifoRelaxed => C::FIFO_RELAXED,
        }
    }

    /// The present mode that a backend with the table `C` knows by `code`: the first, in
    /// the order of declaration, that has this number, if any has.
    pub open spec fn decode<C: PresentModeConstants>(code: i32) -> Option<PresentMode> {
        if code == C::IMMEDIATE {
            Some(PresentMode::Immediate)
        } else if code == C::MAILBOX {
            Some(PresentMode::Mailbox)
        } else if code == C::FIFO {
            Some(PresentMode::Fifo)
        } else if code == C::FIFO_RELAXED {
            Some(PresentMode::FifoRelaxed)
        } else {
            None
        }
    }

    /// The table `C` gives no two values the same number.
    pub open spec fn injective<C: PresentModeConstants>() -> bool {
        forall|a: PresentMode, b: PresentMode|
            #![trigger a.native::<C>(), b.native::<C>()]
            a.native::<C>() == b.native::<C>() ==> a == b
    }

    /// Converts this present mode into the number by which the backend knows it.
    pub fn to_native<C: PresentModeConstants>(self) -> (code: i32)
        ensures
            code == self.native::<C>(),
    {
        match self {
            PresentMode::Immediate => C::IMMEDIATE,
            PresentMode::Mailbox => C::MAILBOX,
            PresentMode::Fifo => C::FIFO,
            PresentMode::FifoRelaxed => C::FIFO_RELAXED,
        }
    }

    /// Converts a number of the backend into the present mode it stands for, if it
    /// stands for one.
    pub fn try_from_native<C: PresentModeConstants>(code: i32) -> (value: Option<PresentMode>)
        ensures
            value == Self::decode::<C>(code),
    {
        if code == C::IMMEDIATE {
            Some(PresentMode::Immediate)
        } else if code == C::MAILBOX {
            Some(PresentMode::Mailbox)
        } else if code == C::FIFO {
            Some(PresentMode::Fifo)
        } else if code == C::FIFO_RELAXED {
            Some(PresentMode::FifoRelaxed)
        } else {
            None
        }
    }

    /// Converts a number of the backend that stands for a present mode.  A number
    /// that stands for none is a defect of the table, not an input.
    pub fn from_native<C: PresentModeConstants>(code: i32) -> (value: PresentMode)
        requires
            Self::decode::<C>(code) is Some,
        ensures
            Self::decode::<C>(code) == Some(value),
    {
        match Self::try_from_native::<C>(code) {
            Some(value) => value,
            None => unreached(),
        }
    }

    /// What [`decode`](Self::decode) finds stands for the number it was given, and
    /// it finds nothing only for a number that stands for nothing.
    pub proof fn law_decode<C: PresentModeConstants>(code: i32)
        ensures
            match Self::decode::<C>(code) {
                Some(value) => value.native::<C>() == code,
                None => forall|value: PresentMode| #[trigger] value.native::<C>() != code,
            },
    {
    }

    /// Converting a present mode into the number of a backend and back gives the
    /// same present mode again, provided the backend gives no two of them one number.
    pub proof fn law_round_trip<C: PresentModeConstants>(value: PresentMode)
        requires
            Self::injective::<C>(),
        ensures
            Self::decode::<C>(value.native::<C>()) == Some(value),
    {
        Self::law_decode::<C>(value.native::<C>());
    }
}

/// How the values of a presented image are interpreted as colour.
#[derive(Debug, Copy, Clone, PartialEq, Eq, Structural)]
#[allow(non_camel_case_types)]
#[non_exhaustive]
pub enum Colorspace {
    SRGB_NONLINEAR,
    SRGB_EXT_LINEAR,
    HDR10_ST2084,
    HDR10_HLG,
}

impl Default for Colorspace {
    fn default() -> (value: Colorspace)
        ensures
            value == Colorspace::SRGB_NONLINEAR,
    {
        Colorspace::SRGB_NONLINEAR
    }
}

impl Colorspace {
    /// The number by which a backend with the table `C` knows this colour space.
    pub open spec fn native<C: ColorSpaceConstants>(self) -> i32 {
        match self {
            Colorspace::SRGB_NONLINEAR => C::SRGB_NONLINEAR,
            Colorspace::SRGB_EXT_LINEAR => C::SRGB_EXT_LINEAR,
            Colorspace::HDR10_ST2084 => C::HDR10_ST2084,
            Colorspace::HDR10_HLG => C::HDR10_HLG,
        }
    }

    /// The colour space that a backend with the table `C` knows by `code`: the first, in
    /// the order of declaration, that has this number, if any has.
    pub open spec fn decode<C: ColorSpaceConstants>(code: i32) -> Option<Colorspace> {
        if code == C::SRGB_NONLINEAR {
            Some(Colorspace::SRGB_NONLINEAR)
        } else if code == C::SRGB_EXT_LINEAR {
            Some(Colorspace::SRGB_EXT_LINEAR)
        } else if code == C::HDR10_ST2084 {
            Some(Colorspace::HDR10_ST2084)
        } else if code == C::HDR10_HLG {
            Some(Colorspace::HDR10_HLG)
        } else {
            None
        }
    }

    /// The table `C` gives no two values the same number.
    pub open spec fn injective<C: ColorSpaceConstants>() -> bool {
        forall|a: Colorspace, b: Colorspace|
            #![trigger a.native::<C>(), b.native::<C>()]
            a.native::<C>() == b.native::<C>() ==> a == b
    }

    /// Converts this colour space into the number by which the backend knows it.
    pub fn to_native<C: ColorSpaceConstants>(self) -> (code: i32)
        ensures
            code == self.native::<C>(),
    {
        match self {
            Colorspace::SRGB_NONLINEAR => C::SRGB_NONLINEAR,
            Colorspace::SRGB_EXT_LINEAR => C::SRGB_EXT_LINEAR,
            Colorspace::HDR10_ST2084 => C::HDR10_ST2084,
            Colorspace::HDR10_HLG => C::HDR10_HLG,
        }
    }

    /// Converts a number of the backend into the colour space it stands for, if it
    /// stands for one.
    pub fn try_from_native<C: ColorSpaceConstants>(code: i32) -> (value: Option<Colorspace>)
        ensures
            value == Self::decode::<C>(code),
    {
        if code == C::SRGB_NONLINEAR {
            Some(Colorspace::SRGB_NONLINEAR)
        } else if code == C::SRGB_EXT_LINEAR {
            Some(Colorspace::SRGB_EXT_LINEAR)
        } else if code == C::HDR10_ST2084 {
            Some(Colorspace::HDR10_ST2084)
        } else if code == C::HDR10_HLG {
            Some(Colorspace::HDR10_HLG)
        } else {
            None
        }
    }

    /// Converts a number of the backend that stands for a colour space.  A number
    /// that stands for none is a defect of the table, not an input.
    pub fn from_native<C: ColorSpaceConstants>(code: i32) -> (value: Colorspace)
        requires
            Self::decode::<C>(code) is Some,
        ensures
            Self::decode::<C>(code) == Some(value),
    {
        match Self::try_from_native::<C>(code) {
            Some(value) => value,
            None => unreached(),
        }
    }

    /// What [`decode`](Self::decode) finds stands for the number it was given, and
    /// it finds nothing only for a number that stands for nothing.
    pub proof fn law_decode<C: ColorSpaceConstants>(code: i32)
        ensures
            match Self::decode::<C>(code) {
                Some(value) => value.native::<C>() == code,
                None => forall|value: Colorspace| #[trigger] value.native::<C>() != code,
            },
    {
    }

    /// Converting a colour space into the number of a backend and back gives the
    /// same colour space again, provided the backend gives no two of them one number.
    pub proof fn law_round_trip<C: ColorSpaceConstants>(value: Colorspace)
        requires
            Self::injective::<C>(),
        ensures
            Self::decode::<C>(value.native::<C>()) == Some(value),
    {
        Self::law_decode::<C>(value.native::<C>());
    }
}

/// A format together with the colour space in which a surface presents it.
#[derive(Debug, Copy, Clone, PartialEq, Eq, Structural)]
pub struct SurfaceFormat {
    pub format: Format,
    pub colorspace: Colorspace,
}

/// How the alpha of a presented image is combined with what lies behind the window.
#[derive(Debug, Copy, Clone, PartialEq, Eq, Structural)]
#[non_exhaustive]
pub enum CompositeAlphaMode {
    Opaque,
    PreMultiplied,
    PostMultiplied,
    Inherit,
}

impl Default for CompositeAlphaMode {
    fn default() -> (value: CompositeAlphaMode)
        ensures
            value == CompositeAlphaMode::Inherit,
    {
        CompositeAlphaMode::Inherit
    }
}

impl CompositeAlphaMode {
    /// The number by which a backend with the table `C` knows this composite-alpha mode.
    pub open spec fn native<C: CompositeAlphaConstants>(self) -> i32 {
        match self {
            CompositeAlphaMode::Opaque => C::OPAQUE,
            CompositeAlphaMode::PreMultiplied => C::PRE_MULTIPLIED,
            CompositeAlphaMode::PostMultiplied => C::POST_MULTIPLIED,
            CompositeAlphaMode::Inherit => C::INHERIT,
        }
    }

    /// The composite-alpha mode that a backend with the table `C` knows by `code`: the first, in
    /// the order of declaration, that has this number, if any has.
    pub open spec fn decode<C: CompositeAlphaConstants>(code: i32) -> Option<CompositeAlphaMode> {
        if code == C::OPAQUE {
            Some(CompositeAlphaMode::Opaque)
        } else if code == C::PRE_MULTIPLIED {
            Some(CompositeAlphaMode::PreMultiplied)
        } else if code == C::POST_MULTIPLIED {
            Some(CompositeAlphaMode::PostMultiplied)
        } else if code == C::INHERIT {
            Some(CompositeAlphaMode::Inherit)
        } else {
            None
        }
    }

    /// The table `C` gives no two values the same number.
    pub open spec fn injective<C: CompositeAlphaConstants>() -> bool {
        forall|a: CompositeAlphaMode, b: CompositeAlphaMode|
            #![trigger a.native::<C>(), b.native::<C>()]
            a.native::<C>() == b.native::<C>() ==> a == b
    }

    /// Converts this composite-alpha mode into the number by which the backend knows it.
    pub fn to_native<C: CompositeAlphaConstants>(self) -> (code: i32)
        ensures
            code == self.native::<C>(),
    {
        match self {
            CompositeAlphaMode::Opaque => C::OPAQUE,
            CompositeAlphaMode::PreMultiplied => C::PRE_MULTIPLIED,
            CompositeAlphaMode::PostMultiplied => C::POST_MULTIPLIED,
            CompositeAlphaMode::Inherit => C::INHERIT,
        }
    }

    /// Converts a number of the backend into the composite-alpha mode it stands for, if it
    /// stands for one.
    pub fn try_from_native<C: CompositeAlphaConstants>(
        code: i32,
    ) -> (value: Option<CompositeAlphaMode>)
        ensures
            value == Self::decode::<C>(code),
    {
        if code == C::OPAQUE {
            Some(CompositeAlphaMode::Opaque)
        } else if code == C::PRE_MULTIPLIED {
            Some(CompositeAlphaMode::PreMultiplied)
        } else if code == C::POST_MULTIPLIED {
            Some(CompositeAlphaMode::PostMultiplied)
        } else if code == C::INHERIT {
            Some(CompositeAlphaMode::Inherit)
        } else {
            None
        }
    }

    /// Converts a number of the backend that stands for a composite-alpha mode.  A number
    /// that stands for none is a defect of the table, not an input.
    pub fn from_native<C: CompositeAlphaConstants>(code: i32) -> (value: CompositeAlphaMode)
        requires
            Self::decode::<C>(code) is Some,
        ensures
            Self::decode::<C>(code) == Some(value),
    {
        match Self::try_from_native::<C>(code) {
            Some(value) => value,
            None => unreached(),
        }
    }

    /// What [`decode`](Self::decode) finds stands for the number it was given, and
    /// it finds nothing only for a number that stands for nothing.
    pub proof fn law_decode<C: CompositeAlphaConstants>(code: i32)
        ensures
            match Self::decode::<C>(code) {
                Some(value) => value.native::<C>() == code,
                None => forall|value: CompositeAlphaMode| #[trigger] value.native::<C>() != code,
            },
    {
    }

    /// Converting a composite-alpha mode into the number of a backend and back gives the
    /// same composite-alpha mode again, provided the backend gives no two of them one number.
    pub proof fn law_round_trip<C: CompositeAlphaConstants>(value: CompositeAlphaMode)
        requires
            Self::injective::<C>(),
        ensures
            Self::decode::<C>(value.native::<C>()) == Some(value),
    {
        Self::law_decode::<C>(value.native::<C>());
    }
}

/// How the weighted source and destination colours are combined.
#[derive(Debug, Copy, Clone, PartialEq, Eq, Structural)]
pub enum BlendOp {
    Add,
    Subtract,
    ReverseSubtract,
    Min,
    Max,
}

impl Default for BlendOp {
    fn default() -> (value: BlendOp)
        ensures
            value == BlendOp::Add,
    {
        BlendOp::Add
    }
}

impl BlendOp {
    /// The number by which a backend with the table `C` knows this blend operation.
    pub open spec fn native<C: BlendOpConstants>(self) -> i32 {
        match self {
            BlendOp::Add => C::ADD,
            BlendOp::Subtract => C::SUBTRACT,
            BlendOp::ReverseSubtract => C::REVERSE_SUBTRACT,
            BlendOp::Min => C::MIN,
            BlendOp::Max => C::MAX,
        }
    }

    /// The blend operation that a backend with the table `C` knows by `code`: the first, in
    /// the order of declaration, that has this number, if any has.
    pub open spec fn decode<C: BlendOpConstants>(code: i32) -> Option<BlendOp> {
        if code == C::ADD {
            Some(BlendOp::Add)
        } else if code == C::SUBTRACT {
            Some(BlendOp::Subtract)
        } else if code == C::REVERSE_SUBTRACT {
            Some(BlendOp::ReverseSubtract)
        } else if code == C::MIN {
            Some(BlendOp::Min)
        } else if code == C::MAX {
            Some(BlendOp::Max)
        } else {
            None
        }
    }

    /// The table `C` gives no two values the same number.
    pub open spec fn injective<C: BlendOpConstants>() -> bool {
        forall|a: BlendOp, b: BlendOp|
            #![trigger a.native::<C>(), b.native::<C>()]
            a.native::<C>() == b.native::<C>() ==> a == b
    }

    /// Converts this blend operation into the number by which the backend knows it.
    pub fn to_native<C: BlendOpConstants>(self) -> (code: i32)
        ensures
            code == self.native::<C>(),
    {
        match self {
            BlendOp::Add => C::ADD,
            BlendOp::Subtract => C::SUBTRACT,
            BlendOp::ReverseSubtract => C::REVERSE_SUBTRACT,
            BlendOp::Min => C::MIN,
            BlendOp::Max => C::MAX,
        }
    }

    /// Converts a number of the backend into the blend operation it stands for, if it
    /// stands for one.
    pub fn try_from_native<C: BlendOpConstants>(code: i32) -> (value: Option<BlendOp>)
        ensures
            value == Self::decode::<C>(code),
    {
        if code == C::ADD {
            Some(BlendOp::Add)
        } else if code == C::SUBTRACT {
            Some(BlendOp::Subtract)
        } else if code == C::REVERSE_SUBTRACT {
            Some(BlendOp::ReverseSubtract)
        } else if code == C::MIN {
            Some(BlendOp::Min)
        } else if code == C::MAX {
            Some(BlendOp::Max)
        } else {
            None
        }
    }

    /// Converts a number of the backend that stands for a blend operation.  A number
    /// that stands for none is a defect of the table, not an input.
    pub fn from_native<C: BlendOpConstants>(code: i32) -> (value: BlendOp)
        requires
            Self::decode::<C>(code) is Some,
        ensures
            Self::decode::<C>(code) == Some(value),
    {
        match Self::try_from_native::<C>(code) {
            Some(value) => value,
            None => unreached(),
        }
    }

    /// What [`decode`](Self::decode) finds stands for the number it was given, and
    /// it finds nothing only for a number that stands for nothing.
    pub proof fn law_decode<C: BlendOpConstants>(code: i32)
        ensures
            match Self::decode::<C>(code) {
                Some(value) => value.native::<C>() == code,
                None => forall|value: BlendOp| #[trigger] value.native::<C>() != code,
            },
    {
    }

    /// Converting a blend operation into the number of a backend and back gives the
    /// same blend operation again, provided the backend gives no two of them one number.
    pub proof fn law_round_trip<C: BlendOpConstants>(value: BlendOp)
        requires
            Self::injective::<C>(),
        ensures
            Self::decode::<C>(value.native::<C>()) == Some(value),
    {
        Self::law_decode::<C>(value.native::<C>());
    }
}

/// By what a colour is weighted before blending.
#[derive(Debug, Copy, Clone, PartialEq, Eq, Structural)]
pub enum BlendFactor {
    Zero,
    One,
    SrcColor,
    OneMinusSrcColor,
    DstColor,
    OneMinusDstColor,
    SrcAlpha,
    OneMinusSrcAlpha,
    DstAlpha,
    OneMinusDstAlpha,
}

impl Default for BlendFactor {
    fn default() -> (value: BlendFactor)
        ensures
            value == BlendFactor::Zero,
    {
        BlendFactor::Zero
    }
}

impl BlendFactor {
    /// The number by which a backend with the table `C` knows this blend factor.
    pub open spec fn native<C: BlendFactorConstants>(self) -> i32 {
        match self {
            BlendFactor::Zero => C::ZERO,
            BlendFactor::One => C::ONE,
            BlendFactor::SrcColor => C::SRC_COLOR,
            BlendFactor::OneMinusSrcColor => C::ONE_MINUS_SRC_COLOR,
            BlendFactor::DstColor => C::DST_COLOR,
            BlendFactor::OneMinusDstColor => C::ONE_MINUS_DST_COLOR,
            BlendFactor::SrcAlpha => C::SRC_ALPHA,
            BlendFactor::OneMinusSrcAlpha => C::ONE_MINUS_SRC_ALPHA,
            BlendFactor::DstAlpha => C::DST_ALPHA,
            BlendFactor::OneMinusDstAlpha => C::ONE_MINUS_DST_ALPHA,
        }
    }

    /// The blend factor that a backend with the table `C` knows by `code`: the first, in
    /// the order of declaration, that has this number, if any has.
    pub open spec fn decode<C: BlendFactorConstants>(code: i32) -> Option<BlendFactor> {
        if code == C::ZERO {
            Some(BlendFactor::Zero)
        } else if code == C::ONE {
            Some(BlendFactor::One)
        } else if code == C::SRC_COLOR {
            Some(BlendFactor::SrcColor)
        } else if code == C::ONE_MINUS_SRC_COLOR {
            Some(BlendFactor::OneMinusSrcColor)
        } else if code == C::DST_COLOR {
            Some(BlendFactor::DstColor)
        } else if code == C::ONE_MINUS_DST_COLOR {
            Some(BlendFactor::OneMinusDstColor)
        } else if code == C::SRC_ALPHA {
            Some(BlendFactor::SrcAlpha)
        } else if code == C::ONE_MINUS_SRC_ALPHA {
            Some(BlendFactor::OneMinusSrcAlpha)
        } else if code == C::DST_ALPHA {
            Some(BlendFactor::DstAlpha)
        } else if code == C::ONE_MINUS_DST_ALPHA {
            Some(BlendFactor::OneMinusDstAlpha)
        } else {
            None
        }
    }

    /// The table `C` gives no two values the same number.
    pub open spec fn injective<C: BlendFactorConstants>() -> bool {
        forall|a: BlendFactor, b: BlendFactor|
            #![trigger a.native::<C>(), b.native::<C>()]
            a.native::<C>() == b.native::<C>() ==> a == b
    }

    /// Converts this blend factor into the number by which the backend knows it.
    pub fn to_native<C: BlendFactorConstants>(self) -> (code: i32)
        ensures
            code == self.native::<C>(),
    {
        match self {
            BlendFactor::Zero => C::ZERO,
            BlendFactor::One => C::ONE,
            BlendFactor::SrcColor => C::SRC_COLOR,
            BlendFactor::OneMinusSrcColor => C::ONE_MINUS_SRC_COLOR,
            BlendFactor::DstColor => C::DST_COLOR,
            BlendFactor::OneMinusDstColor => C::ONE_MINUS_DST_COLOR,
            BlendFactor::SrcAlpha => C::SRC_ALPHA,
            BlendFactor::OneMinusSrcAlpha => C::ONE_MINUS_SRC_ALPHA,
            BlendFactor::DstAlpha => C::DST_ALPHA,
            BlendFactor::OneMinusDstAlpha => C::ONE_MINUS_DST_ALPHA,
        }
    }

    /// Converts a number of the backend into the blend factor it stands for, if it
    /// stands for one.
    pub fn try_from_native<C: BlendFactorConstants>(code: i32) -> (value: Option<BlendFactor>)
        ensures
            value == Self::decode::<C>(code),
    {
        if code == C::ZERO {
            Some(BlendFactor::Zero)
        } else if code == C::ONE {
            Some(BlendFactor::One)
        } else if code == C::SRC_COLOR {
            Some(BlendFactor::SrcColor)
        } else if code == C::ONE_MINUS_SRC_COLOR {
            Some(BlendFactor::OneMinusSrcColor)
        } else if code == C::DST_COLOR {
            Some(BlendFactor::DstColor)
        } else if code == C::ONE_MINUS_DST_COLOR {
            Some(BlendFactor::OneMinusDstColor)
        } else if code == C::SRC_ALPHA {
            Some(BlendFactor::SrcAlpha)
        } else if code == C::ONE_MINUS_SRC_ALPHA {
            Some(BlendFactor::OneMinusSrcAlpha)
        } else if code == C::DST_ALPHA {
            Some(BlendFactor::DstAlpha)
        } else if code == C::ONE_MINUS_DST_ALPHA {
            Some(BlendFactor::OneMinusDstAlpha)
        } else {
            None
        }
    }

    /// Converts a number of the backend that stands for a blend factor.  A number
    /// that stands for none is a defect of the table, not an input.
    pub fn from_native<C: BlendFactorConstants>(code: i32) -> (value: BlendFactor)
        requires
            Self::decode::<C>(code) is Some,
        ensures
            Self::decode::<C>(code) == Some(value),
    {
        match Self::try_from_native::<C>(code) {
            Some(value) => value,
            None => unreached(),
        }
    }

    /// What [`decode`](Self::decode) finds stands for the number it was given, and
    /// it finds nothing only for a number that stands for nothing.
    pub proof fn law_decode<C: BlendFactorConstants>(code: i32)
        ensures
            match Self::decode::<C>(code) {
                Some(value) => value.native::<C>() == code,
                None => forall|value: BlendFactor| #[trigger] value.native::<C>() != code,
            },
    {
    }

    /// Converting a blend factor into the number of a backend and back gives the
    /// same blend factor again, provided the backend gives no two of them one number.
    pub proof fn law_round_trip<C: BlendFactorConstants>(value: BlendFactor)
        requires
            Self::injective::<C>(),
        ensures
            Self::decode::<C>(value.native::<C>()) == Some(value),
    {
        Self::law_decode::<C>(value.native::<C>());
    }
}

/// The colour components that a write touches.
#[derive(Debug, Copy, Clone, PartialEq, Eq, Structural)]
pub struct ColorComponentFlags {
    pub r: bool,
    pub g: bool,
    pub b: bool,
    pub a: bool,
}

impl Default for ColorComponentFlags {
    fn default() -> (flags: ColorComponentFlags)
        ensures
            flags == ColorComponentFlags::every(),
    {
        ColorComponentFlags::all()
    }
}

/// `bit` if `set`, and no bit otherwise.
pub open spec fn mask(set: bool, bit: i32) -> i32 {
    if set {
        bit
    } else {
        0
    }
}

/// `bit` if `set`, and no bit otherwise.
fn masked(set: bool, bit: i32) -> (bits: i32)
    ensures
        bits == mask(set, bit),
{
    if set {
        bit
    } else {
        0
    }
}

impl ColorComponentFlags {
    /// No component.
    pub open spec fn none() -> ColorComponentFlags {
        ColorComponentFlags { r: false, g: false, b: false, a: false }
    }

    /// Every component.
    pub open spec fn every() -> ColorComponentFlags {
        ColorComponentFlags { r: true, g: true, b: true, a: true }
    }

    /// No component.
    pub fn empty() -> (flags: ColorComponentFlags)
        ensures
            flags == Self::none(),
    {
        ColorComponentFlags { r: false, g: false, b: false, a: false }
    }

    /// Every component.
    pub fn all() -> (flags: ColorComponentFlags)
        ensures
            flags == Self::every(),
    {
        ColorComponentFlags { r: true, g: true, b: true, a: true }
    }

    /// Whether no component is set.
    pub fn is_empty(self) -> (yes: bool)
        ensures
            yes == (self == Self::none()),
    {
        !self.r && !self.g && !self.b && !self.a
    }

    /// Whether every component is set.
    pub fn is_all(self) -> (yes: bool)
        ensures
            yes == (self == Self::every()),
    {
        self.r && self.g && self.b && self.a
    }

    /// Whether every component of `other` is set in `self`.
    pub fn contains(self, other: ColorComponentFlags) -> (yes: bool)
        ensures
            yes == ((other.r ==> self.r) && (other.g ==> self.g) && (other.b ==> self.b) && (other.a
                ==> self.a)),
    {
        (!other.r || self.r) && (!other.g || self.g) && (!other.b || self.b) && (!other.a || self.a)
    }

    /// The components set in `self` or in `other`.
    pub fn union(self, other: ColorComponentFlags) -> (flags: ColorComponentFlags)
        ensures
            flags == (ColorComponentFlags {
                r: self.r || other.r,
                g: self.g || other.g,
                b: self.b || other.b,
                a: self.a || other.a,
            }),
    {
        ColorComponentFlags {
            r: self.r || other.r,
            g: self.g || other.g,
            b: self.b || other.b,
            a: self.a || other.a,
        }
    }

    /// The components set in `self` and in `other`.
    pub fn intersection(self, other: ColorComponentFlags) -> (flags: ColorComponentFlags)
        ensures
            flags == (ColorComponentFlags {
                r: self.r && other.r,
                g: self.g && other.g,
                b: self.b && other.b,
                a: self.a && other.a,
            }),
    {
        ColorComponentFlags {
            r: self.r && other.r,
            g: self.g && other.g,
            b: self.b && other.b,
            a: self.a && other.a,
        }
    }

    /// The mask by which a backend with the table `C` knows these components:
    /// the bits of those that are set.
    pub open spec fn native<C: ColorComponentConstants>(self) -> i32 {
        mask(self.r, C::R) | mask(self.g, C::G) | mask(self.b, C::B) | mask(self.a, C::A)
    }

    /// The components that a backend with the table `C` knows by the mask
    /// `bits`, if `bits` holds no bit but theirs.
    pub open spec fn decode<C: ColorComponentConstants>(bits: i32) -> Option<ColorComponentFlags> {
        if bits & !C::ALL == 0 {
            Some(
                ColorComponentFlags {
                    r: bits & C::R == C::R,
                    g: bits & C::G == C::G,
                    b: bits & C::B == C::B,
                    a: bits & C::A == C::A,
                },
            )
        } else {
            None
        }
    }

    /// Converts these components into the mask by which the backend knows
    /// them.
    pub fn to_native<C: ColorComponentConstants>(self) -> (bits: i32)
        ensures
            bits == self.native::<C>(),
    {
        masked(self.r, C::R) | masked(self.g, C::G) | masked(self.b, C::B) | masked(self.a, C::A)
    }

    /// Converts a mask of the backend into the components it stands for, if
    /// it holds no bit but theirs.
    pub fn try_from_native<C: ColorComponentConstants>(bits: i32) -> (flags: Option<
        ColorComponentFlags,
    >)
        ensures
            flags == Self::decode::<C>(bits),
    {
        if bits & !C::ALL == 0 {
            Some(
                ColorComponentFlags {
                    r: bits & C::R == C::R,
                    g: bits & C::G == C::G,
                    b: bits & C::B == C::B,
                    a: bits & C::A == C::A,
                },
            )
        } else {
            None
        }
    }

    /// Converts a mask of the backend that holds no bit but those of the
    /// components.
    pub fn from_native<C: ColorComponentConstants>(bits: i32) -> (flags: ColorComponentFlags)
        requires
            Self::decode::<C>(bits) is Some,
        ensures
            Self::decode::<C>(bits) == Some(flags),
    {
        match Self::try_from_native::<C>(bits) {
            Some(flags) => flags,
            None => unreached(),
        }
    }
}

/// How the inside of a polygon is rasterised.
#[derive(Debug, Copy, Clone, PartialEq, Eq, Structural)]
pub enum PolygonMode {
    Fill,
    Wireframe,
}

impl Default for PolygonMode {
    fn default() -> (value: PolygonMode)
        ensures
            value == PolygonMode::Fill,
    {
        PolygonMode::Fill
    }
}

impl PolygonMode {
    /// The number by which a backend with the table `C` knows this polygon mode.
    pub open spec fn native<C: PolygonModeConstants>(self) -> i32 {
        match self {
            PolygonMode::Fill => C::FILL,
            PolygonMode::Wireframe => C::LINE,
        }
    }

    /// The polygon mode that a backend with the table `C` knows by `code`: the first, in
    /// the order of declaration, that has this number, if any has.
    pub open spec fn decode<C: PolygonModeConstants>(code: i32) -> Option<PolygonMode> {
        if code == C::FILL {
            Some(PolygonMode::Fill)
        } else if code == C::LINE {
            Some(PolygonMode::Wireframe)
        } else {
            None
        }
    }

    /// The table `C` gives no two values the same number.
    pub open spec fn injective<C: PolygonModeConstants>() -> bool {
        forall|a: PolygonMode, b: PolygonMode|
            #![trigger a.native::<C>(), b.native::<C>()]
            a.native::<C>() == b.native::<C>() ==> a == b
    }

    /// Converts this polygon mode into the number by which the backend knows it.
    pub fn to_native<C: PolygonModeConstants>(self) -> (code: i32)
        ensures
            code == self.native::<C>(),
    {
        match self {
            PolygonMode::Fill => C::FILL,
            PolygonMode::Wireframe => C::LINE,
        }
    }

    /// Converts a number of the backend into the polygon mode it stands for, if it
    /// stands for one.
    pub fn try_from_native<C: PolygonModeConstants>(code: i32) -> (value: Option<PolygonMode>)
        ensures
            value == Self::decode::<C>(code),
    {
        if code == C::FILL {
            Some(PolygonMode::Fill)
        } else if code == C::LINE {
            Some(PolygonMode::Wireframe)
        } else {
            None
        }
    }

    /// Converts a number of the backend that stands for a polygon mode.  A number
    /// that stands for none is a defect of the table, not an input.
    pub fn from_native<C: PolygonModeConstants>(code: i32) -> (value: PolygonMode)
        requires
            Self::decode::<C>(code) is Some,
        ensures
            Self::decode::<C>(code) == Some(value),
    {
        match Self::try_from_native::<C>(code) {
            Some(value) => value,
            None => unreached(),
        }
    }

    /// What [`decode`](Self::decode) finds stands for the number it was given, and
    /// it finds nothing only for a number that stands for nothing.
    pub proof fn law_decode<C: PolygonModeConstants>(code: i32)
        ensures
            match Self::decode::<C>(code) {
                Some(value) => value.native::<C>() == code,
                None => forall|value: PolygonMode| #[trigger] value.native::<C>() != code,
            },
    {
    }

    /// Converting a polygon mode into the number of a backend and back gives the
    /// same polygon mode again, provided the backend gives no two of them one number.
    pub proof fn law_round_trip<C: PolygonModeConstants>(value: PolygonMode)
        requires
            Self::injective::<C>(),
        ensures
            Self::decode::<C>(value.native::<C>()) == Some(value),
    {
        Self::law_decode::<C>(value.native::<C>());
    }
}

/// Which faces of a polygon are discarded.
#[derive(Debug, Copy, Clone, PartialEq, Eq, Structural)]
pub enum CullMode {
    Nothing,
    Front,
    Back,
}

impl Default for CullMode {
    fn default() -> (value: CullMode)
        ensures
            value == CullMode::Back,
    {
        CullMode::Back
    }
}

impl CullMode {
    /// The number by which a backend with the table `C` knows this cull mode.
    pub open spec fn native<C: CullModeConstants>(self) -> i32 {
        match self {
            CullMode::Nothing => C::NONE,
            CullMode::Front => C::FRONT,
            CullMode::Back => C::BACK,
        }
    }

    /// The cull mode that a backend with the table `C` knows by `code`: the first, in
    /// the order of declaration, that has this number, if any has.
    pub open spec fn decode<C: CullModeConstants>(code: i32) -> Option<CullMode> {
        if code == C::NONE {
            Some(CullMode::Nothing)
        } else if code == C::FRONT {
            Some(CullMode::Front)
        } else if code == C::BACK {
            Some(CullMode::Back)
        } else {
            None
        }
    }

    /// The table `C` gives no two values the same number.
    pub open spec fn injective<C: CullModeConstants>() -> bool {
        forall|a: CullMode, b: CullMode|
            #![trigger a.native::<C>(), b.native::<C>()]
            a.native::<C>() == b.native::<C>() ==> a == b
    }

    /// Converts this cull mode into the number by which the backend knows it.
    pub fn to_native<C: CullModeConstants>(self) -> (code: i32)
        ensures
            code == self.native::<C>(),
    {
        match self {
            CullMode::Nothing => C::NONE,
            CullMode::Front => C::FRONT,
            CullMode::Back => C::BACK,
        }
    }

    /// Converts a number of the backend into the cull mode it stands for, if it
    /// stands for one.
    pub fn try_from_native<C: CullModeConstants>(code: i32) -> (value: Option<CullMode>)
        ensures
            value == Self::decode::<C>(code),
    {
        if code == C::NONE {
            Some(CullMode::Nothing)
        } else if code == C::FRONT {
            Some(CullMode::Front)
        } else if code == C::BACK {
            Some(CullMode::Back)
        } else {
            None
        }
    }

    /// Converts a number of the backend that stands for a cull mode.  A number
    /// that stands for none is a defect of the table, not an input.
    pub fn from_native<C: CullModeConstants>(code: i32) -> (value: CullMode)
        requires
            Self::decode::<C>(code) is Some,
        ensures
            Self::decode::<C>(code) == Some(value),
    {
        match Self::try_from_native::<C>(code) {
            Some(value) => value,
            None => unreached(),
        }
    }

    /// What [`decode`](Self::decode) finds stands for the number it was given, and
    /// it finds nothing only for a number that stands for nothing.
    pub proof fn law_decode<C: CullModeConstants>(code: i32)
        ensures
            match Self::decode::<C>(code) {
                Some(value) => value.native::<C>() == code,
                None => forall|value: CullMode| #[trigger] value.native::<C>() != code,
            },
    {
    }

    /// Converting a cull mode into the number of a backend and back gives the
    /// same cull mode again, provided the backend gives no two of them one number.
    pub proof fn law_round_trip<C: CullModeConstants>(value: CullMode)
        requires
            Self::injective::<C>(),
        ensures
            Self::decode::<C>(value.native::<C>()) == Some(value),
    {
        Self::law_decode::<C>(value.native::<C>());
    }
}

/// Which winding of its vertices makes a polygon face the viewer.
#[derive(Debug, Copy, Clone, PartialEq, Eq, Structural)]
pub enum FrontFace {
    Clockwise,
    CounterClockwise,
}

impl Default for FrontFace {
    fn default() -> (value: FrontFace)
        ensures
            value == FrontFace::CounterClockwise,
    {
        FrontFace::CounterClockwise
    }
}

impl FrontFace {
    /// The number by which a backend with the table `C` knows this front face.
    pub open spec fn native<C: FrontFaceConstants>(self) -> i32 {
        match self {
            FrontFace::Clockwise => C::CLOCKWISE,
            FrontFace::CounterClockwise => C::COUNTER_CLOCKWISE,
        }
    }

    /// The front face that a backend with the table `C` knows by `code`: the first, in
    /// the order of declaration, that has this number, if any has.
    pub open spec fn decode<C: FrontFaceConstants>(code: i32) -> Option<FrontFace> {
        if code == C::CLOCKWISE {
            Some(FrontFace::Clockwise)
        } else if code == C::COUNTER_CLOCKWISE {
            Some(FrontFace::CounterClockwise)
        } else {
            None
        }
    }

    /// The table `C` gives no two values the same number.
    pub open spec fn injective<C: FrontFaceConstants>() -> bool {
        forall|a: FrontFace, b: FrontFace|
            #![trigger a.native::<C>(), b.native::<C>()]
            a.native::<C>() == b.native::<C>() ==> a == b
    }

    /// Converts this front face into the number by which the backend knows it.
    pub fn to_native<C: FrontFaceConstants>(self) -> (code: i32)
        ensures
            code == self.native::<C>(),
    {
        match self {
            FrontFace::Clockwise => C::CLOCKWISE,
            FrontFace::CounterClockwise => C::COUNTER_CLOCKWISE,
        }
    }

    /// Converts a number of the backend into the front face it stands for, if it
    /// stands for one.
    pub fn try_from_native<C: FrontFaceConstants>(code: i32) -> (value: Option<FrontFace>)
        ensures
            value == Self::decode::<C>(code),
    {
        if code == C::CLOCKWISE {
            Some(FrontFace::Clockwise)
        } else if code == C::COUNTER_CLOCKWISE {
            Some(FrontFace::CounterClockwise)
        } else {
            None
        }
    }

    /// Converts a number of the backend that stands for a front face.  A number
    /// that stands for none is a defect of the table, not an input.
    pub fn from_native<C: FrontFaceConstants>(code: i32) -> (value: FrontFace)
        requires
            Self::decode::<C>(code) is Some,
        ensures
            Self::decode::<C>(code) == Some(value),
    {
        match Self::try_from_native::<C>(code) {
            Some(value) => value,
            None => unreached(),
        }
    }

    /// What [`decode`](Self::decode) finds stands for the number it was given, and
    /// it finds nothing only for a number that stands for nothing.
    pub proof fn law_decode<C: FrontFaceConstants>(code: i32)
        ensures
            match Self::decode::<C>(code) {
                Some(value) => value.native::<C>() == code,
                None => forall|value: FrontFace| #[trigger] value.native::<C>() != code,
            },
    {
    }

    /// Converting a front face into the number of a backend and back gives the
    /// same front face again, provided the backend gives no two of them one number.
    pub proof fn law_round_trip<C: FrontFaceConstants>(value: FrontFace)
        requires
            Self::injective::<C>(),
        ensures
            Self::decode::<C>(value.native::<C>()) == Some(value),
    {
        Self::law_decode::<C>(value.native::<C>());
    }
}

/// How a stream of vertices is assembled into primitives.
#[derive(Debug, Copy, Clone, PartialEq, Eq, Structural)]
pub enum PrimitiveTopology {
    PointList,
    LineList,
    LineStrip,
    TriangleList,
    TriangleStrip,
    TriangleFan,
    LineListWithAdjacency,
    LineStripWithAdjacency,
    TriangleListWithAdjacency,
    TriangleStripWithAdjacency,
    PatchList,
}

impl Default for PrimitiveTopology {
    fn default() -> (value: PrimitiveTopology)
        ensures
            value == PrimitiveTopology::TriangleList,
    {
        PrimitiveTopology::TriangleList
    }
}

impl PrimitiveTopology {
    /// The number by which a backend with the table `C` knows this primitive topology.
    pub open spec fn native<C: PrimitiveTopologyConstants>(self) -> i32 {
        match self {
            PrimitiveTopology::PointList => C::POINT_LIST,
            PrimitiveTopology::LineList => C::LINE_LIST,
            PrimitiveTopology::LineStrip => C::LINE_STRIP,
            PrimitiveTopology::TriangleList => C::TRIANGLE_LIST,
            PrimitiveTopology::TriangleStrip => C::TRIANGLE_STRIP,
            PrimitiveTopology::TriangleFan => C::TRIANGLE_FAN,
            PrimitiveTopology::LineListWithAdjacency => C::LINE_LIST_WITH_ADJACENCY,
            PrimitiveTopology::LineStripWithAdjacency => C::LINE_STRIP_WITH_ADJACENCY,
            PrimitiveTopology::TriangleListWithAdjacency => C::TRIANGLE_LIST_WITH_ADJACENCY,
            PrimitiveTopology::TriangleStripWithAdjacency => C::TRIANGLE_STRIP_WITH_ADJACENCY,
            PrimitiveTopology::PatchList => C::PATCH_LIST,
        }
    }

    /// The primitive topology that a backend with the table `C` knows by `code`: the first, in
    /// the order of declaration, that has this number, if any has.
    pub open spec fn decode<C: PrimitiveTopologyConstants>(code: i32) -> Option<PrimitiveTopology> {
        if code == C::POINT_LIST {
            Some(PrimitiveTopology::PointList)
        } else if code == C::LINE_LIST {
            Some(PrimitiveTopology::LineList)
        } else if code == C::LINE_STRIP {
            Some(PrimitiveTopology::LineStrip)
        } else if code == C::TRIANGLE_LIST {
            Some(PrimitiveTopology::TriangleList)
        } else if code == C::TRIANGLE_STRIP {
            Some(PrimitiveTopology::TriangleStrip)
        } else if code == C::TRIANGLE_FAN {
            Some(PrimitiveTopology::TriangleFan)
        } else if code == C::LINE_LIST_WITH_ADJACENCY {
            Some(PrimitiveTopology::LineListWithAdjacency)
        } else if code == C::LINE_STRIP_WITH_ADJACENCY {
            Some(PrimitiveTopology::LineStripWithAdjacency)
        } else if code == C::TRIANGLE_LIST_WITH_ADJACENCY {
            Some(PrimitiveTopology::TriangleListWithAdjacency)
        } else if code == C::TRIANGLE_STRIP_WITH_ADJACENCY {
            Some(PrimitiveTopology::TriangleStripWithAdjacency)
        } else if code == C::PATCH_LIST {
            Some(PrimitiveTopology::PatchList)
        } else {
            None
        }
    }

    /// The table `C` gives no two values the same number.
    pub open spec fn injective<C: PrimitiveTopologyConstants>() -> bool {
        forall|a: PrimitiveTopology, b: PrimitiveTopology|
            #![trigger a.native::<C>(), b.native::<C>()]
            a.native::<C>() == b.native::<C>() ==> a == b
    }

    /// Converts this primitive topology into the number by which the backend knows it.
    pub fn to_native<C: PrimitiveTopologyConstants>(self) -> (code: i32)
        ensures
            code == self.native::<C>(),
    {
        match self {
            PrimitiveTopology::PointList => C::POINT_LIST,
            PrimitiveTopology::LineList => C::LINE_LIST,
            PrimitiveTopology::LineStrip => C::LINE_STRIP,
            PrimitiveTopology::TriangleList => C::TRIANGLE_LIST,
            PrimitiveTopology::TriangleStrip => C::TRIANGLE_STRIP,
            PrimitiveTopology::TriangleFan => C::TRIANGLE_FAN,
            PrimitiveTopology::LineListWithAdjacency => C::LINE_LIST_WITH_ADJACENCY,
            PrimitiveTopology::LineStripWithAdjacency => C::LINE_STRIP_WITH_ADJACENCY,
            PrimitiveTopology::TriangleListWithAdjacency => C::TRIANGLE_LIST_WITH_ADJACENCY,
            PrimitiveTopology::TriangleStripWithAdjacency => C::TRIANGLE_STRIP_WITH_ADJACENCY,
            PrimitiveTopology::PatchList => C::PATCH_LIST,
        }
    }

    /// Converts a number of the backend into the primitive topology it stands for, if it
    /// stands for one.
    pub fn try_from_native<C: PrimitiveTopologyConstants>(
        code: i32,
    ) -> (value: Option<PrimitiveTopology>)
        ensures
            value == Self::decode::<C>(code),
    {
        if code == C::POINT_LIST {
            Some(PrimitiveTopology::PointList)
        } else if code == C::LINE_LIST {
            Some(PrimitiveTopology::LineList)
        } else if code == C::LINE_STRIP {
            Some(PrimitiveTopology::LineStrip)
        } else if code == C::TRIANGLE_LIST {
            Some(PrimitiveTopology::TriangleList)
        } else if code == C::TRIANGLE_STRIP {
            Some(PrimitiveTopology::TriangleStrip)
        } else if code == C::TRIANGLE_FAN {
            Some(PrimitiveTopology::TriangleFan)
        } else if code == C::LINE_LIST_WITH_ADJACENCY {
            Some(PrimitiveTopology::LineListWithAdjacency)
        } else if code == C::LINE_STRIP_WITH_ADJACENCY {
            Some(PrimitiveTopology::LineStripWithAdjacency)
        } else if code == C::TRIANGLE_LIST_WITH_ADJACENCY {
            Some(PrimitiveTopology::TriangleListWithAdjacency)
        } else if code == C::TRIANGLE_STRIP_WITH_ADJACENCY {
            Some(PrimitiveTopology::TriangleStripWithAdjacency)
        } else if code == C::PATCH_LIST {
            Some(PrimitiveTopology::PatchList)
        } else {
            None
        }
    }

    /// Converts a number of the backend that stands for a primitive topology.  A number
    /// that stands for none is a defect of the table, not an input.
    pub fn from_native<C: PrimitiveTopologyConstants>(code: i32) -> (value: PrimitiveTopology)
        requires
            Self::decode::<C>(code) is Some,
        ensures
            Self::decode::<C>(code) == Some(value),
    {
        match Self::try_from_native::<C>(code) {
            Some(value) => value,
            None => unreached(),
        }
    }

    /// What [`decode`](Self::decode) finds stands for the number it was given, and
    /// it finds nothing only for a number that stands for nothing.
    pub proof fn law_decode<C: PrimitiveTopologyConstants>(code: i32)
        ensures
            match Self::decode::<C>(code) {
                Some(value) => value.native::<C>() == code,
                None => forall|value: PrimitiveTopology| #[trigger] value.native::<C>() != code,
            },
    {
    }

    /// Converting a primitive topology into the number of a backend and back gives the
    /// same primitive topology again, provided the backend gives no two of them one number.
    pub proof fn law_round_trip<C: PrimitiveTopologyConstants>(value: PrimitiveTopology)
        requires
            Self::injective::<C>(),
        ensures
            Self::decode::<C>(value.native::<C>()) == Some(value),
    {
        Self::law_decode::<C>(value.native::<C>());
    }
}

} // verus!
