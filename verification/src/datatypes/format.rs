//! The formats of image and buffer elements.

use vstd::prelude::*;
use vstd::pervasive::unreached;
use crate::api::traits::constants::DataFormatConstants;

verus! {

/// The layout and numeric interpretation of one element of an image or buffer.
#[derive(Debug, Copy, Clone, PartialEq, Eq, Structural)]
#[allow(non_camel_case_types)]
#[non_exhaustive]
pub enum Format {
    R8_UINT,
    R8_SINT,
    R8_UNORM,
    R8_SNORM,

    R8G8_UINT,
    R8G8_SINT,
    R8G8_UNORM,
    R8G8_SNORM,

    R8G8B8A8_UINT,
    R8G8B8A8_SINT,
    R8G8B8A8_UNORM,
    R8G8B8A8_SNORM,
    R8G8B8A8_UNORM_SRGB,

    B8G8R8A8_UNORM,
    B8G8R8A8_UNORM_SRGB,

    R16_UINT,
    R16_SINT,
    R16_UNORM,
    R16_SNORM,

    R16G16_UINT,
    R16G16_SINT,
    R16G16_UNORM,
    R16G16_SNORM,

    R16G16B16A16_UINT,
    R16G16B16A16_SINT,
    R16G16B16A16_UNORM,
    R16G16B16A16_SNORM,
    R16G16B16A16_SFLOAT,

    R32_UINT,
    R32_SINT,
    R32_SFLOAT,

    R32G32_UINT,
    R32G32_SINT,
    R32G32_SFLOAT,

    R32G32B32_UINT,
    R32G32B32_SINT,
    R32G32B32_SFLOAT,

    R32G32B32A32_UINT,
    R32G32B32A32_SINT,
    R32G32B32A32_SFLOAT,

    R10G10B10A2_UINT,
    R10G10B10A2_UNORM,
}

impl Format {
    /// The number by which a backend with the table `C` knows this format.
    pub open spec fn native<C: DataFormatConstants>(self) -> i32 {
        match self {
            Format::R8_UINT => C::R8_UINT,
            Format::R8_SINT => C::R8_SINT,
            Format::R8_UNORM => C::R8_UNORM,
            Format::R8_SNORM => C::R8_SNORM,
            Format::R8G8_UINT => C::R8G8_UINT,
            Format::R8G8_SINT => C::R8G8_SINT,
            Format::R8G8_UNORM => C::R8G8_UNORM,
            Format::R8G8_SNORM => C::R8G8_SNORM,
            Format::R8G8B8A8_UINT => C::R8G8B8A8_UINT,
            Format::R8G8B8A8_SINT => C::R8G8B8A8_SINT,
            Format::R8G8B8A8_UNORM => C::R8G8B8A8_UNORM,
            Format::R8G8B8A8_SNORM => C::R8G8B8A8_SNORM,
            Format::R8G8B8A8_UNORM_SRGB => C::R8G8B8A8_UNORM_SRGB,
            Format::B8G8R8A8_UNORM => C::B8G8R8A8_UNORM,
            Format::B8G8R8A8_UNORM_SRGB => C::B8G8R8A8_UNORM_SRGB,
            Format::R16_UINT => C::R16_UINT,
            Format::R16_SINT => C::R16_SINT,
            Format::R16_UNORM => C::R16_UNORM,
            Format::R16_SNORM => C::R16_SNORM,
            Format::R16G16_UINT => C::R16G16_UINT,
            Format::R16G16_SINT => C::R16G16_SINT,
            Format::R16G16_UNORM => C::R16G16_UNORM,
            Format::R16G16_SNORM => C::R16G16_SNORM,
            Format::R16G16B16A16_UINT => C::R16G16B16A16_UINT,
            Format::R16G16B16A16_SINT => C::R16G16B16A16_SINT,
            Format::R16G16B16A16_UNORM => C::R16G16B16A16_UNORM,
            Format::R16G16B16A16_SNORM => C::R16G16B16A16_SNORM,
            Format::R16G16B16A16_SFLOAT => C::R16G16B16A16_SFLOAT,
            Format::R32_UINT => C::R32_UINT,
            Format::R32_SINT => C::R32_SINT,
            Format::R32_SFLOAT => C::R32_SFLOAT,
            Format::R32G32_UINT => C::R32G32_UINT,
            Format::R32G32_SINT => C::R32G32_SINT,
            Format::R32G32_SFLOAT => C::R32G32_SFLOAT,
            Format::R32G32B32_UINT => C::R32G32B32_UINT,
            Format::R32G32B32_SINT => C::R32G32B32_SINT,
            Format::R32G32B32_SFLOAT => C::R32G32B32_SFLOAT,
            Format::R32G32B32A32_UINT => C::R32G32B32A32_UINT,
            Format::R32G32B32A32_SINT => C::R32G32B32A32_SINT,
            Format::R32G32B32A32_SFLOAT => C::R32G32B32A32_SFLOAT,
            Format::R10G10B10A2_UINT => C::R10G10B10A2_UINT,
            Format::R10G10B10A2_UNORM => C::R10G10B10A2_UNORM,
        }
    }

    /// The format that a backend with the table `C` knows by `code`: the first, in
    /// the order of declaration, that has this number, if any has.
    pub open spec fn decode<C: DataFormatConstants>(code: i32) -> Option<Format> {
        if code == C::R8_UINT {
            Some(Format::R8_UINT)
        } else if code == C::R8_SINT {
            Some(Format::R8_SINT)
        } else if code == C::R8_UNORM {
            Some(Format::R8_UNORM)
        } else if code == C::R8_SNORM {
            Some(Format::R8_SNORM)
        } else if code == C::R8G8_UINT {
            Some(Format::R8G8_UINT)
        } else if code == C::R8G8_SINT {
            Some(Format::R8G8_SINT)
        } else if code == C::R8G8_UNORM {
            Some(Format::R8G8_UNORM)
        } else if code == C::R8G8_SNORM {
            Some(Format::R8G8_SNORM)
        } else if code == C::R8G8B8A8_UINT {
            Some(Format::R8G8B8A8_UINT)
        } else if code == C::R8G8B8A8_SINT {
            Some(Format::R8G8B8A8_SINT)
        } else if code == C::R8G8B8A8_UNORM {
            Some(Format::R8G8B8A8_UNORM)
        } else if code == C::R8G8B8A8_SNORM {
            Some(Format::R8G8B8A8_SNORM)
        } else if code == C::R8G8B8A8_UNORM_SRGB {
            Some(Format::R8G8B8A8_UNORM_SRGB)
        } else if code == C::B8G8R8A8_UNORM {
            Some(Format::B8G8R8A8_UNORM)
        } else if code == C::B8G8R8A8_UNORM_SRGB {
            Some(Format::B8G8R8A8_UNORM_SRGB)
        } else if code == C::R16_UINT {
            Some(Format::R16_UINT)
        } else if code == C::R16_SINT {
            Some(Format::R16_SINT)
        } else if code == C::R16_UNORM {
            Some(Format::R16_UNORM)
        } else if code == C::R16_SNORM {
            Some(Format::R16_SNORM)
        } else if code == C::R16G16_UINT {
            Some(Format::R16G16_UINT)
        } else if code == C::R16G16_SINT {
            Some(Format::R16G16_SINT)
        } else if code == C::R16G16_UNORM {
            Some(Format::R16G16_UNORM)
        } else if code == C::R16G16_SNORM {
            Some(Format::R16G16_SNORM)
        } else if code == C::R16G16B16A16_UINT {
            Some(Format::R16G16B16A16_UINT)
        } else if code == C::R16G16B16A16_SINT {
            Some(Format::R16G16B16A16_SINT)
        } else if code == C::R16G16B16A16_UNORM {
            Some(Format::R16G16B16A16_UNORM)
        } else if code == C::R16G16B16A16_SNORM {
            Some(Format::R16G16B16A16_SNORM)
        } else if code == C::R16G16B16A16_SFLOAT {
            Some(Format::R16G16B16A16_SFLOAT)
        } else if code == C::R32_UINT {
            Some(Format::R32_UINT)
        } else if code == C::R32_SINT {
            Some(Format::R32_SINT)
        } else if code == C::R32_SFLOAT {
            Some(Format::R32_SFLOAT)
        } else if code == C::R32G32_UINT {
            Some(Format::R32G32_UINT)
        } else if code == C::R32G32_SINT {
            Some(Format::R32G32_SINT)
        } else if code == C::R32G32_SFLOAT {
            Some(Format::R32G32_SFLOAT)
        } else if code == C::R32G32B32_UINT {
            Some(Format::R32G32B32_UINT)
        } else if code == C::R32G32B32_SINT {
            Some(Format::R32G32B32_SINT)
        } else if code == C::R32G32B32_SFLOAT {
            Some(Format::R32G32B32_SFLOAT)
        } else if code == C::R32G32B32A32_UINT {
            Some(Format::R32G32B32A32_UINT)
        } else if code == C::R32G32B32A32_SINT {
            Some(Format::R32G32B32A32_SINT)
        } else if code == C::R32G32B32A32_SFLOAT {
            Some(Format::R32G32B32A32_SFLOAT)
        } else if code == C::R10G10B10A2_UINT {
            Some(Format::R10G10B10A2_UINT)
        } else if code == C::R10G10B10A2_UNORM {
            Some(Format::R10G10B10A2_UNORM)
        } else {
            None
        }
    }

    /// The table `C` gives no two values the same number.
    pub open spec fn injective<C: DataFormatConstants>() -> bool {
        forall|a: Format, b: Format|
            #![trigger a.native::<C>(), b.native::<C>()]
            a.native::<C>() == b.native::<C>() ==> a == b
    }

    /// Converts this format into the number by which the backend knows it.
    pub fn to_native<C: DataFormatConstants>(self) -> (code: i32)
        ensures
            code == self.native::<C>(),
    {
        match self {
            Format::R8_UINT => C::R8_UINT,
            Format::R8_SINT => C::R8_SINT,
            Format::R8_UNORM => C::R8_UNORM,
            Format::R8_SNORM => C::R8_SNORM,
            Format::R8G8_UINT => C::R8G8_UINT,
            Format::R8G8_SINT => C::R8G8_SINT,
            Format::R8G8_UNORM => C::R8G8_UNORM,
            Format::R8G8_SNORM => C::R8G8_SNORM,
            Format::R8G8B8A8_UINT => C::R8G8B8A8_UINT,
            Format::R8G8B8A8_SINT => C::R8G8B8A8_SINT,
            Format::R8G8B8A8_UNORM => C::R8G8B8A8_UNORM,
            Format::R8G8B8A8_SNORM => C::R8G8B8A8_SNORM,
            Format::R8G8B8A8_UNORM_SRGB => C::R8G8B8A8_UNORM_SRGB,
            Format::B8G8R8A8_UNORM => C::B8G8R8A8_UNORM,
            Format::B8G8R8A8_UNORM_SRGB => C::B8G8R8A8_UNORM_SRGB,
            Format::R16_UINT => C::R16_UINT,
            Format::R16_SINT => C::R16_SINT,
            Format::R16_UNORM => C::R16_UNORM,
            Format::R16_SNORM => C::R16_SNORM,
            Format::R16G16_UINT => C::R16G16_UINT,
            Format::R16G16_SINT => C::R16G16_SINT,
            Format::R16G16_UNORM => C::R16G16_UNORM,
            Format::R16G16_SNORM => C::R16G16_SNORM,
            Format::R16G16B16A16_UINT => C::R16G16B16A16_UINT,
            Format::R16G16B16A16_SINT => C::R16G16B16A16_SINT,
            Format::R16G16B16A16_UNORM => C::R16G16B16A16_UNORM,
            Format::R16G16B16A16_SNORM => C::R16G16B16A16_SNORM,
            Format::R16G16B16A16_SFLOAT => C::R16G16B16A16_SFLOAT,
            Format::R32_UINT => C::R32_UINT,
            Format::R32_SINT => C::R32_SINT,
            Format::R32_SFLOAT => C::R32_SFLOAT,
            Format::R32G32_UINT => C::R32G32_UINT,
            Format::R32G32_SINT => C::R32G32_SINT,
            Format::R32G32_SFLOAT => C::R32G32_SFLOAT,
            Format::R32G32B32_UINT => C::R32G32B32_UINT,
            Format::R32G32B32_SINT => C::R32G32B32_SINT,
            Format::R32G32B32_SFLOAT => C::R32G32B32_SFLOAT,
            Format::R32G32B32A32_UINT => C::R32G32B32A32_UINT,
            Format::R32G32B32A32_SINT => C::R32G32B32A32_SINT,
            Format::R32G32B32A32_SFLOAT => C::R32G32B32A32_SFLOAT,
            Format::R10G10B10A2_UINT => C::R10G10B10A2_UINT,
            Format::R10G10B10A2_UNORM => C::R10G10B10A2_UNORM,
        }
    }

    /// Converts a number of the backend into the format it stands for, if it
    /// stands for one.
    pub fn try_from_native<C: DataFormatConstants>(code: i32) -> (value: Option<Format>)
        ensures
            value == Self::decode::<C>(code),
    {
        if code == C::R8_UINT {
            Some(Format::R8_UINT)
        } else if code == C::R8_SINT {
            Some(Format::R8_SINT)
        } else if code == C::R8_UNORM {
            Some(Format::R8_UNORM)
        } else if code == C::R8_SNORM {
            Some(Format::R8_SNORM)
        } else if code == C::R8G8_UINT {
            Some(Format::R8G8_UINT)
        } else if code == C::R8G8_SINT {
            Some(Format::R8G8_SINT)
        } else if code == C::R8G8_UNORM {
            Some(Format::R8G8_UNORM)
        } else if code == C::R8G8_SNORM {
            Some(Format::R8G8_SNORM)
        } else if code == C::R8G8B8A8_UINT {
            Some(Format::R8G8B8A8_UINT)
        } else if code == C::R8G8B8A8_SINT {
            Some(Format::R8G8B8A8_SINT)
        } else if code == C::R8G8B8A8_UNORM {
            Some(Format::R8G8B8A8_UNORM)
        } else if code == C::R8G8B8A8_SNORM {
            Some(Format::R8G8B8A8_SNORM)
        } else if code == C::R8G8B8A8_UNORM_SRGB {
            Some(Format::R8G8B8A8_UNORM_SRGB)
        } else if code == C::B8G8R8A8_UNORM {
            Some(Format::B8G8R8A8_UNORM)
        } else if code == C::B8G8R8A8_UNORM_SRGB {
            Some(Format::B8G8R8A8_UNORM_SRGB)
        } else if code == C::R16_UINT {
            Some(Format::R16_UINT)
        } else if code == C::R16_SINT {
            Some(Format::R16_SINT)
        } else if code == C::R16_UNORM {
            Some(Format::R16_UNORM)
        } else if code == C::R16_SNORM {
            Some(Format::R16_SNORM)
        } else if code == C::R16G16_UINT {
            Some(Format::R16G16_UINT)
        } else if code == C::R16G16_SINT {
            Some(Format::R16G16_SINT)
        } else if code == C::R16G16_UNORM {
            Some(Format::R16G16_UNORM)
        } else if code == C::R16G16_SNORM {
            Some(Format::R16G16_SNORM)
        } else if code == C::R16G16B16A16_UINT {
            Some(Format::R16G16B16A16_UINT)
        } else if code == C::R16G16B16A16_SINT {
            Some(Format::R16G16B16A16_SINT)
        } else if code == C::R16G16B16A16_UNORM {
            Some(Format::R16G16B16A16_UNORM)
        } else if code == C::R16G16B16A16_SNORM {
            Some(Format::R16G16B16A16_SNORM)
        } else if code == C::R16G16B16A16_SFLOAT {
            Some(Format::R16G16B16A16_SFLOAT)
        } else if code == C::R32_UINT {
            Some(Format::R32_UINT)
        } else if code == C::R32_SINT {
            Some(Format::R32_SINT)
        } else if code == C::R32_SFLOAT {
            Some(Format::R32_SFLOAT)
        } else if code == C::R32G32_UINT {
            Some(Format::R32G32_UINT)
        } else if code == C::R32G32_SINT {
            Some(Format::R32G32_SINT)
        } else if code == C::R32G32_SFLOAT {
            Some(Format::R32G32_SFLOAT)
        } else if code == C::R32G32B32_UINT {
            Some(Format::R32G32B32_UINT)
        } else if code == C::R32G32B32_SINT {
            Some(Format::R32G32B32_SINT)
        } else if code == C::R32G32B32_SFLOAT {
            Some(Format::R32G32B32_SFLOAT)
        } else if code == C::R32G32B32A32_UINT {
            Some(Format::R32G32B32A32_UINT)
        } else if code == C::R32G32B32A32_SINT {
            Some(Format::R32G32B32A32_SINT)
        } else if code == C::R32G32B32A32_SFLOAT {
            Some(Format::R32G32B32A32_SFLOAT)
        } else if code == C::R10G10B10A2_UINT {
            Some(Format::R10G10B10A2_UINT)
        } else if code == C::R10G10B10A2_UNORM {
            Some(Format::R10G10B10A2_UNORM)
        } else {
            None
        }
    }

    /// Converts a number of the backend that stands for a format.  A number
    /// that stands for none is a defect of the table, not an input.
    pub fn from_native<C: DataFormatConstants>(code: i32) -> (value: Format)
        requires
            Self::decode::<C>(code) is Some,
        ensures
            Self::decode::<C>(code) == Some(value),
    {
        match Self::try_from_native::<C>(code) {
            Some(value) => value,
            None => unreached(),
        }
    }

    /// What [`decode`](Self::decode) finds stands for the number it was given, and
    /// it finds nothing only for a number that stands for nothing.
    pub proof fn law_decode<C: DataFormatConstants>(code: i32)
        ensures
            match Self::decode::<C>(code) {
                Some(value) => value.native::<C>() == code,
                None => forall|value: Format| #[trigger] value.native::<C>() != code,
            },
    {
    }

    /// Converting a format into the number of a backend and back gives the
    /// same format again, provided the backend gives no two of them one number.
    pub proof fn law_round_trip<C: DataFormatConstants>(value: Format)
        requires
            Self::injective::<C>(),
        ensures
            Self::decode::<C>(value.native::<C>()) == Some(value),
    {
        Self::law_decode::<C>(value.native::<C>());
    }
}

} // verus!
