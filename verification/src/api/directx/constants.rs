//! The numbers by which DirectX knows the abstract enumerants.

use vstd::prelude::*;
use crate::api::traits::constants::{
    BlendFactorConstants, BlendOpConstants, ColorComponentConstants, ColorSpaceConstants,
    CompositeAlphaConstants, CullModeConstants, DataFormatConstants, DeviceTypeConstants,
    FrontFaceConstants, PolygonModeConstants, PresentModeConstants, PrimitiveTopologyConstants,
};
use crate::datatypes::{
    BlendFactor, BlendOp, ColorComponentFlags, Colorspace, CompositeAlphaMode, CullMode,
    DeviceType, Format, FrontFace, PolygonMode, PresentMode, PrimitiveTopology,
};

verus! {

/// The numbers by which DirectX knows the device types.
pub struct DirectXDeviceTypes;

impl DeviceTypeConstants for DirectXDeviceTypes {
    const OTHER: i32 = 0;
    const INTEGRATED_GPU: i32 = 1;
    const DISCRETE_GPU: i32 = 2;
    const VIRTUAL_GPU: i32 = 3;
    const CPU: i32 = 4;
}

/// The numbers by which DirectX knows the composite-alpha modes.
pub struct DirectXCompositeAlphaModes;

impl CompositeAlphaConstants for DirectXCompositeAlphaModes {
    const OPAQUE: i32 = 3;
    const PRE_MULTIPLIED: i32 = 1;
    const POST_MULTIPLIED: i32 = 2;
    const INHERIT: i32 = 0;
}

/// The numbers by which DirectX knows the colour spaces.
pub struct DirectXColorSpaces;

impl ColorSpaceConstants for DirectXColorSpaces {
    const SRGB_NONLINEAR: i32 = 0;
    const SRGB_EXT_LINEAR: i32 = 1;
    const HDR10_ST2084: i32 = 12;
    const HDR10_HLG: i32 = 19;
}

/// The numbers by which DirectX knows the formats.
pub struct DirectXDataFormats;

impl DataFormatConstants for DirectXDataFormats {
    const R8_UINT: i32 = 62;
    const R8_SINT: i32 = 64;
    const R8_UNORM: i32 = 61;
    const R8_SNORM: i32 = 63;

    const R8G8_UINT: i32 = 50;
    const R8G8_SINT: i32 = 52;
    const R8G8_UNORM: i32 = 49;
    const R8G8_SNORM: i32 = 51;

    const R8G8B8A8_UINT: i32 = 30;
    const R8G8B8A8_SINT: i32 = 32;
    const R8G8B8A8_UNORM: i32 = 28;
    const R8G8B8A8_SNORM: i32 = 31;
    const R8G8B8A8_UNORM_SRGB: i32 = 29;

    const B8G8R8A8_UNORM: i32 = 87;
    const B8G8R8A8_UNORM_SRGB: i32 = 91;

    const R16_UINT: i32 = 57;
    const R16_SINT: i32 = 59;
    const R16_UNORM: i32 = 56;
    const R16_SNORM: i32 = 58;

    const R16G16_UINT: i32 = 36;
    const R16G16_SINT: i32 = 38;
    const R16G16_UNORM: i32 = 35;
    const R16G16_SNORM: i32 = 37;

    const R16G16B16A16_UINT: i32 = 12;
    const R16G16B16A16_SINT: i32 = 14;
    const R16G16B16A16_UNORM: i32 = 11;
    const R16G16B16A16_SNORM: i32 = 13;
    const R16G16B16A16_SFLOAT: i32 = 10;

    const R32_UINT: i32 = 42;
    const R32_SINT: i32 = 43;
    const R32_SFLOAT: i32 = 41;

    const R32G32_UINT: i32 = 17;
    const R32G32_SINT: i32 = 18;
    const R32G32_SFLOAT: i32 = 16;

    const R32G32B32_UINT: i32 = 7;
    const R32G32B32_SINT: i32 = 8;
    const R32G32B32_SFLOAT: i32 = 6;

    const R32G32B32A32_UINT: i32 = 3;
    const R32G32B32A32_SINT: i32 = 4;
    const R32G32B32A32_SFLOAT: i32 = 2;

    const R10G10B10A2_UINT: i32 = 25;
    const R10G10B10A2_UNORM: i32 = 24;
}

/// The numbers by which DirectX knows the present modes.
pub struct DirectXPresentModes;

impl PresentModeConstants for DirectXPresentModes {
    const IMMEDIATE: i32 = 0;
    const MAILBOX: i32 = 1;
    const FIFO: i32 = 2;
    const FIFO_RELAXED: i32 = 3;
}

/// The numbers by which DirectX knows the blend operations.
pub struct DirectXBlendOps;

impl BlendOpConstants for DirectXBlendOps {
    const ADD: i32 = 1;
    const SUBTRACT: i32 = 2;
    const REVERSE_SUBTRACT: i32 = 3;
    const MIN: i32 = 4;
    const MAX: i32 = 5;
}

/// The numbers by which DirectX knows the blend factors.
pub struct DirectXBlendFactors;

impl BlendFactorConstants for DirectXBlendFactors {
    const ZERO: i32 = 1;
    const ONE: i32 = 2;
    const SRC_COLOR: i32 = 3;
    const ONE_MINUS_SRC_COLOR: i32 = 4;
    const DST_COLOR: i32 = 9;
    const ONE_MINUS_DST_COLOR: i32 = 10;
    const SRC_ALPHA: i32 = 5;
    const ONE_MINUS_SRC_ALPHA: i32 = 6;
    const DST_ALPHA: i32 = 7;
    const ONE_MINUS_DST_ALPHA: i32 = 8;
}

/// The bits by which DirectX knows the colour components.
pub struct DirectXColorComponentConstants;

impl ColorComponentConstants for DirectXColorComponentConstants {
    const R: i32 = 1;
    const G: i32 = 2;
    const B: i32 = 4;
    const A: i32 = 8;
    const ALL: i32 = 15;
}

/// The numbers by which DirectX knows the polygon modes: its fill modes.
pub struct DirectXPolygonModes;

impl PolygonModeConstants for DirectXPolygonModes {
    const FILL: i32 = 3;
    const LINE: i32 = 2;
}

/// The numbers by which DirectX knows the cull modes.
pub struct DirectXCullModes;

impl CullModeConstants for DirectXCullModes {
    const NONE: i32 = 1;
    const FRONT: i32 = 2;
    const BACK: i32 = 3;
}

/// The numbers by which DirectX knows the front faces: whether the front of a
/// triangle is the side from which its corners run counter-clockwise.
pub struct DirectXFrontFaces;

impl FrontFaceConstants for DirectXFrontFaces {
    const CLOCKWISE: i32 = 0;
    const COUNTER_CLOCKWISE: i32 = 1;
}

/// The numbers by which DirectX knows the primitive topologies.  A patch list
/// is one of patches of one control point.
pub struct DirectXPrimitiveTopologies;

impl PrimitiveTopologyConstants for DirectXPrimitiveTopologies {
    const POINT_LIST: i32 = 1;
    const LINE_LIST: i32 = 2;
    const LINE_STRIP: i32 = 3;
    const TRIANGLE_LIST: i32 = 4;
    const TRIANGLE_STRIP: i32 = 5;
    const TRIANGLE_FAN: i32 = 6;
    const LINE_LIST_WITH_ADJACENCY: i32 = 10;
    const LINE_STRIP_WITH_ADJACENCY: i32 = 11;
    const TRIANGLE_LIST_WITH_ADJACENCY: i32 = 12;
    const TRIANGLE_STRIP_WITH_ADJACENCY: i32 = 13;
    const PATCH_LIST: i32 = 33;
}

/// DirectX gives no two device types the same number, so converting one into its
/// number and back is the identity.
pub proof fn law_directx_device_types(value: DeviceType)
    ensures
        DeviceType::injective::<DirectXDeviceTypes>(),
        DeviceType::decode::<DirectXDeviceTypes>(
            value.native::<DirectXDeviceTypes>(),
        ) == Some(value),
{
    assert(DeviceType::injective::<DirectXDeviceTypes>()) by {
        assert forall|a: DeviceType, b: DeviceType|
            #![trigger a.native::<DirectXDeviceTypes>(), b.native::<DirectXDeviceTypes>()]
            a.native::<DirectXDeviceTypes>()
                == b.native::<DirectXDeviceTypes>() implies a == b by {}
    }
    DeviceType::law_round_trip::<DirectXDeviceTypes>(value);
}

/// DirectX gives no two composite-alpha modes the same number, so converting one into its
/// number and back is the identity.
pub proof fn law_directx_composite_alpha_modes(value: CompositeAlphaMode)
    ensures
        CompositeAlphaMode::injective::<DirectXCompositeAlphaModes>(),
        CompositeAlphaMode::decode::<DirectXCompositeAlphaModes>(
            value.native::<DirectXCompositeAlphaModes>(),
        ) == Some(value),
{
    assert(CompositeAlphaMode::injective::<DirectXCompositeAlphaModes>()) by {
        assert forall|a: CompositeAlphaMode, b: CompositeAlphaMode|
            #![trigger a.native::<DirectXCompositeAlphaModes>(), b.native::<DirectXCompositeAlphaModes>()]
            a.native::<DirectXCompositeAlphaModes>()
                == b.native::<DirectXCompositeAlphaModes>() implies a == b by {}
    }
    CompositeAlphaMode::law_round_trip::<DirectXCompositeAlphaModes>(value);
}

/// DirectX gives no two colour spaces the same number, so converting one into its
/// number and back is the identity.
pub proof fn law_directx_color_spaces(value: Colorspace)
    ensures
        Colorspace::injective::<DirectXColorSpaces>(),
        Colorspace::decode::<DirectXColorSpaces>(
            value.native::<DirectXColorSpaces>(),
        ) == Some(value),
{
    assert(Colorspace::injective::<DirectXColorSpaces>()) by {
        assert forall|a: Colorspace, b: Colorspace|
            #![trigger a.native::<DirectXColorSpaces>(), b.native::<DirectXColorSpaces>()]
            a.native::<DirectXColorSpaces>()
                == b.native::<DirectXColorSpaces>() implies a == b by {}
    }
    Colorspace::law_round_trip::<DirectXColorSpaces>(value);
}

/// DirectX gives no two formats the same number, so converting one into its
/// number and back is the identity.
pub proof fn law_directx_formats(value: Format)
    ensures
        Format::injective::<DirectXDataFormats>(),
        Format::decode::<DirectXDataFormats>(value.native::<DirectXDataFormats>()) == Some(value),
{
    assert(Format::injective::<DirectXDataFormats>()) by {
        assert forall|a: Format, b: Format|
            #![trigger a.native::<DirectXDataFormats>(), b.native::<DirectXDataFormats>()]
            a.native::<DirectXDataFormats>()
                == b.native::<DirectXDataFormats>() implies a == b by {}
    }
    Format::law_round_trip::<DirectXDataFormats>(value);
}

/// DirectX gives no two present modes the same number, so converting one into its
/// number and back is the identity.
pub proof fn law_directx_present_modes(value: PresentMode)
    ensures
        PresentMode::injective::<DirectXPresentModes>(),
        PresentMode::decode::<DirectXPresentModes>(
            value.native::<DirectXPresentModes>(),
        ) == Some(value),
{
    assert(PresentMode::injective::<DirectXPresentModes>()) by {
        assert forall|a: PresentMode, b: PresentMode|
            #![trigger a.native::<DirectXPresentModes>(), b.native::<DirectXPresentModes>()]
            a.native::<DirectXPresentModes>()
                == b.native::<DirectXPresentModes>() implies a == b by {}
    }
    PresentMode::law_round_trip::<DirectXPresentModes>(value);
}

/// DirectX gives no two blend operations the same number, so converting one into its
/// number and back is the identity.
pub proof fn law_directx_blend_ops(value: BlendOp)
    ensures
        BlendOp::injective::<DirectXBlendOps>(),
        BlendOp::decode::<DirectXBlendOps>(value.native::<DirectXBlendOps>()) == Some(value),
{
    assert(BlendOp::injective::<DirectXBlendOps>()) by {
        assert forall|a: BlendOp, b: BlendOp|
            #![trigger a.native::<DirectXBlendOps>(), b.native::<DirectXBlendOps>()]
            a.native::<DirectXBlendOps>() == b.native::<DirectXBlendOps>() implies a == b by {}
    }
    BlendOp::law_round_trip::<DirectXBlendOps>(value);
}

/// DirectX gives no two blend factors the same number, so converting one into its
/// number and back is the identity.
pub proof fn law_directx_blend_factors(value: BlendFactor)
    ensures
        BlendFactor::injective::<DirectXBlendFactors>(),
        BlendFactor::decode::<DirectXBlendFactors>(
            value.native::<DirectXBlendFactors>(),
        ) == Some(value),
{
    assert(BlendFactor::injective::<DirectXBlendFactors>()) by {
        assert forall|a: BlendFactor, b: BlendFactor|
            #![trigger a.native::<DirectXBlendFactors>(), b.native::<DirectXBlendFactors>()]
            a.native::<DirectXBlendFactors>()
                == b.native::<DirectXBlendFactors>() implies a == b by {}
    }
    BlendFactor::law_round_trip::<DirectXBlendFactors>(value);
}

/// DirectX gives each colour component a bit of its own, so converting a set of
/// components into its mask and back is the identity.
pub proof fn law_directx_color_components(flags: ColorComponentFlags)
    ensures
        ColorComponentFlags::decode::<DirectXColorComponentConstants>(
            flags.native::<DirectXColorComponentConstants>(),
        ) == Some(flags),
{
    let r = crate::datatypes::mask(flags.r, 1);
    let g = crate::datatypes::mask(flags.g, 2);
    let b = crate::datatypes::mask(flags.b, 4);
    let a = crate::datatypes::mask(flags.a, 8);
    assert({
        &&& (r | g | b | a) & !15i32 == 0
        &&& ((r | g | b | a) & 1 == 1) == (r == 1)
        &&& ((r | g | b | a) & 2 == 2) == (g == 2)
        &&& ((r | g | b | a) & 4 == 4) == (b == 4)
        &&& ((r | g | b | a) & 8 == 8) == (a == 8)
    }) by (bit_vector)
        requires
            r == 0 || r == 1,
            g == 0 || g == 2,
            b == 0 || b == 4,
            a == 0 || a == 8,
    ;
}

/// The table of the device types that DirectX knows, in numbers.
///
/// The value of an associated constant is visible only in the module of its impl: this
/// states each to every caller.
pub proof fn law_directx_device_type_numbers()
    ensures
        DirectXDeviceTypes::OTHER == 0,
        DirectXDeviceTypes::INTEGRATED_GPU == 1,
        DirectXDeviceTypes::DISCRETE_GPU == 2,
        DirectXDeviceTypes::VIRTUAL_GPU == 3,
        DirectXDeviceTypes::CPU == 4,
{
}

/// The table of the composite-alpha modes that DirectX knows, in numbers.
///
/// The value of an associated constant is visible only in the module of its impl: this
/// states each to every caller.
pub proof fn law_directx_composite_alpha_numbers()
    ensures
        DirectXCompositeAlphaModes::OPAQUE == 3,
        DirectXCompositeAlphaModes::PRE_MULTIPLIED == 1,
        DirectXCompositeAlphaModes::POST_MULTIPLIED == 2,
        DirectXCompositeAlphaModes::INHERIT == 0,
{
}

/// The table of the colour spaces that DirectX knows, in numbers.
///
/// The value of an associated constant is visible only in the module of its impl: this
/// states each to every caller.
pub proof fn law_directx_color_space_numbers()
    ensures
        DirectXColorSpaces::SRGB_NONLINEAR == 0,
        DirectXColorSpaces::SRGB_EXT_LINEAR == 1,
        DirectXColorSpaces::HDR10_ST2084 == 12,
        DirectXColorSpaces::HDR10_HLG == 19,
{
}

/// The table of the formats that DirectX knows, in numbers.
///
/// The value of an associated constant is visible only in the module of its impl: this
/// states each to every caller.
pub proof fn law_directx_format_numbers()
    ensures
        DirectXDataFormats::R8_UINT == 62,
        DirectXDataFormats::R8_SINT == 64,
        DirectXDataFormats::R8_UNORM == 61,
        DirectXDataFormats::R8_SNORM == 63,
        DirectXDataFormats::R8G8_UINT == 50,
        DirectXDataFormats::R8G8_SINT == 52,
        DirectXDataFormats::R8G8_UNORM == 49,
        DirectXDataFormats::R8G8_SNORM == 51,
        DirectXDataFormats::R8G8B8A8_UINT == 30,
        DirectXDataFormats::R8G8B8A8_SINT == 32,
        DirectXDataFormats::R8G8B8A8_UNORM == 28,
        DirectXDataFormats::R8G8B8A8_SNORM == 31,
        DirectXDataFormats::R8G8B8A8_UNORM_SRGB == 29,
        DirectXDataFormats::B8G8R8A8_UNORM == 87,
        DirectXDataFormats::B8G8R8A8_UNORM_SRGB == 91,
        DirectXDataFormats::R16_UINT == 57,
        DirectXDataFormats::R16_SINT == 59,
        DirectXDataFormats::R16_UNORM == 56,
        DirectXDataFormats::R16_SNORM == 58,
        DirectXDataFormats::R16G16_UINT == 36,
        DirectXDataFormats::R16G16_SINT == 38,
        DirectXDataFormats::R16G16_UNORM == 35,
        DirectXDataFormats::R16G16_SNORM == 37,
        DirectXDataFormats::R16G16B16A16_UINT == 12,
        DirectXDataFormats::R16G16B16A16_SINT == 14,
        DirectXDataFormats::R16G16B16A16_UNORM == 11,
        DirectXDataFormats::R16G16B16A16_SNORM == 13,
        DirectXDataFormats::R16G16B16A16_SFLOAT == 10,
        DirectXDataFormats::R32_UINT == 42,
        DirectXDataFormats::R32_SINT == 43,
        DirectXDataFormats::R32_SFLOAT == 41,
        DirectXDataFormats::R32G32_UINT == 17,
        DirectXDataFormats::R32G32_SINT == 18,
        DirectXDataFormats::R32G32_SFLOAT == 16,
        DirectXDataFormats::R32G32B32_UINT == 7,
        DirectXDataFormats::R32G32B32_SINT == 8,
        DirectXDataFormats::R32G32B32_SFLOAT == 6,
        DirectXDataFormats::R32G32B32A32_UINT == 3,
        DirectXDataFormats::R32G32B32A32_SINT == 4,
        DirectXDataFormats::R32G32B32A32_SFLOAT == 2,
        DirectXDataFormats::R10G10B10A2_UINT == 25,
        DirectXDataFormats::R10G10B10A2_UNORM == 24,
{
}

/// The table of the present modes that DirectX knows, in numbers.
///
/// The value of an associated constant is visible only in the module of its impl: this
/// states each to every caller.
pub proof fn law_directx_present_mode_numbers()
    ensures
        DirectXPresentModes::IMMEDIATE == 0,
        DirectXPresentModes::MAILBOX == 1,
        DirectXPresentModes::FIFO == 2,
        DirectXPresentModes::FIFO_RELAXED == 3,
{
}

/// The table of the blend operations that DirectX knows, in numbers.
///
/// The value of an associated constant is visible only in the module of its impl: this
/// states each to every caller.
pub proof fn law_directx_blend_op_numbers()
    ensures
        DirectXBlendOps::ADD == 1,
        DirectXBlendOps::SUBTRACT == 2,
        DirectXBlendOps::REVERSE_SUBTRACT == 3,
        DirectXBlendOps::MIN == 4,
        DirectXBlendOps::MAX == 5,
{
}

/// The table of the blend factors that DirectX knows, in numbers.
///
/// The value of an associated constant is visible only in the module of its impl: this
/// states each to every caller.
pub proof fn law_directx_blend_factor_numbers()
    ensures
        DirectXBlendFactors::ZERO == 1,
        DirectXBlendFactors::ONE == 2,
        DirectXBlendFactors::SRC_COLOR == 3,
        DirectXBlendFactors::ONE_MINUS_SRC_COLOR == 4,
        DirectXBlendFactors::DST_COLOR == 9,
        DirectXBlendFactors::ONE_MINUS_DST_COLOR == 10,
        DirectXBlendFactors::SRC_ALPHA == 5,
        DirectXBlendFactors::ONE_MINUS_SRC_ALPHA == 6,
        DirectXBlendFactors::DST_ALPHA == 7,
        DirectXBlendFactors::ONE_MINUS_DST_ALPHA == 8,
{
}

/// The table of the colour components that DirectX knows, in numbers.
///
/// The value of an associated constant is visible only in the module of its impl: this
/// states each to every caller.
pub proof fn law_directx_color_component_numbers()
    ensures
        DirectXColorComponentConstants::R == 1,
        DirectXColorComponentConstants::G == 2,
        DirectXColorComponentConstants::B == 4,
        DirectXColorComponentConstants::A == 8,
        DirectXColorComponentConstants::ALL == 15,
{
}

/// DirectX gives no two polygon modes the same number, so converting one into its
/// number and back is the identity.
pub proof fn law_directx_polygon_modes(value: PolygonMode)
    ensures
        PolygonMode::injective::<DirectXPolygonModes>(),
        PolygonMode::decode::<DirectXPolygonModes>(value.native::<DirectXPolygonModes>()) == Some(value),
{
    assert(PolygonMode::injective::<DirectXPolygonModes>()) by {
        assert forall|a: PolygonMode, b: PolygonMode|
            #![trigger a.native::<DirectXPolygonModes>(), b.native::<DirectXPolygonModes>()]
            a.native::<DirectXPolygonModes>() == b.native::<DirectXPolygonModes>() implies a == b by {}
    }
    PolygonMode::law_round_trip::<DirectXPolygonModes>(value);
}

/// The table of the polygon modes that DirectX knows, in numbers.
///
/// The value of an associated constant is visible only in the module of its impl: this
/// states each to every caller.
pub proof fn law_directx_polygon_mode_numbers()
    ensures
        DirectXPolygonModes::FILL == 3,
        DirectXPolygonModes::LINE == 2,
{
}

/// DirectX gives no two cull modes the same number, so converting one into its
/// number and back is the identity.
pub proof fn law_directx_cull_modes(value: CullMode)
    ensures
        CullMode::injective::<DirectXCullModes>(),
        CullMode::decode::<DirectXCullModes>(value.native::<DirectXCullModes>()) == Some(value),
{
    assert(CullMode::injective::<DirectXCullModes>()) by {
        assert forall|a: CullMode, b: CullMode|
            #![trigger a.native::<DirectXCullModes>(), b.native::<DirectXCullModes>()]
            a.native::<DirectXCullModes>() == b.native::<DirectXCullModes>() implies a == b by {}
    }
    CullMode::law_round_trip::<DirectXCullModes>(value);
}

/// The table of the cull modes that DirectX knows, in numbers.
///
/// The value of an associated constant is visible only in the module of its impl: this
/// states each to every caller.
pub proof fn law_directx_cull_mode_numbers()
    ensures
        DirectXCullModes::NONE == 1,
        DirectXCullModes::FRONT == 2,
        DirectXCullModes::BACK == 3,
{
}

/// DirectX gives no two front faces the same number, so converting one into its
/// number and back is the identity.
pub proof fn law_directx_front_faces(value: FrontFace)
    ensures
        FrontFace::injective::<DirectXFrontFaces>(),
        FrontFace::decode::<DirectXFrontFaces>(value.native::<DirectXFrontFaces>()) == Some(value),
{
    assert(FrontFace::injective::<DirectXFrontFaces>()) by {
        assert forall|a: FrontFace, b: FrontFace|
            #![trigger a.native::<DirectXFrontFaces>(), b.native::<DirectXFrontFaces>()]
            a.native::<DirectXFrontFaces>() == b.native::<DirectXFrontFaces>() implies a == b by {}
    }
    FrontFace::law_round_trip::<DirectXFrontFaces>(value);
}

/// The table of the front faces that DirectX knows, in numbers.
///
/// The value of an associated constant is visible only in the module of its impl: this
/// states each to every caller.
pub proof fn law_directx_front_face_numbers()
    ensures
        DirectXFrontFaces::CLOCKWISE == 0,
        DirectXFrontFaces::COUNTER_CLOCKWISE == 1,
{
}

/// DirectX gives no two primitive topologies the same number, so converting one into its
/// number and back is the identity.
pub proof fn law_directx_primitive_topologies(value: PrimitiveTopology)
    ensures
        PrimitiveTopology::injective::<DirectXPrimitiveTopologies>(),
        PrimitiveTopology::decode::<DirectXPrimitiveTopologies>(value.native::<DirectXPrimitiveTopologies>()) == Some(value),
{
    assert(PrimitiveTopology::injective::<DirectXPrimitiveTopologies>()) by {
        assert forall|a: PrimitiveTopology, b: PrimitiveTopology|
            #![trigger a.native::<DirectXPrimitiveTopologies>(), b.native::<DirectXPrimitiveTopologies>()]
            a.native::<DirectXPrimitiveTopologies>() == b.native::<DirectXPrimitiveTopologies>() implies a == b by {}
    }
    PrimitiveTopology::law_round_trip::<DirectXPrimitiveTopologies>(value);
}

/// The table of the primitive topologies that DirectX knows, in numbers.
///
/// The value of an associated constant is visible only in the module of its impl: this
/// states each to every caller.
pub proof fn law_directx_primitive_topology_numbers()
    ensures
        DirectXPrimitiveTopologies::POINT_LIST == 1,
        DirectXPrimitiveTopologies::LINE_LIST == 2,
        DirectXPrimitiveTopologies::LINE_STRIP == 3,
        DirectXPrimitiveTopologies::TRIANGLE_LIST == 4,
        DirectXPrimitiveTopologies::TRIANGLE_STRIP == 5,
        DirectXPrimitiveTopologies::TRIANGLE_FAN == 6,
        DirectXPrimitiveTopologies::LINE_LIST_WITH_ADJACENCY == 10,
        DirectXPrimitiveTopologies::LINE_STRIP_WITH_ADJACENCY == 11,
        DirectXPrimitiveTopologies::TRIANGLE_LIST_WITH_ADJACENCY == 12,
        DirectXPrimitiveTopologies::TRIANGLE_STRIP_WITH_ADJACENCY == 13,
        DirectXPrimitiveTopologies::PATCH_LIST == 33,
{
}

} // verus!
