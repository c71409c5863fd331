//! The numbers by which Vulkan knows the abstract enumerants.

use vstd::prelude::*;
use crate::api::traits::constants::{
    BlendFactorConstants, BlendOpConstants, ColorComponentConstants, ColorSpaceConstants,
    CompositeAlphaConstants, CullModeConstants, DataFormatConstants, DeviceTypeConstants,
    FrontFaceConstants, PolygonModeConstants, PresentModeConstants, PrimitiveTopologyConstants,
};
use crate::datatypes::{
    BlendFactor, BlendOp, ColorComponentFlags, Colorspace, CompositeAlphaMode, CullMode,
    DeviceType, Format, FrontFace, PolygonMode, PresentMode, PrimitiveTopology,
};

verus! {

/// The numbers by which Vulkan knows the device types.
pub struct VulkanDeviceTypes;

impl DeviceTypeConstants for VulkanDeviceTypes {
    const OTHER: i32 = 0;
    const INTEGRATED_GPU: i32 = 1;
    const DISCRETE_GPU: i32 = 2;
    const VIRTUAL_GPU: i32 = 3;
    const CPU: i32 = 4;
}

/// The numbers by which Vulkan knows the composite-alpha modes.
pub struct VulkanCompositeAlphaModes;

impl CompositeAlphaConstants for VulkanCompositeAlphaModes {
    const OPAQUE: i32 = 1;
    const PRE_MULTIPLIED: i32 = 2;
    const POST_MULTIPLIED: i32 = 4;
    const INHERIT: i32 = 8;
}

/// The numbers by which Vulkan knows the colour spaces.
pub struct VulkanColorSpaces;

impl ColorSpaceConstants for VulkanColorSpaces {
    const SRGB_NONLINEAR: i32 = 0;
    const SRGB_EXT_LINEAR: i32 = 1000104002;
    const HDR10_ST2084: i32 = 1000104008;
    const HDR10_HLG: i32 = 1000104010;
}

/// The numbers by which Vulkan knows the formats.
pub struct VulkanRenderTargetFormatConstants;

impl DataFormatConstants for VulkanRenderTargetFormatConstants {
    const R8_UINT: i32 = 13;
    const R8_SINT: i32 = 14;
    const R8_UNORM: i32 = 9;
    const R8_SNORM: i32 = 10;

    const R8G8_UINT: i32 = 20;
    const R8G8_SINT: i32 = 21;
    const R8G8_UNORM: i32 = 16;
    const R8G8_SNORM: i32 = 17;

    const R8G8B8A8_UINT: i32 = 41;
    const R8G8B8A8_SINT: i32 = 42;
    const R8G8B8A8_UNORM: i32 = 37;
    const R8G8B8A8_SNORM: i32 = 38;
    const R8G8B8A8_UNORM_SRGB: i32 = 43;

    const B8G8R8A8_UNORM: i32 = 44;
    const B8G8R8A8_UNORM_SRGB: i32 = 50;

    const R16_UINT: i32 = 74;
    const R16_SINT: i32 = 75;
    const R16_UNORM: i32 = 70;
    const R16_SNORM: i32 = 71;

    const R16G16_UINT: i32 = 81;
    const R16G16_SINT: i32 = 82;
    const R16G16_UNORM: i32 = 77;
    const R16G16_SNORM: i32 = 78;

    const R16G16B16A16_UINT: i32 = 95;
    const R16G16B16A16_SINT: i32 = 96;
    const R16G16B16A16_UNORM: i32 = 91;
    const R16G16B16A16_SNORM: i32 = 92;
    const R16G16B16A16_SFLOAT: i32 = 97;

    const R32_UINT: i32 = 98;
    const R32_SINT: i32 = 99;
    const R32_SFLOAT: i32 = 100;

    const R32G32_UINT: i32 = 101;
    const R32G32_SINT: i32 = 102;
    const R32G32_SFLOAT: i32 = 103;

    const R32G32B32_UINT: i32 = 104;
    const R32G32B32_SINT: i32 = 105;
    const R32G32B32_SFLOAT: i32 = 106;

    const R32G32B32A32_UINT: i32 = 107;
    const R32G32B32A32_SINT: i32 = 108;
    const R32G32B32A32_SFLOAT: i32 = 109;

    const R10G10B10A2_UINT: i32 = 68;
    const R10G10B10A2_UNORM: i32 = 64;
}

/// The numbers by which Vulkan knows the present modes.
pub struct VulkanPresentModeConstants;

impl PresentModeConstants for VulkanPresentModeConstants {
    const IMMEDIATE: i32 = 0;
    const MAILBOX: i32 = 1;
    const FIFO: i32 = 2;
    const FIFO_RELAXED: i32 = 3;
}

/// The numbers by which Vulkan knows the blend operations.
pub struct VulkanBlendOpConstants;

impl BlendOpConstants for VulkanBlendOpConstants {
    const ADD: i32 = 0;
    const SUBTRACT: i32 = 1;
    const REVERSE_SUBTRACT: i32 = 2;
    const MIN: i32 = 3;
    const MAX: i32 = 4;
}

/// The numbers by which Vulkan knows the blend factors.
pub struct VulkanBlendFactorConstants;

impl BlendFactorConstants for VulkanBlendFactorConstants {
    const ZERO: i32 = 0;
    const ONE: i32 = 1;
    const SRC_COLOR: i32 = 2;
    const ONE_MINUS_SRC_COLOR: i32 = 3;
    const DST_COLOR: i32 = 4;
    const ONE_MINUS_DST_COLOR: i32 = 5;
    const SRC_ALPHA: i32 = 6;
    const ONE_MINUS_SRC_ALPHA: i32 = 7;
    const DST_ALPHA: i32 = 8;
    const ONE_MINUS_DST_ALPHA: i32 = 9;
}

/// The bits by which Vulkan knows the colour components.
pub struct VulkanColorComponentConstants;

impl ColorComponentConstants for VulkanColorComponentConstants {
    const R: i32 = 1;
    const G: i32 = 2;
    const B: i32 = 4;
    const A: i32 = 8;
    const ALL: i32 = 15;
}

/// The numbers by which Vulkan knows the polygon modes.
pub struct VulkanPolygonModeConstants;

impl PolygonModeConstants for VulkanPolygonModeConstants {
    const FILL: i32 = 0;
    const LINE: i32 = 1;
}

/// The numbers by which Vulkan knows the cull modes.
pub struct VulkanCullModeConstants;

impl CullModeConstants for VulkanCullModeConstants {
    const NONE: i32 = 0;
    const FRONT: i32 = 1;
    const BACK: i32 = 2;
}

/// The numbers by which Vulkan knows the front faces.
pub struct VulkanFrontFaceConstants;

impl FrontFaceConstants for VulkanFrontFaceConstants {
    const CLOCKWISE: i32 = 1;
    const COUNTER_CLOCKWISE: i32 = 0;
}

/// The numbers by which Vulkan knows the primitive topologies.
pub struct VulkanPrimitiveTopologyConstants;

impl PrimitiveTopologyConstants for VulkanPrimitiveTopologyConstants {
    const POINT_LIST: i32 = 0;
    const LINE_LIST: i32 = 1;
    const LINE_STRIP: i32 = 2;
    const TRIANGLE_LIST: i32 = 3;
    const TRIANGLE_STRIP: i32 = 4;
    const TRIANGLE_FAN: i32 = 5;
    const LINE_LIST_WITH_ADJACENCY: i32 = 6;
    const LINE_STRIP_WITH_ADJACENCY: i32 = 7;
    const TRIANGLE_LIST_WITH_ADJACENCY: i32 = 8;
    const TRIANGLE_STRIP_WITH_ADJACENCY: i32 = 9;
    const PATCH_LIST: i32 = 10;
}

/// Vulkan gives no two device types the same number, so converting one into its
/// number and back is the identity.
pub proof fn law_vulkan_device_types(value: DeviceType)
    ensures
        DeviceType::injective::<VulkanDeviceTypes>(),
        DeviceType::decode::<VulkanDeviceTypes>(value.native::<VulkanDeviceTypes>()) == Some(value),
{
    assert(DeviceType::injective::<VulkanDeviceTypes>()) by {
        assert forall|a: DeviceType, b: DeviceType|
            #![trigger a.native::<VulkanDeviceTypes>(), b.native::<VulkanDeviceTypes>()]
            a.native::<VulkanDeviceTypes>() == b.native::<VulkanDeviceTypes>() implies a == b by {}
    }
    DeviceType::law_round_trip::<VulkanDeviceTypes>(value);
}

/// Vulkan gives no two composite-alpha modes the same number, so converting one into its
/// number and back is the identity.
pub proof fn law_vulkan_composite_alpha_modes(value: CompositeAlphaMode)
    ensures
        CompositeAlphaMode::injective::<VulkanCompositeAlphaModes>(),
        CompositeAlphaMode::decode::<VulkanCompositeAlphaModes>(
            value.native::<VulkanCompositeAlphaModes>(),
        ) == Some(value),
{
    assert(CompositeAlphaMode::injective::<VulkanCompositeAlphaModes>()) by {
        assert forall|a: CompositeAlphaMode, b: CompositeAlphaMode|
            #![trigger a.native::<VulkanCompositeAlphaModes>(), b.native::<VulkanCompositeAlphaModes>()]
            a.native::<VulkanCompositeAlphaModes>()
                == b.native::<VulkanCompositeAlphaModes>() implies a == b by {}
    }
    CompositeAlphaMode::law_round_trip::<VulkanCompositeAlphaModes>(value);
}

/// Vulkan gives no two colour spaces the same number, so converting one into its
/// number and back is the identity.
pub proof fn law_vulkan_color_spaces(value: Colorspace)
    ensures
        Colorspace::injective::<VulkanColorSpaces>(),
        Colorspace::decode::<VulkanColorSpaces>(value.native::<VulkanColorSpaces>()) == Some(value),
{
    assert(Colorspace::injective::<VulkanColorSpaces>()) by {
        assert forall|a: Colorspace, b: Colorspace|
            #![trigger a.native::<VulkanColorSpaces>(), b.native::<VulkanColorSpaces>()]
            a.native::<VulkanColorSpaces>() == b.native::<VulkanColorSpaces>() implies a == b by {}
    }
    Colorspace::law_round_trip::<VulkanColorSpaces>(value);
}

/// Vulkan gives no two formats the same number, so converting one into its
/// number and back is the identity.
pub proof fn law_vulkan_formats(value: Format)
    ensures
        Format::injective::<VulkanRenderTargetFormatConstants>(),
        Format::decode::<VulkanRenderTargetFormatConstants>(
            value.native::<VulkanRenderTargetFormatConstants>(),
        ) == Some(value),
{
    assert(Format::injective::<VulkanRenderTargetFormatConstants>()) by {
        assert forall|a: Format, b: Format|
            #![trigger a.native::<VulkanRenderTargetFormatConstants>(), b.native::<VulkanRenderTargetFormatConstants>()]
            a.native::<VulkanRenderTargetFormatConstants>()
                == b.native::<VulkanRenderTargetFormatConstants>() implies a == b by {}
    }
    Format::law_round_trip::<VulkanRenderTargetFormatConstants>(value);
}

/// Vulkan gives no two present modes the same number, so converting one into its
/// number and back is the identity.
pub proof fn law_vulkan_present_modes(value: PresentMode)
    ensures
        PresentMode::injective::<VulkanPresentModeConstants>(),
        PresentMode::decode::<VulkanPresentModeConstants>(
            value.native::<VulkanPresentModeConstants>(),
        ) == Some(value),
{
    assert(PresentMode::injective::<VulkanPresentModeConstants>()) by {
        assert forall|a: PresentMode, b: PresentMode|
            #![trigger a.native::<VulkanPresentModeConstants>(), b.native::<VulkanPresentModeConstants>()]
            a.native::<VulkanPresentModeConstants>()
                == b.native::<VulkanPresentModeConstants>() implies a == b by {}
    }
    PresentMode::law_round_trip::<VulkanPresentModeConstants>(value);
}

/// Vulkan gives no two blend operations the same number, so converting one into its
/// number and back is the identity.
pub proof fn law_vulkan_blend_ops(value: BlendOp)
    ensures
        BlendOp::injective::<VulkanBlendOpConstants>(),
        BlendOp::decode::<VulkanBlendOpConstants>(
            value.native::<VulkanBlendOpConstants>(),
        ) == Some(value),
{
    assert(BlendOp::injective::<VulkanBlendOpConstants>()) by {
        assert forall|a: BlendOp, b: BlendOp|
            #![trigger a.native::<VulkanBlendOpConstants>(), b.native::<VulkanBlendOpConstants>()]
            a.native::<VulkanBlendOpConstants>()
                == b.native::<VulkanBlendOpConstants>() implies a == b by {}
    }
    BlendOp::law_round_trip::<VulkanBlendOpConstants>(value);
}

/// Vulkan gives no two blend factors the same number, so converting one into its
/// number and back is the identity.
pub proof fn law_vulkan_blend_factors(value: BlendFactor)
    ensures
        BlendFactor::injective::<VulkanBlendFactorConstants>(),
        BlendFactor::decode::<VulkanBlendFactorConstants>(
            value.native::<VulkanBlendFactorConstants>(),
        ) == Some(value),
{
    assert(BlendFactor::injective::<VulkanBlendFactorConstants>()) by {
        assert forall|a: BlendFactor, b: BlendFactor|
            #![trigger a.native::<VulkanBlendFactorConstants>(), b.native::<VulkanBlendFactorConstants>()]
            a.native::<VulkanBlendFactorConstants>()
                == b.native::<VulkanBlendFactorConstants>() implies a == b by {}
    }
    BlendFactor::law_round_trip::<VulkanBlendFactorConstants>(value);
}

/// Vulkan gives no two polygon modes the same number, so converting one into its
/// number and back is the identity.
pub proof fn law_vulkan_polygon_modes(value: PolygonMode)
    ensures
        PolygonMode::injective::<VulkanPolygonModeConstants>(),
        PolygonMode::decode::<VulkanPolygonModeConstants>(
            value.native::<VulkanPolygonModeConstants>(),
        ) == Some(value),
{
    assert(PolygonMode::injective::<VulkanPolygonModeConstants>()) by {
        assert forall|a: PolygonMode, b: PolygonMode|
            #![trigger a.native::<VulkanPolygonModeConstants>(), b.native::<VulkanPolygonModeConstants>()]
            a.native::<VulkanPolygonModeConstants>()
                == b.native::<VulkanPolygonModeConstants>() implies a == b by {}
    }
    PolygonMode::law_round_trip::<VulkanPolygonModeConstants>(value);
}

/// Vulkan gives no two cull modes the same number, so converting one into its
/// number and back is the identity.
pub proof fn law_vulkan_cull_modes(value: CullMode)
    ensures
        CullMode::injective::<VulkanCullModeConstants>(),
        CullMode::decode::<VulkanCullModeConstants>(
            value.native::<VulkanCullModeConstants>(),
        ) == Some(value),
{
    assert(CullMode::injective::<VulkanCullModeConstants>()) by {
        assert forall|a: CullMode, b: CullMode|
            #![trigger a.native::<VulkanCullModeConstants>(), b.native::<VulkanCullModeConstants>()]
            a.native::<VulkanCullModeConstants>()
                == b.native::<VulkanCullModeConstants>() implies a == b by {}
    }
    CullMode::law_round_trip::<VulkanCullModeConstants>(value);
}

/// Vulkan gives no two front faces the same number, so converting one into its
/// number and back is the identity.
pub proof fn law_vulkan_front_faces(value: FrontFace)
    ensures
        FrontFace::injective::<VulkanFrontFaceConstants>(),
        FrontFace::decode::<VulkanFrontFaceConstants>(
            value.native::<VulkanFrontFaceConstants>(),
        ) == Some(value),
{
    assert(FrontFace::injective::<VulkanFrontFaceConstants>()) by {
        assert forall|a: FrontFace, b: FrontFace|
            #![trigger a.native::<VulkanFrontFaceConstants>(), b.native::<VulkanFrontFaceConstants>()]
            a.native::<VulkanFrontFaceConstants>()
                == b.native::<VulkanFrontFaceConstants>() implies a == b by {}
    }
    FrontFace::law_round_trip::<VulkanFrontFaceConstants>(value);
}

/// Vulkan gives no two primitive topologies the same number, so converting one into its
/// number and back is the identity.
pub proof fn law_vulkan_primitive_topologies(value: PrimitiveTopology)
    ensures
        PrimitiveTopology::injective::<VulkanPrimitiveTopologyConstants>(),
        PrimitiveTopology::decode::<VulkanPrimitiveTopologyConstants>(
            value.native::<VulkanPrimitiveTopologyConstants>(),
        ) == Some(value),
{
    assert(PrimitiveTopology::injective::<VulkanPrimitiveTopologyConstants>()) by {
        assert forall|a: PrimitiveTopology, b: PrimitiveTopology|
            #![trigger a.native::<VulkanPrimitiveTopologyConstants>(), b.native::<VulkanPrimitiveTopologyConstants>()]
            a.native::<VulkanPrimitiveTopologyConstants>()
                == b.native::<VulkanPrimitiveTopologyConstants>() implies a == b by {}
    }
    PrimitiveTopology::law_round_trip::<VulkanPrimitiveTopologyConstants>(value);
}

/// Vulkan gives each colour component a bit of its own, so converting a set of
/// components into its mask and back is the identity.
pub proof fn law_vulkan_color_components(flags: ColorComponentFlags)
    ensures
        ColorComponentFlags::decode::<VulkanColorComponentConstants>(
            flags.native::<VulkanColorComponentConstants>(),
        ) == Some(flags),
{
    let r = crate::datatypes::mask(flags.r, 1);
    let g = crate::datatypes::mask(flags.g, 2);
    let b = crate::datatypes::mask(flags.b, 4);
    let a = crate::datatypes::mask(flags.a, 8);
    assert({
        &&& (r | g | b | a) & !15i32 == 0
        &&& ((r | g | b | a) & 1 == 1) == (r == 1)
        &&& ((r | g | b | a) & 2 == 2) == (g == 2)
        &&& ((r | g | b | a) & 4 == 4) == (b == 4)
        &&& ((r | g | b | a) & 8 == 8) == (a == 8)
    }) by (bit_vector)
        requires
            r == 0 || r == 1,
            g == 0 || g == 2,
            b == 0 || b == 4,
            a == 0 || a == 8,
    ;
}

/// The table of the device types that Vulkan knows, in numbers.
///
/// The value of an associated constant is visible only in the module of its impl: this
/// states each to every caller.
pub proof fn law_vulkan_device_type_numbers()
    ensures
        VulkanDeviceTypes::OTHER == 0,
        VulkanDeviceTypes::INTEGRATED_GPU == 1,
        VulkanDeviceTypes::DISCRETE_GPU == 2,
        VulkanDeviceTypes::VIRTUAL_GPU == 3,
        VulkanDeviceTypes::CPU == 4,
{
}

/// The table of the composite-alpha modes that Vulkan knows, in numbers.
///
/// The value of an associated constant is visible only in the module of its impl: this
/// states each to every caller.
pub proof fn law_vulkan_composite_alpha_numbers()
    ensures
        VulkanCompositeAlphaModes::OPAQUE == 1,
        VulkanCompositeAlphaModes::PRE_MULTIPLIED == 2,
        VulkanCompositeAlphaModes::POST_MULTIPLIED == 4,
        VulkanCompositeAlphaModes::INHERIT == 8,
{
}

/// The table of the colour spaces that Vulkan knows, in numbers.
///
/// The value of an associated constant is visible only in the module of its impl: this
/// states each to every caller.
pub proof fn law_vulkan_color_space_numbers()
    ensures
        VulkanColorSpaces::SRGB_NONLINEAR == 0,
        VulkanColorSpaces::SRGB_EXT_LINEAR == 1000104002,
        VulkanColorSpaces::HDR10_ST2084 == 1000104008,
        VulkanColorSpaces::HDR10_HLG == 1000104010,
{
}

/// The table of the formats that Vulkan knows, in numbers.
///
/// The value of an associated constant is visible only in the module of its impl: this
/// states each to every caller.
pub proof fn law_vulkan_format_numbers()
    ensures
        VulkanRenderTargetFormatConstants::R8_UINT == 13,
        VulkanRenderTargetFormatConstants::R8_SINT == 14,
        VulkanRenderTargetFormatConstants::R8_UNORM == 9,
        VulkanRenderTargetFormatConstants::R8_SNORM == 10,
        VulkanRenderTargetFormatConstants::R8G8_UINT == 20,
        VulkanRenderTargetFormatConstants::R8G8_SINT == 21,
        VulkanRenderTargetFormatConstants::R8G8_UNORM == 16,
        VulkanRenderTargetFormatConstants::R8G8_SNORM == 17,
        VulkanRenderTargetFormatConstants::R8G8B8A8_UINT == 41,
        VulkanRenderTargetFormatConstants::R8G8B8A8_SINT == 42,
        VulkanRenderTargetFormatConstants::R8G8B8A8_UNORM == 37,
        VulkanRenderTargetFormatConstants::R8G8B8A8_SNORM == 38,
        VulkanRenderTargetFormatConstants::R8G8B8A8_UNORM_SRGB == 43,
        VulkanRenderTargetFormatConstants::B8G8R8A8_UNORM == 44,
        VulkanRenderTargetFormatConstants::B8G8R8A8_UNORM_SRGB == 50,
        VulkanRenderTargetFormatConstants::R16_UINT == 74,
        VulkanRenderTargetFormatConstants::R16_SINT == 75,
        VulkanRenderTargetFormatConstants::R16_UNORM == 70,
        VulkanRenderTargetFormatConstants::R16_SNORM == 71,
        VulkanRenderTargetFormatConstants::R16G16_UINT == 81,
        VulkanRenderTargetFormatConstants::R16G16_SINT == 82,
        VulkanRenderTargetFormatConstants::R16G16_UNORM == 77,
        VulkanRenderTargetFormatConstants::R16G16_SNORM == 78,
        VulkanRenderTargetFormatConstants::R16G16B16A16_UINT == 95,
        VulkanRenderTargetFormatConstants::R16G16B16A16_SINT == 96,
        VulkanRenderTargetFormatConstants::R16G16B16A16_UNORM == 91,
        VulkanRenderTargetFormatConstants::R16G16B16A16_SNORM == 92,
        VulkanRenderTargetFormatConstants::R16G16B16A16_SFLOAT == 97,
        VulkanRenderTargetFormatConstants::R32_UINT == 98,
        VulkanRenderTargetFormatConstants::R32_SINT == 99,
        VulkanRenderTargetFormatConstants::R32_SFLOAT == 100,
        VulkanRenderTargetFormatConstants::R32G32_UINT == 101,
        VulkanRenderTargetFormatConstants::R32G32_SINT == 102,
        VulkanRenderTargetFormatConstants::R32G32_SFLOAT == 103,
        VulkanRenderTargetFormatConstants::R32G32B32_UINT == 104,
        VulkanRenderTargetFormatConstants::R32G32B32_SINT == 105,
        VulkanRenderTargetFormatConstants::R32G32B32_SFLOAT == 106,
        VulkanRenderTargetFormatConstants::R32G32B32A32_UINT == 107,
        VulkanRenderTargetFormatConstants::R32G32B32A32_SINT == 108,
        VulkanRenderTargetFormatConstants::R32G32B32A32_SFLOAT == 109,
        VulkanRenderTargetFormatConstants::R10G10B10A2_UINT == 68,
        VulkanRenderTargetFormatConstants::R10G10B10A2_UNORM == 64,
{
}

/// The table of the present modes that Vulkan knows, in numbers.
///
/// The value of an associated constant is visible only in the module of its impl: this
/// states each to every caller.
pub proof fn law_vulkan_present_mode_numbers()
    ensures
        VulkanPresentModeConstants::IMMEDIATE == 0,
        VulkanPresentModeConstants::MAILBOX == 1,
        VulkanPresentModeConstants::FIFO == 2,
        VulkanPresentModeConstants::FIFO_RELAXED == 3,
{
}

/// The table of the blend operations that Vulkan knows, in numbers.
///
/// The value of an associated constant is visible only in the module of its impl: this
/// states each to every caller.
pub proof fn law_vulkan_blend_op_numbers()
    ensures
        VulkanBlendOpConstants::ADD == 0,
        VulkanBlendOpConstants::SUBTRACT == 1,
        VulkanBlendOpConstants::REVERSE_SUBTRACT == 2,
        VulkanBlendOpConstants::MIN == 3,
        VulkanBlendOpConstants::MAX == 4,
{
}

/// The table of the blend factors that Vulkan knows, in numbers.
///
/// The value of an associated constant is visible only in the module of its impl: this
/// states each to every caller.
pub proof fn law_vulkan_blend_factor_numbers()
    ensures
        VulkanBlendFactorConstants::ZERO == 0,
        VulkanBlendFactorConstants::ONE == 1,
        VulkanBlendFactorConstants::SRC_COLOR == 2,
        VulkanBlendFactorConstants::ONE_MINUS_SRC_COLOR == 3,
        VulkanBlendFactorConstants::DST_COLOR == 4,
        VulkanBlendFactorConstants::ONE_MINUS_DST_COLOR == 5,
        VulkanBlendFactorConstants::SRC_ALPHA == 6,
        VulkanBlendFactorConstants::ONE_MINUS_SRC_ALPHA == 7,
        VulkanBlendFactorConstants::DST_ALPHA == 8,
        VulkanBlendFactorConstants::ONE_MINUS_DST_ALPHA == 9,
{
}

/// The table of the colour components that Vulkan knows, in numbers.
///
/// The value of an associated constant is visible only in the module of its impl: this
/// states each to every caller.
pub proof fn law_vulkan_color_component_numbers()
    ensures
        VulkanColorComponentConstants::R == 1,
        VulkanColorComponentConstants::G == 2,
        VulkanColorComponentConstants::B == 4,
        VulkanColorComponentConstants::A == 8,
        VulkanColorComponentConstants::ALL == 15,
{
}

/// The table of the polygon modes that Vulkan knows, in numbers.
///
/// The value of an associated constant is visible only in the module of its impl: this
/// states each to every caller.
pub proof fn law_vulkan_polygon_mode_numbers()
    ensures
        VulkanPolygonModeConstants::FILL == 0,
        VulkanPolygonModeConstants::LINE == 1,
{
}

/// The table of the cull modes that Vulkan knows, in numbers.
///
/// The value of an associated constant is visible only in the module of its impl: this
/// states each to every caller.
pub proof fn law_vulkan_cull_mode_numbers()
    ensures
        VulkanCullModeConstants::NONE == 0,
        VulkanCullModeConstants::FRONT == 1,
        VulkanCullModeConstants::BACK == 2,
{
}

/// The table of the front faces that Vulkan knows, in numbers.
///
/// The value of an associated constant is visible only in the module of its impl: this
/// states each to every caller.
pub proof fn law_vulkan_front_face_numbers()
    ensures
        VulkanFrontFaceConstants::CLOCKWISE == 1,
        VulkanFrontFaceConstants::COUNTER_CLOCKWISE == 0,
{
}

/// The table of the primitive topologies that Vulkan knows, in numbers.
///
/// The value of an associated constant is visible only in the module of its impl: this
/// states each to every caller.
pub proof fn law_vulkan_primitive_topology_numbers()
    ensures
        VulkanPrimitiveTopologyConstants::POINT_LIST == 0,
        VulkanPrimitiveTopologyConstants::LINE_LIST == 1,
        VulkanPrimitiveTopologyConstants::LINE_STRIP == 2,
        VulkanPrimitiveTopologyConstants::TRIANGLE_LIST == 3,
        VulkanPrimitiveTopologyConstants::TRIANGLE_STRIP == 4,
        VulkanPrimitiveTopologyConstants::TRIANGLE_FAN == 5,
        VulkanPrimitiveTopologyConstants::LINE_LIST_WITH_ADJACENCY == 6,
        VulkanPrimitiveTopologyConstants::LINE_STRIP_WITH_ADJACENCY == 7,
        VulkanPrimitiveTopologyConstants::TRIANGLE_LIST_WITH_ADJACENCY == 8,
        VulkanPrimitiveTopologyConstants::TRIANGLE_STRIP_WITH_ADJACENCY == 9,
        VulkanPrimitiveTopologyConstants::PATCH_LIST == 10,
{
}

} // verus!
