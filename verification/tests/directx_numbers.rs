use xgpu::api::directx::native;
use xgpu::api::directx::{
    DirectXBlendFactors, DirectXBlendOps, DirectXColorComponentConstants, DirectXColorSpaces,
    DirectXCompositeAlphaModes, DirectXCullModes, DirectXDataFormats, DirectXDeviceTypes,
    DirectXFrontFaces, DirectXPolygonModes, DirectXPresentModes, DirectXPrimitiveTopologies,
};
use xgpu::api::traits::constants::{
    BlendFactorConstants, BlendOpConstants, ColorComponentConstants, ColorSpaceConstants,
    CompositeAlphaConstants, CullModeConstants, DataFormatConstants, DeviceTypeConstants,
    FrontFaceConstants, PolygonModeConstants, PresentModeConstants, PrimitiveTopologyConstants,
};
use xgpu::{CullMode, FrontFace, PolygonMode, PrimitiveTopology};
use windows::Win32::Graphics::Direct3D::{
    D3D_FEATURE_LEVEL_12_0, D3D_PRIMITIVE_TOPOLOGY_1_CONTROL_POINT_PATCHLIST,
    D3D_PRIMITIVE_TOPOLOGY_LINELIST, D3D_PRIMITIVE_TOPOLOGY_LINELIST_ADJ,
    D3D_PRIMITIVE_TOPOLOGY_LINESTRIP, D3D_PRIMITIVE_TOPOLOGY_LINESTRIP_ADJ,
    D3D_PRIMITIVE_TOPOLOGY_POINTLIST, D3D_PRIMITIVE_TOPOLOGY_TRIANGLEFAN,
    D3D_PRIMITIVE_TOPOLOGY_TRIANGLELIST, D3D_PRIMITIVE_TOPOLOGY_TRIANGLELIST_ADJ,
    D3D_PRIMITIVE_TOPOLOGY_TRIANGLESTRIP, D3D_PRIMITIVE_TOPOLOGY_TRIANGLESTRIP_ADJ,
};
use windows::Win32::Graphics::Direct3D12::{
    D3D12_BLEND_DEST_ALPHA, D3D12_BLEND_DEST_COLOR, D3D12_BLEND_INV_DEST_ALPHA,
    D3D12_BLEND_INV_DEST_COLOR, D3D12_BLEND_INV_SRC_ALPHA, D3D12_BLEND_INV_SRC_COLOR,
    D3D12_BLEND_ONE, D3D12_BLEND_OP_ADD, D3D12_BLEND_OP_MAX, D3D12_BLEND_OP_MIN,
    D3D12_BLEND_OP_REV_SUBTRACT, D3D12_BLEND_OP_SUBTRACT, D3D12_BLEND_SRC_ALPHA,
    D3D12_BLEND_SRC_COLOR, D3D12_BLEND_ZERO, D3D12_COLOR_WRITE_ENABLE_ALL,
    D3D12_COLOR_WRITE_ENABLE_ALPHA, D3D12_COLOR_WRITE_ENABLE_BLUE,
    D3D12_COLOR_WRITE_ENABLE_GREEN, D3D12_COLOR_WRITE_ENABLE_RED,
    D3D12_COMMAND_LIST_TYPE_DIRECT, D3D12_COMMAND_QUEUE_FLAG_NONE,
    D3D12_COMMAND_QUEUE_PRIORITY_NORMAL, D3D12_COMPARISON_FUNC_NEVER,
    D3D12_CONSERVATIVE_RASTERIZATION_MODE_OFF, D3D12_CULL_MODE_BACK, D3D12_CULL_MODE_FRONT,
    D3D12_CULL_MODE_NONE, D3D12_DEFAULT_DEPTH_BIAS,
    D3D12_DEPTH_WRITE_MASK_ZERO, D3D12_FENCE_FLAG_NONE, D3D12_FILL_MODE_SOLID,
    D3D12_FILL_MODE_WIREFRAME,
    D3D12_INDEX_BUFFER_STRIP_CUT_VALUE_DISABLED, D3D12_LOGIC_OP_NOOP,
    D3D12_PIPELINE_STATE_FLAG_NONE, D3D12_PRIMITIVE_TOPOLOGY_TYPE_LINE,
    D3D12_PRIMITIVE_TOPOLOGY_TYPE_PATCH, D3D12_PRIMITIVE_TOPOLOGY_TYPE_POINT,
    D3D12_PRIMITIVE_TOPOLOGY_TYPE_TRIANGLE, D3D12_STENCIL_OP_KEEP,
};
use windows::Win32::Graphics::Dxgi::{
    DXGI_CREATE_FACTORY_DEBUG, DXGI_MAX_SWAP_CHAIN_BUFFERS, DXGI_SCALING_STRETCH,
    DXGI_SWAP_EFFECT_FLIP_SEQUENTIAL, DXGI_USAGE_RENDER_TARGET_OUTPUT,
};
use windows::Win32::Graphics::Dxgi::Common::{
    DXGI_ALPHA_MODE_IGNORE, DXGI_ALPHA_MODE_PREMULTIPLIED, DXGI_ALPHA_MODE_STRAIGHT,
    DXGI_ALPHA_MODE_UNSPECIFIED, DXGI_COLOR_SPACE_RGB_FULL_G10_NONE_P709,
    DXGI_COLOR_SPACE_RGB_FULL_G2084_NONE_P2020, DXGI_COLOR_SPACE_RGB_FULL_G22_NONE_P709,
    DXGI_COLOR_SPACE_YCBCR_FULL_GHLG_TOPLEFT_P2020, DXGI_FORMAT_B8G8R8A8_UNORM,
    DXGI_FORMAT_B8G8R8A8_UNORM_SRGB, DXGI_FORMAT_R10G10B10A2_UINT,
    DXGI_FORMAT_R10G10B10A2_UNORM, DXGI_FORMAT_R16G16B16A16_FLOAT,
    DXGI_FORMAT_R16G16B16A16_SINT, DXGI_FORMAT_R16G16B16A16_SNORM,
    DXGI_FORMAT_R16G16B16A16_UINT, DXGI_FORMAT_R16G16B16A16_UNORM, DXGI_FORMAT_R16G16_SINT,
    DXGI_FORMAT_R16G16_SNORM, DXGI_FORMAT_R16G16_UINT, DXGI_FORMAT_R16G16_UNORM,
    DXGI_FORMAT_R16_SINT, DXGI_FORMAT_R16_SNORM, DXGI_FORMAT_R16_UINT, DXGI_FORMAT_R16_UNORM,
    DXGI_FORMAT_R32G32B32A32_FLOAT, DXGI_FORMAT_R32G32B32A32_SINT,
    DXGI_FORMAT_R32G32B32A32_UINT, DXGI_FORMAT_R32G32B32_FLOAT, DXGI_FORMAT_R32G32B32_SINT,
    DXGI_FORMAT_R32G32B32_UINT, DXGI_FORMAT_R32G32_FLOAT, DXGI_FORMAT_R32G32_SINT,
    DXGI_FORMAT_R32G32_UINT, DXGI_FORMAT_R32_FLOAT, DXGI_FORMAT_R32_SINT, DXGI_FORMAT_R32_UINT,
    DXGI_FORMAT_R8G8B8A8_SINT, DXGI_FORMAT_R8G8B8A8_SNORM, DXGI_FORMAT_R8G8B8A8_UINT,
    DXGI_FORMAT_R8G8B8A8_UNORM, DXGI_FORMAT_R8G8B8A8_UNORM_SRGB, DXGI_FORMAT_R8G8_SINT,
    DXGI_FORMAT_R8G8_SNORM, DXGI_FORMAT_R8G8_UINT, DXGI_FORMAT_R8G8_UNORM, DXGI_FORMAT_R8_SINT,
    DXGI_FORMAT_R8_SNORM, DXGI_FORMAT_R8_UINT, DXGI_FORMAT_R8_UNORM,
};

#[test]
fn directx_device_types_are_those_of_the_system() {
    assert_eq!(<DirectXDeviceTypes as DeviceTypeConstants>::OTHER, 0);
    assert_eq!(<DirectXDeviceTypes as DeviceTypeConstants>::INTEGRATED_GPU, 1);
    assert_eq!(<DirectXDeviceTypes as DeviceTypeConstants>::DISCRETE_GPU, 2);
    assert_eq!(<DirectXDeviceTypes as DeviceTypeConstants>::VIRTUAL_GPU, 3);
    assert_eq!(<DirectXDeviceTypes as DeviceTypeConstants>::CPU, 4);
}

#[test]
fn directx_composite_alpha_modes_are_those_of_the_system() {
    assert_eq!(
        <DirectXCompositeAlphaModes as CompositeAlphaConstants>::OPAQUE,
        DXGI_ALPHA_MODE_IGNORE.0 as i32
    );
    assert_eq!(
        <DirectXCompositeAlphaModes as CompositeAlphaConstants>::PRE_MULTIPLIED,
        DXGI_ALPHA_MODE_PREMULTIPLIED.0 as i32
    );
    assert_eq!(
        <DirectXCompositeAlphaModes as CompositeAlphaConstants>::POST_MULTIPLIED,
        DXGI_ALPHA_MODE_STRAIGHT.0 as i32
    );
    assert_eq!(
        <DirectXCompositeAlphaModes as CompositeAlphaConstants>::INHERIT,
        DXGI_ALPHA_MODE_UNSPECIFIED.0 as i32
    );
}

#[test]
fn directx_color_spaces_are_those_of_the_system() {
    assert_eq!(
        <DirectXColorSpaces as ColorSpaceConstants>::SRGB_NONLINEAR,
        DXGI_COLOR_SPACE_RGB_FULL_G22_NONE_P709.0 as i32
    );
    assert_eq!(
        <DirectXColorSpaces as ColorSpaceConstants>::SRGB_EXT_LINEAR,
        DXGI_COLOR_SPACE_RGB_FULL_G10_NONE_P709.0 as i32
    );
    assert_eq!(
        <DirectXColorSpaces as ColorSpaceConstants>::HDR10_ST2084,
        DXGI_COLOR_SPACE_RGB_FULL_G2084_NONE_P2020.0 as i32
    );
    assert_eq!(
        <DirectXColorSpaces as ColorSpaceConstants>::HDR10_HLG,
        DXGI_COLOR_SPACE_YCBCR_FULL_GHLG_TOPLEFT_P2020.0 as i32
    );
}

#[test]
fn directx_data_formats_are_those_of_the_system() {
    assert_eq!(<DirectXDataFormats as DataFormatConstants>::R8_UINT, DXGI_FORMAT_R8_UINT.0 as i32);
    assert_eq!(<DirectXDataFormats as DataFormatConstants>::R8_SINT, DXGI_FORMAT_R8_SINT.0 as i32);
    assert_eq!(
        <DirectXDataFormats as DataFormatConstants>::R8_UNORM,
        DXGI_FORMAT_R8_UNORM.0 as i32
    );
    assert_eq!(
        <DirectXDataFormats as DataFormatConstants>::R8_SNORM,
        DXGI_FORMAT_R8_SNORM.0 as i32
    );
    assert_eq!(
        <DirectXDataFormats as DataFormatConstants>::R8G8_UINT,
        DXGI_FORMAT_R8G8_UINT.0 as i32
    );
    assert_eq!(
        <DirectXDataFormats as DataFormatConstants>::R8G8_SINT,
        DXGI_FORMAT_R8G8_SINT.0 as i32
    );
    assert_eq!(
        <DirectXDataFormats as DataFormatConstants>::R8G8_UNORM,
        DXGI_FORMAT_R8G8_UNORM.0 as i32
    );
    assert_eq!(
        <DirectXDataFormats as DataFormatConstants>::R8G8_SNORM,
        DXGI_FORMAT_R8G8_SNORM.0 as i32
    );
    assert_eq!(
        <DirectXDataFormats as DataFormatConstants>::R8G8B8A8_UINT,
        DXGI_FORMAT_R8G8B8A8_UINT.0 as i32
    );
    assert_eq!(
        <DirectXDataFormats as DataFormatConstants>::R8G8B8A8_SINT,
        DXGI_FORMAT_R8G8B8A8_SINT.0 as i32
    );
    assert_eq!(
        <DirectXDataFormats as DataFormatConstants>::R8G8B8A8_UNORM,
        DXGI_FORMAT_R8G8B8A8_UNORM.0 as i32
    );
    assert_eq!(
        <DirectXDataFormats as DataFormatConstants>::R8G8B8A8_SNORM,
        DXGI_FORMAT_R8G8B8A8_SNORM.0 as i32
    );
    assert_eq!(
        <DirectXDataFormats as DataFormatConstants>::R8G8B8A8_UNORM_SRGB,
        DXGI_FORMAT_R8G8B8A8_UNORM_SRGB.0 as i32
    );
    assert_eq!(
        <DirectXDataFormats as DataFormatConstants>::B8G8R8A8_UNORM,
        DXGI_FORMAT_B8G8R8A8_UNORM.0 as i32
    );
    assert_eq!(
        <DirectXDataFormats as DataFormatConstants>::B8G8R8A8_UNORM_SRGB,
        DXGI_FORMAT_B8G8R8A8_UNORM_SRGB.0 as i32
    );
    assert_eq!(
        <DirectXDataFormats as DataFormatConstants>::R16_UINT,
        DXGI_FORMAT_R16_UINT.0 as i32
    );
    assert_eq!(
        <DirectXDataFormats as DataFormatConstants>::R16_SINT,
        DXGI_FORMAT_R16_SINT.0 as i32
    );
    assert_eq!(
        <DirectXDataFormats as DataFormatConstants>::R16_UNORM,
        DXGI_FORMAT_R16_UNORM.0 as i32
    );
    assert_eq!(
        <DirectXDataFormats as DataFormatConstants>::R16_SNORM,
        DXGI_FORMAT_R16_SNORM.0 as i32
    );
    assert_eq!(
        <DirectXDataFormats as DataFormatConstants>::R16G16_UINT,
        DXGI_FORMAT_R16G16_UINT.0 as i32
    );
    assert_eq!(
        <DirectXDataFormats as DataFormatConstants>::R16G16_SINT,
        DXGI_FORMAT_R16G16_SINT.0 as i32
    );
    assert_eq!(
        <DirectXDataFormats as DataFormatConstants>::R16G16_UNORM,
        DXGI_FORMAT_R16G16_UNORM.0 as i32
    );
    assert_eq!(
        <DirectXDataFormats as DataFormatConstants>::R16G16_SNORM,
        DXGI_FORMAT_R16G16_SNORM.0 as i32
    );
    assert_eq!(
        <DirectXDataFormats as DataFormatConstants>::R16G16B16A16_UINT,
        DXGI_FORMAT_R16G16B16A16_UINT.0 as i32
    );
    assert_eq!(
        <DirectXDataFormats as DataFormatConstants>::R16G16B16A16_SINT,
        DXGI_FORMAT_R16G16B16A16_SINT.0 as i32
    );
    assert_eq!(
        <DirectXDataFormats as DataFormatConstants>::R16G16B16A16_UNORM,
        DXGI_FORMAT_R16G16B16A16_UNORM.0 as i32
    );
    assert_eq!(
        <DirectXDataFormats as DataFormatConstants>::R16G16B16A16_SNORM,
        DXGI_FORMAT_R16G16B16A16_SNORM.0 as i32
    );
    assert_eq!(
        <DirectXDataFormats as DataFormatConstants>::R16G16B16A16_SFLOAT,
        DXGI_FORMAT_R16G16B16A16_FLOAT.0 as i32
    );
    assert_eq!(
        <DirectXDataFormats as DataFormatConstants>::R32_UINT,
        DXGI_FORMAT_R32_UINT.0 as i32
    );
    assert_eq!(
        <DirectXDataFormats as DataFormatConstants>::R32_SINT,
        DXGI_FORMAT_R32_SINT.0 as i32
    );
    assert_eq!(
        <DirectXDataFormats as DataFormatConstants>::R32_SFLOAT,
        DXGI_FORMAT_R32_FLOAT.0 as i32
    );
    assert_eq!(
        <DirectXDataFormats as DataFormatConstants>::R32G32_UINT,
        DXGI_FORMAT_R32G32_UINT.0 as i32
    );
    assert_eq!(
        <DirectXDataFormats as DataFormatConstants>::R32G32_SINT,
        DXGI_FORMAT_R32G32_SINT.0 as i32
    );
    assert_eq!(
        <DirectXDataFormats as DataFormatConstants>::R32G32_SFLOAT,
        DXGI_FORMAT_R32G32_FLOAT.0 as i32
    );
    assert_eq!(
        <DirectXDataFormats as DataFormatConstants>::R32G32B32_UINT,
        DXGI_FORMAT_R32G32B32_UINT.0 as i32
    );
    assert_eq!(
        <DirectXDataFormats as DataFormatConstants>::R32G32B32_SINT,
        DXGI_FORMAT_R32G32B32_SINT.0 as i32
    );
    assert_eq!(
        <DirectXDataFormats as DataFormatConstants>::R32G32B32_SFLOAT,
        DXGI_FORMAT_R32G32B32_FLOAT.0 as i32
    );
    assert_eq!(
        <DirectXDataFormats as DataFormatConstants>::R32G32B32A32_UINT,
        DXGI_FORMAT_R32G32B32A32_UINT.0 as i32
    );
    assert_eq!(
        <DirectXDataFormats as DataFormatConstants>::R32G32B32A32_SINT,
        DXGI_FORMAT_R32G32B32A32_SINT.0 as i32
    );
    assert_eq!(
        <DirectXDataFormats as DataFormatConstants>::R32G32B32A32_SFLOAT,
        DXGI_FORMAT_R32G32B32A32_FLOAT.0 as i32
    );
    assert_eq!(
        <DirectXDataFormats as DataFormatConstants>::R10G10B10A2_UINT,
        DXGI_FORMAT_R10G10B10A2_UINT.0 as i32
    );
    assert_eq!(
        <DirectXDataFormats as DataFormatConstants>::R10G10B10A2_UNORM,
        DXGI_FORMAT_R10G10B10A2_UNORM.0 as i32
    );
}

#[test]
fn directx_present_modes_are_those_of_the_system() {
    assert_eq!(<DirectXPresentModes as PresentModeConstants>::IMMEDIATE, 0);
    assert_eq!(<DirectXPresentModes as PresentModeConstants>::MAILBOX, 1);
    assert_eq!(<DirectXPresentModes as PresentModeConstants>::FIFO, 2);
    assert_eq!(<DirectXPresentModes as PresentModeConstants>::FIFO_RELAXED, 3);
}

#[test]
fn directx_blend_ops_are_those_of_the_system() {
    assert_eq!(<DirectXBlendOps as BlendOpConstants>::ADD, D3D12_BLEND_OP_ADD.0 as i32);
    assert_eq!(<DirectXBlendOps as BlendOpConstants>::SUBTRACT, D3D12_BLEND_OP_SUBTRACT.0 as i32);
    assert_eq!(
        <DirectXBlendOps as BlendOpConstants>::REVERSE_SUBTRACT,
        D3D12_BLEND_OP_REV_SUBTRACT.0 as i32
    );
    assert_eq!(<DirectXBlendOps as BlendOpConstants>::MIN, D3D12_BLEND_OP_MIN.0 as i32);
    assert_eq!(<DirectXBlendOps as BlendOpConstants>::MAX, D3D12_BLEND_OP_MAX.0 as i32);
}

#[test]
fn directx_blend_factors_are_those_of_the_system() {
    assert_eq!(<DirectXBlendFactors as BlendFactorConstants>::ZERO, D3D12_BLEND_ZERO.0 as i32);
    assert_eq!(<DirectXBlendFactors as BlendFactorConstants>::ONE, D3D12_BLEND_ONE.0 as i32);
    assert_eq!(
        <DirectXBlendFactors as BlendFactorConstants>::SRC_COLOR,
        D3D12_BLEND_SRC_COLOR.0 as i32
    );
    assert_eq!(
        <DirectXBlendFactors as BlendFactorConstants>::ONE_MINUS_SRC_COLOR,
        D3D12_BLEND_INV_SRC_COLOR.0 as i32
    );
    assert_eq!(
        <DirectXBlendFactors as BlendFactorConstants>::DST_COLOR,
        D3D12_BLEND_DEST_COLOR.0 as i32
    );
    assert_eq!(
        <DirectXBlendFactors as BlendFactorConstants>::ONE_MINUS_DST_COLOR,
        D3D12_BLEND_INV_DEST_COLOR.0 as i32
    );
    assert_eq!(
        <DirectXBlendFactors as BlendFactorConstants>::SRC_ALPHA,
        D3D12_BLEND_SRC_ALPHA.0 as i32
    );
    assert_eq!(
        <DirectXBlendFactors as BlendFactorConstants>::ONE_MINUS_SRC_ALPHA,
        D3D12_BLEND_INV_SRC_ALPHA.0 as i32
    );
    assert_eq!(
        <DirectXBlendFactors as BlendFactorConstants>::DST_ALPHA,
        D3D12_BLEND_DEST_ALPHA.0 as i32
    );
    assert_eq!(
        <DirectXBlendFactors as BlendFactorConstants>::ONE_MINUS_DST_ALPHA,
        D3D12_BLEND_INV_DEST_ALPHA.0 as i32
    );
}

#[test]
fn directx_color_component_constants_are_those_of_the_system() {
    assert_eq!(
        <DirectXColorComponentConstants as ColorComponentConstants>::R,
        D3D12_COLOR_WRITE_ENABLE_RED.0 as i32
    );
    assert_eq!(
        <DirectXColorComponentConstants as ColorComponentConstants>::G,
        D3D12_COLOR_WRITE_ENABLE_GREEN.0 as i32
    );
    assert_eq!(
        <DirectXColorComponentConstants as ColorComponentConstants>::B,
        D3D12_COLOR_WRITE_ENABLE_BLUE.0 as i32
    );
    assert_eq!(
        <DirectXColorComponentConstants as ColorComponentConstants>::A,
        D3D12_COLOR_WRITE_ENABLE_ALPHA.0 as i32
    );
    assert_eq!(
        <DirectXColorComponentConstants as ColorComponentConstants>::ALL,
        D3D12_COLOR_WRITE_ENABLE_ALL.0 as i32
    );
}

#[test]
fn the_numbers_of_the_descriptions_are_those_of_the_system() {
    assert_eq!(native::DXGI_CREATE_FACTORY_DEBUG, DXGI_CREATE_FACTORY_DEBUG as u32);
    assert_eq!(native::D3D_FEATURE_LEVEL_12_0, D3D_FEATURE_LEVEL_12_0.0 as i32);
    assert_eq!(native::D3D12_COMMAND_LIST_TYPE_DIRECT, D3D12_COMMAND_LIST_TYPE_DIRECT.0 as i32);
    assert_eq!(
        native::D3D12_COMMAND_QUEUE_PRIORITY_NORMAL,
        D3D12_COMMAND_QUEUE_PRIORITY_NORMAL.0 as i32
    );
    assert_eq!(native::D3D12_COMMAND_QUEUE_FLAG_NONE, D3D12_COMMAND_QUEUE_FLAG_NONE.0 as i32);
    assert_eq!(native::D3D12_FENCE_FLAG_NONE, D3D12_FENCE_FLAG_NONE.0 as i32);
    assert_eq!(native::DXGI_MAX_SWAP_CHAIN_BUFFERS, DXGI_MAX_SWAP_CHAIN_BUFFERS as u32);
    assert_eq!(native::DXGI_USAGE_RENDER_TARGET_OUTPUT, DXGI_USAGE_RENDER_TARGET_OUTPUT.0 as u32);
    assert_eq!(native::DXGI_SCALING_STRETCH, DXGI_SCALING_STRETCH.0 as i32);
    assert_eq!(native::DXGI_SWAP_EFFECT_FLIP_SEQUENTIAL, DXGI_SWAP_EFFECT_FLIP_SEQUENTIAL.0 as i32);
    assert_eq!(
        native::D3D12_PRIMITIVE_TOPOLOGY_TYPE_POINT,
        D3D12_PRIMITIVE_TOPOLOGY_TYPE_POINT.0 as i32
    );
    assert_eq!(
        native::D3D12_PRIMITIVE_TOPOLOGY_TYPE_LINE,
        D3D12_PRIMITIVE_TOPOLOGY_TYPE_LINE.0 as i32
    );
    assert_eq!(
        native::D3D12_PRIMITIVE_TOPOLOGY_TYPE_TRIANGLE,
        D3D12_PRIMITIVE_TOPOLOGY_TYPE_TRIANGLE.0 as i32
    );
    assert_eq!(
        native::D3D12_PRIMITIVE_TOPOLOGY_TYPE_PATCH,
        D3D12_PRIMITIVE_TOPOLOGY_TYPE_PATCH.0 as i32
    );
    assert_eq!(native::D3D12_DEFAULT_DEPTH_BIAS, D3D12_DEFAULT_DEPTH_BIAS as i32);
    assert_eq!(
        native::D3D12_CONSERVATIVE_RASTERIZATION_MODE_OFF,
        D3D12_CONSERVATIVE_RASTERIZATION_MODE_OFF.0 as i32
    );
    assert_eq!(native::D3D12_DEPTH_WRITE_MASK_ZERO, D3D12_DEPTH_WRITE_MASK_ZERO.0 as i32);
    assert_eq!(native::D3D12_COMPARISON_FUNC_NEVER, D3D12_COMPARISON_FUNC_NEVER.0 as i32);
    assert_eq!(native::D3D12_STENCIL_OP_KEEP, D3D12_STENCIL_OP_KEEP.0 as i32);
    assert_eq!(native::D3D12_LOGIC_OP_NOOP, D3D12_LOGIC_OP_NOOP.0 as i32);
    assert_eq!(
        native::D3D12_INDEX_BUFFER_STRIP_CUT_VALUE_DISABLED,
        D3D12_INDEX_BUFFER_STRIP_CUT_VALUE_DISABLED.0 as i32
    );
    assert_eq!(native::D3D12_PIPELINE_STATE_FLAG_NONE, D3D12_PIPELINE_STATE_FLAG_NONE.0 as i32);
}

#[test]
fn directx_rasterisation_numbers_are_those_of_the_system() {

    let fill = |mode: PolygonMode| mode.to_native::<DirectXPolygonModes>();
    assert_eq!(fill(PolygonMode::Fill), D3D12_FILL_MODE_SOLID.0 as i32);
    assert_eq!(fill(PolygonMode::Wireframe), D3D12_FILL_MODE_WIREFRAME.0 as i32);
    assert_eq!(<DirectXPolygonModes as PolygonModeConstants>::FILL, D3D12_FILL_MODE_SOLID.0 as i32);
    let cull = |mode: CullMode| mode.to_native::<DirectXCullModes>();
    assert_eq!(cull(CullMode::Nothing), D3D12_CULL_MODE_NONE.0 as i32);
    assert_eq!(cull(CullMode::Front), D3D12_CULL_MODE_FRONT.0 as i32);
    assert_eq!(cull(CullMode::Back), D3D12_CULL_MODE_BACK.0 as i32);
    assert_eq!(<DirectXCullModes as CullModeConstants>::BACK, D3D12_CULL_MODE_BACK.0 as i32);
    assert_eq!(FrontFace::Clockwise.to_native::<DirectXFrontFaces>(), 0);
    assert_eq!(FrontFace::CounterClockwise.to_native::<DirectXFrontFaces>(), 1);
    assert_eq!(<DirectXFrontFaces as FrontFaceConstants>::COUNTER_CLOCKWISE, 1);
    let topology = |topology: PrimitiveTopology| topology.to_native::<DirectXPrimitiveTopologies>();
    for (abstract_topology, native_topology) in [
        (PrimitiveTopology::PointList, D3D_PRIMITIVE_TOPOLOGY_POINTLIST),
        (PrimitiveTopology::LineList, D3D_PRIMITIVE_TOPOLOGY_LINELIST),
        (PrimitiveTopology::LineStrip, D3D_PRIMITIVE_TOPOLOGY_LINESTRIP),
        (PrimitiveTopology::TriangleList, D3D_PRIMITIVE_TOPOLOGY_TRIANGLELIST),
        (PrimitiveTopology::TriangleStrip, D3D_PRIMITIVE_TOPOLOGY_TRIANGLESTRIP),
        (PrimitiveTopology::TriangleFan, D3D_PRIMITIVE_TOPOLOGY_TRIANGLEFAN),
        (PrimitiveTopology::LineListWithAdjacency, D3D_PRIMITIVE_TOPOLOGY_LINELIST_ADJ),
        (PrimitiveTopology::LineStripWithAdjacency, D3D_PRIMITIVE_TOPOLOGY_LINESTRIP_ADJ),
        (PrimitiveTopology::TriangleListWithAdjacency, D3D_PRIMITIVE_TOPOLOGY_TRIANGLELIST_ADJ),
        (PrimitiveTopology::TriangleStripWithAdjacency, D3D_PRIMITIVE_TOPOLOGY_TRIANGLESTRIP_ADJ),
        (PrimitiveTopology::PatchList, D3D_PRIMITIVE_TOPOLOGY_1_CONTROL_POINT_PATCHLIST),
    ] {
        assert_eq!(topology(abstract_topology), native_topology.0);
        assert_eq!(
            PrimitiveTopology::try_from_native::<DirectXPrimitiveTopologies>(native_topology.0),
            Some(abstract_topology)
        );
    }
    assert_eq!(<DirectXPrimitiveTopologies as PrimitiveTopologyConstants>::PATCH_LIST, 33);
}
