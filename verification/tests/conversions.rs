use xgpu::api::directx::{
    DirectXBlendFactors, DirectXBlendOps, DirectXColorComponentConstants, DirectXColorSpaces,
    DirectXCompositeAlphaModes, DirectXDataFormats, DirectXDeviceTypes, DirectXPresentModes,
};
use xgpu::api::vulkan::{
    VulkanBlendFactorConstants, VulkanBlendOpConstants, VulkanColorComponentConstants,
    VulkanColorSpaces, VulkanCompositeAlphaModes, VulkanCullModeConstants, VulkanDeviceTypes,
    VulkanFrontFaceConstants, VulkanPolygonModeConstants, VulkanPresentModeConstants,
    VulkanPrimitiveTopologyConstants, VulkanRenderTargetFormatConstants,
};
use xgpu::{
    BlendFactor, BlendOp, ColorComponentFlags, Colorspace, CompositeAlphaMode, CullMode, DeviceType,
    Format, FrontFace, PolygonMode, PresentMode, PrimitiveTopology,
};

fn vulkan_device_type_numbers() -> Vec<(DeviceType, i32)> {
    vec![
        (DeviceType::Other, 0),
        (DeviceType::IntegratedGpu, 1),
        (DeviceType::DiscreteGpu, 2),
        (DeviceType::VirtualGpu, 3),
        (DeviceType::Cpu, 4),
    ]
}

#[test]
fn vulkan_device_type_numbers_convert_both_ways() {
    let numbers = vulkan_device_type_numbers();
    for (value, code) in numbers.iter() {
        assert_eq!(value.to_native::<VulkanDeviceTypes>(), *code);
        assert_eq!(DeviceType::try_from_native::<VulkanDeviceTypes>(*code), Some(*value));
        assert_eq!(DeviceType::from_native::<VulkanDeviceTypes>(*code), *value);
    }
    for code in -3..2000 {
        let known = numbers.iter().find(|(_, c)| *c == code).map(|(v, _)| *v);
        assert_eq!(DeviceType::try_from_native::<VulkanDeviceTypes>(code), known);
    }
    assert_eq!(DeviceType::try_from_native::<VulkanDeviceTypes>(i32::MAX), None);
    assert_eq!(DeviceType::try_from_native::<VulkanDeviceTypes>(i32::MIN), None);
}

fn vulkan_composite_alpha_mode_numbers() -> Vec<(CompositeAlphaMode, i32)> {
    vec![
        (CompositeAlphaMode::Opaque, 1),
        (CompositeAlphaMode::PreMultiplied, 2),
        (CompositeAlphaMode::PostMultiplied, 4),
        (CompositeAlphaMode::Inherit, 8),
    ]
}

#[test]
fn vulkan_composite_alpha_mode_numbers_convert_both_ways() {
    let numbers = vulkan_composite_alpha_mode_numbers();
    for (value, code) in numbers.iter() {
        assert_eq!(value.to_native::<VulkanCompositeAlphaModes>(), *code);
        assert_eq!(CompositeAlphaMode::try_from_native::<VulkanCompositeAlphaModes>(*code), Some(*value));
        assert_eq!(CompositeAlphaMode::from_native::<VulkanCompositeAlphaModes>(*code), *value);
    }
    for code in -3..2000 {
        let known = numbers.iter().find(|(_, c)| *c == code).map(|(v, _)| *v);
        assert_eq!(CompositeAlphaMode::try_from_native::<VulkanCompositeAlphaModes>(code), known);
    }
    assert_eq!(CompositeAlphaMode::try_from_native::<VulkanCompositeAlphaModes>(i32::MAX), None);
    assert_eq!(CompositeAlphaMode::try_from_native::<VulkanCompositeAlphaModes>(i32::MIN), None);
}

fn vulkan_colorspace_numbers() -> Vec<(Colorspace, i32)> {
    vec![
        (Colorspace::SRGB_NONLINEAR, 0),
        (Colorspace::SRGB_EXT_LINEAR, 1000104002),
        (Colorspace::HDR10_ST2084, 1000104008),
        (Colorspace::HDR10_HLG, 1000104010),
    ]
}

#[test]
fn vulkan_colorspace_numbers_convert_both_ways() {
    let numbers = vulkan_colorspace_numbers();
    for (value, code) in numbers.iter() {
        assert_eq!(value.to_native::<VulkanColorSpaces>(), *code);
        assert_eq!(Colorspace::try_from_native::<VulkanColorSpaces>(*code), Some(*value));
        assert_eq!(Colorspace::from_native::<VulkanColorSpaces>(*code), *value);
    }
    for code in -3..2000 {
        let known = numbers.iter().find(|(_, c)| *c == code).map(|(v, _)| *v);
        assert_eq!(Colorspace::try_from_native::<VulkanColorSpaces>(code), known);
    }
    assert_eq!(Colorspace::try_from_native::<VulkanColorSpaces>(i32::MAX), None);
    assert_eq!(Colorspace::try_from_native::<VulkanColorSpaces>(i32::MIN), None);
}

fn vulkan_format_numbers() -> Vec<(Format, i32)> {
    vec![
        (Format::R8_UINT, 13),
        (Format::R8_SINT, 14),
        (Format::R8_UNORM, 9),
        (Format::R8_SNORM, 10),
        (Format::R8G8_UINT, 20),
        (Format::R8G8_SINT, 21),
        (Format::R8G8_UNORM, 16),
        (Format::R8G8_SNORM, 17),
        (Format::R8G8B8A8_UINT, 41),
        (Format::R8G8B8A8_SINT, 42),
        (Format::R8G8B8A8_UNORM, 37),
        (Format::R8G8B8A8_SNORM, 38),
        (Format::R8G8B8A8_UNORM_SRGB, 43),
        (Format::B8G8R8A8_UNORM, 44),
        (Format::B8G8R8A8_UNORM_SRGB, 50),
        (Format::R16_UINT, 74),
        (Format::R16_SINT, 75),
        (Format::R16_UNORM, 70),
        (Format::R16_SNORM, 71),
        (Format::R16G16_UINT, 81),
        (Format::R16G16_SINT, 82),
        (Format::R16G16_UNORM, 77),
        (Format::R16G16_SNORM, 78),
        (Format::R16G16B16A16_UINT, 95),
        (Format::R16G16B16A16_SINT, 96),
        (Format::R16G16B16A16_UNORM, 91),
        (Format::R16G16B16A16_SNORM, 92),
        (Format::R16G16B16A16_SFLOAT, 97),
        (Format::R32_UINT, 98),
        (Format::R32_SINT, 99),
        (Format::R32_SFLOAT, 100),
        (Format::R32G32_UINT, 101),
        (Format::R32G32_SINT, 102),
        (Format::R32G32_SFLOAT, 103),
        (Format::R32G32B32_UINT, 104),
        (Format::R32G32B32_SINT, 105),
        (Format::R32G32B32_SFLOAT, 106),
        (Format::R32G32B32A32_UINT, 107),
        (Format::R32G32B32A32_SINT, 108),
        (Format::R32G32B32A32_SFLOAT, 109),
        (Format::R10G10B10A2_UINT, 68),
        (Format::R10G10B10A2_UNORM, 64),
    ]
}

#[test]
fn vulkan_format_numbers_convert_both_ways() {
    let numbers = vulkan_format_numbers();
    for (value, code) in numbers.iter() {
        assert_eq!(value.to_native::<VulkanRenderTargetFormatConstants>(), *code);
        assert_eq!(Format::try_from_native::<VulkanRenderTargetFormatConstants>(*code), Some(*value));
        assert_eq!(Format::from_native::<VulkanRenderTargetFormatConstants>(*code), *value);
    }
    for code in -3..2000 {
        let known = numbers.iter().find(|(_, c)| *c == code).map(|(v, _)| *v);
        assert_eq!(Format::try_from_native::<VulkanRenderTargetFormatConstants>(code), known);
    }
    assert_eq!(Format::try_from_native::<VulkanRenderTargetFormatConstants>(i32::MAX), None);
    assert_eq!(Format::try_from_native::<VulkanRenderTargetFormatConstants>(i32::MIN), None);
}

fn vulkan_present_mode_numbers() -> Vec<(PresentMode, i32)> {
    vec![
        (PresentMode::Immediate, 0),
        (PresentMode::Mailbox, 1),
        (PresentMode::Fifo, 2),
        (PresentMode::FifoRelaxed, 3),
    ]
}

#[test]
fn vulkan_present_mode_numbers_convert_both_ways() {
    let numbers = vulkan_present_mode_numbers();
    for (value, code) in numbers.iter() {
        assert_eq!(value.to_native::<VulkanPresentModeConstants>(), *code);
        assert_eq!(PresentMode::try_from_native::<VulkanPresentModeConstants>(*code), Some(*value));
        assert_eq!(PresentMode::from_native::<VulkanPresentModeConstants>(*code), *value);
    }
    for code in -3..2000 {
        let known = numbers.iter().find(|(_, c)| *c == code).map(|(v, _)| *v);
        assert_eq!(PresentMode::try_from_native::<VulkanPresentModeConstants>(code), known);
    }
    assert_eq!(PresentMode::try_from_native::<VulkanPresentModeConstants>(i32::MAX), None);
    assert_eq!(PresentMode::try_from_native::<VulkanPresentModeConstants>(i32::MIN), None);
}

fn vulkan_blend_op_numbers() -> Vec<(BlendOp, i32)> {
    vec![
        (BlendOp::Add, 0),
        (BlendOp::Subtract, 1),
        (BlendOp::ReverseSubtract, 2),
        (BlendOp::Min, 3),
        (BlendOp::Max, 4),
    ]
}

#[test]
fn vulkan_blend_op_numbers_convert_both_ways() {
    let numbers = vulkan_blend_op_numbers();
    for (value, code) in numbers.iter() {
        assert_eq!(value.to_native::<VulkanBlendOpConstants>(), *code);
        assert_eq!(BlendOp::try_from_native::<VulkanBlendOpConstants>(*code), Some(*value));
        assert_eq!(BlendOp::from_native::<VulkanBlendOpConstants>(*code), *value);
    }
    for code in -3..2000 {
        let known = numbers.iter().find(|(_, c)| *c == code).map(|(v, _)| *v);
        assert_eq!(BlendOp::try_from_native::<VulkanBlendOpConstants>(code), known);
    }
    assert_eq!(BlendOp::try_from_native::<VulkanBlendOpConstants>(i32::MAX), None);
    assert_eq!(BlendOp::try_from_native::<VulkanBlendOpConstants>(i32::MIN), None);
}

fn vulkan_blend_factor_numbers() -> Vec<(BlendFactor, i32)> {
    vec![
        (BlendFactor::Zero, 0),
        (BlendFactor::One, 1),
        (BlendFactor::SrcColor, 2),
        (BlendFactor::OneMinusSrcColor, 3),
        (BlendFactor::DstColor, 4),
        (BlendFactor::OneMinusDstColor, 5),
        (BlendFactor::SrcAlpha, 6),
        (BlendFactor::OneMinusSrcAlpha, 7),
        (BlendFactor::DstAlpha, 8),
        (BlendFactor::OneMinusDstAlpha, 9),
    ]
}

#[test]
fn vulkan_blend_factor_numbers_convert_both_ways() {
    let numbers = vulkan_blend_factor_numbers();
    for (value, code) in numbers.iter() {
        assert_eq!(value.to_native::<VulkanBlendFactorConstants>(), *code);
        assert_eq!(BlendFactor::try_from_native::<VulkanBlendFactorConstants>(*code), Some(*value));
        assert_eq!(BlendFactor::from_native::<VulkanBlendFactorConstants>(*code), *value);
    }
    for code in -3..2000 {
        let known = numbers.iter().find(|(_, c)| *c == code).map(|(v, _)| *v);
        assert_eq!(BlendFactor::try_from_native::<VulkanBlendFactorConstants>(code), known);
    }
    assert_eq!(BlendFactor::try_from_native::<VulkanBlendFactorConstants>(i32::MAX), None);
    assert_eq!(BlendFactor::try_from_native::<VulkanBlendFactorConstants>(i32::MIN), None);
}

fn vulkan_polygon_mode_numbers() -> Vec<(PolygonMode, i32)> {
    vec![
        (PolygonMode::Fill, 0),
        (PolygonMode::Wireframe, 1),
    ]
}

#[test]
fn vulkan_polygon_mode_numbers_convert_both_ways() {
    let numbers = vulkan_polygon_mode_numbers();
    for (value, code) in numbers.iter() {
        assert_eq!(value.to_native::<VulkanPolygonModeConstants>(), *code);
        assert_eq!(PolygonMode::try_from_native::<VulkanPolygonModeConstants>(*code), Some(*value));
        assert_eq!(PolygonMode::from_native::<VulkanPolygonModeConstants>(*code), *value);
    }
    for code in -3..2000 {
        let known = numbers.iter().find(|(_, c)| *c == code).map(|(v, _)| *v);
        assert_eq!(PolygonMode::try_from_native::<VulkanPolygonModeConstants>(code), known);
    }
    assert_eq!(PolygonMode::try_from_native::<VulkanPolygonModeConstants>(i32::MAX), None);
    assert_eq!(PolygonMode::try_from_native::<VulkanPolygonModeConstants>(i32::MIN), None);
}

fn vulkan_cull_mode_numbers() -> Vec<(CullMode, i32)> {
    vec![
        (CullMode::Nothing, 0),
        (CullMode::Front, 1),
        (CullMode::Back, 2),
    ]
}

#[test]
fn vulkan_cull_mode_numbers_convert_both_ways() {
    let numbers = vulkan_cull_mode_numbers();
    for (value, code) in numbers.iter() {
        assert_eq!(value.to_native::<VulkanCullModeConstants>(), *code);
        assert_eq!(CullMode::try_from_native::<VulkanCullModeConstants>(*code), Some(*value));
        assert_eq!(CullMode::from_native::<VulkanCullModeConstants>(*code), *value);
    }
    for code in -3..2000 {
        let known = numbers.iter().find(|(_, c)| *c == code).map(|(v, _)| *v);
        assert_eq!(CullMode::try_from_native::<VulkanCullModeConstants>(code), known);
    }
    assert_eq!(CullMode::try_from_native::<VulkanCullModeConstants>(i32::MAX), None);
    assert_eq!(CullMode::try_from_native::<VulkanCullModeConstants>(i32::MIN), None);
}

fn vulkan_front_face_numbers() -> Vec<(FrontFace, i32)> {
    vec![
        (FrontFace::Clockwise, 1),
        (FrontFace::CounterClockwise, 0),
    ]
}

#[test]
fn vulkan_front_face_numbers_convert_both_ways() {
    let numbers = vulkan_front_face_numbers();
    for (value, code) in numbers.iter() {
        assert_eq!(value.to_native::<VulkanFrontFaceConstants>(), *code);
        assert_eq!(FrontFace::try_from_native::<VulkanFrontFaceConstants>(*code), Some(*value));
        assert_eq!(FrontFace::from_native::<VulkanFrontFaceConstants>(*code), *value);
    }
    for code in -3..2000 {
        let known = numbers.iter().find(|(_, c)| *c == code).map(|(v, _)| *v);
        assert_eq!(FrontFace::try_from_native::<VulkanFrontFaceConstants>(code), known);
    }
    assert_eq!(FrontFace::try_from_native::<VulkanFrontFaceConstants>(i32::MAX), None);
    assert_eq!(FrontFace::try_from_native::<VulkanFrontFaceConstants>(i32::MIN), None);
}

fn vulkan_primitive_topology_numbers() -> Vec<(PrimitiveTopology, i32)> {
    vec![
        (PrimitiveTopology::PointList, 0),
        (PrimitiveTopology::LineList, 1),
        (PrimitiveTopology::LineStrip, 2),
        (PrimitiveTopology::TriangleList, 3),
        (PrimitiveTopology::TriangleStrip, 4),
        (PrimitiveTopology::TriangleFan, 5),
        (PrimitiveTopology::LineListWithAdjacency, 6),
        (PrimitiveTopology::LineStripWithAdjacency, 7),
        (PrimitiveTopology::TriangleListWithAdjacency, 8),
        (PrimitiveTopology::TriangleStripWithAdjacency, 9),
        (PrimitiveTopology::PatchList, 10),
    ]
}

#[test]
fn vulkan_primitive_topology_numbers_convert_both_ways() {
    let numbers = vulkan_primitive_topology_numbers();
    for (value, code) in numbers.iter() {
        assert_eq!(value.to_native::<VulkanPrimitiveTopologyConstants>(), *code);
        assert_eq!(PrimitiveTopology::try_from_native::<VulkanPrimitiveTopologyConstants>(*code), Some(*value));
        assert_eq!(PrimitiveTopology::from_native::<VulkanPrimitiveTopologyConstants>(*code), *value);
    }
    for code in -3..2000 {
        let known = numbers.iter().find(|(_, c)| *c == code).map(|(v, _)| *v);
        assert_eq!(PrimitiveTopology::try_from_native::<VulkanPrimitiveTopologyConstants>(code), known);
    }
    assert_eq!(PrimitiveTopology::try_from_native::<VulkanPrimitiveTopologyConstants>(i32::MAX), None);
    assert_eq!(PrimitiveTopology::try_from_native::<VulkanPrimitiveTopologyConstants>(i32::MIN), None);
}

fn directx_device_type_numbers() -> Vec<(DeviceType, i32)> {
    vec![
        (DeviceType::Other, 0),
        (DeviceType::IntegratedGpu, 1),
        (DeviceType::DiscreteGpu, 2),
        (DeviceType::VirtualGpu, 3),
        (DeviceType::Cpu, 4),
    ]
}

#[test]
fn directx_device_type_numbers_convert_both_ways() {
    let numbers = directx_device_type_numbers();
    for (value, code) in numbers.iter() {
        assert_eq!(value.to_native::<DirectXDeviceTypes>(), *code);
        assert_eq!(DeviceType::try_from_native::<DirectXDeviceTypes>(*code), Some(*value));
        assert_eq!(DeviceType::from_native::<DirectXDeviceTypes>(*code), *value);
    }
    for code in -3..2000 {
        let known = numbers.iter().find(|(_, c)| *c == code).map(|(v, _)| *v);
        assert_eq!(DeviceType::try_from_native::<DirectXDeviceTypes>(code), known);
    }
    assert_eq!(DeviceType::try_from_native::<DirectXDeviceTypes>(i32::MAX), None);
    assert_eq!(DeviceType::try_from_native::<DirectXDeviceTypes>(i32::MIN), None);
}

fn directx_composite_alpha_mode_numbers() -> Vec<(CompositeAlphaMode, i32)> {
    vec![
        (CompositeAlphaMode::Opaque, 3),
        (CompositeAlphaMode::PreMultiplied, 1),
        (CompositeAlphaMode::PostMultiplied, 2),
        (CompositeAlphaMode::Inherit, 0),
    ]
}

#[test]
fn directx_composite_alpha_mode_numbers_convert_both_ways() {
    let numbers = directx_composite_alpha_mode_numbers();
    for (value, code) in numbers.iter() {
        assert_eq!(value.to_native::<DirectXCompositeAlphaModes>(), *code);
        assert_eq!(CompositeAlphaMode::try_from_native::<DirectXCompositeAlphaModes>(*code), Some(*value));
        assert_eq!(CompositeAlphaMode::from_native::<DirectXCompositeAlphaModes>(*code), *value);
    }
    for code in -3..2000 {
        let known = numbers.iter().find(|(_, c)| *c == code).map(|(v, _)| *v);
        assert_eq!(CompositeAlphaMode::try_from_native::<DirectXCompositeAlphaModes>(code), known);
    }
    assert_eq!(CompositeAlphaMode::try_from_native::<DirectXCompositeAlphaModes>(i32::MAX), None);
    assert_eq!(CompositeAlphaMode::try_from_native::<DirectXCompositeAlphaModes>(i32::MIN), None);
}

fn directx_colorspace_numbers() -> Vec<(Colorspace, i32)> {
    vec![
        (Colorspace::SRGB_NONLINEAR, 0),
        (Colorspace::SRGB_EXT_LINEAR, 1),
        (Colorspace::HDR10_ST2084, 12),
        (Colorspace::HDR10_HLG, 19),
    ]
}

#[test]
fn directx_colorspace_numbers_convert_both_ways() {
    let numbers = directx_colorspace_numbers();
    for (value, code) in numbers.iter() {
        assert_eq!(value.to_native::<DirectXColorSpaces>(), *code);
        assert_eq!(Colorspace::try_from_native::<DirectXColorSpaces>(*code), Some(*value));
        assert_eq!(Colorspace::from_native::<DirectXColorSpaces>(*code), *value);
    }
    for code in -3..2000 {
        let known = numbers.iter().find(|(_, c)| *c == code).map(|(v, _)| *v);
        assert_eq!(Colorspace::try_from_native::<DirectXColorSpaces>(code), known);
    }
    assert_eq!(Colorspace::try_from_native::<DirectXColorSpaces>(i32::MAX), None);
    assert_eq!(Colorspace::try_from_native::<DirectXColorSpaces>(i32::MIN), None);
}

fn directx_format_numbers() -> Vec<(Format, i32)> {
    vec![
        (Format::R8_UINT, 62),
        (Format::R8_SINT, 64),
        (Format::R8_UNORM, 61),
        (Format::R8_SNORM, 63),
        (Format::R8G8_UINT, 50),
        (Format::R8G8_SINT, 52),
        (Format::R8G8_UNORM, 49),
        (Format::R8G8_SNORM, 51),
        (Format::R8G8B8A8_UINT, 30),
        (Format::R8G8B8A8_SINT, 32),
        (Format::R8G8B8A8_UNORM, 28),
        (Format::R8G8B8A8_SNORM, 31),
        (Format::R8G8B8A8_UNORM_SRGB, 29),
        (Format::B8G8R8A8_UNORM, 87),
        (Format::B8G8R8A8_UNORM_SRGB, 91),
        (Format::R16_UINT, 57),
        (Format::R16_SINT, 59),
        (Format::R16_UNORM, 56),
        (Format::R16_SNORM, 58),
        (Format::R16G16_UINT, 36),
        (Format::R16G16_SINT, 38),
        (Format::R16G16_UNORM, 35),
        (Format::R16G16_SNORM, 37),
        (Format::R16G16B16A16_UINT, 12),
        (Format::R16G16B16A16_SINT, 14),
        (Format::R16G16B16A16_UNORM, 11),
        (Format::R16G16B16A16_SNORM, 13),
        (Format::R16G16B16A16_SFLOAT, 10),
        (Format::R32_UINT, 42),
        (Format::R32_SINT, 43),
        (Format::R32_SFLOAT, 41),
        (Format::R32G32_UINT, 17),
        (Format::R32G32_SINT, 18),
        (Format::R32G32_SFLOAT, 16),
        (Format::R32G32B32_UINT, 7),
        (Format::R32G32B32_SINT, 8),
        (Format::R32G32B32_SFLOAT, 6),
        (Format::R32G32B32A32_UINT, 3),
        (Format::R32G32B32A32_SINT, 4),
        (Format::R32G32B32A32_SFLOAT, 2),
        (Format::R10G10B10A2_UINT, 25),
        (Format::R10G10B10A2_UNORM, 24),
    ]
}

#[test]
fn directx_format_numbers_convert_both_ways() {
    let numbers = directx_format_numbers();
    for (value, code) in numbers.iter() {
        assert_eq!(value.to_native::<DirectXDataFormats>(), *code);
        assert_eq!(Format::try_from_native::<DirectXDataFormats>(*code), Some(*value));
        assert_eq!(Format::from_native::<DirectXDataFormats>(*code), *value);
    }
    for code in -3..2000 {
        let known = numbers.iter().find(|(_, c)| *c == code).map(|(v, _)| *v);
        assert_eq!(Format::try_from_native::<DirectXDataFormats>(code), known);
    }
    assert_eq!(Format::try_from_native::<DirectXDataFormats>(i32::MAX), None);
    assert_eq!(Format::try_from_native::<DirectXDataFormats>(i32::MIN), None);
}

fn directx_present_mode_numbers() -> Vec<(PresentMode, i32)> {
    vec![
        (PresentMode::Immediate, 0),
        (PresentMode::Mailbox, 1),
        (PresentMode::Fifo, 2),
        (PresentMode::FifoRelaxed, 3),
    ]
}

#[test]
fn directx_present_mode_numbers_convert_both_ways() {
    let numbers = directx_present_mode_numbers();
    for (value, code) in numbers.iter() {
        assert_eq!(value.to_native::<DirectXPresentModes>(), *code);
        assert_eq!(PresentMode::try_from_native::<DirectXPresentModes>(*code), Some(*value));
        assert_eq!(PresentMode::from_native::<DirectXPresentModes>(*code), *value);
    }
    for code in -3..2000 {
        let known = numbers.iter().find(|(_, c)| *c == code).map(|(v, _)| *v);
        assert_eq!(PresentMode::try_from_native::<DirectXPresentModes>(code), known);
    }
    assert_eq!(PresentMode::try_from_native::<DirectXPresentModes>(i32::MAX), None);
    assert_eq!(PresentMode::try_from_native::<DirectXPresentModes>(i32::MIN), None);
}

fn directx_blend_op_numbers() -> Vec<(BlendOp, i32)> {
    vec![
        (BlendOp::Add, 1),
        (BlendOp::Subtract, 2),
        (BlendOp::ReverseSubtract, 3),
        (BlendOp::Min, 4),
        (BlendOp::Max, 5),
    ]
}

#[test]
fn directx_blend_op_numbers_convert_both_ways() {
    let numbers = directx_blend_op_numbers();
    for (value, code) in numbers.iter() {
        assert_eq!(value.to_native::<DirectXBlendOps>(), *code);
        assert_eq!(BlendOp::try_from_native::<DirectXBlendOps>(*code), Some(*value));
        assert_eq!(BlendOp::from_native::<DirectXBlendOps>(*code), *value);
    }
    for code in -3..2000 {
        let known = numbers.iter().find(|(_, c)| *c == code).map(|(v, _)| *v);
        assert_eq!(BlendOp::try_from_native::<DirectXBlendOps>(code), known);
    }
    assert_eq!(BlendOp::try_from_native::<DirectXBlendOps>(i32::MAX), None);
    assert_eq!(BlendOp::try_from_native::<DirectXBlendOps>(i32::MIN), None);
}

fn directx_blend_factor_numbers() -> Vec<(BlendFactor, i32)> {
    vec![
        (BlendFactor::Zero, 1),
        (BlendFactor::One, 2),
        (BlendFactor::SrcColor, 3),
        (BlendFactor::OneMinusSrcColor, 4),
        (BlendFactor::DstColor, 9),
        (BlendFactor::OneMinusDstColor, 10),
        (BlendFactor::SrcAlpha, 5),
        (BlendFactor::OneMinusSrcAlpha, 6),
        (BlendFactor::DstAlpha, 7),
        (BlendFactor::OneMinusDstAlpha, 8),
    ]
}

#[test]
fn directx_blend_factor_numbers_convert_both_ways() {
    let numbers = directx_blend_factor_numbers();
    for (value, code) in numbers.iter() {
        assert_eq!(value.to_native::<DirectXBlendFactors>(), *code);
        assert_eq!(BlendFactor::try_from_native::<DirectXBlendFactors>(*code), Some(*value));
        assert_eq!(BlendFactor::from_native::<DirectXBlendFactors>(*code), *value);
    }
    for code in -3..2000 {
        let known = numbers.iter().find(|(_, c)| *c == code).map(|(v, _)| *v);
        assert_eq!(BlendFactor::try_from_native::<DirectXBlendFactors>(code), known);
    }
    assert_eq!(BlendFactor::try_from_native::<DirectXBlendFactors>(i32::MAX), None);
    assert_eq!(BlendFactor::try_from_native::<DirectXBlendFactors>(i32::MIN), None);
}

#[test]
fn vulkan_knows_the_extended_colour_spaces_by_large_numbers() {
    assert_eq!(Colorspace::HDR10_ST2084.to_native::<VulkanColorSpaces>(), 1000104008);
    assert_eq!(
        Colorspace::try_from_native::<VulkanColorSpaces>(1000104010),
        Some(Colorspace::HDR10_HLG)
    );
    assert_eq!(Colorspace::try_from_native::<VulkanColorSpaces>(1000104009), None);
}

#[test]
fn the_two_backends_number_the_same_format_differently() {
    assert_eq!(Format::B8G8R8A8_UNORM.to_native::<VulkanRenderTargetFormatConstants>(), 44);
    assert_eq!(Format::B8G8R8A8_UNORM.to_native::<DirectXDataFormats>(), 87);
    assert_eq!(
        Format::try_from_native::<VulkanRenderTargetFormatConstants>(87),
        None
    );
    assert_eq!(
        Format::try_from_native::<DirectXDataFormats>(44),
        None
    );
    assert_eq!(
        Format::try_from_native::<DirectXDataFormats>(64),
        Some(Format::R8_SINT)
    );
    assert_eq!(
        Format::try_from_native::<VulkanRenderTargetFormatConstants>(64),
        Some(Format::R10G10B10A2_UNORM)
    );
}

fn every_set_of_components() -> Vec<ColorComponentFlags> {
    let mut sets = Vec::new();
    for bits in 0..16 {
        sets.push(ColorComponentFlags {
            r: bits & 1 != 0,
            g: bits & 2 != 0,
            b: bits & 4 != 0,
            a: bits & 8 != 0,
        });
    }
    sets
}

#[test]
fn colour_components_convert_both_ways() {
    for (bits, flags) in every_set_of_components().into_iter().enumerate() {
        let bits = bits as i32;
        assert_eq!(flags.to_native::<VulkanColorComponentConstants>(), bits);
        assert_eq!(flags.to_native::<DirectXColorComponentConstants>(), bits);
        assert_eq!(
            ColorComponentFlags::try_from_native::<VulkanColorComponentConstants>(bits),
            Some(flags)
        );
        assert_eq!(
            ColorComponentFlags::try_from_native::<DirectXColorComponentConstants>(bits),
            Some(flags)
        );
        assert_eq!(ColorComponentFlags::from_native::<VulkanColorComponentConstants>(bits), flags);
    }
    for bits in [16, 17, 32, -1, i32::MAX, i32::MIN] {
        assert_eq!(
            ColorComponentFlags::try_from_native::<VulkanColorComponentConstants>(bits),
            None
        );
        assert_eq!(
            ColorComponentFlags::try_from_native::<DirectXColorComponentConstants>(bits),
            None
        );
    }
}

#[test]
fn colour_components_combine_like_sets() {
    let red = ColorComponentFlags { r: true, g: false, b: false, a: false };
    let alpha = ColorComponentFlags { r: false, g: false, b: false, a: true };
    let both = ColorComponentFlags { r: true, g: false, b: false, a: true };
    assert_eq!(red.union(alpha), both);
    assert_eq!(both.intersection(alpha), alpha);
    assert_eq!(red.intersection(alpha), ColorComponentFlags::empty());
    assert!(both.contains(red));
    assert!(!red.contains(both));
    assert!(red.contains(ColorComponentFlags::empty()));
    assert!(ColorComponentFlags::all().contains(both));
    assert!(ColorComponentFlags::empty().is_empty());
    assert!(!red.is_empty());
    assert!(ColorComponentFlags::all().is_all());
    assert!(!both.is_all());
    assert_eq!(ColorComponentFlags::default(), ColorComponentFlags::all());
    assert_eq!(
        ColorComponentFlags::all(),
        ColorComponentFlags { r: true, g: true, b: true, a: true }
    );
    for a in every_set_of_components() {
        for b in every_set_of_components() {
            assert_eq!(a.union(b).contains(a), true);
            assert_eq!(a.contains(a.intersection(b)), true);
            assert_eq!(a.contains(b), a.union(b) == a);
        }
    }
}
