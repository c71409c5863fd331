use xgpu::{
    AttachmentDescription, AttachmentReference, BlendAttachmentState, BlendFactor, BlendOp,
    ColorComponentFlags, Colorspace, CompositeAlphaMode, CullMode, Extent2D, Format, FrontFace,
    PolygonMode, PresentMode, RasterizationState, RenderPassCreateInfo, ShaderCode,
    SubpassDescription, SurfaceCreateInfo, SurfaceFormat, SwapchainCreateInfo,
};

static STATIC_CODE: [u8; 4] = [3, 2, 35, 7];

#[test]
fn shader_code_is_the_same_bytes_wherever_it_lives() {
    let owned = vec![1u8, 2, 3];
    assert_eq!(ShaderCode::Dynamic(&owned).into_bytes(), &[1u8, 2, 3][..]);
    assert_eq!(ShaderCode::Static(&STATIC_CODE).into_bytes(), &[3u8, 2, 35, 7][..]);
    assert!(ShaderCode::Dynamic(&[]).into_bytes().is_empty());
}

#[test]
fn a_surface_is_a_window_of_the_running_program() {
    assert_eq!(SurfaceCreateInfo::new(0xBEEF), SurfaceCreateInfo { hwnd: 0xBEEF, hinstance: 0 });
}

#[test]
fn rasterization_and_blending_default_to_the_usual() {
    assert_eq!(
        RasterizationState::default(),
        RasterizationState {
            polygon_mode: PolygonMode::Fill,
            cull_mode: CullMode::Back,
            front_face: FrontFace::CounterClockwise,
        }
    );
    assert_eq!(
        BlendAttachmentState::default(),
        BlendAttachmentState {
            blend_enable: false,
            src_color_blend_factor: BlendFactor::Zero,
            dst_color_blend_factor: BlendFactor::Zero,
            color_blend_op: BlendOp::Add,
            src_alpha_blend_factor: BlendFactor::Zero,
            dst_alpha_blend_factor: BlendFactor::Zero,
            alpha_blend_op: BlendOp::Add,
            color_write_mask: ColorComponentFlags::all(),
        }
    );
}

fn reference(attachment: u32) -> AttachmentReference {
    AttachmentReference { attachment }
}

#[test]
fn a_render_pass_is_valid_when_every_reference_names_a_slot() {
    let attachments = [
        AttachmentDescription { format: Format::B8G8R8A8_UNORM },
        AttachmentDescription { format: Format::R32_SFLOAT },
    ];
    let colour = [reference(0), reference(1)];
    let input = [reference(1)];
    let subpasses = [
        SubpassDescription { input_attachments: &[], color_attachments: &colour },
        SubpassDescription { input_attachments: &input, color_attachments: &colour[..1] },
    ];
    assert!(RenderPassCreateInfo { attachments: &attachments, subpasses: &subpasses }.is_valid());
    assert!(RenderPassCreateInfo { attachments: &attachments, subpasses: &[] }.is_valid());
    assert!(RenderPassCreateInfo { attachments: &[], subpasses: &[] }.is_valid());
}

#[test]
fn a_render_pass_is_invalid_when_a_reference_names_no_slot() {
    let attachments = [AttachmentDescription { format: Format::B8G8R8A8_UNORM }];
    let good = [reference(0)];
    let bad = [reference(0), reference(1)];
    let in_colour = [SubpassDescription { input_attachments: &good, color_attachments: &bad }];
    let in_input = [SubpassDescription { input_attachments: &bad, color_attachments: &good }];
    let in_second = [
        SubpassDescription { input_attachments: &good, color_attachments: &good },
        SubpassDescription { input_attachments: &[], color_attachments: &bad },
    ];
    assert!(!RenderPassCreateInfo { attachments: &attachments, subpasses: &in_colour }.is_valid());
    assert!(!RenderPassCreateInfo { attachments: &attachments, subpasses: &in_input }.is_valid());
    assert!(!RenderPassCreateInfo { attachments: &attachments, subpasses: &in_second }.is_valid());
    let none = [SubpassDescription { input_attachments: &[], color_attachments: &good }];
    assert!(!RenderPassCreateInfo { attachments: &[], subpasses: &none }.is_valid());
}

fn swapchain(count: u32, format: Format, colorspace: Colorspace) -> SwapchainCreateInfo {
    SwapchainCreateInfo {
        min_image_count: count,
        format,
        colorspace,
        extent: Extent2D { width: 800, height: 600 },
        composite_alpha: CompositeAlphaMode::Opaque,
        present_mode: PresentMode::Fifo,
    }
}

#[test]
fn a_swapchain_is_supported_within_the_limits_and_among_the_formats() {
    let formats = [
        SurfaceFormat { format: Format::B8G8R8A8_UNORM, colorspace: Colorspace::SRGB_NONLINEAR },
        SurfaceFormat { format: Format::R10G10B10A2_UNORM, colorspace: Colorspace::HDR10_ST2084 },
    ];
    let wanted = swapchain(3, Format::B8G8R8A8_UNORM, Colorspace::SRGB_NONLINEAR);
    assert!(wanted.is_supported(2, 4, &formats));
    assert!(wanted.is_supported(3, 3, &formats));
    assert!(wanted.is_supported(2, 0, &formats));
    assert!(swapchain(400, Format::R10G10B10A2_UNORM, Colorspace::HDR10_ST2084).is_supported(2, 0, &formats));
    assert!(!wanted.is_supported(4, 8, &formats));
    assert!(!wanted.is_supported(1, 2, &formats));
    assert!(!wanted.is_supported(2, 4, &[]));
    assert!(!swapchain(3, Format::B8G8R8A8_UNORM, Colorspace::HDR10_ST2084).is_supported(2, 4, &formats));
    assert!(!swapchain(3, Format::R8G8B8A8_UNORM, Colorspace::SRGB_NONLINEAR).is_supported(2, 4, &formats));
}
