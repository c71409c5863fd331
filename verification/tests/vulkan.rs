use xgpu::api::traits::{
    orphaned,
    ApiRoot, CommandBuffer, CommandPool, Context, ContextHandles, Device, DeviceProperties, Fence,
    Framebuffer, GraphicsPipeline, ImageView, Object, PipelineLayout, RenderPass, Semaphore,
    Shader, Surface, Swapchain,
};
use xgpu::api::vulkan::instance::{create_message, get_instance_extensions, get_instance_layers};
use xgpu::api::vulkan::device::{get_device_extensions, get_device_layers};
use xgpu::api::vulkan::pipeline::graphics::{collect_shader_stages, create_shader_stage, entry_point};
use xgpu::api::vulkan::{
    VulkanDestroy,
    DebugAction, LogLevel, VulkanAcquireNextImage, VulkanAttachmentDescription,
    VulkanAttachmentReference, VulkanCommandBuffer, VulkanCommandBufferAllocateInfo,
    VulkanCommandPool, VulkanCommandPoolCreateInfo, VulkanComponentMapping,
    VulkanDebugUtilsMessengerCreateInfo, VulkanDevice, VulkanDeviceObject,
    VulkanDeviceQueueCreateInfo, VulkanExtension, VulkanFence, VulkanFenceCreateInfo,
    VulkanFramebuffer, VulkanGraphicsPipeline, VulkanGraphicsPipelineExt, VulkanImage,
    VulkanImageSubresourceRange, VulkanImageView, VulkanImageViewCreateInfo, VulkanInstance,
    VulkanInstanceObject, VulkanLayer, VulkanPhysicalDevice, VulkanPhysicalDeviceProperties,
    VulkanPipelineColorBlendAttachmentState, VulkanPipelineDepthStencilStateCreateInfo,
    VulkanPipelineInputAssemblyStateCreateInfo, VulkanPipelineLayout,
    VulkanPipelineLayoutCreateInfo, VulkanPipelineMultisampleStateCreateInfo,
    VulkanPipelineRasterizationStateCreateInfo, VulkanPipelineShaderStageCreateInfo,
    VulkanPipelineVertexInputStateCreateInfo, VulkanPipelineViewportStateCreateInfo,
    VulkanRenderPass, VulkanSemaphore, VulkanSemaphoreCreateInfo, VulkanShaderCode,
    VulkanShaderModule, VulkanShaderModuleCreateInfo, VulkanStencilOpState, VulkanSurface,
    VulkanSurfaceCapabilities, VulkanSurfaceFormat, VulkanSwapchain, VulkanSwapchainCreateInfo,
    VulkanWin32SurfaceCreateInfo,
};
use xgpu::ownership::{Destroy, Kept, ObjectId, ObjectKind, Objects};
use xgpu::{
    AttachmentDescription, AttachmentReference, BlendAttachmentState, BlendFactor, BlendOp,
    BlendState, ColorComponentFlags, Colorspace, CommandBufferAllocateInfo, CommandPoolCreateInfo,
    CompositeAlphaMode, ContextCreateInfo, CullMode, DeviceType, Error, Extent2D, Features,
    FenceCreateInfo, Format, FramebufferCreateInfo, FrontFace, GraphicsPipelineCreateInfo,
    ImageViewCreateInfo, PipelineLayoutCreateInfo, Platform, PolygonMode, PresentMode,
    PrimitiveTopology, RasterizationState, RenderPassCreateInfo, RootCreateInfo,
    SemaphoreCreateInfo, ShaderCode, ShaderStages, SubpassDescription, SurfaceCreateInfo,
    SurfaceFormat, SwapchainCreateInfo, Vendor,
};

fn features(graphics: bool, gpu_debugging: bool) -> Features {
    Features { platform: Platform::Windows, graphics, gpu_debugging, validation: false }
}

fn properties(name: &str, device_type: i32, vendor_id: u32) -> VulkanPhysicalDeviceProperties {
    VulkanPhysicalDeviceProperties {
        api_version: 1,
        driver_version: 2,
        vendor_id,
        device_id: 3,
        device_type,
        device_name: Some(name.to_string()),
    }
}

fn destroy(index: usize, kind: ObjectKind, native: u64) -> Destroy {
    Destroy { object: ObjectId { index }, kind, native }
}

struct Setup {
    objects: Objects,
    root: VulkanInstance,
    context: VulkanDevice,
}

fn setup() -> Setup {
    let mut objects = Objects::new();
    let root = VulkanInstance::new(&mut objects, Ok(0x100)).unwrap();
    let device = VulkanPhysicalDevice::new(0x200, properties("gpu", 2, 0x10DE));
    let context = VulkanDevice::new(
        &mut objects,
        &root,
        &device,
        Ok(ContextHandles { context: 0x300, queue: 0x400 }),
    )
    .unwrap();
    Setup { objects, root, context }
}

#[test]
fn layers_and_extensions_follow_the_features() {
    assert!(get_instance_layers(&features(false, false)).is_empty());
    assert!(get_instance_extensions(&features(false, false)).is_empty());
    assert_eq!(get_instance_layers(&features(true, true)), vec![VulkanLayer::KhronosValidation]);
    assert_eq!(
        get_instance_extensions(&features(true, false)),
        vec![VulkanExtension::Surface, VulkanExtension::Win32Surface]
    );
    assert_eq!(get_instance_extensions(&features(false, true)), vec![VulkanExtension::DebugUtils]);
    assert_eq!(
        get_instance_extensions(&features(true, true)),
        vec![VulkanExtension::Surface, VulkanExtension::Win32Surface, VulkanExtension::DebugUtils]
    );
    assert!(get_device_layers().is_empty());
    assert!(get_device_extensions(&features(false, true)).is_empty());
    assert_eq!(get_device_extensions(&features(true, false)), vec![VulkanExtension::Swapchain]);
}

#[test]
fn layers_and_extensions_are_spelled_as_vulkan_spells_them() {
    assert_eq!(VulkanLayer::KhronosValidation.name(), "VK_LAYER_KHRONOS_validation");
    assert_eq!(VulkanExtension::Surface.name(), "VK_KHR_surface");
    assert_eq!(VulkanExtension::Win32Surface.name(), "VK_KHR_win32_surface");
    assert_eq!(VulkanExtension::DebugUtils.name(), "VK_EXT_debug_utils");
    assert_eq!(VulkanExtension::Swapchain.name(), "VK_KHR_swapchain");
    assert_eq!(entry_point(), "main");
}

#[test]
fn an_instance_is_described_with_its_messenger_when_debugging() {
    let plain = VulkanInstance::describe(&RootCreateInfo {}, &features(true, false));
    assert_eq!(plain.s_type, 1);
    assert_eq!(plain.flags, 0);
    assert!(plain.enabled_layers.is_empty());
    assert_eq!(plain.enabled_extensions.len(), 2);
    assert_eq!(plain.debug_messenger, None);

    let debugging = VulkanInstance::describe(&RootCreateInfo {}, &features(false, true));
    assert_eq!(debugging.enabled_layers, vec![VulkanLayer::KhronosValidation]);
    assert_eq!(debugging.enabled_extensions, vec![VulkanExtension::DebugUtils]);
    assert_eq!(
        debugging.debug_messenger,
        Some(VulkanDebugUtilsMessengerCreateInfo {
            s_type: 1000128004,
            flags: 0,
            message_severity: 0x1111,
            message_type: 7,
        })
    );
}

#[test]
fn messages_are_logged_unless_they_report_an_error() {
    assert_eq!(VulkanInstance::debug_utils_callback_safe(1), DebugAction::Log(LogLevel::Trace));
    assert_eq!(VulkanInstance::debug_utils_callback_safe(16), DebugAction::Log(LogLevel::Debug));
    assert_eq!(VulkanInstance::debug_utils_callback_safe(256), DebugAction::Log(LogLevel::Warn));
    assert_eq!(VulkanInstance::debug_utils_callback_safe(4096), DebugAction::Abort);
    assert_eq!(VulkanInstance::debug_utils_callback_safe(0), DebugAction::Abort);
    assert_eq!(VulkanInstance::debug_utils_callback_safe(17), DebugAction::Abort);
}

#[test]
fn a_failed_creation_is_reported_as_an_api_error() {
    let mut objects = Objects::new();
    assert_eq!(VulkanInstance::new(&mut objects, Err(-9)).unwrap_err(), Error::ApiError(-9));
    assert_eq!(objects.len(), 0);

    let mut s = setup();
    let surface = VulkanSurface::new(&mut s.objects, &s.root, Ok(0x500)).unwrap();
    let before = s.objects.len();
    assert_eq!(VulkanSurface::new(&mut s.objects, &s.root, Err(-1)).unwrap_err(), Error::ApiError(-1));
    assert_eq!(VulkanFence::new(&mut s.objects, &s.context, Err(-4)).unwrap_err(), Error::ApiError(-4));
    assert_eq!(
        VulkanDevice::new(
            &mut s.objects,
            &s.root,
            &VulkanPhysicalDevice::new(1, properties("x", 0, 0)),
            Err(-3)
        )
        .unwrap_err(),
        Error::ApiError(-3)
    );
    assert_eq!(
        VulkanSwapchain::new(&mut s.objects, &s.context, &surface, Err(-7), Ok(vec![])).unwrap_err(),
        Error::ApiError(-7)
    );
    assert_eq!(s.objects.len(), before);
    assert_eq!(s.objects.retained(s.context.ownership()), 0);
    assert_eq!(s.objects.retained(s.root.ownership()), 2);
}

#[test]
fn nothing_is_created_under_what_has_been_destroyed() {
    let mut s = setup();
    let context = s.context.share(&mut s.objects).unwrap();
    assert!(s.context.release(&mut s.objects).is_empty());
    let stale = VulkanFence::new(&mut s.objects, &context, Ok(0x800)).unwrap();
    assert_eq!(
        context.share(&mut s.objects).map(|twin| twin.handle()),
        Ok(0x300)
    );
    assert_eq!(s.objects.handles(context.ownership()), 2);
    let id = context.ownership();
    s.objects.release(id);
    s.objects.release(id);
    assert_eq!(stale.release(&mut s.objects).len(), 3);
    assert!(!s.objects.is_alive(id));
    assert_eq!(VulkanFence::new(&mut s.objects, &context, Ok(0x801)).unwrap_err(), Error::Released);
    assert_eq!(context.share(&mut s.objects).unwrap_err(), Error::Released);
}

#[test]
fn devices_are_enumerated_once() {
    let mut objects = Objects::new();
    let mut kept = Kept::new();
    let root = VulkanInstance::new(&mut objects, Ok(0x100)).unwrap();
    let early = root.share(&mut objects).unwrap();
    assert!(root.devices(&kept).is_none());
    assert!(early.devices(&kept).is_none());
    let first = VulkanInstance::enumerate_physical_device(Ok(vec![
        (0x201, properties("first", 2, 0x10DE)),
        (0x202, properties("second", 1, 0x8086)),
    ]))
    .unwrap();
    root.found(&mut kept, first);
    let handles: Vec<u64> = root.devices(&kept).unwrap().iter().map(|d| d.handle()).collect();
    assert_eq!(handles, vec![0x201, 0x202]);
    let again: Vec<u64> = root.devices(&kept).unwrap().iter().map(|d| d.handle()).collect();
    assert_eq!(again, handles);
    let seen: Vec<u64> = early.devices(&kept).unwrap().iter().map(|d| d.handle()).collect();
    assert_eq!(seen, handles);

    early.found(&mut kept, vec![VulkanPhysicalDevice::new(0x999, properties("late", 4, 0))]);
    let stands: Vec<u64> = root.devices(&kept).unwrap().iter().map(|d| d.handle()).collect();
    assert_eq!(stands, handles);

    let twin = root.share(&mut objects).unwrap();
    let shared: Vec<u64> = twin.devices(&kept).unwrap().iter().map(|d| d.handle()).collect();
    assert_eq!(shared, handles);
    assert_eq!(twin.handle(), root.handle());
    assert_eq!(twin.ownership(), root.ownership());

    let other = VulkanInstance::new(&mut objects, Ok(0x101)).unwrap();
    assert!(other.devices(&kept).is_none());
    other.found(&mut kept, vec![VulkanPhysicalDevice::new(0x301, properties("third", 2, 0))]);
    assert_eq!(other.devices(&kept).unwrap().len(), 1);
    assert_eq!(root.devices(&kept).unwrap().len(), 2);
}

#[test]
fn the_messenger_of_an_instance_is_found_by_every_handle() {
    let mut objects = Objects::new();
    let mut messengers = Kept::new();
    let root = VulkanInstance::new(&mut objects, Ok(0x100)).unwrap();
    let early = root.share(&mut objects).unwrap();
    assert_eq!(root.debug_messenger(&messengers), None);
    root.set_debug_messenger(&mut messengers, 0x77);
    assert_eq!(root.debug_messenger(&messengers), Some(0x77));
    assert_eq!(early.debug_messenger(&messengers), Some(0x77));
    early.set_debug_messenger(&mut messengers, 0x88);
    assert_eq!(root.debug_messenger(&messengers), Some(0x77));
    let other = VulkanInstance::new(&mut objects, Ok(0x101)).unwrap();
    assert_eq!(other.debug_messenger(&messengers), None);
}

#[test]
fn an_enumeration_that_fails_is_reported() {
    assert_eq!(
        VulkanInstance::enumerate_physical_device(Err(-3)).unwrap_err(),
        Error::ApiError(-3)
    );
    assert!(VulkanInstance::enumerate_physical_device(Ok(vec![])).unwrap().is_empty());
}

#[test]
fn a_device_says_its_name_class_and_maker() {
    let device = VulkanPhysicalDevice::new(0x200, properties("GeForce", 2, 0x10DE));
    assert_eq!(device.handle(), 0x200);
    assert_eq!(device.properties().name(), "GeForce");
    assert_eq!(device.properties().device_type(), Some(DeviceType::DiscreteGpu));
    assert_eq!(device.properties().vendor(), Some(Vendor::Nvidia));
    let odd = properties("odd", 77, 0x1002);
    assert_eq!(odd.device_type(), None);
    assert_eq!(odd.vendor(), None);
    assert_eq!(properties("cpu", 4, 0x8086).device_type(), Some(DeviceType::Cpu));
    let copy = device.duplicate();
    assert_eq!(copy.handle(), 0x200);
    assert_eq!(copy.properties().name(), "GeForce");
}

#[test]
fn surface_queries_are_converted() {
    let device = VulkanPhysicalDevice::new(0x200, properties("gpu", 2, 0x10DE));
    assert!(device.supports_surface(true));
    assert!(!device.supports_surface(false));

    let capabilities = VulkanSurfaceCapabilities {
        min_image_count: 2,
        max_image_count: 0,
        current_extent: Extent2D { width: 1, height: 2 },
        min_image_extent: Extent2D { width: 1, height: 1 },
        max_image_extent: Extent2D { width: 9, height: 9 },
        max_image_array_layers: 3,
    };
    assert_eq!(device.get_surface_capabilities(Ok(capabilities)), Ok(capabilities));
    assert_eq!(device.get_surface_capabilities(Err(-2)), Err(Error::ApiError(-2)));

    let native = vec![
        VulkanSurfaceFormat { format: 44, color_space: 0 },
        VulkanSurfaceFormat { format: 64, color_space: 1000104008 },
    ];
    assert!(VulkanPhysicalDevice::knows_formats(&native));
    assert_eq!(
        device.get_surface_formats(Ok(native)),
        Ok(vec![
            SurfaceFormat { format: Format::B8G8R8A8_UNORM, colorspace: Colorspace::SRGB_NONLINEAR },
            SurfaceFormat { format: Format::R10G10B10A2_UNORM, colorspace: Colorspace::HDR10_ST2084 },
        ])
    );
    assert_eq!(device.get_surface_formats(Err(-5)), Err(Error::ApiError(-5)));
    assert!(!VulkanPhysicalDevice::knows_formats(&vec![VulkanSurfaceFormat { format: 1, color_space: 0 }]));
    assert!(!VulkanPhysicalDevice::knows_formats(&vec![VulkanSurfaceFormat { format: 44, color_space: 5 }]));
    assert_eq!(VulkanSurfaceFormat { format: 1, color_space: 0 }.to_surface_format(), None);
    assert_eq!(
        VulkanSurfaceFormat::from_surface_format(SurfaceFormat {
            format: Format::R8_UINT,
            colorspace: Colorspace::HDR10_HLG
        }),
        VulkanSurfaceFormat { format: 13, color_space: 1000104010 }
    );

    assert!(VulkanPhysicalDevice::knows_modes(&vec![2, 0, 1, 3]));
    assert!(!VulkanPhysicalDevice::knows_modes(&vec![2, 4]));
    assert_eq!(
        device.get_surface_present_modes(Ok(vec![2, 0, 1, 3])),
        Ok(vec![PresentMode::Fifo, PresentMode::Immediate, PresentMode::Mailbox, PresentMode::FifoRelaxed])
    );
    assert_eq!(device.get_surface_present_modes(Ok(vec![])), Ok(vec![]));
    assert_eq!(device.get_surface_present_modes(Err(-6)), Err(Error::ApiError(-6)));
}

#[test]
fn a_surface_keeps_its_instance_alive() {
    let mut objects = Objects::new();
    let root = VulkanInstance::new(&mut objects, Ok(0x100)).unwrap();
    assert_eq!(
        VulkanSurface::describe(&SurfaceCreateInfo { hwnd: 7, hinstance: 9 }),
        VulkanWin32SurfaceCreateInfo { s_type: 1000009000, flags: 0, hinstance: 9, hwnd: 7 }
    );
    let surface = VulkanSurface::new(&mut objects, &root, Ok(0x500)).unwrap();
    assert_eq!(surface.handle(), 0x500);
    assert_eq!(surface.instance(), root.ownership());
    assert_eq!(objects.kind(surface.ownership()), Some(ObjectKind::Surface));
    assert_eq!(objects.retains(surface.ownership()), vec![root.ownership()]);
    assert!(root.release(&mut objects).is_empty());
    assert_eq!(
        surface.release(&mut objects),
        vec![destroy(1, ObjectKind::Surface, 0x500), destroy(0, ObjectKind::Root, 0x100)]
    );
}

#[test]
fn a_context_comes_with_one_queue_that_knows_it() {
    let description = VulkanDevice::describe(&ContextCreateInfo {}, &features(true, false));
    assert_eq!(description.s_type, 3);
    assert_eq!(description.flags, 0);
    assert_eq!(
        description.queue_create_infos,
        vec![VulkanDeviceQueueCreateInfo { s_type: 2, flags: 0, queue_family_index: 0, queue_count: 1 }]
    );
    assert!(description.enabled_layers.is_empty());
    assert_eq!(description.enabled_extensions, vec![VulkanExtension::Swapchain]);
    assert!(VulkanDevice::describe(&ContextCreateInfo {}, &features(false, false)).enabled_extensions.is_empty());

    let mut s = setup();
    assert_eq!(s.context.handle(), 0x300);
    assert_eq!(s.context.instance(), s.root.ownership());
    assert_eq!(s.context.queues().len(), 1);
    let queue = &s.context.queues()[0];
    assert_eq!(queue.handle(), 0x400);
    assert_eq!(queue.device(), s.context.ownership());
    assert_eq!(s.objects.kind(queue.ownership()), Some(ObjectKind::Queue));
    assert_eq!(s.objects.owner(queue.ownership()), Some(s.context.ownership()));
    assert_eq!(s.objects.handles(queue.ownership()), 0);
    assert_eq!(s.objects.retains(s.context.ownership()), vec![s.root.ownership(), queue.ownership()]);

    let held = queue.share(&mut s.objects).unwrap();
    assert_eq!(held.handle(), 0x400);
    assert_eq!(s.objects.handles(held.ownership()), 1);
    let twin = s.context.share(&mut s.objects).unwrap();
    assert_eq!(twin.queues().len(), 1);
    assert_eq!(twin.queues()[0].handle(), 0x400);
    assert!(twin.release(&mut s.objects).is_empty());
}

#[test]
fn a_command_pool_asks_for_what_it_is_told() {
    let flags = |transient, reset| {
        VulkanCommandPool::describe(&CommandPoolCreateInfo { transient, reset })
    };
    assert_eq!(flags(false, false), VulkanCommandPoolCreateInfo { s_type: 39, flags: 0, queue_family_index: 0 });
    assert_eq!(flags(true, false).flags, 1);
    assert_eq!(flags(false, true).flags, 2);
    assert_eq!(flags(true, true).flags, 3);
}

#[test]
fn a_command_buffer_keeps_its_pool_and_its_device_alive() {
    let mut s = setup();
    let pool = VulkanCommandPool::new(&mut s.objects, &s.context, Ok(0x600)).unwrap();
    assert_eq!(pool.device(), s.context.ownership());
    assert_eq!(
        VulkanCommandBuffer::describe(&pool, &CommandBufferAllocateInfo {}),
        VulkanCommandBufferAllocateInfo { s_type: 40, command_pool: 0x600, level: 0, command_buffer_count: 1 }
    );
    let buffer = VulkanCommandBuffer::allocate(&mut s.objects, &pool, Ok(0x700)).unwrap();
    assert_eq!(buffer.handle(), 0x700);
    assert_eq!(buffer.pool(), pool.ownership());
    assert_eq!(buffer.device(), s.context.ownership());
    assert_eq!(s.objects.retains(buffer.ownership()), vec![pool.ownership(), s.context.ownership()]);
    assert_eq!(
        VulkanCommandBuffer::allocate(&mut s.objects, &pool, Err(-2)).unwrap_err(),
        Error::ApiError(-2)
    );

    let context = s.context.ownership();
    assert!(s.context.release(&mut s.objects).is_empty());
    assert!(s.objects.is_alive(context));
    assert!(pool.release(&mut s.objects).is_empty());
    assert!(s.root.release(&mut s.objects).is_empty());
    let actions = buffer.release(&mut s.objects);
    assert_eq!(
        actions,
        vec![
            destroy(4, ObjectKind::CommandBuffer, 0x700),
            destroy(3, ObjectKind::CommandPool, 0x600),
            destroy(2, ObjectKind::Context, 0x300),
            destroy(0, ObjectKind::Root, 0x100),
            destroy(1, ObjectKind::Queue, 0x400),
        ]
    );
    assert!(!s.objects.is_alive(context));
}

#[test]
fn fences_and_semaphores_are_described_and_taken_in() {
    assert_eq!(
        VulkanFence::describe(&FenceCreateInfo { signaled: false }),
        VulkanFenceCreateInfo { s_type: 8, flags: 0 }
    );
    assert_eq!(
        VulkanFence::describe(&FenceCreateInfo { signaled: true }),
        VulkanFenceCreateInfo { s_type: 8, flags: 1 }
    );
    assert_eq!(
        VulkanSemaphore::describe(&SemaphoreCreateInfo {}),
        VulkanSemaphoreCreateInfo { s_type: 9, flags: 0 }
    );
    let mut s = setup();
    let fence = VulkanFence::new(&mut s.objects, &s.context, Ok(0x800)).unwrap();
    let semaphore = VulkanSemaphore::new(&mut s.objects, &s.context, Ok(0x900)).unwrap();
    assert_eq!(fence.handle(), 0x800);
    assert_eq!(semaphore.handle(), 0x900);
    assert_eq!(fence.device(), s.context.ownership());
    assert_eq!(s.objects.kind(fence.ownership()), Some(ObjectKind::Fence));
    assert_eq!(s.objects.kind(semaphore.ownership()), Some(ObjectKind::Semaphore));
    assert_eq!(s.objects.retained(s.context.ownership()), 2);
    assert_eq!(fence.release(&mut s.objects), vec![destroy(3, ObjectKind::Fence, 0x800)]);
    assert_eq!(semaphore.release(&mut s.objects), vec![destroy(4, ObjectKind::Semaphore, 0x900)]);
    assert_eq!(s.objects.retained(s.context.ownership()), 0);
}

fn swapchain_info() -> SwapchainCreateInfo {
    SwapchainCreateInfo {
        min_image_count: 3,
        format: Format::B8G8R8A8_UNORM,
        colorspace: Colorspace::SRGB_NONLINEAR,
        extent: Extent2D { width: 800, height: 600 },
        composite_alpha: CompositeAlphaMode::Opaque,
        present_mode: PresentMode::Mailbox,
    }
}

#[test]
fn a_swapchain_is_described_as_it_is_asked_for() {
    let mut s = setup();
    let surface = VulkanSurface::new(&mut s.objects, &s.root, Ok(0x500)).unwrap();
    assert_eq!(
        VulkanSwapchain::describe(&s.context, &surface, &swapchain_info()),
        VulkanSwapchainCreateInfo {
            s_type: 1000001000,
            flags: 0,
            surface: 0x500,
            min_image_count: 3,
            image_format: 44,
            image_color_space: 0,
            image_extent: Extent2D { width: 800, height: 600 },
            image_array_layers: 1,
            image_usage: 0x10,
            image_sharing_mode: 0,
            queue_family_index_count: 0,
            pre_transform: 1,
            composite_alpha: 1,
            present_mode: 1,
            clipped: 0,
            old_swapchain: 0,
        }
    );
}

#[test]
fn a_swapchain_owns_its_images_and_keeps_surface_and_device_alive() {
    let mut s = setup();
    let surface = VulkanSurface::new(&mut s.objects, &s.root, Ok(0x500)).unwrap();
    let swapchain =
        VulkanSwapchain::new(&mut s.objects, &s.context, &surface, Ok(0xA00), Ok(vec![1, 2, 3])).unwrap();
    assert_eq!(swapchain.handle(), 0xA00);
    assert_eq!(swapchain.device(), s.context.ownership());
    assert_eq!(swapchain.surface(), surface.ownership());
    assert_eq!(
        swapchain.images(),
        &[VulkanImage { handle: 1 }, VulkanImage { handle: 2 }, VulkanImage { handle: 3 }][..]
    );
    assert_eq!(
        s.objects.retains(swapchain.ownership()),
        vec![surface.ownership(), s.context.ownership()]
    );
    let twin = swapchain.share(&mut s.objects).unwrap();
    assert_eq!(twin.images().len(), 3);
    assert_eq!(twin.destroy(&mut s.objects), Err(()));
    assert!(s.objects.is_alive(swapchain.ownership()));
    assert_eq!(swapchain.destroy(&mut s.objects), Ok(vec![destroy(4, ObjectKind::Swapchain, 0xA00)]));

    let before = s.objects.len();
    assert_eq!(
        VulkanSwapchain::new(&mut s.objects, &s.context, &surface, Ok(0xA01), Err(-8)).unwrap_err(),
        Error::ApiError(-8)
    );
    assert_eq!(s.objects.len(), before);
}

#[test]
fn a_debug_message_is_its_name_and_what_it_says() {
    assert_eq!(create_message("VUID-01", "a handle is invalid"), "VUID-01: a handle is invalid");
    assert_eq!(create_message("", ""), ": ");
    assert_eq!(create_message("Loader", ""), "Loader: ");
    assert_eq!(create_message("", "\u{4e2d}"), ": \u{4e2d}");
}

#[test]
fn a_device_is_described_with_the_name_it_gave() {
    let mut bytes = [0u8; 256];
    bytes[..13].copy_from_slice("GeForce \u{00e9}\u{4e2d}".as_bytes());
    bytes[20] = 0xFF;
    let found = VulkanPhysicalDeviceProperties::from_native(10, 20, 0x10DE, 30, 2, &bytes);
    assert_eq!(found.device_name.as_deref(), Some("GeForce \u{00e9}\u{4e2d}"));
    assert!(found.is_named());
    assert_eq!(found.name(), "GeForce \u{00e9}\u{4e2d}");
    assert_eq!(found.name().chars().count(), 10);
    assert_eq!(
        (found.api_version, found.driver_version, found.vendor_id, found.device_id, found.device_type),
        (10, 20, 0x10DE, 30, 2)
    );
    assert_eq!(found.vendor(), Some(Vendor::Nvidia));
    assert_eq!(found.device_type(), Some(DeviceType::DiscreteGpu));

    let unnamed = VulkanPhysicalDeviceProperties::from_native(1, 2, 3, 4, 0, &[0, 65]);
    assert_eq!(unnamed.name(), "");
    let unterminated = VulkanPhysicalDeviceProperties::from_native(1, 2, 3, 4, 0, b"GPU");
    assert_eq!(unterminated.name(), "GPU");
    let empty = VulkanPhysicalDeviceProperties::from_native(1, 2, 3, 4, 0, &[]);
    assert_eq!(empty.name(), "");
}

#[test]
fn a_device_whose_name_is_no_text_is_described_without_a_name() {
    for bytes in [&[71u8, 0xFF, 0][..], &[0xC3, 0, 0xA9], &[0xED, 0xA0, 0x80], &[0xC0, 0x80]] {
        let found = VulkanPhysicalDeviceProperties::from_native(1, 2, 0x8086, 4, 1, bytes);
        assert!(!found.is_named());
        assert_eq!(found.device_name, None);
        assert_eq!(found.vendor(), Some(Vendor::Intel));
        assert_eq!(found.device_type(), Some(DeviceType::IntegratedGpu));
    }
}

#[test]
fn the_name_of_a_device_ends_at_its_first_zero() {
    let length = |bytes: &[u8]| VulkanPhysicalDeviceProperties::name_length(bytes);
    assert_eq!(length(&[]), 0);
    assert_eq!(length(&[0]), 0);
    assert_eq!(length(&[71, 80, 85]), 3);
    assert_eq!(length(&[71, 80, 85, 0, 0]), 3);
    assert_eq!(length(&[71, 0, 85, 0]), 1);
    assert_eq!(length(&[0, 71]), 0);
}

#[test]
fn acquiring_waits_as_long_as_told_and_signals_what_is_given() {
    let mut s = setup();
    let surface = VulkanSurface::new(&mut s.objects, &s.root, Ok(0x500)).unwrap();
    let swapchain =
        VulkanSwapchain::new(&mut s.objects, &s.context, &surface, Ok(0xA00), Ok(vec![])).unwrap();
    let fence = VulkanFence::new(&mut s.objects, &s.context, Ok(0x800)).unwrap();
    let semaphore = VulkanSemaphore::new(&mut s.objects, &s.context, Ok(0x900)).unwrap();
    assert_eq!(
        swapchain.acquire_next_image(None, None, None),
        Ok(VulkanAcquireNextImage { swapchain: 0xA00, timeout: u64::MAX, semaphore: 0, fence: 0 })
    );
    assert_eq!(
        swapchain.acquire_next_image(Some(1_500_000), Some(&semaphore), Some(&fence)),
        Ok(VulkanAcquireNextImage {
            swapchain: 0xA00,
            timeout: 1_500_000,
            semaphore: 0x900,
            fence: 0x800
        })
    );
    assert_eq!(swapchain.acquire_next_image(Some(0), None, Some(&fence)).unwrap().timeout, 0);
    assert_eq!(swapchain.acquire_next_image(Some((1u128 << 64) + 5), None, None).unwrap().timeout, 5);
    assert_eq!(VulkanSwapchain::acquired(Ok(2)), Ok(2));
    assert_eq!(VulkanSwapchain::acquired(Err(-1000001004)), Err(Error::ApiError(-1000001004)));
}

#[test]
fn an_image_view_shows_the_whole_colour_image() {
    let image = VulkanImage::swapchain(0x42);
    assert_eq!(image.handle(), 0x42);
    assert_eq!(
        VulkanImageView::describe(&image, &ImageViewCreateInfo { format: Format::R8G8B8A8_UNORM }),
        VulkanImageViewCreateInfo {
            s_type: 15,
            flags: 0,
            image: 0x42,
            view_type: 1,
            format: 37,
            components: VulkanComponentMapping { r: 0, g: 0, b: 0, a: 0 },
            subresource_range: VulkanImageSubresourceRange {
                aspect_mask: 1,
                base_mip_level: 0,
                level_count: 1,
                base_array_layer: 0,
                layer_count: 1,
            },
        }
    );
    let mut s = setup();
    let view = VulkanImageView::new(&mut s.objects, &s.context, &image, Ok(0xB00)).unwrap();
    assert_eq!(view.image(), image);
    assert_eq!(view.device(), s.context.ownership());
    assert_eq!(s.objects.retains(view.ownership()), vec![s.context.ownership()]);
}

#[test]
fn a_shader_module_is_described_by_the_length_of_its_code() {
    let code = [0u8; 12];
    assert_eq!(
        VulkanShaderModule::describe(ShaderCode::Dynamic(&code)),
        VulkanShaderModuleCreateInfo { s_type: 16, flags: 0, code_size: 12 }
    );
    assert_eq!(VulkanShaderCode::from_bytes(&code).code.len(), 12);
    let mut s = setup();
    let shader =
        VulkanShaderModule::from_code(&mut s.objects, &s.context, ShaderCode::Dynamic(&code), Ok(0xC00))
            .unwrap();
    assert_eq!(shader.handle(), 0xC00);
    assert_eq!(s.objects.kind(shader.ownership()), Some(ObjectKind::Shader));
}

#[test]
fn a_render_pass_is_described_slot_by_slot() {
    let attachments = [
        AttachmentDescription { format: Format::B8G8R8A8_UNORM },
        AttachmentDescription { format: Format::R16_UINT },
    ];
    let colour = [AttachmentReference { attachment: 0 }];
    let input = [AttachmentReference { attachment: 1 }, AttachmentReference { attachment: 0 }];
    let subpasses = [
        SubpassDescription { input_attachments: &[], color_attachments: &colour },
        SubpassDescription { input_attachments: &input, color_attachments: &colour },
    ];
    let description =
        VulkanRenderPass::describe(&RenderPassCreateInfo { attachments: &attachments, subpasses: &subpasses });
    assert_eq!(description.s_type, 38);
    assert_eq!(description.flags, 0);
    let slot = |format| VulkanAttachmentDescription {
        flags: 0,
        format,
        samples: 1,
        load_op: 2,
        store_op: 0,
        stencil_load_op: 2,
        stencil_store_op: 1,
        initial_layout: 0,
        final_layout: 1000001002,
    };
    assert_eq!(description.attachments, vec![slot(44), slot(74)]);
    assert_eq!(description.subpasses.len(), 2);
    assert_eq!(description.subpasses[0].flags, 0);
    assert_eq!(description.subpasses[0].pipeline_bind_point, 0);
    assert!(description.subpasses[0].input_attachments.is_empty());
    assert_eq!(
        description.subpasses[0].color_attachments,
        vec![VulkanAttachmentReference { attachment: 0, layout: 2 }]
    );
    assert_eq!(
        description.subpasses[1].input_attachments,
        vec![
            VulkanAttachmentReference { attachment: 1, layout: 2 },
            VulkanAttachmentReference { attachment: 0, layout: 2 }
        ]
    );
    let empty = VulkanRenderPass::describe(&RenderPassCreateInfo { attachments: &[], subpasses: &[] });
    assert!(empty.attachments.is_empty());
    assert!(empty.subpasses.is_empty());
}

#[test]
fn a_framebuffer_keeps_its_render_pass_alive() {
    let mut s = setup();
    let pass = VulkanRenderPass::new(&mut s.objects, &s.context, Ok(0xD00)).unwrap();
    let first = VulkanImageView::new(&mut s.objects, &s.context, &VulkanImage::swapchain(1), Ok(0xB01)).unwrap();
    let second = VulkanImageView::new(&mut s.objects, &s.context, &VulkanImage::swapchain(2), Ok(0xB02)).unwrap();
    let views = [first, second];
    let description = VulkanFramebuffer::describe(&FramebufferCreateInfo {
        render_pass: &pass,
        extent: Extent2D { width: 640, height: 480 },
        attachments: &views,
    });
    assert_eq!(description.s_type, 37);
    assert_eq!(description.flags, 0);
    assert_eq!(description.render_pass, 0xD00);
    assert_eq!(description.attachments, vec![0xB01, 0xB02]);
    assert_eq!((description.width, description.height, description.layers), (640, 480, 1));

    let framebuffer = VulkanFramebuffer::new(&mut s.objects, &s.context, &pass, Ok(0xE00)).unwrap();
    assert_eq!(framebuffer.render_pass(), pass.ownership());
    assert_eq!(framebuffer.device(), s.context.ownership());
    assert_eq!(s.objects.retains(framebuffer.ownership()), vec![pass.ownership()]);
    let pass_id = pass.ownership();
    assert!(pass.release(&mut s.objects).is_empty());
    assert!(s.objects.is_alive(pass_id));
    assert_eq!(
        framebuffer.release(&mut s.objects),
        vec![destroy(6, ObjectKind::Framebuffer, 0xE00), destroy(3, ObjectKind::RenderPass, 0xD00)]
    );
}

#[test]
fn a_pipeline_layout_binds_nothing() {
    assert_eq!(
        VulkanPipelineLayout::describe(&PipelineLayoutCreateInfo {}),
        VulkanPipelineLayoutCreateInfo { s_type: 30, flags: 0, set_layout_count: 0, push_constant_range_count: 0 }
    );
}

#[test]
fn the_fixed_pipeline_states_have_their_defaults() {
    assert_eq!(
        VulkanPipelineVertexInputStateCreateInfo::default(),
        VulkanPipelineVertexInputStateCreateInfo {
            s_type: 19,
            flags: 0,
            vertex_binding_description_count: 0,
            vertex_attribute_description_count: 0,
        }
    );
    assert_eq!(
        VulkanPipelineInputAssemblyStateCreateInfo::default(),
        VulkanPipelineInputAssemblyStateCreateInfo { s_type: 20, flags: 0, topology: 3, primitive_restart_enable: 0 }
    );
    assert_eq!(
        VulkanPipelineInputAssemblyStateCreateInfo::from_topology(PrimitiveTopology::PatchList).topology,
        10
    );
    assert_eq!(
        VulkanPipelineRasterizationStateCreateInfo::default(),
        VulkanPipelineRasterizationStateCreateInfo {
            s_type: 23,
            flags: 0,
            depth_clamp_enable: 0,
            rasterizer_discard_enable: 0,
            polygon_mode: 0,
            cull_mode: 2,
            front_face: 0,
            depth_bias_enable: 0,
        }
    );
    let odd = VulkanPipelineRasterizationStateCreateInfo::from_state(&RasterizationState {
        polygon_mode: PolygonMode::Wireframe,
        cull_mode: CullMode::Front,
        front_face: FrontFace::Clockwise,
    });
    assert_eq!((odd.polygon_mode, odd.cull_mode, odd.front_face), (1, 1, 1));
    let none = VulkanPipelineRasterizationStateCreateInfo::from_state(&RasterizationState {
        polygon_mode: PolygonMode::Fill,
        cull_mode: CullMode::Nothing,
        front_face: FrontFace::CounterClockwise,
    });
    assert_eq!(none.cull_mode, 0);
}

#[test]
fn shader_stages_come_in_the_order_a_pipeline_runs_them() {
    let mut s = setup();
    let shader = |objects: &mut Objects, context: &VulkanDevice, handle| {
        VulkanShaderModule::from_code(objects, context, ShaderCode::Dynamic(&[]), Ok(handle)).unwrap()
    };
    let vertex = shader(&mut s.objects, &s.context, 0xC01);
    let fragment = shader(&mut s.objects, &s.context, 0xC02);
    let geometry = shader(&mut s.objects, &s.context, 0xC03);
    let control = shader(&mut s.objects, &s.context, 0xC04);
    let evaluation = shader(&mut s.objects, &s.context, 0xC05);
    let stage = |stage, module| VulkanPipelineShaderStageCreateInfo { s_type: 18, flags: 0, stage, module };
    assert_eq!(create_shader_stage(16, &fragment), stage(16, 0xC02));
    assert!(collect_shader_stages(&ShaderStages {
        vertex: None,
        tess_ctrl: None,
        tess_eval: None,
        geometry: None,
        fragment: None
    })
    .is_empty());
    assert_eq!(
        collect_shader_stages(&ShaderStages {
            vertex: Some(&vertex),
            tess_ctrl: None,
            tess_eval: None,
            geometry: None,
            fragment: Some(&fragment)
        }),
        vec![stage(1, 0xC01), stage(16, 0xC02)]
    );
    assert_eq!(
        collect_shader_stages(&ShaderStages {
            vertex: Some(&vertex),
            tess_ctrl: Some(&control),
            tess_eval: Some(&evaluation),
            geometry: Some(&geometry),
            fragment: Some(&fragment)
        }),
        vec![stage(1, 0xC01), stage(2, 0xC04), stage(4, 0xC05), stage(8, 0xC03), stage(16, 0xC02)]
    );
}

#[test]
fn a_graphics_pipeline_is_described_in_full() {
    let mut s = setup();
    let vertex =
        VulkanShaderModule::from_code(&mut s.objects, &s.context, ShaderCode::Dynamic(&[]), Ok(0xC01)).unwrap();
    let fragment =
        VulkanShaderModule::from_code(&mut s.objects, &s.context, ShaderCode::Dynamic(&[]), Ok(0xC02)).unwrap();
    let layout = VulkanPipelineLayout::new(&mut s.objects, &s.context, Ok(0xF00)).unwrap();
    let pass = VulkanRenderPass::new(&mut s.objects, &s.context, Ok(0xD00)).unwrap();
    let blended = BlendAttachmentState {
        blend_enable: true,
        src_color_blend_factor: BlendFactor::SrcAlpha,
        dst_color_blend_factor: BlendFactor::OneMinusSrcAlpha,
        color_blend_op: BlendOp::Add,
        src_alpha_blend_factor: BlendFactor::One,
        dst_alpha_blend_factor: BlendFactor::Zero,
        alpha_blend_op: BlendOp::Max,
        color_write_mask: ColorComponentFlags { r: true, g: true, b: true, a: false },
    };
    let attachments = [BlendAttachmentState::default(), blended];
    let description = VulkanGraphicsPipeline::describe(&GraphicsPipelineCreateInfo {
        shaders: ShaderStages {
            vertex: Some(&vertex),
            tess_ctrl: None,
            tess_eval: None,
            geometry: None,
            fragment: Some(&fragment),
        },
        topology: PrimitiveTopology::TriangleStrip,
        rasterization: RasterizationState {
            polygon_mode: PolygonMode::Wireframe,
            cull_mode: CullMode::Nothing,
            front_face: FrontFace::Clockwise,
        },
        blend: BlendState { attachments: &attachments },
        layout: Some(&layout),
        render_pass: Some(&pass),
        subpass: 1,
    });
    assert_eq!(description.s_type, 28);
    assert_eq!(description.flags, 0);
    assert_eq!(
        description.stages,
        vec![
            VulkanPipelineShaderStageCreateInfo { s_type: 18, flags: 0, stage: 1, module: 0xC01 },
            VulkanPipelineShaderStageCreateInfo { s_type: 18, flags: 0, stage: 16, module: 0xC02 },
        ]
    );
    assert_eq!(description.vertex_input_state, VulkanPipelineVertexInputStateCreateInfo::default());
    assert_eq!(
        description.input_assembly_state,
        VulkanPipelineInputAssemblyStateCreateInfo { s_type: 20, flags: 0, topology: 4, primitive_restart_enable: 0 }
    );
    assert_eq!(
        description.viewport_state,
        VulkanPipelineViewportStateCreateInfo { s_type: 22, flags: 0, viewport_count: 1, scissor_count: 1 }
    );
    assert_eq!(
        (
            description.rasterization_state.polygon_mode,
            description.rasterization_state.cull_mode,
            description.rasterization_state.front_face
        ),
        (1, 0, 1)
    );
    assert_eq!(
        description.multisample_state,
        VulkanPipelineMultisampleStateCreateInfo {
            s_type: 24,
            flags: 0,
            rasterization_samples: 1,
            sample_shading_enable: 0,
            alpha_to_coverage_enable: 0,
            alpha_to_one_enable: 0,
        }
    );
    let stencil = VulkanStencilOpState {
        fail_op: 0,
        pass_op: 0,
        depth_fail_op: 0,
        compare_op: 0,
        compare_mask: 0,
        write_mask: 0,
        reference: 0,
    };
    assert_eq!(
        description.depth_stencil_state,
        VulkanPipelineDepthStencilStateCreateInfo {
            s_type: 25,
            flags: 0,
            depth_test_enable: 0,
            depth_write_enable: 0,
            depth_compare_op: 0,
            depth_bounds_test_enable: 0,
            stencil_test_enable: 0,
            front: stencil,
            back: stencil,
        }
    );
    assert_eq!(description.color_blend_state.s_type, 26);
    assert_eq!(description.color_blend_state.logic_op_enable, 0);
    assert_eq!(description.color_blend_state.logic_op, 0);
    assert_eq!(
        description.color_blend_state.attachments,
        vec![
            VulkanPipelineColorBlendAttachmentState {
                blend_enable: 0,
                src_color_blend_factor: 0,
                dst_color_blend_factor: 0,
                color_blend_op: 0,
                src_alpha_blend_factor: 0,
                dst_alpha_blend_factor: 0,
                alpha_blend_op: 0,
                color_write_mask: 15,
            },
            VulkanPipelineColorBlendAttachmentState {
                blend_enable: 1,
                src_color_blend_factor: 6,
                dst_color_blend_factor: 7,
                color_blend_op: 0,
                src_alpha_blend_factor: 1,
                dst_alpha_blend_factor: 0,
                alpha_blend_op: 4,
                color_write_mask: 7,
            },
        ]
    );
    assert_eq!(description.dynamic_state.s_type, 27);
    assert_eq!(description.dynamic_state.dynamic_states, vec![0, 1]);
    assert_eq!(description.layout, 0xF00);
    assert_eq!(description.render_pass, 0xD00);
    assert_eq!(description.subpass, 1);
    assert_eq!(description.base_pipeline_handle, 0);
    assert_eq!(description.base_pipeline_index, 0);

    let pipeline = VulkanGraphicsPipeline::new(&mut s.objects, &s.context, Ok(0x1100)).unwrap();
    assert_eq!(pipeline.handle(), 0x1100);
    assert_eq!(s.objects.retains(pipeline.ownership()), vec![s.context.ownership()]);
}

#[test]
fn pipelines_created_together_are_taken_in_together() {
    let mut s = setup();
    let pipelines =
        VulkanGraphicsPipeline::create_pipelines(&mut s.objects, &s.context, Ok(vec![0x1101, 0x1102])).unwrap();
    assert_eq!(pipelines.len(), 2);
    assert_eq!(pipelines[0].handle(), 0x1101);
    assert_eq!(pipelines[1].handle(), 0x1102);
    assert_eq!(pipelines[1].ownership(), ObjectId { index: 4 });
    assert_eq!(pipelines[0].device(), s.context.ownership());
    assert_eq!(s.objects.retained(s.context.ownership()), 2);
    assert_eq!(
        VulkanGraphicsPipeline::create_pipelines(&mut s.objects, &s.context, Err(-11)).unwrap_err(),
        Error::ApiError(-11)
    );
    assert!(VulkanGraphicsPipeline::create_pipelines(&mut s.objects, &s.context, Ok(vec![]))
        .unwrap()
        .is_empty());
}

#[test]
fn the_minimal_bring_up_succeeds_and_tears_down_in_order() {
    let mut objects = Objects::new();
    let mut kept = Kept::new();
    let root = VulkanInstance::new(&mut objects, Ok(0x100)).unwrap();
    root.found(
        &mut kept,
        VulkanInstance::enumerate_physical_device(Ok(vec![(0x200, properties("gpu", 2, 0x10DE))])).unwrap(),
    );
    let device = root.devices(&kept).unwrap()[0].duplicate();
    let context = VulkanDevice::new(
        &mut objects,
        &root,
        &device,
        Ok(ContextHandles { context: 0x300, queue: 0x400 }),
    )
    .unwrap();
    assert_eq!(
        VulkanCommandPool::describe(&CommandPoolCreateInfo { transient: false, reset: true }).flags,
        2
    );
    let pool = VulkanCommandPool::new(&mut objects, &context, Ok(0x600)).unwrap();
    assert_eq!(VulkanFence::describe(&FenceCreateInfo { signaled: false }).flags, 0);
    let fence = VulkanFence::new(&mut objects, &context, Ok(0x800)).unwrap();

    let ids = [root.ownership(), context.ownership(), pool.ownership(), fence.ownership()];
    for (i, a) in ids.iter().enumerate() {
        for b in ids.iter().skip(i + 1) {
            assert_ne!(a, b);
        }
        assert_eq!(objects.handles(*a), 1);
    }
    let root_twin = root.share(&mut objects).unwrap();
    let context_twin = context.share(&mut objects).unwrap();
    let pool_twin = pool.share(&mut objects).unwrap();
    let fence_twin = fence.share(&mut objects).unwrap();
    for id in ids {
        assert_eq!(objects.handles(id), 2);
    }
    assert!(fence_twin.release(&mut objects).is_empty());
    assert!(pool_twin.release(&mut objects).is_empty());
    assert!(context_twin.release(&mut objects).is_empty());
    assert!(root_twin.release(&mut objects).is_empty());

    let mut calls = Vec::new();
    let mut carry_out = |objects: &Objects, actions: Vec<Destroy>| {
        for action in &actions {
            calls.push(VulkanDestroy::of(objects, action));
        }
        actions
    };
    let gone = fence.release(&mut objects);
    assert_eq!(carry_out(&objects, gone), vec![destroy(4, ObjectKind::Fence, 0x800)]);
    let gone = pool.release(&mut objects);
    assert_eq!(carry_out(&objects, gone), vec![destroy(3, ObjectKind::CommandPool, 0x600)]);
    let gone = context.release(&mut objects);
    assert_eq!(
        carry_out(&objects, gone),
        vec![destroy(2, ObjectKind::Context, 0x300), destroy(1, ObjectKind::Queue, 0x400)]
    );
    let gone = root.release(&mut objects);
    assert_eq!(carry_out(&objects, gone), vec![destroy(0, ObjectKind::Root, 0x100)]);
    for id in ids {
        assert!(!objects.is_alive(id));
    }
    assert_eq!(
        calls,
        vec![
            VulkanDestroy { kind: ObjectKind::Fence, handle: 0x800, parent: 0x300 },
            VulkanDestroy { kind: ObjectKind::CommandPool, handle: 0x600, parent: 0x300 },
            VulkanDestroy { kind: ObjectKind::Context, handle: 0x300, parent: 0 },
            VulkanDestroy { kind: ObjectKind::Queue, handle: 0x400, parent: 0 },
            VulkanDestroy { kind: ObjectKind::Root, handle: 0x100, parent: 0 },
        ]
    );
}

#[test]
fn every_object_is_destroyed_on_what_it_was_created_on() {
    let mut s = setup();
    let surface = VulkanSurface::new(&mut s.objects, &s.root, Ok(0x500)).unwrap();
    let swapchain =
        VulkanSwapchain::new(&mut s.objects, &s.context, &surface, Ok(0xA00), Ok(vec![0xB0])).unwrap();
    let view =
        VulkanImageView::new(&mut s.objects, &s.context, &swapchain.images()[0], Ok(0xC00)).unwrap();
    let pass = VulkanRenderPass::new(&mut s.objects, &s.context, Ok(0xD00)).unwrap();
    let framebuffer = VulkanFramebuffer::new(&mut s.objects, &s.context, &pass, Ok(0xE00)).unwrap();
    let pool = VulkanCommandPool::new(&mut s.objects, &s.context, Ok(0x600)).unwrap();
    let buffer = VulkanCommandBuffer::allocate(&mut s.objects, &pool, Ok(0x700)).unwrap();
    let call = |objects: &Objects, kind: ObjectKind, id: ObjectId, handle: u64| {
        VulkanDestroy::of(objects, &Destroy { object: id, kind, native: handle })
    };
    let on = |objects: &Objects, kind: ObjectKind, id: ObjectId| call(objects, kind, id, 1).parent;
    let (instance, device) = (s.root.handle(), s.context.handle());
    assert_eq!(on(&s.objects, ObjectKind::Surface, surface.ownership()), instance);
    assert_eq!(on(&s.objects, ObjectKind::Swapchain, swapchain.ownership()), device);
    assert_eq!(on(&s.objects, ObjectKind::ImageView, view.ownership()), device);
    assert_eq!(on(&s.objects, ObjectKind::RenderPass, pass.ownership()), device);
    assert_eq!(on(&s.objects, ObjectKind::Framebuffer, framebuffer.ownership()), device);
    assert_eq!(on(&s.objects, ObjectKind::CommandPool, pool.ownership()), device);
    assert_eq!(on(&s.objects, ObjectKind::CommandBuffer, buffer.ownership()), 0);
    assert_eq!(on(&s.objects, ObjectKind::Root, s.root.ownership()), 0);
    assert_eq!(on(&s.objects, ObjectKind::Context, s.context.ownership()), 0);
    assert_eq!(on(&s.objects, ObjectKind::Fence, ObjectId { index: 99 }), 0);
    assert_eq!(
        call(&s.objects, ObjectKind::Swapchain, swapchain.ownership(), 0xA00),
        VulkanDestroy { kind: ObjectKind::Swapchain, handle: 0xA00, parent: device }
    );

    let gone = framebuffer.release(&mut s.objects);
    assert_eq!(gone.len(), 1);
    assert!(pass.release(&mut s.objects).len() == 1);
    assert_eq!(
        VulkanDestroy::of(&s.objects, &gone[0]),
        VulkanDestroy { kind: ObjectKind::Framebuffer, handle: 0xE00, parent: device }
    );
}

#[test]
fn a_vulkan_pipeline_needs_a_layout_and_a_render_pass() {
    let mut s = setup();
    let layout = VulkanPipelineLayout::new(&mut s.objects, &s.context, Ok(0xF00)).unwrap();
    let pass = VulkanRenderPass::new(&mut s.objects, &s.context, Ok(0xD00)).unwrap();
    let info = |layout, render_pass| GraphicsPipelineCreateInfo::<
        VulkanShaderModule,
        VulkanPipelineLayout,
        VulkanRenderPass,
    > {
        shaders: ShaderStages { vertex: None, tess_ctrl: None, tess_eval: None, geometry: None, fragment: None },
        topology: PrimitiveTopology::TriangleList,
        rasterization: RasterizationState::default(),
        blend: BlendState { attachments: &[] },
        layout,
        render_pass,
        subpass: 0,
    };
    assert!(VulkanGraphicsPipeline::is_describable(&info(Some(&layout), Some(&pass))));
    assert!(!VulkanGraphicsPipeline::is_describable(&info(None, Some(&pass))));
    assert!(!VulkanGraphicsPipeline::is_describable(&info(Some(&layout), None)));
    assert!(!VulkanGraphicsPipeline::is_describable(&info(None, None)));
}

#[test]
fn what_was_created_but_not_taken_in_is_destroyed_at_once() {
    let mut s = setup();
    let device = s.context.handle();
    let surface = VulkanSurface::new(&mut s.objects, &s.root, Ok(0x500)).unwrap();

    let failed = VulkanSwapchain::new(&mut s.objects, &s.context, &surface, Ok(0xA01), Err(-8));
    assert_eq!(failed.as_ref().unwrap_err(), &Error::ApiError(-8));
    assert_eq!(orphaned(Ok(0xA01), &failed), Some(0xA01));
    assert_eq!(
        VulkanDestroy::orphan(ObjectKind::Swapchain, device, Ok(0xA01), &failed),
        Some(VulkanDestroy { kind: ObjectKind::Swapchain, handle: 0xA01, parent: device })
    );

    let never = VulkanFence::new(&mut s.objects, &s.context, Err(-2));
    assert_eq!(orphaned(Err(-2), &never), None);
    assert_eq!(VulkanDestroy::orphan(ObjectKind::Fence, device, Err(-2), &never), None);

    let taken = VulkanFence::new(&mut s.objects, &s.context, Ok(0x800));
    assert!(taken.is_ok());
    assert_eq!(orphaned(Ok(0x800), &taken), None);
    assert_eq!(VulkanDestroy::orphan(ObjectKind::Fence, device, Ok(0x800), &taken), None);

    let context = VulkanDevice::new(
        &mut s.objects,
        &s.root,
        &VulkanPhysicalDevice::new(0x200, properties("gpu", 2, 0x10DE)),
        Ok(ContextHandles { context: 0x301, queue: 0x401 }),
    )
    .unwrap();
    let twin = context.share(&mut s.objects).unwrap();
    assert_eq!(context.release(&mut s.objects).len(), 0);
    assert_eq!(twin.release(&mut s.objects).len(), 2);
    let gone = VulkanDevice::new(
        &mut s.objects,
        &s.root,
        &VulkanPhysicalDevice::new(0x200, properties("gpu", 2, 0x10DE)),
        Err(-3),
    );
    assert_eq!(orphaned(Err(-3), &gone), None);
}

#[test]
fn a_handle_is_known_to_its_own_table_only() {
    let s = setup();
    let mut other = Objects::new();
    let foreign_root = VulkanInstance::new(&mut other, Ok(0x111)).unwrap();
    let foreign = VulkanDevice::new(
        &mut other,
        &foreign_root,
        &VulkanPhysicalDevice::new(0x200, properties("gpu", 2, 0x10DE)),
        Ok(ContextHandles { context: 0x333, queue: 0x444 }),
    )
    .unwrap();
    assert_eq!(foreign.ownership(), s.context.ownership());
    assert!(s.context.is_known(&s.objects));
    assert!(s.root.is_known(&s.objects));
    assert!(s.context.queues()[0].is_known(&s.objects));
    assert!(foreign.is_known(&other));
    assert!(!foreign.is_known(&s.objects));
    assert!(!foreign_root.is_known(&s.objects));
    assert!(!s.context.is_known(&other));
    assert!(s.objects.holds(s.context.ownership(), 0x300));
    assert!(!s.objects.holds(s.context.ownership(), 0x333));
    assert!(!s.objects.holds(ObjectId { index: 99 }, 0x300));
}
