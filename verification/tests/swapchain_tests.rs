use renderer::device::QueueFamilies;
use renderer::surface::VulkanSurfaceError;
use renderer::swapchain::{
    choose_composite_alpha, choose_extent, choose_image_count, choose_present_mode,
    choose_surface_format, plan_swapchain, sharing_mode, Extent2D, SharingMode, SurfaceCapabilities,
    SurfaceFormat, VulkanSwapchainError,
};

fn caps() -> SurfaceCapabilities {
    SurfaceCapabilities {
        min_image_count: 2,
        max_image_count: 8,
        current_extent: Extent2D { width: u32::MAX, height: u32::MAX },
        min_image_extent: Extent2D { width: 1, height: 1 },
        max_image_extent: Extent2D { width: 4096, height: 2048 },
        current_transform: 1,
        supported_composite_alpha: 0x1 | 0x8,
        supported_usage_flags: 0x1 | 0x2 | 0x10,
    }
}

const SRGB: SurfaceFormat = SurfaceFormat { format: 50, color_space: 0 };
const UNORM: SurfaceFormat = SurfaceFormat { format: 44, color_space: 0 };

#[test]
fn surface_format_choice() {
    assert_eq!(choose_surface_format(&vec![UNORM, SRGB]), SRGB);
    assert_eq!(choose_surface_format(&vec![UNORM]), UNORM);
    let srgb_other_space = SurfaceFormat { format: 50, color_space: 1000104001 };
    assert_eq!(choose_surface_format(&vec![srgb_other_space, UNORM]), srgb_other_space);
}

#[test]
fn present_mode_choice() {
    assert_eq!(choose_present_mode(&vec![2, 1, 0]), 1);
    assert_eq!(choose_present_mode(&vec![0, 3]), 2);
    assert_eq!(choose_present_mode(&Vec::new()), 2);
}

#[test]
fn extent_choice() {
    let mut c = caps();
    assert_eq!(choose_extent(&c, 1280, 720), Extent2D { width: 1280, height: 720 });
    assert_eq!(choose_extent(&c, 8000, 0), Extent2D { width: 4096, height: 1 });
    c.current_extent = Extent2D { width: 800, height: 600 };
    assert_eq!(choose_extent(&c, 1280, 720), Extent2D { width: 800, height: 600 });
}

#[test]
fn image_count_choice() {
    let mut c = caps();
    assert_eq!(choose_image_count(&c), 3);
    c.max_image_count = 2;
    assert_eq!(choose_image_count(&c), 2);
    c.max_image_count = 0;
    c.min_image_count = 7;
    assert_eq!(choose_image_count(&c), 8);
}

#[test]
fn composite_alpha_choice() {
    assert_eq!(choose_composite_alpha(0x1 | 0x8), Some(0x1));
    assert_eq!(choose_composite_alpha(0x4 | 0x2), Some(0x2));
    assert_eq!(choose_composite_alpha(0x4), Some(0x4));
    assert_eq!(choose_composite_alpha(0x8), Some(0x8));
    assert_eq!(choose_composite_alpha(0x10), None);
    assert_eq!(choose_composite_alpha(0), None);
}

#[test]
fn sharing_mode_choice() {
    assert_eq!(sharing_mode(QueueFamilies { graphics: 1, present: 1 }), SharingMode::Exclusive);
    assert_eq!(
        sharing_mode(QueueFamilies { graphics: 0, present: 2 }),
        SharingMode::Concurrent { graphics: 0, present: 2 }
    );
}

#[test]
fn full_plan() {
    let families = QueueFamilies { graphics: 0, present: 1 };
    let plan = plan_swapchain(&caps(), &vec![UNORM, SRGB], &vec![2, 1], 1280, 720, families).unwrap();
    assert_eq!(plan.surface_format, SRGB);
    assert_eq!(plan.present_mode, 1);
    assert_eq!(plan.extent, Extent2D { width: 1280, height: 720 });
    assert_eq!(plan.min_image_count, 3);
    assert_eq!(plan.image_array_layers, 1);
    assert_eq!(plan.image_usage, 0x10 | 0x2);
    assert_eq!(plan.pre_transform, 1);
    assert_eq!(plan.composite_alpha, 0x1);
    assert!(plan.clipped);
    assert_eq!(plan.sharing, SharingMode::Concurrent { graphics: 0, present: 1 });
}

#[test]
fn plan_respects_surface_on_values() {
    let mut c = caps();
    c.max_image_count = 2;
    let formats = vec![UNORM];
    let plan = plan_swapchain(&c, &formats, &vec![0], 9000, 9000, QueueFamilies { graphics: 2, present: 2 }).unwrap();
    assert!(formats.contains(&plan.surface_format));
    assert_eq!(plan.present_mode, 2);
    assert!(plan.extent.width <= 4096 && plan.extent.height <= 2048);
    assert!(plan.min_image_count <= 2);
    assert_eq!(c.supported_composite_alpha & plan.composite_alpha, plan.composite_alpha);
    assert_eq!(c.supported_usage_flags & plan.image_usage, plan.image_usage);
    assert_eq!(plan.sharing, SharingMode::Exclusive);
}

#[test]
fn plan_errors_in_order() {
    let f = QueueFamilies { graphics: 0, present: 0 };
    assert_eq!(
        plan_swapchain(&caps(), &Vec::new(), &Vec::new(), 1, 1, f),
        Err(VulkanSwapchainError::NoSurfaceFormats)
    );
    assert_eq!(
        plan_swapchain(&caps(), &vec![SRGB], &Vec::new(), 1, 1, f),
        Err(VulkanSwapchainError::NoPresentModes)
    );
    let mut c = caps();
    c.supported_composite_alpha = 0;
    c.supported_usage_flags = 0;
    assert_eq!(
        plan_swapchain(&c, &vec![SRGB], &vec![2], 1, 1, f),
        Err(VulkanSwapchainError::NoCompositeAlphaMode)
    );
    let mut c = caps();
    c.supported_usage_flags = 0x10;
    assert_eq!(
        plan_swapchain(&c, &vec![SRGB], &vec![2], 1, 1, f),
        Err(VulkanSwapchainError::UnsupportedImageUsage)
    );
}

#[test]
fn swapchain_error_messages() {
    assert_eq!(
        VulkanSwapchainError::Vulkan(ash::vk::Result::ERROR_OUT_OF_DATE_KHR.as_raw()).message(),
        "Vulkan swapchain error: ERROR_OUT_OF_DATE_KHR"
    );
    assert_eq!(
        VulkanSwapchainError::Surface(VulkanSurfaceError::Vulkan(-1000000000)).message(),
        "Vulkan surface error: Vulkan surface error: ERROR_SURFACE_LOST_KHR"
    );
    assert_eq!(VulkanSwapchainError::NoSurfaceFormats.message(), "surface exposes no usable formats");
    assert_eq!(VulkanSwapchainError::NoPresentModes.message(), "surface exposes no presentation modes");
    assert_eq!(
        VulkanSwapchainError::NoCompositeAlphaMode.message(),
        "surface exposes no supported composite alpha mode"
    );
    assert_eq!(
        VulkanSwapchainError::UnsupportedImageUsage.message(),
        "surface does not support the required swapchain image usage"
    );
    assert_eq!(
        VulkanSwapchainError::from(VulkanSurfaceError::Vulkan(-4)),
        VulkanSwapchainError::Surface(VulkanSurfaceError::Vulkan(-4))
    );
    assert_eq!(VulkanSurfaceError::Vulkan(-4).message(), "Vulkan surface error: ERROR_DEVICE_LOST");
}

#[test]
fn empty_lists_refused_whatever_the_capabilities() {
    let mut c = caps();
    c.min_image_count = u32::MAX;
    c.min_image_extent = Extent2D { width: 10, height: 10 };
    c.max_image_extent = Extent2D { width: 1, height: 1 };
    let f = QueueFamilies { graphics: 0, present: 0 };
    assert_eq!(
        plan_swapchain(&c, &Vec::new(), &vec![2], 1, 1, f),
        Err(VulkanSwapchainError::NoSurfaceFormats)
    );
    assert_eq!(
        plan_swapchain(&c, &vec![SRGB], &Vec::new(), 1, 1, f),
        Err(VulkanSwapchainError::NoPresentModes)
    );
}
