use renderer::device::{
    find_graphics_queue_family, headless_queue_families, pick_best_candidate, pick_headless_device,
    score_device, supports_swapchain, unique_queue_families, DeviceProbe, QueueFamilies,
    QueueFamilyProperties, QueueFamilySearch, VulkanDeviceError,
};
use renderer::surface::VulkanSurfaceError;

fn family(flags: u32, count: u32) -> QueueFamilyProperties {
    QueueFamilyProperties { queue_flags: flags, queue_count: count }
}

#[test]
fn device_scores() {
    assert_eq!(score_device(ash::vk::PhysicalDeviceType::DISCRETE_GPU.as_raw()), 1000);
    assert_eq!(score_device(ash::vk::PhysicalDeviceType::INTEGRATED_GPU.as_raw()), 500);
    assert_eq!(score_device(ash::vk::PhysicalDeviceType::VIRTUAL_GPU.as_raw()), 250);
    assert_eq!(score_device(ash::vk::PhysicalDeviceType::CPU.as_raw()), 100);
    assert_eq!(score_device(ash::vk::PhysicalDeviceType::OTHER.as_raw()), 0);
    assert_eq!(score_device(77), 0);
}

#[test]
fn first_graphics_family() {
    let families = vec![family(0x4, 1), family(0x1 | 0x2, 0), family(0x2 | 0x1, 4), family(0x1, 1)];
    assert_eq!(find_graphics_queue_family(&families), Some(2));
    assert_eq!(find_graphics_queue_family(&vec![family(0x2, 3), family(0x4, 1)]), None);
    assert_eq!(find_graphics_queue_family(&Vec::new()), None);
}

#[test]
fn headless_choice_prefers_last_of_equal_scores() {
    assert_eq!(pick_headless_device(&vec![500, 1000, 250, 1000]), Some(3));
    assert_eq!(pick_headless_device(&vec![100]), Some(0));
    assert_eq!(pick_headless_device(&Vec::new()), None);
}

#[test]
fn presentation_choice_prefers_first_of_equal_scores() {
    assert_eq!(pick_best_candidate(&vec![500, 1000, 250, 1000]), Some(1));
    assert_eq!(pick_best_candidate(&vec![0, 0]), Some(0));
    assert_eq!(pick_best_candidate(&Vec::new()), None);
}

#[test]
fn unique_best_device_picked_by_both_rules() {
    let scores = vec![250, 100, 1000, 500];
    assert_eq!(pick_headless_device(&scores), Some(2));
    assert_eq!(pick_best_candidate(&scores), Some(2));
}

#[test]
fn unique_families() {
    assert_eq!(unique_queue_families(QueueFamilies { graphics: 0, present: 0 }), vec![0]);
    assert_eq!(unique_queue_families(QueueFamilies { graphics: 0, present: 2 }), vec![0, 2]);
    assert_eq!(headless_queue_families(3), QueueFamilies { graphics: 3, present: 3 });
}

#[test]
fn swapchain_extension_lookup() {
    let names = vec!["VK_KHR_maintenance1".to_string(), "VK_KHR_swapchain".to_string()];
    assert!(supports_swapchain(&names));
    assert!(!supports_swapchain(&vec!["VK_KHR_swapchain_mutable_format".to_string()]));
}

fn run_search(families: &[QueueFamilyProperties], presents: &[bool]) -> (Option<QueueFamilies>, usize) {
    let mut search = QueueFamilySearch::new();
    let mut asked = 0;
    for (index, f) in families.iter().enumerate() {
        if search.is_done() {
            break;
        }
        let answer = if search.asks_presentation(*f) {
            asked += 1;
            presents[index]
        } else {
            false
        };
        search.examine(index as u32, *f, answer);
    }
    (search.outcome(), asked)
}

#[test]
fn queue_family_search_keeps_latest_and_stops() {
    let families = [family(0x1, 1), family(0x1, 1), family(0x2, 1), family(0x1, 1)];
    let (found, asked) = run_search(&families, &[false, false, true, true]);
    assert_eq!(found, Some(QueueFamilies { graphics: 1, present: 2 }));
    assert_eq!(asked, 3);

    let (found, _) = run_search(&[family(0x1, 1)], &[true]);
    assert_eq!(found, Some(QueueFamilies { graphics: 0, present: 0 }));
}

#[test]
fn queue_family_search_skips_empty_families() {
    let families = [family(0x1, 0), family(0x2, 2)];
    let (found, asked) = run_search(&families, &[true, true]);
    assert_eq!(found, None);
    assert_eq!(asked, 1);
}

#[test]
fn queue_family_search_found_families_are_capable() {
    let families = [family(0x2, 1), family(0x1, 2), family(0x4, 1)];
    let presents = [true, false, true];
    let (found, _) = run_search(&families, &presents);
    let q = found.unwrap();
    assert_eq!(families[q.graphics as usize].queue_flags & 0x1, 0x1);
    assert!(presents[q.present as usize]);
}

#[test]
fn probe_accepts_complete_device() {
    let mut probe = DeviceProbe::new();
    assert!(!probe.is_finished());
    probe.on_extensions(&vec!["VK_KHR_swapchain".to_string()]);
    assert_eq!(probe, DeviceProbe::FindQueueFamilies);
    let q = QueueFamilies { graphics: 0, present: 1 };
    probe.on_queue_families(Some(q));
    assert_eq!(probe, DeviceProbe::CheckSurfaceFormats(q));
    probe.on_surface_formats(2);
    assert_eq!(probe, DeviceProbe::CheckPresentModes(q));
    probe.on_present_modes(1);
    assert_eq!(probe, DeviceProbe::Suitable(q));
    assert!(probe.is_finished());
}

#[test]
fn probe_rejects_incomplete_devices() {
    let mut probe = DeviceProbe::new();
    probe.on_extensions(&Vec::new());
    assert_eq!(probe, DeviceProbe::Unsuitable);
    assert!(probe.is_finished());

    let mut probe = DeviceProbe::new();
    probe.on_extensions(&vec!["VK_KHR_swapchain".to_string()]);
    probe.on_queue_families(None);
    assert_eq!(probe, DeviceProbe::Unsuitable);

    let q = QueueFamilies { graphics: 0, present: 0 };
    let mut probe = DeviceProbe::new();
    probe.on_extensions(&vec!["VK_KHR_swapchain".to_string()]);
    probe.on_queue_families(Some(q));
    probe.on_surface_formats(0);
    assert_eq!(probe, DeviceProbe::Unsuitable);

    let mut probe = DeviceProbe::new();
    probe.on_extensions(&vec!["VK_KHR_swapchain".to_string()]);
    probe.on_queue_families(Some(q));
    probe.on_surface_formats(3);
    probe.on_present_modes(0);
    assert_eq!(probe, DeviceProbe::Unsuitable);
}

#[test]
fn device_error_messages() {
    assert_eq!(
        VulkanDeviceError::NoSuitablePhysicalDevice.message(),
        "no suitable Vulkan physical device found"
    );
    assert_eq!(
        VulkanDeviceError::Vulkan(ash::vk::Result::ERROR_DEVICE_LOST.as_raw()).message(),
        "Vulkan device error: ERROR_DEVICE_LOST"
    );
    assert_eq!(
        VulkanDeviceError::Surface(VulkanSurfaceError::Vulkan(ash::vk::Result::ERROR_SURFACE_LOST_KHR.as_raw()))
            .message(),
        "Vulkan surface error: Vulkan surface error: ERROR_SURFACE_LOST_KHR"
    );
    assert_eq!(
        VulkanDeviceError::from(VulkanSurfaceError::Vulkan(-3)),
        VulkanDeviceError::Surface(VulkanSurfaceError::Vulkan(-3))
    );
}
