use renderer::instance::{
    check_loader_version, plan_instance, require_physical_devices, require_validation_layer,
    validation_layer_available, PhysicalDeviceInfo, VulkanInitError,
};
use renderer::version::{
    api_version_1_0, decimal_string, engine_version, format_api_version, target_api_version,
};

#[test]
fn target_version_is_vulkan_1_3() {
    assert_eq!(target_api_version(), ash::vk::API_VERSION_1_3);
    assert_eq!(api_version_1_0(), ash::vk::API_VERSION_1_0);
    assert_eq!(engine_version(), ash::vk::make_api_version(0, 0, 1, 0));
}

#[test]
fn formats_api_versions() {
    assert_eq!(format_api_version(ash::vk::API_VERSION_1_3), "1.3.0");
    assert_eq!(format_api_version(ash::vk::make_api_version(0, 1, 2, 198)), "1.2.198");
    assert_eq!(format_api_version(ash::vk::make_api_version(0, 127, 1023, 4095)), "127.1023.4095");
    assert_eq!(format_api_version(0), "0.0.0");
}

#[test]
fn version_round_trip_on_values() {
    for (major, minor, patch) in [(1u32, 0u32, 0u32), (1, 3, 281), (0, 10, 7)] {
        let packed = ash::vk::make_api_version(0, major, minor, patch);
        assert_eq!(format_api_version(packed), format!("{major}.{minor}.{patch}"));
    }
}

#[test]
fn decimal_rendering() {
    assert_eq!(decimal_string(0), "0");
    assert_eq!(decimal_string(9), "9");
    assert_eq!(decimal_string(10), "10");
    assert_eq!(decimal_string(4206592), "4206592");
    assert_eq!(decimal_string(u64::MAX), u64::MAX.to_string());
}

#[test]
fn loader_version_check() {
    assert_eq!(check_loader_version(Some(ash::vk::API_VERSION_1_3)).unwrap(), ash::vk::API_VERSION_1_3);
    let newer = ash::vk::make_api_version(0, 1, 4, 0);
    assert_eq!(check_loader_version(Some(newer)).unwrap(), newer);
    match check_loader_version(Some(ash::vk::API_VERSION_1_2)) {
        Err(VulkanInitError::UnsupportedApiVersion { required, available }) => {
            assert_eq!(required, ash::vk::API_VERSION_1_3);
            assert_eq!(available, ash::vk::API_VERSION_1_2);
        }
        other => panic!("unexpected {other:?}"),
    }
    match check_loader_version(None) {
        Err(VulkanInitError::UnsupportedApiVersion { available, .. }) => {
            assert_eq!(available, ash::vk::API_VERSION_1_0);
        }
        other => panic!("unexpected {other:?}"),
    }
}

#[test]
fn validation_layer_lookup() {
    let layers = vec!["VK_LAYER_MESA_overlay".to_string(), "VK_LAYER_KHRONOS_validation".to_string()];
    assert!(validation_layer_available(&layers));
    assert!(require_validation_layer(&layers).is_ok());
    let others = vec!["VK_LAYER_KHRONOS_validation_extra".to_string()];
    assert!(!validation_layer_available(&others));
    assert!(matches!(
        require_validation_layer(&others),
        Err(VulkanInitError::ValidationLayerUnavailable)
    ));
    assert!(!validation_layer_available(&Vec::new()));
}

#[test]
fn instance_plan_with_and_without_validation() {
    let required = vec!["VK_KHR_surface".to_string(), "VK_KHR_xlib_surface".to_string()];
    let plan = plan_instance(required.clone(), true);
    assert!(plan.validation);
    assert_eq!(plan.api_version, ash::vk::API_VERSION_1_3);
    assert_eq!(plan.application_version, ash::vk::make_api_version(0, 0, 1, 0));
    assert_eq!(plan.engine_version, ash::vk::make_api_version(0, 0, 1, 0));
    assert_eq!(
        plan.extensions,
        vec![
            "VK_KHR_surface".to_string(),
            "VK_KHR_xlib_surface".to_string(),
            ash::ext::debug_utils::NAME.to_str().unwrap().to_string(),
        ]
    );
    let plain = plan_instance(required.clone(), false);
    assert!(!plain.validation);
    assert_eq!(plain.extensions, required);
}

#[test]
fn physical_devices_must_exist() {
    assert!(matches!(require_physical_devices(Vec::new()), Err(VulkanInitError::NoPhysicalDevices)));
    let device = PhysicalDeviceInfo {
        name: "GPU".to_string(),
        device_type: 2,
        api_version: ash::vk::API_VERSION_1_3,
        driver_version: 1,
        vendor_id: 0x10de,
        device_id: 0x2204,
    };
    let list = require_physical_devices(vec![device]).unwrap();
    assert_eq!(list.len(), 1);
    assert_eq!(list[0].name, "GPU");
}

#[test]
fn init_error_messages() {
    assert_eq!(
        VulkanInitError::Loader("libvulkan.so.1: cannot open".to_string()).message(),
        "failed to load Vulkan: libvulkan.so.1: cannot open"
    );
    assert_eq!(
        VulkanInitError::Vulkan(ash::vk::Result::ERROR_INITIALIZATION_FAILED.as_raw()).message(),
        "Vulkan error: ERROR_INITIALIZATION_FAILED"
    );
    assert_eq!(
        VulkanInitError::ValidationLayerUnavailable.message(),
        "Vulkan validation layer 'VK_LAYER_KHRONOS_validation' is unavailable"
    );
    assert_eq!(
        VulkanInitError::UnsupportedApiVersion {
            required: ash::vk::API_VERSION_1_3,
            available: ash::vk::API_VERSION_1_1,
        }
        .message(),
        "Vulkan API 1.3.0 required, but loader only supports 1.1.0"
    );
    assert_eq!(VulkanInitError::NoPhysicalDevices.message(), "no Vulkan-capable physical devices found");
}
