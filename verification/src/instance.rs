//! Instance creation decisions: the loader version check, the validation
//! layer, the instance extensions and the physical-device listing.

use vstd::prelude::*;
use crate::version::{
    api_version_1_0, engine_version, format_api_version, spec_make_api_version, target_api_version,
    version_text,
};
use crate::vk::{vk_result_debug, vk_result_name};

verus! {

/// The Khronos validation layer's name.
pub open spec fn validation_layer_name() -> Seq<char> {
    "VK_LAYER_KHRONOS_validation"@
}

/// The name of the `VK_EXT_debug_utils` instance extension.
pub open spec fn debug_utils_extension_name() -> Seq<char> {
    "VK_EXT_debug_utils"@
}

/// Why a Vulkan instance could not be created or queried.
#[derive(Debug)]
pub enum VulkanInitError {
    /// The Vulkan loader could not be loaded; the loader's own message.
    Loader(String),
    /// A Vulkan call failed with this `VkResult` code.
    Vulkan(i32),
    ValidationLayerUnavailable,
    UnsupportedApiVersion { required: u32, available: u32 },
    NoPhysicalDevices,
}

impl VulkanInitError {
    /// The text the error displays.
    pub open spec fn text(&self) -> Seq<char> {
        match self {
            VulkanInitError::Loader(e) => "failed to load Vulkan: "@ + e@,
            VulkanInitError::Vulkan(code) => "Vulkan error: "@ + vk_result_debug(*code),
            VulkanInitError::ValidationLayerUnavailable => "Vulkan validation layer '"@
                + validation_layer_name() + "' is unavailable"@,
            VulkanInitError::UnsupportedApiVersion { required, available } => "Vulkan API "@
                + version_text(*required) + " required, but loader only supports "@
                + version_text(*available),
            VulkanInitError::NoPhysicalDevices => "no Vulkan-capable physical devices found"@,
        }
    }

    /// The text the error displays.
    pub fn message(&self) -> (r: String)
        ensures
            r@ == self.text(),
    {
        match self {
            VulkanInitError::Loader(e) => {
                let mut s = String::from_str("failed to load Vulkan: ");
                s.append(e.as_str());
                s
            },
            VulkanInitError::Vulkan(code) => {
                let mut s = String::from_str("Vulkan error: ");
                let name = vk_result_name(*code);
                s.append(name.as_str());
                s
            },
            VulkanInitError::ValidationLayerUnavailable => {
                let mut s = String::from_str("Vulkan validation layer '");
                s.append("VK_LAYER_KHRONOS_validation");
                s.append("' is unavailable");
                s
            },
            VulkanInitError::UnsupportedApiVersion { required, available } => {
                let mut s = String::from_str("Vulkan API ");
                let r = format_api_version(*required);
                s.append(r.as_str());
                s.append(" required, but loader only supports ");
                let a = format_api_version(*available);
                s.append(a.as_str());
                s
            },
            VulkanInitError::NoPhysicalDevices => String::from_str(
                "no Vulkan-capable physical devices found",
            ),
        }
    }
}

/// Checks the instance version that the loader reports (`None` when the
/// loader predates `vkEnumerateInstanceVersion`, which means Vulkan 1.0)
/// against the targeted Vulkan 1.3, and returns the loader's version.
pub fn check_loader_version(reported: Option<u32>) -> (r: Result<u32, VulkanInitError>)
    ensures
        ({
            let loader = match reported {
                Some(v) => v,
                None => spec_make_api_version(0, 1, 0, 0),
            };
            if loader < spec_make_api_version(0, 1, 3, 0) {
                r matches Err(VulkanInitError::UnsupportedApiVersion { required, available })
                    && required == spec_make_api_version(0, 1, 3, 0) && available == loader
            } else {
                r == Ok::<u32, VulkanInitError>(loader)
            }
        }),
{
    let loader = match reported {
        Some(v) => v,
        None => api_version_1_0(),
    };
    let target = target_api_version();
    if loader < target {
        Err(VulkanInitError::UnsupportedApiVersion { required: target, available: loader })
    } else {
        Ok(loader)
    }
}

/// Whether `names` holds a string equal to `wanted`.
pub fn names_contain(names: &Vec<String>, wanted: &str) -> (r: bool)
    ensures
        r == exists|i: int| 0 <= i < names@.len() && #[trigger] names@[i]@ == wanted@,
{
    let target = String::from_str(wanted);
    let mut i: usize = 0;
    while i < names.len()
        invariant
            i <= names@.len(),
            target@ == wanted@,
            forall|j: int| 0 <= j < i ==> #[trigger] names@[j]@ != wanted@,
        decreases names@.len() - i,
    {
        if names[i] == target {
            return true;
        }
        i = i + 1;
    }
    false
}

/// Whether the list of available instance layers names the Khronos
/// validation layer.
pub fn validation_layer_available(layer_names: &Vec<String>) -> (r: bool)
    ensures
        r == exists|i: int| 0 <= i < layer_names@.len() && #[trigger] layer_names@[i]@ == validation_layer_name(),
{
    names_contain(layer_names, "VK_LAYER_KHRONOS_validation")
}

/// With validation enabled, instance creation requires the validation
/// layer: refuses when `layer_names` does not hold it.
pub fn require_validation_layer(layer_names: &Vec<String>) -> (r: Result<(), VulkanInitError>)
    ensures
        r is Ok <==> exists|i: int| 0 <= i < layer_names@.len() && #[trigger] layer_names@[i]@ == validation_layer_name(),
        r is Err ==> r matches Err(VulkanInitError::ValidationLayerUnavailable),
{
    if validation_layer_available(layer_names) {
        Ok(())
    } else {
        Err(VulkanInitError::ValidationLayerUnavailable)
    }
}

/// What the instance is created with.
#[derive(Debug)]
pub struct InstancePlan {
    pub api_version: u32,
    pub application_version: u32,
    pub engine_version: u32,
    /// Whether the validation layer is enabled, with a debug messenger
    /// chained into instance creation and created after it.
    pub validation: bool,
    /// The names of the instance extensions to enable, in order.
    pub extensions: Vec<String>,
}

/// The views of a list of strings.
pub open spec fn string_views(v: Seq<String>) -> Seq<Seq<char>> {
    v.map_values(|s: String| s@)
}

/// Plans instance creation: Vulkan 1.3, version 0.1.0 for application and
/// engine, the extensions the window system requires, followed, when
/// validation is enabled, by `VK_EXT_debug_utils`.
pub fn plan_instance(required_extensions: Vec<String>, validation_enabled: bool) -> (r: InstancePlan)
    ensures
        r.api_version == spec_make_api_version(0, 1, 3, 0),
        r.application_version == spec_make_api_version(0, 0, 1, 0),
        r.engine_version == spec_make_api_version(0, 0, 1, 0),
        r.validation == validation_enabled,
        string_views(r.extensions@) == if validation_enabled {
            string_views(required_extensions@).push(debug_utils_extension_name())
        } else {
            string_views(required_extensions@)
        },
{
    let mut extensions = required_extensions;
    if validation_enabled {
        extensions.push(String::from_str("VK_EXT_debug_utils"));
    }
    assert(string_views(extensions@) =~= if validation_enabled {
        string_views(required_extensions@).push(debug_utils_extension_name())
    } else {
        string_views(required_extensions@)
    });
    InstancePlan {
        api_version: target_api_version(),
        application_version: engine_version(),
        engine_version: engine_version(),
        validation: validation_enabled,
        extensions,
    }
}

/// A physical device as the engine lists it.
#[derive(Debug)]
pub struct PhysicalDeviceInfo {
    pub name: String,
    /// The raw `VkPhysicalDeviceType`.
    pub device_type: i32,
    pub api_version: u32,
    pub driver_version: u32,
    pub vendor_id: u32,
    pub device_id: u32,
}

/// The physical devices of an instance: refuses an empty list.
pub fn require_physical_devices(devices: Vec<PhysicalDeviceInfo>) -> (r: Result<Vec<PhysicalDeviceInfo>, VulkanInitError>)
    ensures
        devices@.len() == 0 ==> r matches Err(VulkanInitError::NoPhysicalDevices),
        devices@.len() > 0 ==> r == Ok::<Vec<PhysicalDeviceInfo>, VulkanInitError>(devices),
{
    if devices.len() == 0 {
        Err(VulkanInitError::NoPhysicalDevices)
    } else {
        Ok(devices)
    }
}

} // verus!
