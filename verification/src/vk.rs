//! Raw values of the Vulkan enumerations and flag bits that the engine's
//! decisions read, and the text of a `VkResult` code.

use vstd::prelude::*;

verus! {

/// `VK_PHYSICAL_DEVICE_TYPE_OTHER`.
pub const DEVICE_TYPE_OTHER: i32 = 0;
/// `VK_PHYSICAL_DEVICE_TYPE_INTEGRATED_GPU`.
pub const DEVICE_TYPE_INTEGRATED_GPU: i32 = 1;
/// `VK_PHYSICAL_DEVICE_TYPE_DISCRETE_GPU`.
pub const DEVICE_TYPE_DISCRETE_GPU: i32 = 2;
/// `VK_PHYSICAL_DEVICE_TYPE_VIRTUAL_GPU`.
pub const DEVICE_TYPE_VIRTUAL_GPU: i32 = 3;
/// `VK_PHYSICAL_DEVICE_TYPE_CPU`.
pub const DEVICE_TYPE_CPU: i32 = 4;

/// `VK_QUEUE_GRAPHICS_BIT`.
pub const QUEUE_GRAPHICS: u32 = 0x1;

/// `VK_FORMAT_B8G8R8A8_SRGB`.
pub const FORMAT_B8G8R8A8_SRGB: i32 = 50;
/// `VK_COLOR_SPACE_SRGB_NONLINEAR_KHR`.
pub const COLOR_SPACE_SRGB_NONLINEAR: i32 = 0;

/// `VK_PRESENT_MODE_IMMEDIATE_KHR`.
pub const PRESENT_MODE_IMMEDIATE: i32 = 0;
/// `VK_PRESENT_MODE_MAILBOX_KHR`.
pub const PRESENT_MODE_MAILBOX: i32 = 1;
/// `VK_PRESENT_MODE_FIFO_KHR`.
pub const PRESENT_MODE_FIFO: i32 = 2;

/// `VK_COMPOSITE_ALPHA_OPAQUE_BIT_KHR`.
pub const COMPOSITE_ALPHA_OPAQUE: u32 = 0x1;
/// `VK_COMPOSITE_ALPHA_PRE_MULTIPLIED_BIT_KHR`.
pub const COMPOSITE_ALPHA_PRE_MULTIPLIED: u32 = 0x2;
/// `VK_COMPOSITE_ALPHA_POST_MULTIPLIED_BIT_KHR`.
pub const COMPOSITE_ALPHA_POST_MULTIPLIED: u32 = 0x4;
/// `VK_COMPOSITE_ALPHA_INHERIT_BIT_KHR`.
pub const COMPOSITE_ALPHA_INHERIT: u32 = 0x8;

/// `VK_IMAGE_USAGE_TRANSFER_DST_BIT`.
pub const IMAGE_USAGE_TRANSFER_DST: u32 = 0x2;
/// `VK_IMAGE_USAGE_COLOR_ATTACHMENT_BIT`.
pub const IMAGE_USAGE_COLOR_ATTACHMENT: u32 = 0x10;

/// `VK_BUFFER_USAGE_TRANSFER_SRC_BIT`.
pub const BUFFER_USAGE_TRANSFER_SRC: u32 = 0x1;
/// `VK_BUFFER_USAGE_TRANSFER_DST_BIT`.
pub const BUFFER_USAGE_TRANSFER_DST: u32 = 0x2;
/// `VK_BUFFER_USAGE_UNIFORM_BUFFER_BIT`.
pub const BUFFER_USAGE_UNIFORM_BUFFER: u32 = 0x10;
/// `VK_BUFFER_USAGE_INDEX_BUFFER_BIT`.
pub const BUFFER_USAGE_INDEX_BUFFER: u32 = 0x40;
/// `VK_BUFFER_USAGE_VERTEX_BUFFER_BIT`.
pub const BUFFER_USAGE_VERTEX_BUFFER: u32 = 0x80;

/// `VK_MEMORY_PROPERTY_DEVICE_LOCAL_BIT`.
pub const MEMORY_DEVICE_LOCAL: u32 = 0x1;
/// `VK_MEMORY_PROPERTY_HOST_VISIBLE_BIT`.
pub const MEMORY_HOST_VISIBLE: u32 = 0x2;
/// `VK_MEMORY_PROPERTY_HOST_COHERENT_BIT`.
pub const MEMORY_HOST_COHERENT: u32 = 0x4;

/// `VK_ERROR_OUT_OF_DATE_KHR`.
pub const RESULT_ERROR_OUT_OF_DATE: i32 = -1000001004;

/// The text that `ash` prints for a `VkResult` code with `{:?}`.
pub uninterp spec fn vk_result_debug(code: i32) -> Seq<char>;

/// Formats `ash::vk::Result::from_raw(code)` with its `Debug` impl: the
/// code's name, such as `ERROR_DEVICE_LOST`, or the number for a code
/// that `ash` does not name. The text is only named here, not stated.
#[verifier::external_body]
pub(crate) fn vk_result_name(code: i32) -> (r: String)
    ensures
        r@ == vk_result_debug(code),
{
    format!("{:?}", ash::vk::Result::from_raw(code))
}

} // verus!
