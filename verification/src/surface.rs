//! Errors of the presentation surface's queries.

use vstd::prelude::*;
use crate::vk::{vk_result_debug, vk_result_name};

verus! {

/// A query of the presentation surface failed.
#[derive(Debug, Clone, Copy, PartialEq, Eq, Structural)]
pub enum VulkanSurfaceError {
    /// The query failed with this `VkResult` code.
    Vulkan(i32),
}

impl VulkanSurfaceError {
    /// The text the error displays.
    pub open spec fn text(&self) -> Seq<char> {
        match self {
            VulkanSurfaceError::Vulkan(code) => "Vulkan surface error: "@ + vk_result_debug(*code),
        }
    }

    /// The text the error displays.
    pub fn message(&self) -> (r: String)
        ensures
            r@ == self.text(),
    {
        match self {
            VulkanSurfaceError::Vulkan(code) => {
                let mut s = String::from_str("Vulkan surface error: ");
                let name = vk_result_name(*code);
                s.append(name.as_str());
                s
            },
        }
    }
}

} // verus!
