//! What the renderer and the engine report about themselves, and their
//! errors.

use vstd::prelude::*;
use crate::device::VulkanDeviceError;
use crate::instance::VulkanInitError;
use crate::version::{format_api_version, version_text};

verus! {

/// The renderer's description of itself.
#[derive(Debug, Clone)]
pub struct RendererInfo {
    pub name: String,
    pub gpu_name: String,
    /// The device's Vulkan API version as `major.minor.patch`.
    pub vulkan_api: String,
}

impl RendererInfo {
    /// The description of a Vulkan renderer on the GPU named `gpu_name`,
    /// whose properties report `api_version`.
    pub fn from_device(gpu_name: String, api_version: u32) -> (r: Self)
        ensures
            r.name@ == "Vulkan"@,
            r.gpu_name == gpu_name,
            r.vulkan_api@ == version_text(api_version),
    {
        RendererInfo {
            name: String::from_str("Vulkan"),
            gpu_name,
            vulkan_api: format_api_version(api_version),
        }
    }
}

/// Why the renderer could not start.
#[derive(Debug)]
pub enum RendererError {
    Instance(VulkanInitError),
    Device(VulkanDeviceError),
}

impl RendererError {
    /// The text the error displays.
    pub open spec fn text(&self) -> Seq<char> {
        match self {
            RendererError::Instance(e) => "Vulkan instance error: "@ + e.text(),
            RendererError::Device(e) => "Vulkan device error: "@ + e.text(),
        }
    }

    /// The text the error displays.
    pub fn message(&self) -> (r: String)
        ensures
            r@ == self.text(),
    {
        match self {
            RendererError::Instance(e) => {
                let mut s = String::from_str("Vulkan instance error: ");
                let inner = e.message();
                s.append(inner.as_str());
                s
            },
            RendererError::Device(e) => {
                let mut s = String::from_str("Vulkan device error: ");
                let inner = e.message();
                s.append(inner.as_str());
                s
            },
        }
    }
}

impl From<VulkanInitError> for RendererError {
    fn from(value: VulkanInitError) -> (r: Self) {
        RendererError::Instance(value)
    }
}

impl vstd::std_specs::convert::FromSpecImpl<VulkanInitError> for RendererError {
    open spec fn obeys_from_spec() -> bool {
        true
    }

    open spec fn from_spec(v: VulkanInitError) -> Self {
        RendererError::Instance(v)
    }
}

impl From<VulkanDeviceError> for RendererError {
    fn from(value: VulkanDeviceError) -> (r: Self) {
        RendererError::Device(value)
    }
}

impl vstd::std_specs::convert::FromSpecImpl<VulkanDeviceError> for RendererError {
    open spec fn obeys_from_spec() -> bool {
        true
    }

    open spec fn from_spec(v: VulkanDeviceError) -> Self {
        RendererError::Device(v)
    }
}

/// The engine's status as the editor receives it.
#[derive(Debug, Clone)]
pub struct EngineStatusDto {
    pub initialized: bool,
    pub renderer: String,
    pub gpu_name: String,
    pub vulkan_api: String,
}

impl EngineStatusDto {
    /// The status of a running engine whose renderer describes itself as
    /// `info`.
    pub fn from_renderer_info(info: RendererInfo) -> (r: Self)
        ensures
            r.initialized,
            r.renderer == info.name,
            r.gpu_name == info.gpu_name,
            r.vulkan_api == info.vulkan_api,
    {
        EngineStatusDto {
            initialized: true,
            renderer: info.name,
            gpu_name: info.gpu_name,
            vulkan_api: info.vulkan_api,
        }
    }
}

/// Why the engine could not start.
#[derive(Debug)]
pub enum EngineError {
    Renderer(RendererError),
}

impl EngineError {
    /// The text the error displays.
    pub open spec fn text(&self) -> Seq<char> {
        match self {
            EngineError::Renderer(e) => "renderer initialization failed: "@ + e.text(),
        }
    }

    /// The text the error displays.
    pub fn message(&self) -> (r: String)
        ensures
            r@ == self.text(),
    {
        match self {
            EngineError::Renderer(e) => {
                let mut s = String::from_str("renderer initialization failed: ");
                let inner = e.message();
                s.append(inner.as_str());
                s
            },
        }
    }
}

impl From<RendererError> for EngineError {
    fn from(value: RendererError) -> (r: Self) {
        EngineError::Renderer(value)
    }
}

impl vstd::std_specs::convert::FromSpecImpl<RendererError> for EngineError {
    open spec fn obeys_from_spec() -> bool {
        true
    }

    open spec fn from_spec(v: RendererError) -> Self {
        EngineError::Renderer(v)
    }
}

} // verus!
