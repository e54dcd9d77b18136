//! Decision logic of a Vulkan renderer: device and queue selection, swapchain
//! configuration, frame and game-loop state machines, memory-type lookup,
//! texture data and error reporting.

pub mod version;
pub mod vk;
pub mod instance;
pub mod surface;
pub mod device;
pub mod swapchain;
pub mod frame;
pub mod game;
pub mod memory;
pub mod buffer;
pub mod texture;
pub mod renderer;
pub mod pipeline;
pub mod resources;
