//! Helpers of the "Ray Tracing in One Weekend" renderer: a single graphics
//! queue and a present queue, one validation layer, the swap-chain extension.

pub mod common;
pub mod constants;
pub mod queue;
pub mod debug;
pub mod device;
pub mod framebuffer;
pub mod surface;
pub mod swapchain;
pub mod tools;
pub mod vulkan;
pub mod window;

use vstd::prelude::*;

verus! {

/// Whether validation is wanted, and the layers it needs.
pub struct VkValidationInfo {
    pub is_enable: bool,
    pub required_validation_layers: [&'static str; 1],
}

/// The device extensions the renderer needs.
pub struct VkDeviceExtension {
    pub names: [&'static str; 1],
}

} // verus!
