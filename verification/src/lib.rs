//! Decision logic of a small Vulkan toolkit: queue-family selection, swap-chain
//! configuration, memory-type lookup, layer and extension checks.

pub mod app_base;
pub mod application;
pub mod command;
pub mod constants;
pub mod depth_buffer;
pub mod descriptor;
pub mod debug;
pub mod device;
pub mod engine;
pub mod image;
pub mod instance;
pub mod lists;
pub mod memory;
pub mod release;
pub mod surface;
pub mod swapchain;
pub mod text;
pub mod utils;
pub mod vk;
pub mod vk_init;
pub mod vk_surface;
pub mod weekend;
pub mod window;

use vstd::prelude::*;

verus! {

/// The queue families the compute ray tracer uses.
#[derive(Clone, Copy, Debug, PartialEq, Eq, Structural)]
pub struct QueueFamilyIndices {
    pub compute_family_index: u32,
    pub graphics_family_index: u32,
    pub present_family_index: u32,
}

/// Progress of a multi-pass render.
pub struct VkRenderCallInfo {
    pub number: u32,
    pub total_render_calls: u32,
    pub total_samples: u32,
}

/// Settings of the compute ray tracer.
pub struct VkSettings {
    pub window_width: u32,
    pub window_height: u32,
    pub compute_shader_file: &'static str,
    pub compute_shader_group_size_x: u32,
    pub compute_shader_group_size_y: u32,
}

} // verus!
