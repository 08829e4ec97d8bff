//! Fixed settings of the renderer.

use vstd::prelude::*;
use crate::weekend::{VkValidationInfo, VkDeviceExtension};

verus! {

pub const WINDOW_TITLE: &'static str = "Ray Tracing in One Weekend";
pub const WINDOW_WIDTH: u32 = 800;
pub const WINDOW_HEIGHT: u32 = 600;

/// The one validation layer the renderer asks for.
pub const VALIDATION_LAYER: &'static str = "VK_LAYER_KHRONOS_validation";

/// The one device extension the renderer needs.
pub const SWAPCHAIN_EXTENSION: &'static str = "VK_KHR_swapchain";

/// Validation is on, with the Khronos validation layer.
pub fn vk_validation_layer_names() -> (res: VkValidationInfo)
    ensures
        res.is_enable,
        res.required_validation_layers@ == seq![VALIDATION_LAYER],
{
    let res = VkValidationInfo { is_enable: true, required_validation_layers: [VALIDATION_LAYER] };
    assert(res.required_validation_layers@ =~= seq![VALIDATION_LAYER]);
    res
}

/// The swap-chain extension.
pub fn vk_device_extensions() -> (res: VkDeviceExtension)
    ensures
        res.names@ == seq![SWAPCHAIN_EXTENSION],
{
    let res = VkDeviceExtension { names: [SWAPCHAIN_EXTENSION] };
    assert(res.names@ =~= seq![SWAPCHAIN_EXTENSION]);
    res
}

pub const APPLICATION_NAME: &'static str = "Ray Tracing in One Weekend";
/// Vulkan's packed version 1.0.0 (variant 0).
pub const APPLICATION_VERSION: u32 = 4194304;

pub const ENGINE_NAME: &'static str = "NO ENGINE";
/// Vulkan's packed version 1.0.0 (variant 0).
pub const ENGINE_VERSION: u32 = 4194304;

pub const VERT_SHADER_PATH: &'static str = "shaders/spv/vertex3d_vert.spv";
pub const FRAG_SHADER_PATH: &'static str = "shaders/spv/vertex3d_frag.spv";

} // verus!
