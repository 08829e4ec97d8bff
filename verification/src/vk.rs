//! Plain-value model of the Vulkan structures that the selection logic reads.
//!
//! Enumerations are kept as their raw `i32` values and bit masks as their raw
//! `u32` values, exactly as the Vulkan registry numbers them, so that values the
//! driver reports and that no constant here names pass through unchanged.

use vstd::prelude::*;

verus! {

// ---- VkFormat ----
/// `VK_FORMAT_UNDEFINED`
pub const FORMAT_UNDEFINED: i32 = 0;
/// `VK_FORMAT_R8G8B8_UNORM`
pub const FORMAT_R8G8B8_UNORM: i32 = 23;
/// `VK_FORMAT_B8G8R8A8_UNORM`
pub const FORMAT_B8G8R8A8_UNORM: i32 = 44;
/// `VK_FORMAT_B8G8R8A8_SRGB`
pub const FORMAT_B8G8R8A8_SRGB: i32 = 50;
/// `VK_FORMAT_D32_SFLOAT`
pub const FORMAT_D32_SFLOAT: i32 = 126;
/// `VK_FORMAT_D24_UNORM_S8_UINT`
pub const FORMAT_D24_UNORM_S8_UINT: i32 = 129;
/// `VK_FORMAT_D32_SFLOAT_S8_UINT`
pub const FORMAT_D32_SFLOAT_S8_UINT: i32 = 130;

// ---- VkColorSpaceKHR ----
/// `VK_COLOR_SPACE_SRGB_NONLINEAR_KHR`
pub const COLOR_SPACE_SRGB_NONLINEAR: i32 = 0;

// ---- VkPresentModeKHR ----
/// `VK_PRESENT_MODE_IMMEDIATE_KHR`
pub const PRESENT_MODE_IMMEDIATE: i32 = 0;
/// `VK_PRESENT_MODE_MAILBOX_KHR`
pub const PRESENT_MODE_MAILBOX: i32 = 1;
/// `VK_PRESENT_MODE_FIFO_KHR`
pub const PRESENT_MODE_FIFO: i32 = 2;
/// `VK_PRESENT_MODE_FIFO_RELAXED_KHR`
pub const PRESENT_MODE_FIFO_RELAXED: i32 = 3;

// ---- VkImageLayout ----
/// `VK_IMAGE_LAYOUT_UNDEFINED`
pub const IMAGE_LAYOUT_UNDEFINED: i32 = 0;
/// `VK_IMAGE_LAYOUT_GENERAL`
pub const IMAGE_LAYOUT_GENERAL: i32 = 1;
/// `VK_IMAGE_LAYOUT_DEPTH_STENCIL_ATTACHMENT_OPTIMAL`
pub const IMAGE_LAYOUT_DEPTH_STENCIL_ATTACHMENT_OPTIMAL: i32 = 3;
/// `VK_IMAGE_LAYOUT_SHADER_READ_ONLY_OPTIMAL`
pub const IMAGE_LAYOUT_SHADER_READ_ONLY_OPTIMAL: i32 = 5;
/// `VK_IMAGE_LAYOUT_TRANSFER_DST_OPTIMAL`
pub const IMAGE_LAYOUT_TRANSFER_DST_OPTIMAL: i32 = 7;

// ---- VkImageTiling ----
/// `VK_IMAGE_TILING_OPTIMAL`
pub const IMAGE_TILING_OPTIMAL: i32 = 0;
/// `VK_IMAGE_TILING_LINEAR`
pub const IMAGE_TILING_LINEAR: i32 = 1;

// ---- VkPhysicalDeviceType ----
/// `VK_PHYSICAL_DEVICE_TYPE_DISCRETE_GPU`
pub const PHYSICAL_DEVICE_TYPE_DISCRETE_GPU: i32 = 2;

// ---- VkSharingMode ----
/// `VK_SHARING_MODE_EXCLUSIVE`
pub const SHARING_MODE_EXCLUSIVE: i32 = 0;
/// `VK_SHARING_MODE_CONCURRENT`
pub const SHARING_MODE_CONCURRENT: i32 = 1;

// ---- VkResult ----
/// `VK_SUCCESS`
pub const RESULT_SUCCESS: i32 = 0;
/// `VK_SUBOPTIMAL_KHR`
pub const RESULT_SUBOPTIMAL: i32 = 1000001003;
/// `VK_ERROR_OUT_OF_DATE_KHR`
pub const RESULT_ERROR_OUT_OF_DATE: i32 = -1000001004;

// ---- VkQueueFlagBits ----
/// `VK_QUEUE_GRAPHICS_BIT`
pub const QUEUE_GRAPHICS: u32 = 0x1;
/// `VK_QUEUE_COMPUTE_BIT`
pub const QUEUE_COMPUTE: u32 = 0x2;

// ---- VkSampleCountFlagBits ----
/// `VK_SAMPLE_COUNT_1_BIT`
pub const SAMPLE_COUNT_1: u32 = 0x1;
/// `VK_SAMPLE_COUNT_2_BIT`
pub const SAMPLE_COUNT_2: u32 = 0x2;
/// `VK_SAMPLE_COUNT_4_BIT`
pub const SAMPLE_COUNT_4: u32 = 0x4;
/// `VK_SAMPLE_COUNT_8_BIT`
pub const SAMPLE_COUNT_8: u32 = 0x8;
/// `VK_SAMPLE_COUNT_16_BIT`
pub const SAMPLE_COUNT_16: u32 = 0x10;
/// `VK_SAMPLE_COUNT_32_BIT`
pub const SAMPLE_COUNT_32: u32 = 0x20;
/// `VK_SAMPLE_COUNT_64_BIT`
pub const SAMPLE_COUNT_64: u32 = 0x40;

// ---- VkSurfaceTransformFlagBitsKHR ----
/// `VK_SURFACE_TRANSFORM_IDENTITY_BIT_KHR`
pub const SURFACE_TRANSFORM_IDENTITY: u32 = 0x1;

// ---- VkCompositeAlphaFlagBitsKHR ----
/// `VK_COMPOSITE_ALPHA_OPAQUE_BIT_KHR`
pub const COMPOSITE_ALPHA_OPAQUE: u32 = 0x1;
/// `VK_COMPOSITE_ALPHA_PRE_MULTIPLIED_BIT_KHR`
pub const COMPOSITE_ALPHA_PRE_MULTIPLIED: u32 = 0x2;
/// `VK_COMPOSITE_ALPHA_POST_MULTIPLIED_BIT_KHR`
pub const COMPOSITE_ALPHA_POST_MULTIPLIED: u32 = 0x4;
/// `VK_COMPOSITE_ALPHA_INHERIT_BIT_KHR`
pub const COMPOSITE_ALPHA_INHERIT: u32 = 0x8;

// ---- VkImageUsageFlagBits ----
/// `VK_IMAGE_USAGE_TRANSFER_SRC_BIT`
pub const IMAGE_USAGE_TRANSFER_SRC: u32 = 0x1;
/// `VK_IMAGE_USAGE_TRANSFER_DST_BIT`
pub const IMAGE_USAGE_TRANSFER_DST: u32 = 0x2;
/// `VK_IMAGE_USAGE_SAMPLED_BIT`
pub const IMAGE_USAGE_SAMPLED: u32 = 0x4;
/// `VK_IMAGE_USAGE_COLOR_ATTACHMENT_BIT`
pub const IMAGE_USAGE_COLOR_ATTACHMENT: u32 = 0x10;

// ---- VkImageAspectFlagBits ----
/// `VK_IMAGE_ASPECT_COLOR_BIT`
pub const IMAGE_ASPECT_COLOR: u32 = 0x1;
/// `VK_IMAGE_ASPECT_DEPTH_BIT`
pub const IMAGE_ASPECT_DEPTH: u32 = 0x2;
/// `VK_IMAGE_ASPECT_STENCIL_BIT`
pub const IMAGE_ASPECT_STENCIL: u32 = 0x4;

// ---- VkAccessFlagBits ----
/// No access
pub const ACCESS_NONE: u32 = 0;
/// `VK_ACCESS_SHADER_READ_BIT`
pub const ACCESS_SHADER_READ: u32 = 0x20;
/// `VK_ACCESS_DEPTH_STENCIL_ATTACHMENT_READ_BIT`
pub const ACCESS_DEPTH_STENCIL_ATTACHMENT_READ: u32 = 0x200;
/// `VK_ACCESS_DEPTH_STENCIL_ATTACHMENT_WRITE_BIT`
pub const ACCESS_DEPTH_STENCIL_ATTACHMENT_WRITE: u32 = 0x400;
/// `VK_ACCESS_TRANSFER_WRITE_BIT`
pub const ACCESS_TRANSFER_WRITE: u32 = 0x1000;

// ---- VkPipelineStageFlagBits ----
/// `VK_PIPELINE_STAGE_TOP_OF_PIPE_BIT`
pub const PIPELINE_STAGE_TOP_OF_PIPE: u32 = 0x1;
/// `VK_PIPELINE_STAGE_FRAGMENT_SHADER_BIT`
pub const PIPELINE_STAGE_FRAGMENT_SHADER: u32 = 0x80;
/// `VK_PIPELINE_STAGE_EARLY_FRAGMENT_TESTS_BIT`
pub const PIPELINE_STAGE_EARLY_FRAGMENT_TESTS: u32 = 0x100;
/// `VK_PIPELINE_STAGE_TRANSFER_BIT`
pub const PIPELINE_STAGE_TRANSFER: u32 = 0x1000;
/// `VK_PIPELINE_STAGE_ALL_COMMANDS_BIT`
pub const PIPELINE_STAGE_ALL_COMMANDS: u32 = 0x10000;

// ---- VkFormatFeatureFlagBits ----
/// `VK_FORMAT_FEATURE_DEPTH_STENCIL_ATTACHMENT_BIT`
pub const FORMAT_FEATURE_DEPTH_STENCIL_ATTACHMENT: u32 = 0x200;

// ---- VkFenceCreateFlagBits / VkCommandPoolCreateFlagBits ----
/// `VK_FENCE_CREATE_SIGNALED_BIT`
pub const FENCE_CREATE_SIGNALED: u32 = 0x1;
/// `VK_COMMAND_POOL_CREATE_RESET_COMMAND_BUFFER_BIT`
pub const COMMAND_POOL_CREATE_RESET_COMMAND_BUFFER: u32 = 0x2;

// ---- VkDebugUtilsMessageSeverityFlagBitsEXT ----
/// `VK_DEBUG_UTILS_MESSAGE_SEVERITY_VERBOSE_BIT_EXT`
pub const MESSAGE_SEVERITY_VERBOSE: u32 = 0x1;
/// `VK_DEBUG_UTILS_MESSAGE_SEVERITY_INFO_BIT_EXT`
pub const MESSAGE_SEVERITY_INFO: u32 = 0x10;
/// `VK_DEBUG_UTILS_MESSAGE_SEVERITY_WARNING_BIT_EXT`
pub const MESSAGE_SEVERITY_WARNING: u32 = 0x100;
/// `VK_DEBUG_UTILS_MESSAGE_SEVERITY_ERROR_BIT_EXT`
pub const MESSAGE_SEVERITY_ERROR: u32 = 0x1000;

// ---- VkDebugUtilsMessageTypeFlagBitsEXT ----
/// `VK_DEBUG_UTILS_MESSAGE_TYPE_GENERAL_BIT_EXT`
pub const MESSAGE_TYPE_GENERAL: u32 = 0x1;
/// `VK_DEBUG_UTILS_MESSAGE_TYPE_VALIDATION_BIT_EXT`
pub const MESSAGE_TYPE_VALIDATION: u32 = 0x2;
/// `VK_DEBUG_UTILS_MESSAGE_TYPE_PERFORMANCE_BIT_EXT`
pub const MESSAGE_TYPE_PERFORMANCE: u32 = 0x4;

// ---- VkDescriptorType ----
/// `VK_DESCRIPTOR_TYPE_COMBINED_IMAGE_SAMPLER`
pub const DESCRIPTOR_TYPE_COMBINED_IMAGE_SAMPLER: i32 = 1;
/// `VK_DESCRIPTOR_TYPE_STORAGE_IMAGE`
pub const DESCRIPTOR_TYPE_STORAGE_IMAGE: i32 = 3;
/// `VK_DESCRIPTOR_TYPE_UNIFORM_BUFFER`
pub const DESCRIPTOR_TYPE_UNIFORM_BUFFER: i32 = 6;

// ---- VkShaderStageFlagBits ----
/// `VK_SHADER_STAGE_VERTEX_BIT`
pub const SHADER_STAGE_VERTEX: u32 = 0x1;
/// `VK_SHADER_STAGE_FRAGMENT_BIT`
pub const SHADER_STAGE_FRAGMENT: u32 = 0x10;
/// `VK_SHADER_STAGE_COMPUTE_BIT`
pub const SHADER_STAGE_COMPUTE: u32 = 0x20;

/// A bit mask holds every bit of another (Vulkan's `contains`).
pub open spec fn has_flags(mask: u32, bits: u32) -> bool {
    mask & bits == bits
}

/// `contains` on a raw flag mask: every bit of `bits` is set in `mask`.
pub fn contains_flags(mask: u32, bits: u32) -> (res: bool)
    ensures
        res == has_flags(mask, bits),
{
    mask & bits == bits
}

/// `VkExtent2D`
#[derive(Clone, Copy, Debug, PartialEq, Eq, Structural)]
pub struct Extent2D {
    pub width: u32,
    pub height: u32,
}

/// `VkSurfaceFormatKHR`
#[derive(Clone, Copy, Debug, PartialEq, Eq, Structural)]
pub struct SurfaceFormat {
    pub format: i32,
    pub color_space: i32,
}

/// The fields of `VkSurfaceCapabilitiesKHR` that the swap-chain choices read.
#[derive(Clone, Copy, Debug, PartialEq, Eq, Structural)]
pub struct SurfaceCapabilities {
    pub min_image_count: u32,
    pub max_image_count: u32,
    pub current_extent: Extent2D,
    pub min_image_extent: Extent2D,
    pub max_image_extent: Extent2D,
    pub supported_transforms: u32,
    pub current_transform: u32,
    pub supported_composite_alpha: u32,
    pub supported_usage_flags: u32,
}

/// The fields of `VkQueueFamilyProperties` that queue selection reads.
#[derive(Clone, Copy, Debug, PartialEq, Eq, Structural)]
pub struct QueueFamilyProperties {
    pub queue_flags: u32,
    pub queue_count: u32,
}

/// `VkFormatProperties`
#[derive(Clone, Copy, Debug, PartialEq, Eq, Structural)]
pub struct FormatProperties {
    pub linear_tiling_features: u32,
    pub optimal_tiling_features: u32,
    pub buffer_features: u32,
}

/// `VkDescriptorSetLayoutBinding` without immutable samplers.
#[derive(Clone, Copy, Debug, PartialEq, Eq, Structural)]
pub struct DescriptorSetLayoutBinding {
    pub binding: u32,
    pub descriptor_type: i32,
    pub descriptor_count: u32,
    pub stage_flags: u32,
}

/// `VkDescriptorPoolSize`
#[derive(Clone, Copy, Debug, PartialEq, Eq, Structural)]
pub struct DescriptorPoolSize {
    pub ty: i32,
    pub descriptor_count: u32,
}

/// `VkPhysicalDeviceMemoryProperties`, reduced to the property flags of each
/// memory type: `memory_type_flags[i]` is `memoryTypes[i].propertyFlags`.
pub struct MemoryProperties {
    pub memory_type_count: u32,
    pub memory_type_flags: Vec<u32>,
}

} // verus!
