use vk_utils::vk;

#[test]
fn raw_values_match_vulkan_registry() {
    assert_eq!(vk::FORMAT_UNDEFINED, ash::vk::Format::UNDEFINED.as_raw());
    assert_eq!(vk::FORMAT_R8G8B8_UNORM, ash::vk::Format::R8G8B8_UNORM.as_raw());
    assert_eq!(vk::FORMAT_B8G8R8A8_UNORM, ash::vk::Format::B8G8R8A8_UNORM.as_raw());
    assert_eq!(vk::FORMAT_B8G8R8A8_SRGB, ash::vk::Format::B8G8R8A8_SRGB.as_raw());
    assert_eq!(vk::FORMAT_D32_SFLOAT, ash::vk::Format::D32_SFLOAT.as_raw());
    assert_eq!(vk::FORMAT_D24_UNORM_S8_UINT, ash::vk::Format::D24_UNORM_S8_UINT.as_raw());
    assert_eq!(vk::FORMAT_D32_SFLOAT_S8_UINT, ash::vk::Format::D32_SFLOAT_S8_UINT.as_raw());
    assert_eq!(vk::COLOR_SPACE_SRGB_NONLINEAR, ash::vk::ColorSpaceKHR::SRGB_NONLINEAR.as_raw());
    assert_eq!(vk::PRESENT_MODE_IMMEDIATE, ash::vk::PresentModeKHR::IMMEDIATE.as_raw());
    assert_eq!(vk::PRESENT_MODE_MAILBOX, ash::vk::PresentModeKHR::MAILBOX.as_raw());
    assert_eq!(vk::PRESENT_MODE_FIFO, ash::vk::PresentModeKHR::FIFO.as_raw());
    assert_eq!(vk::PRESENT_MODE_FIFO_RELAXED, ash::vk::PresentModeKHR::FIFO_RELAXED.as_raw());
    assert_eq!(vk::IMAGE_LAYOUT_UNDEFINED, ash::vk::ImageLayout::UNDEFINED.as_raw());
    assert_eq!(vk::IMAGE_LAYOUT_GENERAL, ash::vk::ImageLayout::GENERAL.as_raw());
    assert_eq!(vk::IMAGE_LAYOUT_DEPTH_STENCIL_ATTACHMENT_OPTIMAL, ash::vk::ImageLayout::DEPTH_STENCIL_ATTACHMENT_OPTIMAL.as_raw());
    assert_eq!(vk::IMAGE_LAYOUT_SHADER_READ_ONLY_OPTIMAL, ash::vk::ImageLayout::SHADER_READ_ONLY_OPTIMAL.as_raw());
    assert_eq!(vk::IMAGE_LAYOUT_TRANSFER_DST_OPTIMAL, ash::vk::ImageLayout::TRANSFER_DST_OPTIMAL.as_raw());
    assert_eq!(vk::IMAGE_TILING_OPTIMAL, ash::vk::ImageTiling::OPTIMAL.as_raw());
    assert_eq!(vk::IMAGE_TILING_LINEAR, ash::vk::ImageTiling::LINEAR.as_raw());
    assert_eq!(vk::PHYSICAL_DEVICE_TYPE_DISCRETE_GPU, ash::vk::PhysicalDeviceType::DISCRETE_GPU.as_raw());
    assert_eq!(vk::SHARING_MODE_EXCLUSIVE, ash::vk::SharingMode::EXCLUSIVE.as_raw());
    assert_eq!(vk::SHARING_MODE_CONCURRENT, ash::vk::SharingMode::CONCURRENT.as_raw());
    assert_eq!(vk::RESULT_SUCCESS, ash::vk::Result::SUCCESS.as_raw());
    assert_eq!(vk::RESULT_SUBOPTIMAL, ash::vk::Result::SUBOPTIMAL_KHR.as_raw());
    assert_eq!(vk::RESULT_ERROR_OUT_OF_DATE, ash::vk::Result::ERROR_OUT_OF_DATE_KHR.as_raw());
    assert_eq!(vk::QUEUE_GRAPHICS, ash::vk::QueueFlags::GRAPHICS.as_raw());
    assert_eq!(vk::QUEUE_COMPUTE, ash::vk::QueueFlags::COMPUTE.as_raw());
    assert_eq!(vk::SAMPLE_COUNT_1, ash::vk::SampleCountFlags::TYPE_1.as_raw());
    assert_eq!(vk::SAMPLE_COUNT_2, ash::vk::SampleCountFlags::TYPE_2.as_raw());
    assert_eq!(vk::SAMPLE_COUNT_4, ash::vk::SampleCountFlags::TYPE_4.as_raw());
    assert_eq!(vk::SAMPLE_COUNT_8, ash::vk::SampleCountFlags::TYPE_8.as_raw());
    assert_eq!(vk::SAMPLE_COUNT_16, ash::vk::SampleCountFlags::TYPE_16.as_raw());
    assert_eq!(vk::SAMPLE_COUNT_32, ash::vk::SampleCountFlags::TYPE_32.as_raw());
    assert_eq!(vk::SAMPLE_COUNT_64, ash::vk::SampleCountFlags::TYPE_64.as_raw());
    assert_eq!(vk::SURFACE_TRANSFORM_IDENTITY, ash::vk::SurfaceTransformFlagsKHR::IDENTITY.as_raw());
    assert_eq!(vk::COMPOSITE_ALPHA_OPAQUE, ash::vk::CompositeAlphaFlagsKHR::OPAQUE.as_raw());
    assert_eq!(vk::COMPOSITE_ALPHA_PRE_MULTIPLIED, ash::vk::CompositeAlphaFlagsKHR::PRE_MULTIPLIED.as_raw());
    assert_eq!(vk::COMPOSITE_ALPHA_POST_MULTIPLIED, ash::vk::CompositeAlphaFlagsKHR::POST_MULTIPLIED.as_raw());
    assert_eq!(vk::COMPOSITE_ALPHA_INHERIT, ash::vk::CompositeAlphaFlagsKHR::INHERIT.as_raw());
    assert_eq!(vk::IMAGE_USAGE_TRANSFER_SRC, ash::vk::ImageUsageFlags::TRANSFER_SRC.as_raw());
    assert_eq!(vk::IMAGE_USAGE_TRANSFER_DST, ash::vk::ImageUsageFlags::TRANSFER_DST.as_raw());
    assert_eq!(vk::IMAGE_USAGE_SAMPLED, ash::vk::ImageUsageFlags::SAMPLED.as_raw());
    assert_eq!(vk::IMAGE_USAGE_COLOR_ATTACHMENT, ash::vk::ImageUsageFlags::COLOR_ATTACHMENT.as_raw());
    assert_eq!(vk::IMAGE_ASPECT_COLOR, ash::vk::ImageAspectFlags::COLOR.as_raw());
    assert_eq!(vk::IMAGE_ASPECT_DEPTH, ash::vk::ImageAspectFlags::DEPTH.as_raw());
    assert_eq!(vk::IMAGE_ASPECT_STENCIL, ash::vk::ImageAspectFlags::STENCIL.as_raw());
    assert_eq!(vk::ACCESS_NONE, ash::vk::AccessFlags::empty().as_raw());
    assert_eq!(vk::ACCESS_SHADER_READ, ash::vk::AccessFlags::SHADER_READ.as_raw());
    assert_eq!(vk::ACCESS_DEPTH_STENCIL_ATTACHMENT_READ, ash::vk::AccessFlags::DEPTH_STENCIL_ATTACHMENT_READ.as_raw());
    assert_eq!(vk::ACCESS_DEPTH_STENCIL_ATTACHMENT_WRITE, ash::vk::AccessFlags::DEPTH_STENCIL_ATTACHMENT_WRITE.as_raw());
    assert_eq!(vk::ACCESS_TRANSFER_WRITE, ash::vk::AccessFlags::TRANSFER_WRITE.as_raw());
    assert_eq!(vk::PIPELINE_STAGE_TOP_OF_PIPE, ash::vk::PipelineStageFlags::TOP_OF_PIPE.as_raw());
    assert_eq!(vk::PIPELINE_STAGE_FRAGMENT_SHADER, ash::vk::PipelineStageFlags::FRAGMENT_SHADER.as_raw());
    assert_eq!(vk::PIPELINE_STAGE_EARLY_FRAGMENT_TESTS, ash::vk::PipelineStageFlags::EARLY_FRAGMENT_TESTS.as_raw());
    assert_eq!(vk::PIPELINE_STAGE_TRANSFER, ash::vk::PipelineStageFlags::TRANSFER.as_raw());
    assert_eq!(vk::PIPELINE_STAGE_ALL_COMMANDS, ash::vk::PipelineStageFlags::ALL_COMMANDS.as_raw());
    assert_eq!(vk::FORMAT_FEATURE_DEPTH_STENCIL_ATTACHMENT, ash::vk::FormatFeatureFlags::DEPTH_STENCIL_ATTACHMENT.as_raw());
    assert_eq!(vk::FENCE_CREATE_SIGNALED, ash::vk::FenceCreateFlags::SIGNALED.as_raw());
    assert_eq!(vk::COMMAND_POOL_CREATE_RESET_COMMAND_BUFFER, ash::vk::CommandPoolCreateFlags::RESET_COMMAND_BUFFER.as_raw());
    assert_eq!(vk::MESSAGE_SEVERITY_VERBOSE, ash::vk::DebugUtilsMessageSeverityFlagsEXT::VERBOSE.as_raw());
    assert_eq!(vk::MESSAGE_SEVERITY_INFO, ash::vk::DebugUtilsMessageSeverityFlagsEXT::INFO.as_raw());
    assert_eq!(vk::MESSAGE_SEVERITY_WARNING, ash::vk::DebugUtilsMessageSeverityFlagsEXT::WARNING.as_raw());
    assert_eq!(vk::MESSAGE_SEVERITY_ERROR, ash::vk::DebugUtilsMessageSeverityFlagsEXT::ERROR.as_raw());
    assert_eq!(vk::MESSAGE_TYPE_GENERAL, ash::vk::DebugUtilsMessageTypeFlagsEXT::GENERAL.as_raw());
    assert_eq!(vk::MESSAGE_TYPE_VALIDATION, ash::vk::DebugUtilsMessageTypeFlagsEXT::VALIDATION.as_raw());
    assert_eq!(vk::MESSAGE_TYPE_PERFORMANCE, ash::vk::DebugUtilsMessageTypeFlagsEXT::PERFORMANCE.as_raw());
    assert_eq!(vk::DESCRIPTOR_TYPE_COMBINED_IMAGE_SAMPLER, ash::vk::DescriptorType::COMBINED_IMAGE_SAMPLER.as_raw());
    assert_eq!(vk::DESCRIPTOR_TYPE_STORAGE_IMAGE, ash::vk::DescriptorType::STORAGE_IMAGE.as_raw());
    assert_eq!(vk::DESCRIPTOR_TYPE_UNIFORM_BUFFER, ash::vk::DescriptorType::UNIFORM_BUFFER.as_raw());
    assert_eq!(vk::SHADER_STAGE_VERTEX, ash::vk::ShaderStageFlags::VERTEX.as_raw());
    assert_eq!(vk::SHADER_STAGE_FRAGMENT, ash::vk::ShaderStageFlags::FRAGMENT.as_raw());
    assert_eq!(vk::SHADER_STAGE_COMPUTE, ash::vk::ShaderStageFlags::COMPUTE.as_raw());
}

#[test]
fn packed_versions_match_vulkan() {
    assert_eq!(vk_utils::constants::APPLICATION_VERSION, ash::vk::make_api_version(0, 0, 1, 0));
    assert_eq!(vk_utils::constants::ENGINE_VERSION, ash::vk::make_api_version(0, 0, 1, 0));
    assert_eq!(vk_utils::constants::API_VERSION_1_2, ash::vk::API_VERSION_1_2);
    assert_eq!(vk_utils::weekend::constants::APPLICATION_VERSION, ash::vk::make_api_version(0, 1, 0, 0));
    assert_eq!(vk_utils::weekend::constants::ENGINE_VERSION, ash::vk::make_api_version(0, 1, 0, 0));
    assert_eq!(vk_utils::constants::HEIGHT, vk_utils::constants::WIDTH);
}
