use std::collections::HashMap;
use vk_utils::vk::{
    SurfaceCapabilities, SurfaceFormat, Extent2D, QueueFamilyProperties, FormatProperties, MemoryProperties,
    QUEUE_GRAPHICS, QUEUE_COMPUTE, FORMAT_UNDEFINED, FORMAT_R8G8B8_UNORM, FORMAT_B8G8R8A8_SRGB,
    COLOR_SPACE_SRGB_NONLINEAR, PRESENT_MODE_FIFO, PRESENT_MODE_MAILBOX, PRESENT_MODE_IMMEDIATE,
    SHARING_MODE_CONCURRENT, SHARING_MODE_EXCLUSIVE, COMPOSITE_ALPHA_OPAQUE, IMAGE_USAGE_COLOR_ATTACHMENT,
    IMAGE_USAGE_TRANSFER_DST, IMAGE_USAGE_SAMPLED, IMAGE_TILING_OPTIMAL, IMAGE_TILING_LINEAR,
    FORMAT_D32_SFLOAT, FORMAT_D32_SFLOAT_S8_UINT, FORMAT_D24_UNORM_S8_UINT, FORMAT_FEATURE_DEPTH_STENCIL_ATTACHMENT,
    IMAGE_LAYOUT_UNDEFINED, IMAGE_LAYOUT_TRANSFER_DST_OPTIMAL, IMAGE_LAYOUT_SHADER_READ_ONLY_OPTIMAL,
    IMAGE_LAYOUT_DEPTH_STENCIL_ATTACHMENT_OPTIMAL, IMAGE_LAYOUT_GENERAL, IMAGE_ASPECT_COLOR, IMAGE_ASPECT_DEPTH,
    IMAGE_ASPECT_STENCIL, ACCESS_DEPTH_STENCIL_ATTACHMENT_READ, ACCESS_DEPTH_STENCIL_ATTACHMENT_WRITE,
    PIPELINE_STAGE_EARLY_FRAGMENT_TESTS, RESULT_ERROR_OUT_OF_DATE, RESULT_SUBOPTIMAL,
    MESSAGE_SEVERITY_ERROR, MESSAGE_SEVERITY_WARNING, MESSAGE_SEVERITY_INFO, MESSAGE_SEVERITY_VERBOSE,
    MESSAGE_TYPE_GENERAL, MESSAGE_TYPE_VALIDATION, MESSAGE_TYPE_PERFORMANCE,
    COMMAND_POOL_CREATE_RESET_COMMAND_BUFFER, FENCE_CREATE_SIGNALED, DescriptorPoolSize,
    DESCRIPTOR_TYPE_STORAGE_IMAGE, DESCRIPTOR_TYPE_UNIFORM_BUFFER, SHADER_STAGE_COMPUTE,
};
use vk_utils::instance::{
    PhysicalDeviceRequiredFeatures, PhysicalDeviceSupport, supported_physical_device,
    get_vulkan_physical_devices, get_vulkan_layers, get_vulkan_extensions, instance_extensions,
    check_vulkan_minimum_version, check_vulkan_validation_layer_support, layer_names_readable,
};
use vk_utils::device::{find_queue, device_queue_families, check_required_extensions, QueueFamilyIndices};
use vk_utils::surface::SurfaceError;
use vk_utils::engine::{BufferHandles, EngineHandles, FrameState, ImageHandles};
use vk_utils::app_base::{LoopEvent, LoopAction, ControlFlow, loop_action, control_flow_after};
use vk_utils::image::Image;
use vk_utils::depth_buffer::{has_stencil_component, find_support_format, find_depth_format};
use vk_utils::descriptor::{DescriptorBinding, DescriptorSetManager, DescriptorSets, DescriptorWrite, pool_sizes, layout_bindings, set_layouts};
use vk_utils::swapchain::{
    SupportDetails, query_swap_chain_support, choose_swap_surface_format, choose_swap_surface_present_mode,
    choose_swap_extent, choose_image_count, configure_swapchain,
};
use vk_utils::vk_surface::find_suitable_swap_chain_surface_format;
use vk_utils::debug::{severity_label, message_type_label, log_level, LogLevel, messenger_message_types, debug_create_severities, check_messenger_layers};
use vk_utils::command::{command_pool_flags, fence_create_flags, command_pool_error};
use vk_utils::application::{App, UniformBuffer};
use vk_utils::release::Release;
use vk_utils::utils::vk_to_string;
use vk_utils::memory::{find_memory_type_index, find_memory_type};

fn rt_cname(s: &str) -> Vec<i8> {
    let mut v: Vec<i8> = s.bytes().map(|b| b as i8).collect();
    v.push(0);
    v
}

fn rt_caps() -> SurfaceCapabilities {
    SurfaceCapabilities {
        min_image_count: 1,
        max_image_count: 0,
        current_extent: Extent2D { width: u32::MAX, height: u32::MAX },
        min_image_extent: Extent2D { width: 100, height: 100 },
        max_image_extent: Extent2D { width: 800, height: 600 },
        supported_transforms: 1,
        current_transform: 1,
        supported_composite_alpha: 1,
        supported_usage_flags: 0x1f,
    }
}

fn rt_device(geometry: u32, rt: bool, graphics: bool, name: &str) -> PhysicalDeviceSupport {
    PhysicalDeviceSupport {
        geometry_shader: geometry,
        ray_tracing_pipeline: rt,
        queue_families: vec![QueueFamilyProperties { queue_flags: if graphics { QUEUE_GRAPHICS } else { QUEUE_COMPUTE }, queue_count: 1 }],
        device_name: rt_cname(name),
    }
}

#[test]
fn default_features_require_everything() {
    let f = PhysicalDeviceRequiredFeatures::default();
    assert!(f.geometry_shader_support && f.ray_tracing_support && f.graphics_queue_support);
}

#[test]
fn supported_device_is_first_meeting_requirements() {
    let devices = vec![rt_device(0, true, true, "A"), rt_device(1, true, true, "B"), rt_device(1, true, true, "C")];
    assert_eq!(supported_physical_device(None, &devices), Ok(1));
    let lenient = PhysicalDeviceRequiredFeatures { geometry_shader_support: false, ray_tracing_support: true, graphics_queue_support: true };
    assert_eq!(supported_physical_device(Some(&lenient), &devices), Ok(0));
    let none = vec![rt_device(1, false, true, "A"), rt_device(1, true, false, "B")];
    assert_eq!(supported_physical_device(None, &none), Err(String::from("failed to find a suitable device")));
    let mut bad_name = rt_device(1, true, true, "X");
    bad_name.device_name = vec![-2, 0];
    assert_eq!(supported_physical_device(None, &vec![bad_name]), Err(String::from("failed to convert raw c_char array to String")));
    let no_devices: Vec<PhysicalDeviceSupport> = vec![];
    assert_eq!(supported_physical_device(None, &no_devices), Err(String::from("failed to find a suitable device")));
}

#[test]
fn instance_lists_and_extensions() {
    assert_eq!(get_vulkan_physical_devices(None), Err(String::from("failed to enumerate Vulkan physical devices")));
    assert_eq!(get_vulkan_physical_devices(Some(vec![])), Err(String::from("found no Vulkan physical devices")));
    assert_eq!(get_vulkan_physical_devices(Some(vec![5])), Ok(vec![5]));
    assert_eq!(get_vulkan_layers(None), Err(String::from("failed to enumerate instance layers")));
    assert_eq!(get_vulkan_extensions(None), Err(String::from("failed to enumerate extensions")));
    assert_eq!(get_vulkan_extensions(Some(vec![rt_cname("e")])), Ok(vec![rt_cname("e")]));
    assert_eq!(instance_extensions(vec![1, 2], 1, 9), vec![1, 2, 9]);
    assert_eq!(instance_extensions(vec![1, 2], 0, 9), vec![1, 2]);
}

#[test]
fn minimum_version_check() {
    assert_eq!(check_vulkan_minimum_version(Some(Some(4202496)), 4202496), Ok(()));
    assert_eq!(
        check_vulkan_minimum_version(Some(Some(4198400)), 4202496),
        Err(String::from("minimum required version not found (required 4202496, found 4198400)"))
    );
    assert_eq!(check_vulkan_minimum_version(Some(None), 1), Err(String::from("failed to enumerate instance version")));
    assert_eq!(check_vulkan_minimum_version(None, 1), Err(String::from("failed to enumerate instance version")));
}

#[test]
fn instance_validation_layers_must_all_exist() {
    let available = Some(vec![rt_cname("VK_LAYER_KHRONOS_validation")]);
    assert_eq!(check_vulkan_validation_layer_support(&available, &vec![rt_cname("VK_LAYER_KHRONOS_validation")]), Ok(()));
    assert_eq!(
        check_vulkan_validation_layer_support(&available, &vec![rt_cname("VK_LAYER_KHRONOS_validation"), rt_cname("VK_LAYER_x")]),
        Err(String::from("could not find the requested validation layer: 'VK_LAYER_x'"))
    );
    assert_eq!(check_vulkan_validation_layer_support(&Some(vec![]), &vec![]), Err(String::from("no available layers")));
    assert_eq!(check_vulkan_validation_layer_support(&None, &vec![]), Err(String::from("failed to enumerate available validation layers")));
    assert_eq!(check_vulkan_validation_layer_support(&available, &vec![]), Ok(()));
}

#[test]
fn find_queue_skips_excluded_and_empty() {
    let fams = vec![
        QueueFamilyProperties { queue_flags: QUEUE_GRAPHICS | QUEUE_COMPUTE, queue_count: 1 },
        QueueFamilyProperties { queue_flags: QUEUE_COMPUTE, queue_count: 0 },
        QueueFamilyProperties { queue_flags: QUEUE_COMPUTE, queue_count: 2 },
    ];
    assert_eq!(find_queue(&fams, "compute", QUEUE_COMPUTE, QUEUE_GRAPHICS), Ok(2));
    assert_eq!(find_queue(&fams, "graphics", QUEUE_GRAPHICS, 0), Err(String::from("found no matching graphics queue")));
    assert_eq!(find_queue(&fams, "transfer", 0x4, 0x8), Err(String::from("found no matching transfer queue")));
}

#[test]
fn device_queue_families_always_lack_graphics() {
    let fams = vec![
        QueueFamilyProperties { queue_flags: QUEUE_GRAPHICS, queue_count: 1 },
        QueueFamilyProperties { queue_flags: QUEUE_COMPUTE, queue_count: 1 },
    ];
    let support: Vec<Result<bool, SurfaceError>> = vec![Ok(true), Err(SurfaceError::PhysicalDeviceSurfaceSupportError)];
    assert_eq!(device_queue_families(&fams, &support), Err(String::from("found no matching graphics queue")));
    let _ = QueueFamilyIndices { graphics_family: 0, compute_family: 1, present_family: 0 };
}

#[test]
fn required_extensions_report_every_unlisted_name() {
    assert_eq!(check_required_extensions(&None, &vec![]), Err(String::from("failed to enumerate device extension properties")));
    let names = Some(vec![rt_cname("VK_KHR_swapchain"), rt_cname("VK_KHR_a"), rt_cname("VK_KHR_b")]);
    assert_eq!(check_required_extensions(&names, &vec![true, true, true]), Ok(()));
    assert_eq!(
        check_required_extensions(&names, &vec![false, true, false]),
        Err(String::from("missing required extensions: VK_KHR_swapchain, VK_KHR_b"))
    );
    let with_empty = Some(vec![rt_cname(""), rt_cname("VK_KHR_a")]);
    assert_eq!(check_required_extensions(&with_empty, &vec![false, false]), Err(String::from("missing required extensions: VK_KHR_a")));
    let bad = Some(vec![vec![-1i8, 0]]);
    assert_eq!(check_required_extensions(&bad, &vec![false]), Err(String::from("failed to convert raw c_char array to String")));
    assert_eq!(check_required_extensions(&bad, &vec![true]), Ok(()));
}

#[test]
fn frame_state_advances_once_per_frame() {
    let mut state = FrameState::new();
    assert_eq!(state.compute_index(3), 0);
    assert_eq!(state.after_present(Ok(false)), Ok(false));
    assert_eq!(state.frame_count, 1);
    state.update_framebuffer();
    assert!(state.is_framebuffer_resized);
    assert_eq!(state.after_present(Ok(true)), Ok(true));
    assert!(!state.is_framebuffer_resized);
    assert_eq!(state.frame_count, 1);
    assert_eq!(state.after_recreate(Ok(())), Ok(()));
    assert_eq!(state.frame_count, 2);
    assert_eq!(state.compute_index(3), 2);
    assert_eq!(state.after_present(Err(RESULT_ERROR_OUT_OF_DATE)), Ok(true));
    assert_eq!(state.after_recreate(Err(String::from("x"))), Err(String::from("failure occurred while updating swapchain")));
    assert_eq!(state.frame_count, 2);
    assert_eq!(state.after_present(Err(RESULT_SUBOPTIMAL)), Ok(true));
    let before = state;
    assert_eq!(state.after_present(Err(-4)), Err(String::from("failed to present swapchain image")));
    assert_eq!(state, before);
    let mut pending = FrameState { frame_count: 5, is_framebuffer_resized: false };
    pending.update_framebuffer();
    assert_eq!(pending.after_present(Ok(false)), Ok(true));
    assert_eq!(pending, FrameState { frame_count: 5, is_framebuffer_resized: false });
    assert_eq!(pending.after_present(Ok(false)), Ok(false));
    assert_eq!(pending.frame_count, 6);
    let late = FrameState { frame_count: 7, is_framebuffer_resized: false };
    assert_eq!(late.compute_index(3), 1);
}

#[test]
fn event_loop_reactions() {
    assert_eq!(loop_action(LoopEvent::CloseRequested), LoopAction::WaitIdleAndExit);
    assert_eq!(loop_action(LoopEvent::KeyboardInput { escape: true, pressed: true }), LoopAction::WaitIdleAndExit);
    assert_eq!(loop_action(LoopEvent::KeyboardInput { escape: true, pressed: false }), LoopAction::Nothing);
    assert_eq!(loop_action(LoopEvent::KeyboardInput { escape: false, pressed: true }), LoopAction::Nothing);
    assert_eq!(loop_action(LoopEvent::Resized), LoopAction::WaitIdleAndResize);
    assert_eq!(loop_action(LoopEvent::MainEventsCleared), LoopAction::RenderFrame);
    assert_eq!(loop_action(LoopEvent::LoopDestroyed), LoopAction::WaitIdle);
    assert_eq!(loop_action(LoopEvent::Other), LoopAction::Nothing);
    assert_eq!(loop_action(LoopEvent::OtherWindowEvent), LoopAction::Nothing);
    assert_eq!(control_flow_after(LoopAction::WaitIdleAndExit, None), ControlFlow::Exit);
    assert_eq!(control_flow_after(LoopAction::RenderFrame, Some(Err(String::from("e")))), ControlFlow::ExitWithCode(2));
    assert_eq!(control_flow_after(LoopAction::RenderFrame, Some(Ok(()))), ControlFlow::Poll);
    assert_eq!(control_flow_after(LoopAction::WaitIdleAndResize, None), ControlFlow::Poll);
}

#[test]
fn image_layout_transitions() {
    assert_eq!(Image::creation(None, None), (IMAGE_TILING_OPTIMAL, IMAGE_USAGE_TRANSFER_DST | IMAGE_USAGE_SAMPLED));
    assert_eq!(Image::creation(Some(IMAGE_TILING_LINEAR), Some(7)), (IMAGE_TILING_LINEAR, 7));
    let mut image = Image::new(42, Extent2D { width: 4, height: 2 }, FORMAT_D24_UNORM_S8_UINT);
    assert_eq!(image.extent(), Extent2D { width: 4, height: 2 });
    assert_eq!(image.format(), FORMAT_D24_UNORM_S8_UINT);
    let barrier = image.layout_barrier(IMAGE_LAYOUT_DEPTH_STENCIL_ATTACHMENT_OPTIMAL).unwrap();
    assert_eq!(barrier.aspect_mask, IMAGE_ASPECT_STENCIL | IMAGE_ASPECT_DEPTH);
    assert_eq!(barrier.dst_access_mask, ACCESS_DEPTH_STENCIL_ATTACHMENT_READ | ACCESS_DEPTH_STENCIL_ATTACHMENT_WRITE);
    assert_eq!(barrier.dst_stage, PIPELINE_STAGE_EARLY_FRAGMENT_TESTS);
    assert_eq!(image.layout_barrier(IMAGE_LAYOUT_GENERAL), Err(String::from("unsupported layout transition")));
    assert_eq!(image.transition_image_layout(IMAGE_LAYOUT_TRANSFER_DST_OPTIMAL, Err(String::from("no"))), Err(String::from("no")));
    assert_eq!(image.image_layout, IMAGE_LAYOUT_UNDEFINED);
    assert_eq!(image.transition_image_layout(IMAGE_LAYOUT_TRANSFER_DST_OPTIMAL, Ok(())), Ok(()));
    assert_eq!(image.image_layout, IMAGE_LAYOUT_TRANSFER_DST_OPTIMAL);
    assert_eq!(image.transition_image_layout(IMAGE_LAYOUT_UNDEFINED, Ok(())), Err(String::from("unsupported layout transition")));
    assert_eq!(image.image_layout, IMAGE_LAYOUT_TRANSFER_DST_OPTIMAL);
    let read = image.layout_barrier(IMAGE_LAYOUT_SHADER_READ_ONLY_OPTIMAL).unwrap();
    assert_eq!(read.aspect_mask, IMAGE_ASPECT_COLOR);
    let depth_only = Image::new(1, Extent2D { width: 1, height: 1 }, FORMAT_D32_SFLOAT);
    assert_eq!(depth_only.layout_barrier(IMAGE_LAYOUT_DEPTH_STENCIL_ATTACHMENT_OPTIMAL).unwrap().aspect_mask, IMAGE_ASPECT_DEPTH);
}

#[test]
fn depth_format_search() {
    assert!(has_stencil_component(FORMAT_D32_SFLOAT_S8_UINT));
    assert!(has_stencil_component(FORMAT_D24_UNORM_S8_UINT));
    assert!(!has_stencil_component(FORMAT_D32_SFLOAT));
    let none = FormatProperties { linear_tiling_features: 0, optimal_tiling_features: 0, buffer_features: 0 };
    let optimal = FormatProperties { linear_tiling_features: 0, optimal_tiling_features: FORMAT_FEATURE_DEPTH_STENCIL_ATTACHMENT, buffer_features: 0 };
    let linear = FormatProperties { linear_tiling_features: FORMAT_FEATURE_DEPTH_STENCIL_ATTACHMENT, optimal_tiling_features: 0, buffer_features: 0 };
    assert_eq!(find_depth_format(&vec![none, optimal, optimal]), Ok(FORMAT_D32_SFLOAT_S8_UINT));
    assert_eq!(find_depth_format(&vec![linear, none, none]), Err(String::from("failed to find supported format")));
    assert_eq!(find_support_format(&vec![5, 6], &vec![none, linear], IMAGE_TILING_LINEAR, FORMAT_FEATURE_DEPTH_STENCIL_ATTACHMENT), Ok(6));
    assert_eq!(find_support_format(&vec![5], &vec![linear], 9, FORMAT_FEATURE_DEPTH_STENCIL_ATTACHMENT), Err(String::from("failed to find supported format")));
}

#[test]
fn descriptor_bindings_pool_and_layout() {
    let bindings = vec![
        DescriptorBinding { binding: 0, descriptor_count: 1, type_: DESCRIPTOR_TYPE_STORAGE_IMAGE, stage: SHADER_STAGE_COMPUTE },
        DescriptorBinding { binding: 1, descriptor_count: 2, type_: DESCRIPTOR_TYPE_UNIFORM_BUFFER, stage: SHADER_STAGE_COMPUTE },
    ];
    assert_eq!(pool_sizes(&bindings, 3), vec![
        DescriptorPoolSize { ty: DESCRIPTOR_TYPE_STORAGE_IMAGE, descriptor_count: 3 },
        DescriptorPoolSize { ty: DESCRIPTOR_TYPE_UNIFORM_BUFFER, descriptor_count: 6 },
    ]);
    let layout = layout_bindings(&bindings);
    assert_eq!(layout.len(), 2);
    assert_eq!(layout[1].binding, 1);
    assert_eq!(layout[1].descriptor_count, 2);
    assert_eq!(layout[1].descriptor_type, DESCRIPTOR_TYPE_UNIFORM_BUFFER);
    assert_eq!(layout[1].stage_flags, SHADER_STAGE_COMPUTE);
    assert_eq!(DescriptorSetManager::check_bindings(&bindings), Err(String::from("binding collision")));
    assert_eq!(DescriptorSetManager::check_bindings(&vec![]), Ok(()));
    let dsm = DescriptorSetManager { pool: 3, layout: 4 };
    assert_eq!(DescriptorSetManager::cleanup(&dsm), vec![Release::DestroyDescriptorSetLayout(4), Release::DestroyDescriptorPool(3)]);
    assert_eq!(set_layouts(9, 3), vec![9, 9, 9]);
}

#[test]
fn descriptor_set_writes() {
    let mut types = HashMap::new();
    types.insert(1u32, DESCRIPTOR_TYPE_UNIFORM_BUFFER);
    let sets = DescriptorSets { binding_types: types, descriptor_sets: vec![100, 200] };
    assert_eq!(sets.get_binding_type(1), Ok(DESCRIPTOR_TYPE_UNIFORM_BUFFER));
    assert_eq!(sets.get_binding_type(0), Err(String::from("binding not found")));
    assert_eq!(sets.write_descriptor(1, 1), Ok(DescriptorWrite { dst_set: 200, dst_binding: 1, dst_array_element: 0, descriptor_type: DESCRIPTOR_TYPE_UNIFORM_BUFFER }));
    assert_eq!(sets.write_descriptor(0, 5), Err(String::from("binding not found")));
}

#[test]
fn swap_chain_support_errors() {
    let caps = rt_caps();
    let ok = query_swap_chain_support(Ok(caps), Ok(vec![]), Ok(vec![PRESENT_MODE_FIFO])).unwrap();
    assert_eq!(ok.capabilities, caps);
    assert_eq!(ok.present_modes, vec![PRESENT_MODE_FIFO]);
    assert_eq!(
        query_swap_chain_support(Err(SurfaceError::PhysicalDeviceSurfaceCapabilitiesError), Ok(vec![]), Ok(vec![])).err(),
        Some(String::from("failed to get surface capabilities for physical device"))
    );
    assert_eq!(
        query_swap_chain_support(Ok(caps), Err(SurfaceError::PhysicalDeviceSurfaceFormatsError), Ok(vec![])).err(),
        Some(String::from("empty swap chain support"))
    );
    assert_eq!(
        query_swap_chain_support(Ok(caps), Ok(vec![]), Err(SurfaceError::PhysicalDeviceSurfacePresentModesError)).err(),
        Some(String::from("empty swap chain support"))
    );
}

#[test]
fn swap_surface_format_and_present_mode() {
    let rgb = SurfaceFormat { format: FORMAT_R8G8B8_UNORM, color_space: COLOR_SPACE_SRGB_NONLINEAR };
    let undefined = SurfaceFormat { format: FORMAT_UNDEFINED, color_space: 5 };
    let other = SurfaceFormat { format: FORMAT_B8G8R8A8_SRGB, color_space: COLOR_SPACE_SRGB_NONLINEAR };
    assert_eq!(choose_swap_surface_format(&vec![undefined]), Ok(rgb));
    assert_eq!(choose_swap_surface_format(&vec![other, rgb]), Ok(rgb));
    assert_eq!(choose_swap_surface_format(&vec![other]), Err(String::from("found no suitable surface format")));
    assert_eq!(choose_swap_surface_format(&vec![]), Err(String::from("found no suitable surface format")));
    assert_eq!(choose_swap_surface_present_mode(&vec![PRESENT_MODE_MAILBOX], PRESENT_MODE_MAILBOX), Ok(PRESENT_MODE_MAILBOX));
    assert_eq!(choose_swap_surface_present_mode(&vec![PRESENT_MODE_FIFO], PRESENT_MODE_IMMEDIATE), Ok(PRESENT_MODE_FIFO));
    assert_eq!(choose_swap_surface_present_mode(&vec![PRESENT_MODE_FIFO], 1000111000), Err(String::from("Unknown present mode")));
}

#[test]
fn swap_extent_clamps_framebuffer_and_image_count() {
    let caps = rt_caps();
    assert_eq!(choose_swap_extent(Extent2D { width: 1000, height: 50 }, &caps), Extent2D { width: 800, height: 100 });
    assert_eq!(choose_swap_extent(Extent2D { width: 300, height: 400 }, &caps), Extent2D { width: 300, height: 400 });
    let fixed = SurfaceCapabilities { current_extent: Extent2D { width: 10, height: 20 }, ..caps };
    assert_eq!(choose_swap_extent(Extent2D { width: 1000, height: 50 }, &fixed), Extent2D { width: 10, height: 20 });
    let inverted = SurfaceCapabilities { min_image_extent: Extent2D { width: 500, height: 500 }, max_image_extent: Extent2D { width: 200, height: 200 }, ..caps };
    assert_eq!(choose_swap_extent(Extent2D { width: 300, height: 100 }, &inverted), Extent2D { width: 500, height: 500 });
    assert_eq!(choose_image_count(&caps), 2);
    assert_eq!(choose_image_count(&SurfaceCapabilities { min_image_count: 4, max_image_count: 3, ..caps }), 3);
    assert_eq!(choose_image_count(&SurfaceCapabilities { min_image_count: 3, max_image_count: 8, ..caps }), 3);
}

#[test]
fn swapchain_configuration() {
    let rgb = SurfaceFormat { format: FORMAT_R8G8B8_UNORM, color_space: COLOR_SPACE_SRGB_NONLINEAR };
    let details = SupportDetails { capabilities: rt_caps(), formats: vec![rgb], present_modes: vec![PRESENT_MODE_FIFO] };
    let config = configure_swapchain(&details, Extent2D { width: 640, height: 480 }, PRESENT_MODE_MAILBOX, 0, 1).unwrap();
    assert_eq!(config.surface_format, rgb);
    assert_eq!(config.present_mode, PRESENT_MODE_FIFO);
    assert_eq!(config.requested_present_mode, PRESENT_MODE_MAILBOX);
    assert_eq!(config.extent, Extent2D { width: 640, height: 480 });
    assert_eq!(config.image_count, 2);
    assert_eq!(config.min_image_count, 2);
    assert_eq!(config.image_usage, IMAGE_USAGE_COLOR_ATTACHMENT | IMAGE_USAGE_TRANSFER_DST);
    assert_eq!(config.composite_alpha, COMPOSITE_ALPHA_OPAQUE);
    assert_eq!(config.image_sharing_mode, SHARING_MODE_CONCURRENT);
    assert_eq!(config.queue_family_indices, vec![0, 1]);
    let shared = configure_swapchain(&details, Extent2D { width: 640, height: 480 }, PRESENT_MODE_FIFO, 2, 2).unwrap();
    assert_eq!(shared.image_sharing_mode, SHARING_MODE_EXCLUSIVE);
    assert!(shared.queue_family_indices.is_empty());
    assert_eq!(configure_swapchain(&details, Extent2D { width: 1, height: 1 }, 77, 0, 0).err(), Some(String::from("Unknown present mode")));
    let no_format = SupportDetails { capabilities: rt_caps(), formats: vec![], present_modes: vec![] };
    assert_eq!(configure_swapchain(&no_format, Extent2D { width: 1, height: 1 }, 77, 0, 0).err(), Some(String::from("found no suitable surface format")));
}

#[test]
fn surface_format_search_falls_back_to_first() {
    let a = SurfaceFormat { format: FORMAT_B8G8R8A8_SRGB, color_space: 0 };
    let b = SurfaceFormat { format: FORMAT_R8G8B8_UNORM, color_space: 0 };
    assert_eq!(find_suitable_swap_chain_surface_format(&Some(vec![a, b]), FORMAT_R8G8B8_UNORM, 0), Ok(b));
    assert_eq!(find_suitable_swap_chain_surface_format(&Some(vec![a, b]), FORMAT_R8G8B8_UNORM, 3), Ok(a));
    assert_eq!(find_suitable_swap_chain_surface_format(&Some(vec![]), 0, 0), Err(String::from("failed to find any surface format")));
    assert_eq!(find_suitable_swap_chain_surface_format(&None, 0, 0), Err(String::from("failed to get surface formats for physical device")));
}

#[test]
fn surface_error_messages() {
    assert_eq!(SurfaceError::SurfaceCreateError.message(), "failed to create surface");
    assert_eq!(SurfaceError::PhysicalDeviceSurfaceSupportError.message(), "failed to get surface support for physical device");
    assert_eq!(SurfaceError::PhysicalDeviceSurfaceCapabilitiesError.message(), "failed to get surface capabilities for physical device");
    assert_eq!(SurfaceError::PhysicalDeviceSurfaceFormatsError.message(), "failed to get surface formats for physical device");
    assert_eq!(SurfaceError::PhysicalDeviceSurfacePresentModesError.message(), "failed to get surface present modes for physical device");
}

#[test]
fn debug_labels_and_levels() {
    assert_eq!(severity_label(MESSAGE_SEVERITY_VERBOSE), "[VERBOSE]");
    assert_eq!(severity_label(MESSAGE_SEVERITY_INFO), "[INFO]");
    assert_eq!(severity_label(MESSAGE_SEVERITY_WARNING), "[WARNING]");
    assert_eq!(severity_label(MESSAGE_SEVERITY_ERROR), "[ERROR]");
    assert_eq!(severity_label(MESSAGE_SEVERITY_ERROR | MESSAGE_SEVERITY_INFO), "[UNKNOWN]");
    assert_eq!(message_type_label(MESSAGE_TYPE_GENERAL), "[GENERAL]");
    assert_eq!(message_type_label(MESSAGE_TYPE_VALIDATION), "[VALIDATION]");
    assert_eq!(message_type_label(MESSAGE_TYPE_PERFORMANCE), "[PERFORMANCE]");
    assert_eq!(message_type_label(8), "[UNKNOWN]");
    assert_eq!(log_level(MESSAGE_SEVERITY_ERROR), LogLevel::Error);
    assert_eq!(log_level(MESSAGE_SEVERITY_WARNING), LogLevel::Warn);
    assert_eq!(log_level(MESSAGE_SEVERITY_VERBOSE), LogLevel::Info);
    assert_eq!(log_level(0x3), LogLevel::Info);
    assert_eq!(messenger_message_types(), 0x7);
    assert_eq!(debug_create_severities(), 0x1111);
    assert_eq!(check_messenger_layers(0), Err(String::from("no available validation layers")));
    assert_eq!(check_messenger_layers(2), Ok(()));
}

#[test]
fn command_pool_and_fence_flags() {
    assert_eq!(command_pool_flags(true), COMMAND_POOL_CREATE_RESET_COMMAND_BUFFER);
    assert_eq!(command_pool_flags(false), 0);
    assert_eq!(fence_create_flags(true), FENCE_CREATE_SIGNALED);
    assert_eq!(fence_create_flags(false), 0);
    assert_eq!(command_pool_error("compute family"), "failed to create command pool (compute family)");
}

#[test]
fn release_orders() {
    let app = App { instance: 1, debug_utils_messenger: 2, surface: 3, device: 4 };
    app.delete_swapchain();
    assert_eq!(app.teardown(), vec![
        Release::DestroyDevice(4), Release::DestroySurface(3), Release::DestroyDebugUtilsMessenger(2), Release::DestroyInstance(1),
    ]);
    let ub = UniformBuffer { buffer: 10, memory: 11 };
    assert_eq!(UniformBuffer::cleanup(&ub), vec![Release::FreeMemory(11), Release::DestroyBuffer(10)]);
}

#[test]
fn vk_name_to_string() {
    assert_eq!(vk_to_string(&rt_cname("VK_LAYER_KHRONOS_validation")), Ok(String::from("VK_LAYER_KHRONOS_validation")));
    let mut padded = rt_cname("ab");
    padded.extend_from_slice(&[99, 99, 0]);
    assert_eq!(vk_to_string(&padded), Ok(String::from("ab")));
    assert_eq!(vk_to_string(&[-61i8, 0]), Err(String::from("failed to convert raw c_char array to String")));
}

#[test]
fn memory_type_lowest_suitable() {
    let props = MemoryProperties { memory_type_count: 3, memory_type_flags: vec![0x1, 0x6, 0x7] };
    assert_eq!(find_memory_type_index(0b110, &props, 0x6), Ok(1));
    assert_eq!(find_memory_type_index(0b100, &props, 0x6), Ok(2));
    assert_eq!(find_memory_type_index(0b001, &props, 0x6), Err(String::from("unable to find suitable memory type")));
    assert_eq!(find_memory_type(&props, 0b1000, 0), Err(String::from("failed to find suitable memory type")));
    assert_eq!(find_memory_type(&props, 0b111, 0), Ok(0));
}

#[test]
fn no_features_same_as_default_features() {
    let devices = vec![rt_device(0, true, true, "A"), rt_device(1, false, true, "B"), rt_device(1, true, true, "C")];
    let default = PhysicalDeviceRequiredFeatures::default();
    assert_eq!(supported_physical_device(None, &devices), supported_physical_device(Some(&default), &devices));
    assert_eq!(supported_physical_device(None, &devices), Ok(2));
}

#[test]
fn requested_layers_and_severities() {
    assert_eq!(App::validation_layers(true), vec!["VK_LAYER_KHRONOS_validation"]);
    assert!(App::validation_layers(false).is_empty());
    assert_eq!(App::messenger_severities(), MESSAGE_SEVERITY_INFO | MESSAGE_SEVERITY_WARNING | MESSAGE_SEVERITY_ERROR);
    assert_eq!(vk_utils::engine::requested_validation_layers(), vec!["VK_LAYER_KHRONOS_validation", "VK_LAYER_LUNARG_monitor"]);
}

fn sample_engine_handles() -> EngineHandles {
    EngineHandles {
        instance: 1,
        surface: 2,
        device: 3,
        swapchain: 4,
        swapchain_image_views: vec![5, 6],
        present_complete: 7,
        render_complete: 8,
        compute_command_pool: 9,
        compute_command_buffers: vec![10],
        compute_fences: vec![11],
        compute_image: ImageHandles { image: 12, memory: 13, sampler: 14, image_view: 15 },
        ubo_buffer: BufferHandles { buffer: 16, memory: 17 },
        compute_descriptor_set_layout: 18,
        compute_descriptor_pool: 19,
        compute_pipeline_layout: 20,
        compute_pipeline: 21,
        command_pool: 22,
        command_buffer: 23,
        command_buffers: vec![24, 25],
        render_fences: vec![26, 27],
        render_pass: 28,
        framebuffers: vec![29, 30],
        vertex_buffer: BufferHandles { buffer: 31, memory: 32 },
        index_buffer: BufferHandles { buffer: 33, memory: 34 },
        descriptor_set_layout: 35,
        descriptor_pool: 36,
        pipeline_layout: 37,
        graphics_pipeline: 38,
    }
}

#[test]
fn swapchain_rebuild_release_order() {
    let h = sample_engine_handles();
    assert_eq!(
        h.rebuild_releases(),
        vec![
            Release::DestroyFramebuffer(29),
            Release::DestroyFramebuffer(30),
            Release::DestroyRenderPass(28),
            Release::DestroyPipeline(38),
            Release::DestroyPipelineLayout(37),
            Release::FreeCommandBuffer(22, 24),
            Release::FreeCommandBuffer(22, 25),
            Release::FreeCommandBuffer(22, 23),
            Release::DestroyImageView(5),
            Release::DestroyImageView(6),
            Release::DestroySwapchain(4),
        ]
    );
}

#[test]
fn engine_teardown_release_order() {
    let h = sample_engine_handles();
    assert_eq!(
        h.teardown_releases(),
        vec![
            Release::DestroyPipeline(38),
            Release::DestroyPipelineLayout(37),
            Release::DestroyDescriptorPool(36),
            Release::DestroyDescriptorSetLayout(35),
            Release::DestroyBuffer(33),
            Release::FreeMemory(34),
            Release::DestroyBuffer(31),
            Release::FreeMemory(32),
            Release::DestroyFramebuffer(29),
            Release::DestroyFramebuffer(30),
            Release::DestroyRenderPass(28),
            Release::DestroyFence(26),
            Release::DestroyFence(27),
            Release::FreeCommandBuffer(22, 24),
            Release::FreeCommandBuffer(22, 25),
            Release::DestroyPipeline(21),
            Release::DestroyPipelineLayout(20),
            Release::DestroyDescriptorPool(19),
            Release::DestroyDescriptorSetLayout(18),
            Release::UnmapMemory(17),
            Release::DestroyBuffer(16),
            Release::FreeMemory(17),
            Release::DestroyImageView(15),
            Release::DestroySampler(14),
            Release::DestroyImage(12),
            Release::FreeMemory(13),
            Release::DestroyFence(11),
            Release::FreeCommandBuffer(9, 10),
            Release::DestroyCommandPool(9),
            Release::FreeCommandBuffer(22, 23),
            Release::DestroyCommandPool(22),
            Release::DestroySemaphore(8),
            Release::DestroySemaphore(7),
            Release::DestroyImageView(5),
            Release::DestroyImageView(6),
            Release::DestroySwapchain(4),
            Release::DestroyDevice(3),
            Release::DestroySurface(2),
            Release::DestroyInstance(1),
        ]
    );
}

#[test]
fn layer_names_read_as_far_as_the_check_goes() {
    let bad = vec![-1i8, 0];
    assert!(layer_names_readable(&vec![rt_cname("A"), rt_cname("B")], &vec![rt_cname("B")]));
    assert!(!layer_names_readable(&vec![bad.clone(), rt_cname("B")], &vec![rt_cname("B")]));
    assert!(layer_names_readable(&vec![rt_cname("A"), bad.clone()], &vec![rt_cname("A")]));
    assert!(!layer_names_readable(&vec![rt_cname("A")], &vec![bad.clone()]));
    assert!(layer_names_readable(&vec![rt_cname("A")], &vec![rt_cname("X"), bad.clone()]));
    assert_eq!(
        check_vulkan_validation_layer_support(&Some(vec![]), &vec![bad]),
        Err(String::from("no available layers"))
    );
}
