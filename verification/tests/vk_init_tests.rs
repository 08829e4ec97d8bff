use vk_utils::vk::{
    SurfaceCapabilities, SurfaceFormat, Extent2D, QueueFamilyProperties,
    PRESENT_MODE_FIFO, PRESENT_MODE_IMMEDIATE, PRESENT_MODE_MAILBOX, PRESENT_MODE_FIFO_RELAXED,
    FORMAT_B8G8R8A8_UNORM, FORMAT_B8G8R8A8_SRGB, COLOR_SPACE_SRGB_NONLINEAR,
    SURFACE_TRANSFORM_IDENTITY, COMPOSITE_ALPHA_OPAQUE, IMAGE_USAGE_COLOR_ATTACHMENT,
    IMAGE_USAGE_TRANSFER_SRC, IMAGE_USAGE_TRANSFER_DST, QUEUE_GRAPHICS, QUEUE_COMPUTE,
    PHYSICAL_DEVICE_TYPE_DISCRETE_GPU, IMAGE_LAYOUT_UNDEFINED, IMAGE_LAYOUT_TRANSFER_DST_OPTIMAL,
    IMAGE_LAYOUT_SHADER_READ_ONLY_OPTIMAL, IMAGE_LAYOUT_GENERAL, ACCESS_NONE, ACCESS_TRANSFER_WRITE,
    ACCESS_SHADER_READ, PIPELINE_STAGE_TOP_OF_PIPE, PIPELINE_STAGE_TRANSFER, PIPELINE_STAGE_FRAGMENT_SHADER,
    PIPELINE_STAGE_ALL_COMMANDS, IMAGE_ASPECT_COLOR,
};
use vk_utils::vk_init::swapchain::{
    choose_swapchain_present_mode, choose_swapchain_format, choose_swapchain_transform,
    choose_swapchain_composite, swapchain_extent, swapchain_image_count, swapchain_image_usage,
    swapchain_settings, get_swapchain_images,
};
use vk_utils::vk_init::instance::{
    find_queue_families, pick_physical_device, instance_api_version, merge_extensions,
    check_vulkan_validation_layer_support,
};
use vk_utils::vk_init::device::{unique_queue_indices, fence_flags};
use vk_utils::vk_init::image::transition_image_barrier;
use vk_utils::vk_init::shader::shader_code;
use vk_utils::QueueFamilyIndices;

fn init_caps() -> SurfaceCapabilities {
    SurfaceCapabilities {
        min_image_count: 2,
        max_image_count: 3,
        current_extent: Extent2D { width: 640, height: 480 },
        min_image_extent: Extent2D { width: 1, height: 1 },
        max_image_extent: Extent2D { width: 4096, height: 4096 },
        supported_transforms: SURFACE_TRANSFORM_IDENTITY,
        current_transform: 0x2,
        supported_composite_alpha: 0x8,
        supported_usage_flags: IMAGE_USAGE_COLOR_ATTACHMENT | IMAGE_USAGE_TRANSFER_DST,
    }
}

fn init_cname(s: &str) -> Vec<i8> {
    let mut v: Vec<i8> = s.bytes().map(|b| b as i8).collect();
    v.push(0);
    v
}

#[test]
fn present_mode_prefers_mailbox_then_immediate_then_fifo() {
    assert_eq!(choose_swapchain_present_mode(&vec![PRESENT_MODE_FIFO, PRESENT_MODE_IMMEDIATE, PRESENT_MODE_MAILBOX]), PRESENT_MODE_MAILBOX);
    assert_eq!(choose_swapchain_present_mode(&vec![PRESENT_MODE_FIFO, PRESENT_MODE_IMMEDIATE]), PRESENT_MODE_IMMEDIATE);
    assert_eq!(choose_swapchain_present_mode(&vec![PRESENT_MODE_FIFO_RELAXED]), PRESENT_MODE_FIFO);
    assert_eq!(choose_swapchain_present_mode(&vec![]), PRESENT_MODE_FIFO);
}

#[test]
fn swapchain_format_prefers_bgra_unorm() {
    let srgb = SurfaceFormat { format: FORMAT_B8G8R8A8_SRGB, color_space: COLOR_SPACE_SRGB_NONLINEAR };
    let unorm = SurfaceFormat { format: FORMAT_B8G8R8A8_UNORM, color_space: 7 };
    assert_eq!(choose_swapchain_format(&vec![srgb, unorm]), Ok(unorm));
    assert_eq!(choose_swapchain_format(&vec![srgb]), Ok(srgb));
    assert_eq!(choose_swapchain_format(&vec![]), Err(String::from("failed to find suitable surface format")));
}

#[test]
fn transform_identity_when_supported() {
    let caps = init_caps();
    assert_eq!(choose_swapchain_transform(&caps), SURFACE_TRANSFORM_IDENTITY);
    let other = SurfaceCapabilities { supported_transforms: 0x2, ..caps };
    assert_eq!(choose_swapchain_transform(&other), 0x2);
}

#[test]
fn composite_is_always_opaque() {
    let caps = init_caps();
    assert_eq!(choose_swapchain_composite(&caps), COMPOSITE_ALPHA_OPAQUE);
    let opaque = SurfaceCapabilities { supported_composite_alpha: 0xf, ..caps };
    assert_eq!(choose_swapchain_composite(&opaque), COMPOSITE_ALPHA_OPAQUE);
}

#[test]
fn extent_and_image_count_of_swapchain() {
    let caps = init_caps();
    assert_eq!(swapchain_extent(&caps, 1024, 1024), Extent2D { width: 640, height: 480 });
    let open = SurfaceCapabilities { current_extent: Extent2D { width: u32::MAX, height: u32::MAX }, ..caps };
    assert_eq!(swapchain_extent(&open, 1024, 768), Extent2D { width: 1024, height: 768 });
    assert_eq!(swapchain_image_count(&caps), 3);
    let capped = SurfaceCapabilities { min_image_count: 3, max_image_count: 3, ..caps };
    assert_eq!(swapchain_image_count(&capped), 3);
    let unlimited = SurfaceCapabilities { min_image_count: 5, max_image_count: 0, ..caps };
    assert_eq!(swapchain_image_count(&unlimited), 6);
}

#[test]
fn image_usage_adds_supported_transfers() {
    let caps = init_caps();
    assert_eq!(swapchain_image_usage(&caps), IMAGE_USAGE_COLOR_ATTACHMENT | IMAGE_USAGE_TRANSFER_DST);
    let both = SurfaceCapabilities { supported_usage_flags: 0xff, ..caps };
    assert_eq!(swapchain_image_usage(&both), IMAGE_USAGE_COLOR_ATTACHMENT | IMAGE_USAGE_TRANSFER_SRC | IMAGE_USAGE_TRANSFER_DST);
    let none = SurfaceCapabilities { supported_usage_flags: 0, ..caps };
    assert_eq!(swapchain_image_usage(&none), IMAGE_USAGE_COLOR_ATTACHMENT);
    let settings = swapchain_settings(&caps, 10, 10);
    assert_eq!(settings.min_image_count, 3);
    assert_eq!(settings.composite_alpha, COMPOSITE_ALPHA_OPAQUE);
    assert_eq!(settings.pre_transform, SURFACE_TRANSFORM_IDENTITY);
}

#[test]
fn swapchain_images_errors() {
    assert_eq!(get_swapchain_images(None), Err(String::from("failed to get images swapchain")));
    assert_eq!(get_swapchain_images(Some(vec![])), Err(String::from("failed to get any images swapchain")));
    assert_eq!(get_swapchain_images(Some(vec![7, 8])), Ok(vec![7, 8]));
}

#[test]
fn queue_families_found_in_order() {
    let fams = vec![
        QueueFamilyProperties { queue_flags: QUEUE_COMPUTE, queue_count: 1 },
        QueueFamilyProperties { queue_flags: QUEUE_GRAPHICS | QUEUE_COMPUTE, queue_count: 1 },
        QueueFamilyProperties { queue_flags: QUEUE_GRAPHICS, queue_count: 1 },
    ];
    let support = vec![Ok(false), Ok(true), Ok(true)];
    assert_eq!(
        find_queue_families(&fams, &support),
        Ok(QueueFamilyIndices { compute_family_index: 0, graphics_family_index: 1, present_family_index: 1 })
    );
    let failing = vec![Ok(false), Err(-3), Ok(true)];
    assert_eq!(find_queue_families(&fams, &failing), Err(String::from("failed to get surface support for physical device")));
    let no_present = vec![Ok(false), Ok(false), Ok(false)];
    assert_eq!(
        find_queue_families(&fams, &no_present),
        Err(String::from("failed to find suitable queue family index (compute: Some(0), graphics: Some(1), present: None)"))
    );
}

#[test]
fn physical_device_first_discrete() {
    assert_eq!(pick_physical_device(&None), Err(String::from("failed to enumerate physical devices")));
    assert_eq!(pick_physical_device(&Some(vec![])), Err(String::from("failed to find GPU(s) with Vulkan support")));
    assert_eq!(pick_physical_device(&Some(vec![1, 4])), Err(String::from("failed to find suitable physical device")));
    assert_eq!(pick_physical_device(&Some(vec![1, PHYSICAL_DEVICE_TYPE_DISCRETE_GPU, PHYSICAL_DEVICE_TYPE_DISCRETE_GPU])), Ok(1));
}

#[test]
fn api_version_defaults_to_1_2() {
    assert_eq!(instance_api_version(None), Err(String::from("failed to enumerate instance version")));
    assert_eq!(instance_api_version(Some(None)), Ok(4202496));
    assert_eq!(instance_api_version(Some(Some(4206592))), Ok(4206592));
}

#[test]
fn merge_extensions_appends_only_new() {
    let mut extensions = vec![10, 20];
    merge_extensions(&mut extensions, &vec![20, 30, 30, 40]);
    assert_eq!(extensions, vec![10, 20, 30, 40]);
}

#[test]
fn unique_queue_indices_keep_first_occurrence() {
    let same = QueueFamilyIndices { compute_family_index: 2, graphics_family_index: 0, present_family_index: 2 };
    assert_eq!(unique_queue_indices(&same), vec![2, 0]);
    let all = QueueFamilyIndices { compute_family_index: 1, graphics_family_index: 1, present_family_index: 1 };
    assert_eq!(unique_queue_indices(&all), vec![1]);
    assert_eq!(fence_flags(None), 0);
    assert_eq!(fence_flags(Some(1)), 1);
}

#[test]
fn transition_barrier_masks() {
    let upload = transition_image_barrier(IMAGE_LAYOUT_UNDEFINED, IMAGE_LAYOUT_TRANSFER_DST_OPTIMAL);
    assert_eq!((upload.src_access_mask, upload.dst_access_mask), (ACCESS_NONE, ACCESS_TRANSFER_WRITE));
    assert_eq!((upload.src_stage, upload.dst_stage), (PIPELINE_STAGE_TOP_OF_PIPE, PIPELINE_STAGE_TRANSFER));
    let read = transition_image_barrier(IMAGE_LAYOUT_TRANSFER_DST_OPTIMAL, IMAGE_LAYOUT_SHADER_READ_ONLY_OPTIMAL);
    assert_eq!((read.src_access_mask, read.dst_access_mask), (ACCESS_TRANSFER_WRITE, ACCESS_SHADER_READ));
    assert_eq!((read.src_stage, read.dst_stage), (PIPELINE_STAGE_TRANSFER, PIPELINE_STAGE_FRAGMENT_SHADER));
    let general = transition_image_barrier(IMAGE_LAYOUT_UNDEFINED, IMAGE_LAYOUT_GENERAL);
    assert_eq!((general.src_access_mask, general.dst_access_mask), (ACCESS_NONE, ACCESS_NONE));
    assert_eq!((general.src_stage, general.dst_stage), (PIPELINE_STAGE_ALL_COMMANDS, PIPELINE_STAGE_ALL_COMMANDS));
    assert_eq!(general.aspect_mask, IMAGE_ASPECT_COLOR);
    assert_eq!(general.old_layout, IMAGE_LAYOUT_UNDEFINED);
    assert_eq!(general.new_layout, IMAGE_LAYOUT_GENERAL);
}

#[test]
fn validation_layers_kept_by_position() {
    let available = Some(vec![init_cname("VK_LAYER_KHRONOS_validation"), init_cname("VK_LAYER_other")]);
    let requested = vec![init_cname("VK_LAYER_KHRONOS_validation"), init_cname("VK_LAYER_LUNARG_monitor")];
    assert_eq!(check_vulkan_validation_layer_support(&available, &requested), Ok(vec![0]));
    let none_kept = vec![init_cname("VK_LAYER_LUNARG_monitor")];
    assert_eq!(check_vulkan_validation_layer_support(&available, &none_kept), Err(String::from("no validation layer were supported")));
    assert_eq!(check_vulkan_validation_layer_support(&None, &requested), Err(String::from("failed to enumerate available validation layers")));
    assert_eq!(check_vulkan_validation_layer_support(&Some(vec![]), &requested), Err(String::from("no availble validation layers")));
}

#[test]
fn validation_layer_name_not_utf8() {
    let available = Some(vec![init_cname("VK_LAYER_KHRONOS_validation")]);
    let requested = vec![vec![-1i8, 0]];
    let expected = std::str::from_utf8(&[0xffu8]).unwrap_err().to_string();
    assert_eq!(check_vulkan_validation_layer_support(&available, &requested), Err(expected));
}

#[test]
fn shader_code_reads_words_in_either_byte_order() {
    let little = vec![0x03u8, 0x02, 0x23, 0x07, 0x01, 0x00, 0x00, 0x00];
    assert_eq!(shader_code("a.spv", Some(little)), Ok(vec![0x0723_0203, 1]));
    let big = vec![0x07u8, 0x23, 0x02, 0x03, 0x00, 0x00, 0x00, 0x02];
    assert_eq!(shader_code("b.spv", Some(big)), Ok(vec![0x0723_0203, 2]));
    assert_eq!(shader_code("c.spv", Some(vec![1, 2, 3])), Err(String::from("failed to read shader spv file (c.spv)")));
    assert_eq!(shader_code("d.spv", Some(vec![])), Err(String::from("failed to read shader spv file (d.spv)")));
    assert_eq!(shader_code("e.spv", Some(vec![0, 0, 0, 0])), Err(String::from("failed to read shader spv file (e.spv)")));
    assert_eq!(shader_code("shaders/x\"y.spv", None), Err(String::from("failed to find spv file at \"shaders/x\\\"y.spv\"")));
}
