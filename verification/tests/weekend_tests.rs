use vk_utils::vk::{
    SurfaceCapabilities, SurfaceFormat, Extent2D, QueueFamilyProperties, QUEUE_GRAPHICS, QUEUE_COMPUTE,
    FORMAT_B8G8R8A8_SRGB, FORMAT_B8G8R8A8_UNORM, COLOR_SPACE_SRGB_NONLINEAR, PRESENT_MODE_MAILBOX, PRESENT_MODE_FIFO,
    PRESENT_MODE_IMMEDIATE, SHARING_MODE_CONCURRENT, SHARING_MODE_EXCLUSIVE, SURFACE_TRANSFORM_IDENTITY,
    DESCRIPTOR_TYPE_UNIFORM_BUFFER, DESCRIPTOR_TYPE_COMBINED_IMAGE_SAMPLER, SHADER_STAGE_VERTEX, SHADER_STAGE_FRAGMENT,
    MESSAGE_SEVERITY_VERBOSE, MESSAGE_SEVERITY_INFO, MESSAGE_SEVERITY_WARNING, MESSAGE_SEVERITY_ERROR,
    MESSAGE_TYPE_GENERAL, MESSAGE_TYPE_VALIDATION, MESSAGE_TYPE_PERFORMANCE, RESULT_SUCCESS,
};
use vk_utils::weekend::queue::QueueFamilyIndices;
use vk_utils::weekend::vulkan::{Version, check, NVIDIA_VENDOR_ID};
use vk_utils::weekend::constants::{vk_validation_layer_names, vk_device_extensions, WINDOW_WIDTH, WINDOW_HEIGHT};
use vk_utils::weekend::tools::{vk_to_string, read_shader_code};
use vk_utils::weekend::debug::{names_to_strings, strings_contain, check_validation_layer_support, severity_label, message_type_label};
use vk_utils::weekend::common::{validation_layer_gate, Descriptor};
use vk_utils::weekend::framebuffer::framebuffer_attachments;
use vk_utils::weekend::window::{WindowConfig, is_minimized, WindowEvent, ControlFlow, control_flow_after};
use vk_utils::weekend::surface::choose_swap::{surface_format, present_mode, extent};
use vk_utils::weekend::swapchain::VkSwapchainDetail;
use vk_utils::weekend::device::{
    find_queue_family, get_max_usable_sample_count, check_device_extension_support, check_device_suitable,
    pick_physical_device, unique_queue_families, DeviceSurvey,
};

fn wk_cname(s: &str) -> Vec<i8> {
    let mut v: Vec<i8> = s.bytes().map(|b| b as i8).collect();
    v.push(0);
    v
}

fn wk_caps() -> SurfaceCapabilities {
    SurfaceCapabilities {
        min_image_count: 2,
        max_image_count: 0,
        current_extent: Extent2D { width: u32::MAX, height: u32::MAX },
        min_image_extent: Extent2D { width: 1, height: 1 },
        max_image_extent: Extent2D { width: 640, height: 2000 },
        supported_transforms: 0x2,
        current_transform: 0x2,
        supported_composite_alpha: 1,
        supported_usage_flags: 0x10,
    }
}

fn wk_survey(anisotropy: u32) -> DeviceSurvey {
    DeviceSurvey {
        queue_families: vec![QueueFamilyProperties { queue_flags: QUEUE_GRAPHICS, queue_count: 1 }],
        present_support: vec![Ok(true)],
        extension_names: Some(vec![wk_cname("VK_KHR_swapchain")]),
        swapchain_support: Ok(VkSwapchainDetail {
            capabilities: wk_caps(),
            formats: vec![SurfaceFormat { format: FORMAT_B8G8R8A8_SRGB, color_space: COLOR_SPACE_SRGB_NONLINEAR }],
            present_modes: vec![PRESENT_MODE_FIFO],
        }),
        sampler_anisotropy: anisotropy,
    }
}

#[test]
fn queue_family_indices_completeness() {
    let empty = QueueFamilyIndices::new(None, None);
    assert!(!empty.is_complete());
    assert_eq!(empty.device_queue_families(), Err(String::from("failed to get device queues for both queues.")));
    let no_graphics = QueueFamilyIndices::new(None, Some(1));
    assert_eq!(no_graphics.device_queue_families(), Err(String::from("failed to get device queue for graphics queue.")));
    let no_present = QueueFamilyIndices::new(Some(0), None);
    assert_eq!(no_present.device_queue_families(), Err(String::from("failed to get device queue for present queue.")));
    let split = QueueFamilyIndices::new(Some(0), Some(1));
    assert!(split.is_complete());
    assert_eq!(split.device_queue_families(), Ok((0, 1)));
    assert_eq!(split.sharing_mode(), (SHARING_MODE_CONCURRENT, vec![0, 1]));
    let same = QueueFamilyIndices::new(Some(2), Some(2));
    assert_eq!(same.sharing_mode(), (SHARING_MODE_EXCLUSIVE, vec![]));
}

#[test]
fn version_parts_and_text() {
    let v = Version::new((1 << 22) | (3 << 12) | 250);
    assert_eq!((v.major, v.minor, v.patch), (1, 3, 250));
    assert_eq!(v.to_string(), "1.3.250");
    let nv = Version::nv_new((2 << 22) | (8 << 12) | 32, NVIDIA_VENDOR_ID);
    assert_eq!((nv.major, nv.minor, nv.patch), (2, 2, 2));
    let other = Version::nv_new((2 << 22) | (8 << 12) | 32, 0x1002);
    assert_eq!((other.major, other.minor, other.patch), (2, 8, 32));
}

#[test]
fn result_check_describes_code() {
    assert_eq!(check(RESULT_SUCCESS, "create instance"), Ok(()));
    let described = ash::vk::Result::from_raw(-1).to_string();
    assert_eq!(check(-1, "create instance"), Err(format!("failed to create instance ({})", described)));
}

#[test]
fn weekend_constants() {
    let v = vk_validation_layer_names();
    assert!(v.is_enable);
    assert_eq!(v.required_validation_layers, ["VK_LAYER_KHRONOS_validation"]);
    assert_eq!(vk_device_extensions().names, ["VK_KHR_swapchain"]);
}

#[test]
fn weekend_names_and_shader_paths() {
    assert_eq!(vk_to_string(&wk_cname("abc")), Ok(String::from("abc")));
    assert_eq!(vk_to_string(&[-1i8, 0]), Err(String::from("Failed to convert raw_char_array to String!")));
    assert_eq!(read_shader_code("shader.frag", Some(vec![1])), Err(String::from("Invalid file! File must be a .spv file")));
    assert_eq!(read_shader_code("shaders/a.spv", Some(vec![1, 2])), Ok(vec![1, 2]));
    let shown = format!("{:?}", std::path::Path::new("shaders/a b.spv"));
    assert_eq!(read_shader_code("shaders/a b.spv", None), Err(format!("Failed to find spv file at {}", shown)));
}

#[test]
fn weekend_layer_support() {
    let names = vec![wk_cname("A"), wk_cname("VK_LAYER_KHRONOS_validation")];
    assert_eq!(names_to_strings(&names), Ok(vec![String::from("A"), String::from("VK_LAYER_KHRONOS_validation")]));
    assert!(strings_contain(&vec![String::from("x"), String::from("y")], "y"));
    assert!(!strings_contain(&vec![], "y"));
    assert_eq!(check_validation_layer_support(&Some(names)), Ok(true));
    assert_eq!(check_validation_layer_support(&Some(vec![wk_cname("A")])), Ok(false));
    assert_eq!(check_validation_layer_support(&Some(vec![])), Ok(false));
    assert_eq!(check_validation_layer_support(&None), Err(String::from("failed to enumerate Instance Layer Properties!")));
    assert_eq!(check_validation_layer_support(&Some(vec![vec![-3i8, 0]])), Err(String::from("Failed to convert raw_char_array to String!")));
    assert_eq!(validation_layer_gate(Ok(true)), Ok(()));
    assert_eq!(validation_layer_gate(Ok(false)), Err(String::from("Validation layers requested, but not available!")));
    assert_eq!(validation_layer_gate(Err(String::from("e"))), Err(String::from("e")));
}

#[test]
fn weekend_labels() {
    assert_eq!(severity_label(MESSAGE_SEVERITY_VERBOSE), "[Verbose]");
    assert_eq!(severity_label(MESSAGE_SEVERITY_INFO), "[Info]");
    assert_eq!(severity_label(MESSAGE_SEVERITY_WARNING), "[Warning]");
    assert_eq!(severity_label(MESSAGE_SEVERITY_ERROR), "[Error]");
    assert_eq!(severity_label(0), "[Unknown]");
    assert_eq!(message_type_label(MESSAGE_TYPE_GENERAL), "[General]");
    assert_eq!(message_type_label(MESSAGE_TYPE_VALIDATION), "[Validation]");
    assert_eq!(message_type_label(MESSAGE_TYPE_PERFORMANCE), "[Performance]");
    assert_eq!(message_type_label(0), "[Unkown]");
}

#[test]
fn weekend_descriptor_and_framebuffers() {
    let b = Descriptor::layout_bindings();
    assert_eq!(b.len(), 2);
    assert_eq!((b[0].binding, b[0].descriptor_type, b[0].stage_flags), (0, DESCRIPTOR_TYPE_UNIFORM_BUFFER, SHADER_STAGE_VERTEX));
    assert_eq!((b[1].binding, b[1].descriptor_type, b[1].stage_flags), (1, DESCRIPTOR_TYPE_COMBINED_IMAGE_SAMPLER, SHADER_STAGE_FRAGMENT));
    assert_eq!(framebuffer_attachments(Some(1), Some(2), 3), vec![1, 2, 3]);
    assert_eq!(framebuffer_attachments(None, Some(2), 3), vec![2, 3]);
    assert_eq!(framebuffer_attachments(None, None, 3), vec![3]);
}

#[test]
fn weekend_window() {
    let c = WindowConfig::new("t", 800, 600, false, true);
    assert_eq!((c.title.as_str(), c.width, c.height, c.fullscreen, c.resizable), ("t", 800, 600, false, true));
    assert!(is_minimized(Extent2D { width: 0, height: 0 }));
    assert!(!is_minimized(Extent2D { width: 0, height: 5 }));
    assert_eq!(control_flow_after(&WindowEvent::CloseRequested), ControlFlow::Exit);
    assert_eq!(control_flow_after(&WindowEvent::KeyboardInput { escape: true, pressed: true }), ControlFlow::Exit);
    assert_eq!(control_flow_after(&WindowEvent::KeyboardInput { escape: true, pressed: false }), ControlFlow::Poll);
    assert_eq!(control_flow_after(&WindowEvent::Other), ControlFlow::Poll);
}

#[test]
fn weekend_swap_choices() {
    let srgb = SurfaceFormat { format: FORMAT_B8G8R8A8_SRGB, color_space: COLOR_SPACE_SRGB_NONLINEAR };
    let unorm = SurfaceFormat { format: FORMAT_B8G8R8A8_UNORM, color_space: COLOR_SPACE_SRGB_NONLINEAR };
    assert_eq!(surface_format(&vec![unorm, srgb]), srgb);
    assert_eq!(surface_format(&vec![unorm]), unorm);
    assert_eq!(present_mode(&vec![PRESENT_MODE_FIFO, PRESENT_MODE_MAILBOX]), PRESENT_MODE_MAILBOX);
    assert_eq!(present_mode(&vec![PRESENT_MODE_IMMEDIATE]), PRESENT_MODE_FIFO);
    let caps = wk_caps();
    assert_eq!(extent(&caps), Extent2D { width: 640, height: WINDOW_HEIGHT });
    assert_eq!(WINDOW_WIDTH, 800);
    let fixed = SurfaceCapabilities { current_extent: Extent2D { width: 3, height: 4 }, ..caps };
    assert_eq!(extent(&fixed), Extent2D { width: 3, height: 4 });
}

#[test]
fn weekend_swapchain_detail() {
    let caps = wk_caps();
    assert_eq!(
        VkSwapchainDetail::query_swapchain_support(None, Some(vec![]), Some(vec![])).err(),
        Some(String::from("failed to query for surface capabilities."))
    );
    assert_eq!(
        VkSwapchainDetail::query_swapchain_support(Some(caps), None, Some(vec![])).err(),
        Some(String::from("failed to query for surface formats."))
    );
    assert_eq!(
        VkSwapchainDetail::query_swapchain_support(Some(caps), Some(vec![]), None).err(),
        Some(String::from("failed to query for surface present modes."))
    );
    let detail = VkSwapchainDetail::query_swapchain_support(Some(caps), Some(vec![]), Some(vec![PRESENT_MODE_FIFO])).unwrap();
    assert_eq!(detail.image_count(), 2);
    assert_eq!(detail.pre_transform(), 0x2);
    let capped = VkSwapchainDetail {
        capabilities: SurfaceCapabilities { min_image_count: 3, max_image_count: 3, supported_transforms: SURFACE_TRANSFORM_IDENTITY, ..caps },
        formats: vec![],
        present_modes: vec![],
    };
    assert_eq!(capped.image_count(), 3);
    assert_eq!(capped.pre_transform(), SURFACE_TRANSFORM_IDENTITY);
}

#[test]
fn weekend_queue_family_search() {
    let fams = vec![
        QueueFamilyProperties { queue_flags: QUEUE_GRAPHICS, queue_count: 1 },
        QueueFamilyProperties { queue_flags: QUEUE_COMPUTE, queue_count: 1 },
    ];
    let found = find_queue_family(&fams, &vec![Ok(false), Ok(true)]).unwrap();
    assert_eq!((found.graphics_family, found.present_family), (Some(0), Some(1)));
    let missing = find_queue_family(&fams, &vec![Ok(false), Ok(false)]).unwrap();
    assert_eq!((missing.graphics_family, missing.present_family), (Some(0), None));
    let described = ash::vk::Result::from_raw(-3).to_string();
    assert_eq!(find_queue_family(&fams, &vec![Err(-3), Ok(true)]), Err(described));
}

#[test]
fn weekend_sample_count() {
    assert_eq!(get_max_usable_sample_count(0x7f, 0x7f), 0x40);
    assert_eq!(get_max_usable_sample_count(0x0f, 0x7f), 0x8);
    assert_eq!(get_max_usable_sample_count(0x7f, 0x05), 0x4);
    assert_eq!(get_max_usable_sample_count(1, 1), 1);
}

#[test]
fn weekend_device_checks() {
    assert_eq!(check_device_extension_support(&None), Err(String::from("failed to get device extension properties.")));
    assert_eq!(check_device_extension_support(&Some(vec![wk_cname("VK_KHR_swapchain")])), Ok(true));
    assert_eq!(check_device_extension_support(&Some(vec![wk_cname("VK_KHR_other")])), Ok(false));
    assert_eq!(check_device_suitable(&wk_survey(1)), Ok(true));
    assert_eq!(check_device_suitable(&wk_survey(0)), Ok(false));
    assert_eq!(pick_physical_device(&None), Err(String::from("failed to find GPU(s) with Vulkan support!")));
    assert_eq!(pick_physical_device(&Some(vec![wk_survey(0), wk_survey(1)])), Ok(1));
    assert_eq!(pick_physical_device(&Some(vec![wk_survey(0)])), Err(String::from("failed to find a suitable GPU!")));
    let mut broken = wk_survey(1);
    broken.swapchain_support = Err(String::from("no support"));
    assert_eq!(pick_physical_device(&Some(vec![wk_survey(0), broken, wk_survey(1)])), Err(String::from("no support")));
    let families = unique_queue_families(&QueueFamilyIndices::new(Some(1), Some(1)));
    assert_eq!(families.len(), 1);
    assert!(families.contains(&1));
    let two = unique_queue_families(&QueueFamilyIndices::new(Some(1), Some(0)));
    assert_eq!(two.len(), 2);
    assert!(two.contains(&0) && two.contains(&1));
}
