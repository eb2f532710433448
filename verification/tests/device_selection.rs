use vulkan_renderer::device::{
    is_device_suitable, select_physical_device, select_queue_family, DeviceSupport, Queue,
    QueueFamilySupport,
};
use vulkan_renderer::error::RendererError;

const API_1_4: u32 = (1 << 22) | (4 << 12);

fn required() -> Vec<String> {
    vec!["VK_KHR_swapchain".to_string(), "VK_KHR_swapchain_maintenance1".to_string()]
}

fn good_device() -> DeviceSupport {
    DeviceSupport {
        api_version: API_1_4 + 3,
        queue_family_flags: vec![0b1100, 0b0111],
        extension_names: vec![
            "VK_KHR_swapchain_maintenance1".to_string(),
            "VK_EXT_other".to_string(),
            "VK_KHR_swapchain".to_string(),
        ],
        dynamic_rendering: 1,
        extended_dynamic_state: 1,
    }
}

#[test]
fn queue_keeps_what_it_was_given() {
    let q = Queue::new(0xdead_beef, 3, 1);
    assert_eq!(q.handle, 0xdead_beef);
    assert_eq!(q.family_index, 3);
    assert_eq!(q.index, 1);
}

#[test]
fn a_complete_device_is_suitable() {
    assert!(is_device_suitable(&good_device(), &required()));
}

#[test]
fn vulkan_1_4_is_the_lowest_version_accepted() {
    let mut d = good_device();
    d.api_version = API_1_4;
    assert!(is_device_suitable(&d, &required()));
    d.api_version = API_1_4 - 1;
    assert!(!is_device_suitable(&d, &required()));
    d.api_version = (1 << 22) | (3 << 12) | 290;
    assert!(!is_device_suitable(&d, &required()));
}

#[test]
fn a_device_without_graphics_queue_is_not_suitable() {
    let mut d = good_device();
    d.queue_family_flags = vec![0b0010, 0b0100];
    assert!(!is_device_suitable(&d, &required()));
    d.queue_family_flags = vec![];
    assert!(!is_device_suitable(&d, &required()));
}

#[test]
fn a_missing_extension_makes_a_device_unsuitable() {
    let mut d = good_device();
    d.extension_names = vec!["VK_KHR_swapchain".to_string()];
    assert!(!is_device_suitable(&d, &required()));
}

#[test]
fn both_features_are_needed() {
    let mut d = good_device();
    d.dynamic_rendering = 0;
    assert!(!is_device_suitable(&d, &required()));
    let mut d = good_device();
    d.extended_dynamic_state = 0;
    assert!(!is_device_suitable(&d, &required()));
}

#[test]
fn first_suitable_device_is_selected() {
    let mut weak = good_device();
    weak.api_version = API_1_4 - 1;
    let candidates = vec![Some(weak), None, Some(good_device()), Some(good_device())];
    assert_eq!(select_physical_device(&candidates, &required()).unwrap(), 2);
}

#[test]
fn no_suitable_device_is_gpu_not_found() {
    let candidates = vec![None, None];
    assert!(matches!(select_physical_device(&candidates, &required()), Err(RendererError::GPUNotFound)));
    assert!(matches!(select_physical_device(&vec![], &required()), Err(RendererError::GPUNotFound)));
}

#[test]
fn queue_family_must_draw_and_present() {
    let families = vec![
        QueueFamilySupport { flags: 0b0001, presents: false },
        QueueFamilySupport { flags: 0b0110, presents: true },
        QueueFamilySupport { flags: 0b0011, presents: true },
        QueueFamilySupport { flags: 0b0001, presents: true },
    ];
    assert_eq!(select_queue_family(&families).unwrap(), 2);
}

#[test]
fn no_usable_family_is_queue_not_found() {
    let families = vec![
        QueueFamilySupport { flags: 0b0001, presents: false },
        QueueFamilySupport { flags: 0b0100, presents: true },
    ];
    assert!(matches!(select_queue_family(&families), Err(RendererError::QueueNotFound)));
}
