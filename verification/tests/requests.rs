use ash::vk;
use hello_triangle::base::VulkanBase;
use hello_triangle::logical_device::{DeviceQueueRequest, QueuePriority};
use hello_triangle::queue::QueueFamilyIndices;

#[test]
fn instance_request_carries_fixed_metadata() {
    let request = VulkanBase::create_instance(Vec::new());
    assert_eq!(request.application_name, "Hello Triangle");
    assert_eq!(request.engine_name, "Hello Triangle Engine");
    assert_eq!(request.application_version, 4_194_304);
    assert_eq!(request.engine_version, 4_194_304);
    assert_eq!(request.api_version, 4_194_304);
    assert!(request.enabled_extension_names.is_empty());
}

#[test]
fn declared_version_is_vulkan_one_point_zero() {
    let request = VulkanBase::create_instance(Vec::new());
    assert_eq!(request.api_version, vk::API_VERSION_1_0);
    assert_eq!(vk::api_version_variant(request.api_version), 0);
    assert_eq!(vk::api_version_major(request.api_version), 1);
    assert_eq!(vk::api_version_minor(request.api_version), 0);
    assert_eq!(vk::api_version_patch(request.api_version), 0);
}

#[test]
fn instance_request_enables_the_surface_extensions_in_order() {
    let extensions = vec!["VK_KHR_surface".to_string(), "VK_KHR_xlib_surface".to_string()];
    let request = VulkanBase::create_instance(extensions.clone());
    assert_eq!(request.enabled_extension_names, extensions);
}

#[test]
fn device_request_asks_for_one_queue_at_highest_priority() {
    let indices = QueueFamilyIndices { graphics_family_index: Some(3) };
    let request = VulkanBase::create_logical_device(&indices);
    assert_eq!(
        request.queue_create_infos,
        vec![DeviceQueueRequest {
            queue_family_index: 3,
            queue_priorities: vec![QueuePriority::Highest],
        }]
    );
    assert!(request.enabled_extension_names.is_empty());
}

#[test]
fn device_request_names_the_selected_family() {
    for family in [0, 1, 7, u32::MAX] {
        let indices = QueueFamilyIndices { graphics_family_index: Some(family) };
        let request = VulkanBase::create_logical_device(&indices);
        assert_eq!(request.queue_create_infos.len(), 1);
        assert_eq!(request.queue_create_infos[0].queue_family_index, family);
        assert_eq!(request.queue_create_infos[0].queue_priorities.len(), 1);
    }
}
