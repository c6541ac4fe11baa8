use ash::vk;
use hello_triangle::base::VulkanBase;
use hello_triangle::device::PhysicalDevice;
use hello_triangle::error::GraphicsError;
use hello_triangle::instance::InstanceRequest;
use hello_triangle::lifecycle::{Action, Event, Resource, Stage};
use hello_triangle::logical_device::{DeviceQueueRequest, DeviceRequest, QueuePriority};
use hello_triangle::queue::QueueFamilyProperties;

fn device(flags: Vec<vk::QueueFlags>) -> PhysicalDevice {
    let families: Vec<QueueFamilyProperties> =
        flags.into_iter().map(|f| QueueFamilyProperties { queue_flags: f.as_raw() }).collect();
    PhysicalDevice::new(families).unwrap()
}

fn machine_with_graphics_on_second_device() -> Vec<PhysicalDevice> {
    vec![
        device(vec![vk::QueueFlags::TRANSFER]),
        device(vec![vk::QueueFlags::COMPUTE, vk::QueueFlags::TRANSFER, vk::QueueFlags::GRAPHICS]),
        device(vec![vk::QueueFlags::GRAPHICS]),
    ]
}

fn single_queue_request(family: u32) -> DeviceRequest {
    DeviceRequest {
        queue_create_infos: vec![DeviceQueueRequest {
            queue_family_index: family,
            queue_priorities: vec![QueuePriority::Highest],
        }],
        enabled_extension_names: Vec::new(),
    }
}

/// A driver that performs nothing and records what it was asked to do.
struct RecordingDriver {
    devices: Option<Vec<PhysicalDevice>>,
    calls: Vec<String>,
}

impl RecordingDriver {
    fn new(devices: Vec<PhysicalDevice>) -> RecordingDriver {
        RecordingDriver { devices: Some(devices), calls: Vec::new() }
    }

    /// Runs construction to its end and returns the action that ended it.
    fn construct(&mut self, base: &mut VulkanBase, first: Action) -> Action {
        let mut action = first;
        loop {
            let event = match action {
                Action::CreateInstance(_) => {
                    self.calls.push("create_instance".to_string());
                    Event::InstanceCreated
                }
                Action::EnumeratePhysicalDevices => {
                    self.calls.push("enumerate_physical_devices".to_string());
                    Event::DevicesEnumerated(self.devices.take().unwrap())
                }
                Action::CreateDevice { physical_device, ref request } => {
                    let family = request.queue_create_infos[0].queue_family_index;
                    self.calls.push(format!("create_device {} {}", physical_device, family));
                    Event::DeviceCreated
                }
                Action::GetDeviceQueue { queue_family_index, queue_index } => {
                    self.calls.push(format!("get_device_queue {} {}", queue_family_index, queue_index));
                    Event::QueueRetrieved
                }
                Action::Finish | Action::Abort(_) | Action::Ignore => return action,
            };
            action = base.step(event);
        }
    }

    fn release(&mut self, order: Vec<Resource>) {
        for resource in order {
            let call = match resource {
                Resource::Device => "destroy_device",
                Resource::Instance => "destroy_instance",
                Resource::Loader => "unload",
            };
            self.calls.push(call.to_string());
        }
    }
}

#[test]
fn construction_starts_by_asking_for_the_instance() {
    let extensions = vec!["VK_KHR_surface".to_string(), "VK_KHR_wayland_surface".to_string()];
    let (base, action) = VulkanBase::new(extensions.clone());
    assert_eq!(base.stage(), Stage::CreatingInstance);
    assert_eq!(
        action,
        Action::CreateInstance(InstanceRequest {
            application_name: "Hello Triangle".to_string(),
            application_version: 4_194_304,
            engine_name: "Hello Triangle Engine".to_string(),
            engine_version: 4_194_304,
            api_version: 4_194_304,
            enabled_extension_names: extensions,
        })
    );
}

#[test]
fn construction_acquires_in_dependency_order() {
    let mut driver = RecordingDriver::new(machine_with_graphics_on_second_device());
    let (mut base, first) = VulkanBase::new(Vec::new());
    let last = driver.construct(&mut base, first);
    assert_eq!(last, Action::Finish);
    assert_eq!(base.stage(), Stage::Ready);
    assert_eq!(
        driver.calls,
        vec![
            "create_instance",
            "enumerate_physical_devices",
            "create_device 1 2",
            "get_device_queue 2 0",
        ]
    );
}

#[test]
fn each_step_moves_one_stage() {
    let (mut base, _) = VulkanBase::new(Vec::new());
    assert_eq!(base.step(Event::InstanceCreated), Action::EnumeratePhysicalDevices);
    assert_eq!(base.stage(), Stage::EnumeratingDevices);
    assert_eq!(
        base.step(Event::DevicesEnumerated(machine_with_graphics_on_second_device())),
        Action::CreateDevice { physical_device: 1, request: single_queue_request(2) }
    );
    assert_eq!(base.stage(), Stage::CreatingDevice { queue_family_index: 2 });
    assert_eq!(
        base.step(Event::DeviceCreated),
        Action::GetDeviceQueue { queue_family_index: 2, queue_index: 0 }
    );
    assert_eq!(base.stage(), Stage::RetrievingQueue);
    assert_eq!(base.step(Event::QueueRetrieved), Action::Finish);
    assert_eq!(base.stage(), Stage::Ready);
}

#[test]
fn teardown_releases_device_before_instance() {
    let mut driver = RecordingDriver::new(machine_with_graphics_on_second_device());
    let (mut base, first) = VulkanBase::new(Vec::new());
    driver.construct(&mut base, first);
    driver.calls.clear();
    let order = base.teardown();
    assert_eq!(order, vec![Resource::Device, Resource::Instance, Resource::Loader]);
    driver.release(order);
    assert_eq!(driver.calls, vec!["destroy_device", "destroy_instance", "unload"]);
    let device_at = driver.calls.iter().position(|c| c == "destroy_device").unwrap();
    let instance_at = driver.calls.iter().position(|c| c == "destroy_instance").unwrap();
    assert!(device_at < instance_at);
    assert_eq!(base.stage(), Stage::Released);
}

#[test]
fn released_context_ignores_every_event() {
    let mut driver = RecordingDriver::new(machine_with_graphics_on_second_device());
    let (mut base, first) = VulkanBase::new(Vec::new());
    driver.construct(&mut base, first);
    base.teardown();
    assert_eq!(base.step(Event::InstanceCreated), Action::Ignore);
    assert_eq!(base.step(Event::DeviceCreated), Action::Ignore);
    assert_eq!(base.step(Event::QueueRetrieved), Action::Ignore);
    assert_eq!(base.stage(), Stage::Released);
}

#[test]
fn instance_creation_failure_aborts() {
    let (mut base, _) = VulkanBase::new(Vec::new());
    assert_eq!(
        base.step(Event::InstanceCreationFailed),
        Action::Abort(GraphicsError::InstanceCreationError)
    );
    assert_eq!(base.stage(), Stage::Failed(GraphicsError::InstanceCreationError));
}

#[test]
fn device_enumeration_failure_aborts() {
    let (mut base, _) = VulkanBase::new(Vec::new());
    base.step(Event::InstanceCreated);
    assert_eq!(
        base.step(Event::DeviceEnumerationFailed),
        Action::Abort(GraphicsError::DeviceEnumerationError)
    );
    assert_eq!(base.stage(), Stage::Failed(GraphicsError::DeviceEnumerationError));
}

#[test]
fn no_suitable_device_aborts_with_no_valid_gpu() {
    let mut driver = RecordingDriver::new(vec![
        device(vec![vk::QueueFlags::COMPUTE]),
        device(vec![vk::QueueFlags::TRANSFER]),
    ]);
    let (mut base, first) = VulkanBase::new(Vec::new());
    let last = driver.construct(&mut base, first);
    assert_eq!(last, Action::Abort(GraphicsError::NoValidGPU));
    assert_eq!(base.stage(), Stage::Failed(GraphicsError::NoValidGPU));
    assert_eq!(driver.calls, vec!["create_instance", "enumerate_physical_devices"]);
}

#[test]
fn device_creation_failure_aborts() {
    let (mut base, _) = VulkanBase::new(Vec::new());
    base.step(Event::InstanceCreated);
    base.step(Event::DevicesEnumerated(machine_with_graphics_on_second_device()));
    assert_eq!(
        base.step(Event::DeviceCreationFailed),
        Action::Abort(GraphicsError::DeviceCreationError)
    );
    assert_eq!(base.stage(), Stage::Failed(GraphicsError::DeviceCreationError));
}

#[test]
fn failure_is_final() {
    let (mut base, _) = VulkanBase::new(Vec::new());
    base.step(Event::InstanceCreationFailed);
    assert_eq!(base.step(Event::InstanceCreated), Action::Ignore);
    assert_eq!(
        base.step(Event::DevicesEnumerated(machine_with_graphics_on_second_device())),
        Action::Ignore
    );
    assert_eq!(base.step(Event::DeviceCreated), Action::Ignore);
    assert_eq!(base.step(Event::QueueRetrieved), Action::Ignore);
    assert_eq!(base.stage(), Stage::Failed(GraphicsError::InstanceCreationError));
}

#[test]
fn events_out_of_turn_are_ignored() {
    let (mut base, _) = VulkanBase::new(Vec::new());
    assert_eq!(base.step(Event::DeviceCreated), Action::Ignore);
    assert_eq!(base.step(Event::QueueRetrieved), Action::Ignore);
    assert_eq!(base.step(Event::DeviceEnumerationFailed), Action::Ignore);
    assert_eq!(
        base.step(Event::DevicesEnumerated(machine_with_graphics_on_second_device())),
        Action::Ignore
    );
    assert_eq!(base.stage(), Stage::CreatingInstance);
    base.step(Event::InstanceCreated);
    assert_eq!(base.step(Event::InstanceCreated), Action::Ignore);
    assert_eq!(base.step(Event::InstanceCreationFailed), Action::Ignore);
    assert_eq!(base.step(Event::DeviceCreationFailed), Action::Ignore);
    assert_eq!(base.stage(), Stage::EnumeratingDevices);
    base.step(Event::DevicesEnumerated(machine_with_graphics_on_second_device()));
    assert_eq!(base.step(Event::QueueRetrieved), Action::Ignore);
    assert_eq!(base.stage(), Stage::CreatingDevice { queue_family_index: 2 });
    base.step(Event::DeviceCreated);
    assert_eq!(base.step(Event::DeviceCreated), Action::Ignore);
    assert_eq!(base.step(Event::DeviceCreationFailed), Action::Ignore);
    assert_eq!(base.stage(), Stage::RetrievingQueue);
}
