//! The context itself: the steps that build it and the order that takes it
//! down.

use crate::ash_specs::{graphics_flag, queue_flags_contains, GRAPHICS_BIT};
use crate::device::{is_suitable, select_device, suitable, PhysicalDevice};
use crate::error::GraphicsError;
use crate::instance::{instance_request, InstanceRequest};
use crate::lifecycle::{next, release_order, Action, ActionView, Event, Resource, Stage};
use crate::logical_device::{device_request, DeviceQueueRequest, DeviceRequest, QueuePriority};
use crate::queue::{graphics_capable, graphics_selection, has_graphics_family, QueueFamilyIndices};
use crate::search::{is_first_match, lemma_first_match_characterized, lemma_first_match_unique};
use vstd::prelude::*;

verus! {

/// The context: an instance, a logical device on the first suitable physical
/// device, and that device's graphics queue. It tracks how far construction
/// has come and decides every next driver call.
#[derive(Debug)]
pub struct VulkanBase {
    stage: Stage,
}

impl View for VulkanBase {
    type V = Stage;

    closed spec fn view(&self) -> Stage {
        self.stage
    }
}

impl VulkanBase {
    /// Starts construction for a platform whose windowing system needs
    /// `surface_extensions`, and asks for the instance to be created.
    pub fn new(surface_extensions: Vec<String>) -> (started: (VulkanBase, Action))
        ensures
            started.0@ == Stage::CreatingInstance,
            started.1@ == ActionView::CreateInstance(
                instance_request(surface_extensions.deep_view()),
            ),
    {
        let request = VulkanBase::create_instance(surface_extensions);
        (VulkanBase { stage: Stage::CreatingInstance }, Action::CreateInstance(request))
    }

    /// Takes the outcome of the last action and decides the next one.
    pub fn step(&mut self, event: Event) -> (action: Action)
        ensures
            (final(self)@, action@) == next(old(self)@, event),
    {
        match (self.stage, event) {
            (Stage::CreatingInstance, Event::InstanceCreated) => {
                self.stage = Stage::EnumeratingDevices;
                Action::EnumeratePhysicalDevices
            },
            (Stage::CreatingInstance, Event::InstanceCreationFailed) => {
                self.fail(GraphicsError::InstanceCreationError)
            },
            (Stage::EnumeratingDevices, Event::DevicesEnumerated(devices)) => {
                match VulkanBase::pick_physical_device(&devices) {
                    Ok((physical_device, queue_family_indices)) => {
                        let request = VulkanBase::create_logical_device(&queue_family_indices);
                        self.stage = Stage::CreatingDevice {
                            queue_family_index: queue_family_indices.graphics_family_index.unwrap(),
                        };
                        Action::CreateDevice { physical_device, request }
                    },
                    Err(error) => self.fail(error),
                }
            },
            (Stage::EnumeratingDevices, Event::DeviceEnumerationFailed) => {
                self.fail(GraphicsError::DeviceEnumerationError)
            },
            (Stage::CreatingDevice { queue_family_index }, Event::DeviceCreated) => {
                self.stage = Stage::RetrievingQueue;
                Action::GetDeviceQueue { queue_family_index, queue_index: 0 }
            },
            (Stage::CreatingDevice { .. }, Event::DeviceCreationFailed) => {
                self.fail(GraphicsError::DeviceCreationError)
            },
            (Stage::RetrievingQueue, Event::QueueRetrieved) => {
                self.stage = Stage::Ready;
                Action::Finish
            },
            _ => Action::Ignore,
        }
    }

    fn fail(&mut self, error: GraphicsError) -> (action: Action)
        ensures
            final(self)@ == Stage::Failed(error),
            action@ == ActionView::Abort(error),
    {
        self.stage = Stage::Failed(error);
        Action::Abort(error)
    }

    /// The stage the context is at.
    pub fn stage(&self) -> (stage: Stage)
        ensures
            stage == self@,
    {
        self.stage
    }

    /// Builds the instance creation request for a platform whose windowing
    /// system needs `surface_extensions`.
    pub fn create_instance(surface_extensions: Vec<String>) -> (request: InstanceRequest)
        ensures
            request@ == instance_request(surface_extensions.deep_view()),
    {
        InstanceRequest {
            application_name: "Hello Triangle".to_owned(),
            application_version: ash::vk::make_api_version(0, 1, 0, 0),
            engine_name: "Hello Triangle Engine".to_owned(),
            engine_version: ash::vk::make_api_version(0, 1, 0, 0),
            api_version: ash::vk::make_api_version(0, 1, 0, 0),
            enabled_extension_names: surface_extensions,
        }
    }

    /// Picks the first suitable device, in enumeration order, and the queue
    /// family to use on it. Fails when no device is suitable.
    pub fn pick_physical_device(devices: &Vec<PhysicalDevice>) -> (picked: Result<
        (usize, QueueFamilyIndices),
        GraphicsError,
    >)
        ensures
            picked == match select_device(devices@) {
                Some((device, family)) => Ok(
                    (device, QueueFamilyIndices { graphics_family_index: Some(family) }),
                ),
                None => Err(GraphicsError::NoValidGPU),
            },
            match picked {
                Ok((device, indices)) => {
                    &&& is_first_match(devices@, suitable(), device as int)
                    &&& indices.graphics_family_index matches Some(family)
                    &&& is_first_match(devices@[device as int]@, graphics_capable(), family as int)
                },
                Err(error) => {
                    &&& error == GraphicsError::NoValidGPU
                    &&& forall|d: int| 0 <= d < devices@.len() ==> !is_suitable(#[trigger] devices@[d])
                },
            },
    {
        let mut index: usize = 0;
        while index < devices.len()
            invariant
                index <= devices@.len(),
                forall|j: int| 0 <= j < index ==> !is_suitable(#[trigger] devices@[j]),
            decreases devices@.len() - index,
        {
            if let Some(value) = VulkanBase::is_device_suitable(&devices[index]) {
                proof {
                    let family = value.graphics_family_index.unwrap() as int;
                    lemma_first_match_unique(devices@[index as int]@, graphics_capable(), family);
                    lemma_first_match_unique(devices@, suitable(), index as int);
                }
                return Ok((index, value));
            }
            index += 1;
        }
        proof {
            lemma_first_match_characterized(devices@, suitable());
        }
        Err(GraphicsError::NoValidGPU)
    }

    /// Decides whether `device` can be used, and with which queue family.
    pub fn is_device_suitable(device: &PhysicalDevice) -> (found: Option<QueueFamilyIndices>)
        ensures
            found == if is_suitable(*device) {
                Some(graphics_selection(device@))
            } else {
                None
            },
            match found {
                Some(indices) => {
                    &&& indices.graphics_family_index matches Some(index)
                    &&& is_first_match(device@, graphics_capable(), index as int)
                },
                None => !is_suitable(*device),
            },
    {
        let queue_family_indices = VulkanBase::find_queue_families(device);
        if queue_family_indices.is_complete() {
            return Some(queue_family_indices);
        }
        None
    }

    /// Finds the first queue family of `device` that supports graphics.
    pub fn find_queue_families(device: &PhysicalDevice) -> (indices: QueueFamilyIndices)
        ensures
            indices == graphics_selection(device@),
            match indices.graphics_family_index {
                Some(index) => is_first_match(device@, graphics_capable(), index as int),
                None => !has_graphics_family(device@),
            },
    {
        let families = device.queue_families();
        let graphics = graphics_flag();
        let mut index: usize = 0;
        while index < families.len()
            invariant
                index <= families@.len() <= u32::MAX,
                families@ == device@,
                graphics == GRAPHICS_BIT,
                forall|j: int| 0 <= j < index ==> !(#[trigger] families@[j]).supports_graphics(),
            decreases families@.len() - index,
        {
            if queue_flags_contains(families[index].queue_flags, graphics) {
                proof {
                    lemma_first_match_unique(families@, graphics_capable(), index as int);
                }
                return QueueFamilyIndices { graphics_family_index: Some(index as u32) };
            }
            index += 1;
        }
        proof {
            lemma_first_match_characterized(families@, graphics_capable());
        }
        QueueFamilyIndices { graphics_family_index: None }
    }

    /// Builds the logical device creation request for the selected queue
    /// family.
    pub fn create_logical_device(indices: &QueueFamilyIndices) -> (request: DeviceRequest)
        requires
            indices.graphics_family_index is Some,
        ensures
            request@ == device_request(indices.graphics_family_index.unwrap()),
    {
        let family = indices.graphics_family_index.unwrap();
        let queue_priorities = vec![QueuePriority::Highest];
        let queue_info = vec![DeviceQueueRequest { queue_family_index: family, queue_priorities }];
        let request = DeviceRequest {
            queue_create_infos: queue_info,
            enabled_extension_names: Vec::new(),
        };
        assert(request@.queue_create_infos[0].queue_priorities =~= seq![QueuePriority::Highest]);
        assert(request@.queue_create_infos =~= device_request(family).queue_create_infos);
        assert(request@.enabled_extension_names =~= Seq::empty());
        request
    }

    /// Takes a ready context down: lists its resources in the order in which
    /// they are to be released.
    pub fn teardown(&mut self) -> (order: Vec<Resource>)
        requires
            old(self)@ == Stage::Ready,
        ensures
            final(self)@ == Stage::Released,
            order@ == release_order(),
    {
        self.stage = Stage::Released;
        vec![Resource::Device, Resource::Instance, Resource::Loader]
    }
}

} // verus!
