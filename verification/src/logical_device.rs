//! What is asked of the driver when the logical device is created.

use vstd::prelude::*;

verus! {

/// A queue's scheduling priority, at either end of the range Vulkan allows:
/// `Lowest` stands for 0.0 and `Highest` for 1.0.
#[derive(Clone, Copy, Debug, PartialEq, Eq, Structural)]
pub enum QueuePriority {
    Lowest,
    Highest,
}

/// Queues to create from one family: one queue per priority listed.
#[derive(Debug, PartialEq, Eq)]
pub struct DeviceQueueRequest {
    pub queue_family_index: u32,
    pub queue_priorities: Vec<QueuePriority>,
}

/// A `DeviceQueueRequest` as a mathematical value.
pub struct DeviceQueueRequestView {
    pub queue_family_index: u32,
    pub queue_priorities: Seq<QueuePriority>,
}

impl View for DeviceQueueRequest {
    type V = DeviceQueueRequestView;

    open spec fn view(&self) -> DeviceQueueRequestView {
        DeviceQueueRequestView {
            queue_family_index: self.queue_family_index,
            queue_priorities: self.queue_priorities@,
        }
    }
}

/// Everything a logical device is created with. The request has no place for
/// device features: none are ever enabled.
#[derive(Debug, PartialEq, Eq)]
pub struct DeviceRequest {
    pub queue_create_infos: Vec<DeviceQueueRequest>,
    pub enabled_extension_names: Vec<String>,
}

/// A `DeviceRequest` as a mathematical value.
pub struct DeviceRequestView {
    pub queue_create_infos: Seq<DeviceQueueRequestView>,
    pub enabled_extension_names: Seq<Seq<char>>,
}

impl View for DeviceRequest {
    type V = DeviceRequestView;

    open spec fn view(&self) -> DeviceRequestView {
        DeviceRequestView {
            queue_create_infos: self.queue_create_infos@.map_values(
                |info: DeviceQueueRequest| info@,
            ),
            enabled_extension_names: self.enabled_extension_names.deep_view(),
        }
    }
}

/// The request made once `queue_family_index` has been selected: a single
/// queue from that family at the highest priority, no queue from any other
/// family, and no device extension.
pub open spec fn device_request(queue_family_index: u32) -> DeviceRequestView {
    DeviceRequestView {
        queue_create_infos: seq![
            DeviceQueueRequestView {
                queue_family_index,
                queue_priorities: seq![QueuePriority::Highest],
            },
        ],
        enabled_extension_names: Seq::empty(),
    }
}

/// A device request asks for exactly one queue, from the family it was made
/// for and at the highest priority, and for no extension.
pub proof fn lemma_device_request_single_queue(queue_family_index: u32)
    ensures
        device_request(queue_family_index).queue_create_infos.len() == 1,
        device_request(queue_family_index).queue_create_infos[0].queue_family_index
            == queue_family_index,
        device_request(queue_family_index).queue_create_infos[0].queue_priorities.len() == 1,
        device_request(queue_family_index).queue_create_infos[0].queue_priorities[0]
            == QueuePriority::Highest,
        device_request(queue_family_index).enabled_extension_names.len() == 0,
{
}

} // verus!
