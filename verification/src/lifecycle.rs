//! The protocol between the context and whoever performs its driver calls.
//!
//! The context hands out one `Action` at a time. The caller performs it and
//! reports the outcome as an `Event`, which yields the next action. Resources
//! are acquired in dependency order (loader and instance, then the logical
//! device, then its queue) and released in the reverse order.

use crate::device::{select_device, PhysicalDevice};
use crate::error::GraphicsError;
use crate::instance::{InstanceRequest, InstanceRequestView};
use crate::logical_device::{device_request, DeviceRequest, DeviceRequestView};
use vstd::prelude::*;

verus! {

/// How far the context has come. Every stage before `Ready` is named after
/// the driver call whose outcome is awaited.
#[derive(Clone, Copy, Debug, PartialEq, Eq, Structural)]
pub enum Stage {
    CreatingInstance,
    /// The instance exists; the physical devices are being enumerated.
    EnumeratingDevices,
    /// A physical device and its graphics queue family have been selected;
    /// the logical device is being created.
    CreatingDevice { queue_family_index: u32 },
    /// The logical device exists; its graphics queue is being fetched.
    RetrievingQueue,
    /// Construction succeeded: loader, instance and device are all held.
    Ready,
    /// The context was taken down.
    Released,
    /// Construction was given up for this reason.
    Failed(GraphicsError),
}

/// The outcome of the driver call that the last action asked for.
#[derive(Debug)]
pub enum Event {
    InstanceCreated,
    InstanceCreationFailed,
    /// The physical devices, in enumeration order, each with its queue
    /// families.
    DevicesEnumerated(Vec<PhysicalDevice>),
    DeviceEnumerationFailed,
    DeviceCreated,
    DeviceCreationFailed,
    QueueRetrieved,
}

/// What the caller is to do next.
#[derive(Debug, PartialEq, Eq)]
pub enum Action {
    /// Load the driver and create the instance.
    CreateInstance(InstanceRequest),
    EnumeratePhysicalDevices,
    /// Create the logical device on the physical device at this position of
    /// the enumeration.
    CreateDevice { physical_device: usize, request: DeviceRequest },
    GetDeviceQueue { queue_family_index: u32, queue_index: u32 },
    /// Construction is complete.
    Finish,
    /// Construction has failed. Nothing further is asked for: what had been
    /// acquired before the failure is not released.
    Abort(GraphicsError),
    /// The event was not the outcome awaited; nothing changed.
    Ignore,
}

/// An `Action` with its requests as mathematical values.
pub enum ActionView {
    CreateInstance(InstanceRequestView),
    EnumeratePhysicalDevices,
    CreateDevice { physical_device: usize, request: DeviceRequestView },
    GetDeviceQueue { queue_family_index: u32, queue_index: u32 },
    Finish,
    Abort(GraphicsError),
    Ignore,
}

impl View for Action {
    type V = ActionView;

    open spec fn view(&self) -> ActionView {
        match self {
            Action::CreateInstance(request) => ActionView::CreateInstance(request@),
            Action::EnumeratePhysicalDevices => ActionView::EnumeratePhysicalDevices,
            Action::CreateDevice { physical_device, request } => ActionView::CreateDevice {
                physical_device: *physical_device,
                request: request@,
            },
            Action::GetDeviceQueue { queue_family_index, queue_index } => ActionView::GetDeviceQueue {
                queue_family_index: *queue_family_index,
                queue_index: *queue_index,
            },
            Action::Finish => ActionView::Finish,
            Action::Abort(error) => ActionView::Abort(*error),
            Action::Ignore => ActionView::Ignore,
        }
    }
}

/// A resource the context owns once it is ready.
#[derive(Clone, Copy, Debug, PartialEq, Eq, Structural)]
pub enum Resource {
    Device,
    Instance,
    Loader,
}

/// Construction stops with `error`.
pub open spec fn abort(error: GraphicsError) -> (Stage, ActionView) {
    (Stage::Failed(error), ActionView::Abort(error))
}

/// The stage reached and the action handed out when `event` arrives at
/// `stage`. An event that is not the outcome awaited at `stage` is ignored.
pub open spec fn next(stage: Stage, event: Event) -> (Stage, ActionView) {
    match (stage, event) {
        (Stage::CreatingInstance, Event::InstanceCreated) => (
            Stage::EnumeratingDevices,
            ActionView::EnumeratePhysicalDevices,
        ),
        (Stage::CreatingInstance, Event::InstanceCreationFailed) => abort(
            GraphicsError::InstanceCreationError,
        ),
        (Stage::EnumeratingDevices, Event::DevicesEnumerated(devices)) => match select_device(
            devices@,
        ) {
            Some((physical_device, queue_family_index)) => (
                Stage::CreatingDevice { queue_family_index },
                ActionView::CreateDevice {
                    physical_device,
                    request: device_request(queue_family_index),
                },
            ),
            None => abort(GraphicsError::NoValidGPU),
        },
        (Stage::EnumeratingDevices, Event::DeviceEnumerationFailed) => abort(
            GraphicsError::DeviceEnumerationError,
        ),
        (Stage::CreatingDevice { queue_family_index }, Event::DeviceCreated) => (
            Stage::RetrievingQueue,
            ActionView::GetDeviceQueue { queue_family_index, queue_index: 0 },
        ),
        (Stage::CreatingDevice { .. }, Event::DeviceCreationFailed) => abort(
            GraphicsError::DeviceCreationError,
        ),
        (Stage::RetrievingQueue, Event::QueueRetrieved) => (Stage::Ready, ActionView::Finish),
        _ => (stage, ActionView::Ignore),
    }
}

/// The order in which a ready context gives up its resources: each one
/// before what it was created from.
pub open spec fn release_order() -> Seq<Resource> {
    seq![Resource::Device, Resource::Instance, Resource::Loader]
}

/// The logical device is created on the selected physical device with the
/// request made for the selected queue family, and the queue then retrieved
/// is queue 0 of that family.
pub proof fn lemma_device_serves_selection(
    devices: Vec<PhysicalDevice>,
    physical_device: usize,
    queue_family_index: u32,
)
    requires
        select_device(devices@) == Some((physical_device, queue_family_index)),
    ensures
        next(Stage::EnumeratingDevices, Event::DevicesEnumerated(devices)) == (
            Stage::CreatingDevice { queue_family_index },
            ActionView::CreateDevice {
                physical_device,
                request: device_request(queue_family_index),
            },
        ),
        next(Stage::CreatingDevice { queue_family_index }, Event::DeviceCreated) == (
            Stage::RetrievingQueue,
            ActionView::GetDeviceQueue { queue_family_index, queue_index: 0 },
        ),
{
}

/// Resources are acquired in dependency order: each driver call is asked for
/// only as the answer to the success of the call it depends on, and the
/// instance is never asked for twice.
pub proof fn lemma_acquisition_order(stage: Stage, event: Event)
    ensures
        !(next(stage, event).1 is CreateInstance),
        next(stage, event).1 is EnumeratePhysicalDevices ==> stage is CreatingInstance
            && event is InstanceCreated,
        next(stage, event).1 is CreateDevice ==> stage is EnumeratingDevices
            && event is DevicesEnumerated,
        next(stage, event).1 is GetDeviceQueue ==> stage is CreatingDevice
            && event is DeviceCreated,
        next(stage, event).1 is Finish ==> stage is RetrievingQueue && event is QueueRetrieved,
        next(stage, event).0 is Ready ==> stage is RetrievingQueue || stage is Ready,
{
}

/// A failure is never recovered from, and a context that is ready or
/// released is not moved by any event.
pub proof fn lemma_settled_stages_are_final(stage: Stage, event: Event)
    requires
        stage is Failed || stage is Ready || stage is Released,
    ensures
        next(stage, event) == (stage, ActionView::Ignore),
{
}

/// Every failure is reported as it is recorded: the action is `Abort` exactly
/// when the event moves the context to `Failed`, with the same error.
pub proof fn lemma_abort_iff_failed(stage: Stage, event: Event)
    requires
        !(stage is Failed),
    ensures
        next(stage, event).1 is Abort <==> next(stage, event).0 is Failed,
        next(stage, event).1 matches ActionView::Abort(error) ==> next(stage, event).0
            == Stage::Failed(error),
{
}

/// Each resource is released exactly once: the device strictly before the
/// instance, and the instance strictly before the loader.
pub proof fn lemma_release_order()
    ensures
        release_order().no_duplicates(),
        release_order().len() == 3,
        forall|i: int, j: int|
            0 <= i < 3 && 0 <= j < 3 && release_order()[i] == Resource::Device
                && release_order()[j] == Resource::Instance ==> i < j,
        forall|i: int, j: int|
            0 <= i < 3 && 0 <= j < 3 && release_order()[i] == Resource::Instance
                && release_order()[j] == Resource::Loader ==> i < j,
        release_order().contains(Resource::Device),
        release_order().contains(Resource::Instance),
        release_order().contains(Resource::Loader),
{
}

} // verus!
