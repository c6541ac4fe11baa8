//! Physical devices as the selection sees them, and the choice among them.

use crate::queue::{
    first_graphics_family, graphics_capable, has_graphics_family, QueueFamilyProperties,
};
use crate::search::{
    first_match, lemma_first_match_characterized, lemma_first_match_ignores_later,
    lemma_first_match_unique,
};
use vstd::prelude::*;

verus! {

/// A physical device, reduced to its queue families in enumeration order.
///
/// Vulkan counts queue families in a `u32`, so a device never holds more than
/// `u32::MAX` of them; every family index therefore fits in a `u32`.
#[derive(Debug)]
pub struct PhysicalDevice {
    queue_families: Vec<QueueFamilyProperties>,
}

impl View for PhysicalDevice {
    type V = Seq<QueueFamilyProperties>;

    closed spec fn view(&self) -> Seq<QueueFamilyProperties> {
        self.queue_families@
    }
}

impl PhysicalDevice {
    #[verifier::type_invariant]
    spec fn family_count_fits(self) -> bool {
        self.queue_families@.len() <= u32::MAX
    }

    /// Wraps the families a device reported, or `None` when there are more
    /// than a `u32` can count.
    pub fn new(queue_families: Vec<QueueFamilyProperties>) -> (device: Option<PhysicalDevice>)
        ensures
            device is Some <==> queue_families@.len() <= u32::MAX,
            device matches Some(d) ==> d@ == queue_families@,
    {
        if queue_families.len() <= u32::MAX as usize {
            Some(PhysicalDevice { queue_families })
        } else {
            None
        }
    }

    /// The device's queue families, in enumeration order.
    pub fn queue_families(&self) -> (families: &Vec<QueueFamilyProperties>)
        ensures
            families@ == self@,
            families@.len() <= u32::MAX,
    {
        proof {
            use_type_invariant(self);
        }
        &self.queue_families
    }
}

/// A device is suitable when one of its queue families supports graphics.
pub open spec fn is_suitable(device: PhysicalDevice) -> bool {
    has_graphics_family(device@)
}

/// "Is suitable", as a predicate to search by.
pub open spec fn suitable() -> spec_fn(PhysicalDevice) -> bool {
    |device: PhysicalDevice| is_suitable(device)
}

/// The device and queue family that selection settles on: the first suitable
/// device in enumeration order, paired with its first graphics family.
pub open spec fn select_device(devices: Seq<PhysicalDevice>) -> Option<(usize, u32)> {
    match first_match(devices, suitable()) {
        Some(index) => Some(
            (index as usize, first_graphics_family(devices[index]@).unwrap() as u32),
        ),
        None => None,
    }
}

/// A device is suitable exactly when it has a first graphics family.
pub proof fn lemma_suitable_iff_first_graphics_family(device: PhysicalDevice)
    ensures
        is_suitable(device) <==> first_graphics_family(device@) is Some,
{
    lemma_first_match_characterized(device@, graphics_capable());
}

/// Selection finds nothing exactly when no queue family of any device
/// supports graphics.
pub proof fn lemma_no_selection_iff_no_graphics_family(devices: Seq<PhysicalDevice>)
    ensures
        select_device(devices) is None <==> forall|d: int, f: int|
            0 <= d < devices.len() && 0 <= f < devices[d]@.len() ==> !(
            #[trigger] devices[d]@[f]).supports_graphics(),
{
    lemma_first_match_characterized(devices, suitable());
    if select_device(devices) is Some {
        let d = first_match(devices, suitable()).unwrap();
        let f = choose|f: int|
            0 <= f < devices[d]@.len() && (#[trigger] devices[d]@[f]).supports_graphics();
        assert(devices[d]@[f].supports_graphics());
    }
}

/// First match, lowest index: when no device before `device` has a graphics
/// family and `family` is the first graphics family of `device`, selection
/// settles on that pair, whatever the devices after it offer.
pub proof fn lemma_selection_is_first_match(devices: Seq<PhysicalDevice>, device: int, family: int)
    requires
        0 <= device < devices.len(),
        forall|d: int, f: int|
            0 <= d < device && 0 <= f < devices[d]@.len() ==> !(
            #[trigger] devices[d]@[f]).supports_graphics(),
        0 <= family < devices[device]@.len(),
        devices[device]@[family].supports_graphics(),
        forall|f: int| 0 <= f < family ==> !(#[trigger] devices[device]@[f]).supports_graphics(),
    ensures
        select_device(devices) == Some((device as usize, family as u32)),
{
    lemma_first_match_unique(devices[device]@, graphics_capable(), family);
    lemma_first_match_unique(devices, suitable(), device);
}

/// Devices enumerated after the selected one are never looked at: appending
/// devices to a list that has a suitable one leaves the selection unchanged.
pub proof fn lemma_selection_ignores_later_devices(
    devices: Seq<PhysicalDevice>,
    later: Seq<PhysicalDevice>,
)
    requires
        select_device(devices) is Some,
    ensures
        select_device(devices + later) == select_device(devices),
{
    lemma_first_match_ignores_later(devices, later, suitable());
}

} // verus!
