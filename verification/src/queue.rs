//! Queue families and the choice of one that supports graphics.

use crate::ash_specs::{flags_contain, GRAPHICS_BIT};
use crate::search::first_match;
use vstd::prelude::*;

verus! {

/// What the selection reads of one queue family: its capability flags, as the
/// raw `VkQueueFlags` word.
#[derive(Clone, Copy, Debug, PartialEq, Eq, Structural)]
pub struct QueueFamilyProperties {
    pub queue_flags: u32,
}

impl QueueFamilyProperties {
    /// The family advertises graphics operations.
    pub open spec fn supports_graphics(self) -> bool {
        flags_contain(self.queue_flags, GRAPHICS_BIT)
    }
}

/// The queue family chosen on a physical device, if any.
#[derive(Clone, Copy, Debug, PartialEq, Eq, Structural)]
pub struct QueueFamilyIndices {
    pub graphics_family_index: Option<u32>,
}

impl QueueFamilyIndices {
    /// Whether every family this selection needs has been found.
    pub fn is_complete(&self) -> (complete: bool)
        ensures
            complete == self.graphics_family_index.is_some(),
    {
        self.graphics_family_index.is_some()
    }
}

/// "Supports graphics", as a predicate to search by.
pub open spec fn graphics_capable() -> spec_fn(QueueFamilyProperties) -> bool {
    |family: QueueFamilyProperties| family.supports_graphics()
}

/// At least one of the families supports graphics.
pub open spec fn has_graphics_family(families: Seq<QueueFamilyProperties>) -> bool {
    exists|index: int| 0 <= index < families.len() && (#[trigger] families[index]).supports_graphics()
}

/// Position of the first family that supports graphics, in enumeration order.
pub open spec fn first_graphics_family(families: Seq<QueueFamilyProperties>) -> Option<int> {
    first_match(families, graphics_capable())
}

/// The selection made on a device with these families: the first graphics
/// family, as the `u32` index Vulkan knows it by.
pub open spec fn graphics_selection(families: Seq<QueueFamilyProperties>) -> QueueFamilyIndices {
    QueueFamilyIndices {
        graphics_family_index: match first_graphics_family(families) {
            Some(index) => Some(index as u32),
            None => None,
        },
    }
}

} // verus!
