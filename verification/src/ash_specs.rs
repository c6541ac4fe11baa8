//! Contracts assumed of the `ash` items this crate calls. Nothing in this
//! module is proved; each contract restates what the `ash` source shows.

use vstd::prelude::*;

verus! {

/// Bit mask of `VK_QUEUE_GRAPHICS_BIT`.
pub const GRAPHICS_BIT: u32 = 0x1;

/// What `ash::vk::QueueFlags::contains` computes on raw flag words: every bit
/// set in `other` is also set in `flags`.
pub open spec fn flags_contain(flags: u32, other: u32) -> bool {
    flags & other == other
}

/// A Vulkan version number as `VK_MAKE_API_VERSION` packs it: variant in the
/// top three bits, then seven bits of major, ten of minor and twelve of patch.
/// Bits shifted past the top of the word are lost.
pub open spec fn packed_api_version(variant: u32, major: u32, minor: u32, patch: u32) -> u32 {
    (variant << 29u32) | (major << 22u32) | (minor << 12u32) | patch
}

/// `ash` computes `((variant) << 29) | ((major) << 22) | ((minor) << 12) | (patch)`
/// on `u32` operands.
pub assume_specification[ ash::vk::make_api_version ](
    variant: u32,
    major: u32,
    minor: u32,
    patch: u32,
) -> (version: u32)
    ensures
        version == packed_api_version(variant, major, minor, patch),
;

/// Raw value of `ash::vk::QueueFlags::GRAPHICS`, which `ash` defines as `0b1`.
#[verifier::external_body]
pub(crate) fn graphics_flag() -> (bits: u32)
    ensures
        bits == GRAPHICS_BIT,
{
    ash::vk::QueueFlags::GRAPHICS.as_raw()
}

/// `ash::vk::QueueFlags::contains` on raw flag words. `ash` implements it as
/// `self & other == other`; `from_raw` only wraps the word.
#[verifier::external_body]
pub(crate) fn queue_flags_contains(flags: u32, other: u32) -> (contained: bool)
    ensures
        contained == flags_contain(flags, other),
{
    ash::vk::QueueFlags::from_raw(flags).contains(ash::vk::QueueFlags::from_raw(other))
}

} // verus!
