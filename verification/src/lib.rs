//! Planning logic for bringing up a minimal Vulkan context: which physical
//! device and queue family to use, what to ask of the driver, and in which
//! order resources are acquired and released.
//!
//! Nothing here talks to a driver. Callers perform the driver calls and feed
//! the outcomes back in as plain values.

pub mod ash_specs;
pub mod base;
pub mod device;
pub mod error;
pub mod instance;
pub mod lifecycle;
pub mod logical_device;
pub mod queue;
pub mod search;
