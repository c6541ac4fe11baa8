//! Why bringing up the context failed.

use vstd::prelude::*;

verus! {

/// Every failure is fatal to construction; none is retried.
#[derive(Clone, Copy, Debug, PartialEq, Eq, Structural)]
pub enum GraphicsError {
    /// No physical device exposes a queue family that supports graphics.
    NoValidGPU,
    /// The driver could not be loaded or refused to create the instance.
    InstanceCreationError,
    /// The driver failed to enumerate its physical devices.
    DeviceEnumerationError,
    /// The driver refused to create the logical device.
    DeviceCreationError,
}

} // verus!
