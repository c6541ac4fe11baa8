//! What is asked of the driver when the instance is created.

use crate::ash_specs::packed_api_version;
use vstd::prelude::*;

verus! {

/// The application and engine metadata and the instance extensions to enable.
#[derive(Debug, PartialEq, Eq)]
pub struct InstanceRequest {
    pub application_name: String,
    pub application_version: u32,
    pub engine_name: String,
    pub engine_version: u32,
    pub api_version: u32,
    pub enabled_extension_names: Vec<String>,
}

/// An `InstanceRequest` as a mathematical value.
pub struct InstanceRequestView {
    pub application_name: Seq<char>,
    pub application_version: u32,
    pub engine_name: Seq<char>,
    pub engine_version: u32,
    pub api_version: u32,
    pub enabled_extension_names: Seq<Seq<char>>,
}

impl View for InstanceRequest {
    type V = InstanceRequestView;

    open spec fn view(&self) -> InstanceRequestView {
        InstanceRequestView {
            application_name: self.application_name@,
            application_version: self.application_version,
            engine_name: self.engine_name@,
            engine_version: self.engine_version,
            api_version: self.api_version,
            enabled_extension_names: self.enabled_extension_names.deep_view(),
        }
    }
}

/// Version 1.0.0, variant 0: what the application, the engine and the
/// requested API level are all declared as.
pub open spec fn declared_version() -> u32 {
    packed_api_version(0, 1, 0, 0)
}

/// The request made for a platform that needs `surface_extensions`: fixed
/// metadata, and exactly those extensions, in the order given.
pub open spec fn instance_request(surface_extensions: Seq<Seq<char>>) -> InstanceRequestView {
    InstanceRequestView {
        application_name: "Hello Triangle"@,
        application_version: declared_version(),
        engine_name: "Hello Triangle Engine"@,
        engine_version: declared_version(),
        api_version: declared_version(),
        enabled_extension_names: surface_extensions,
    }
}

/// The declared version is the number `0x40_0000`.
pub proof fn lemma_declared_version_value()
    ensures
        declared_version() == 0x40_0000u32,
{
    assert(packed_api_version(0, 1, 0, 0) == 0x40_0000u32) by (bit_vector);
}

} // verus!
