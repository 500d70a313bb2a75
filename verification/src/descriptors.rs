use vstd::prelude::*;

use crate::enums::AdapterType;
use crate::flags::{Backend, InstanceFeatures};
use crate::version::Version;

verus! {

/// What the application tells the backend about itself.
pub struct ApplicationDescriptor {
    pub name: &'static str,
    pub version: Version,
    pub engine_name: &'static str,
    pub engine_version: Version,
}

/// What an instance is created from. `W` is the window type the instance
/// should be able to present to, if any.
pub struct InstanceDescriptor<W> {
    pub backends: Backend,
    pub application: ApplicationDescriptor,
    pub features: InstanceFeatures,
    pub window: Option<W>,
}

/// The name and version of the backend an instance runs on.
pub struct BackendInfo {
    pub name: &'static str,
    pub version: Version,
}

/// What is known of an adapter.
pub struct AdapterInfo {
    pub device_name: String,
    pub device_type: AdapterType,
    pub device_id: u32,
    pub vendor_id: u32,
}

} // verus!
