//! A backend-agnostic graphics instance layer: versions, backend and feature
//! flag sets, descriptors, errors, and the decisions the Vulkan backend makes
//! while it sets up an instance and picks an adapter.

pub mod descriptors;
pub mod enums;
pub mod errors;
pub mod flags;
pub mod version;
pub mod vulkan;

pub use descriptors::{AdapterInfo, ApplicationDescriptor, BackendInfo, InstanceDescriptor};
pub use enums::AdapterType;
pub use errors::{AdapterRequestError, InstanceCreateError};
pub use flags::{AdapterFeatures, Backend, InstanceFeatures};
pub use version::{
    api_version, version_major, version_minor, version_packed, version_patch, Version,
    MAJOR_SHIFT, MINOR_SHIFT,
};
