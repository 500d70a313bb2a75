use vstd::prelude::*;

verus! {

/// Why an instance could not be created.
#[derive(Debug)]
pub enum InstanceCreateError {
    /// None of the requested backends is supported here.
    UnsupportedBackend,
    /// The backend's library could not be loaded from the given location.
    UnableToLoadLibrary(String),
    /// The backend does not support the current driver.
    IncompatibleDriver,
    /// The backend handle could not be initialised.
    InitializationFailure,
    /// An extension needed for the window is missing.
    WindowRequirementsNotPresent,
    /// The device ran out of memory.
    OutOfDeviceMemory,
    /// The host ran out of memory.
    OutOfHostMemory,
    /// A layer needed for debug validation is missing.
    DebugRequirementsNotPresent,
    /// Debugging could not be set up.
    DebugFailed,
    /// Any other failure.
    Unknown,
}

/// Why no adapter could be handed out.
#[derive(Debug, Clone, Copy, PartialEq, Eq, Structural)]
pub enum AdapterRequestError {
    /// There is no adapter of a known kind.
    NoneAvailable,
    /// The backend handle could not be initialised.
    InitializationFailure,
    /// The device ran out of memory.
    OutOfDeviceMemory,
    /// The host ran out of memory.
    OutOfHostMemory,
    /// Debug validation failed.
    DebugFailed,
    /// Any other failure.
    Unknown,
}

} // verus!
