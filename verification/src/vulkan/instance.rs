//! The decisions the Vulkan backend makes while it creates an instance. The
//! caller runs the setup steps against the driver and reports each outcome to
//! [`next_setup_action`], which says what to do next.

use vstd::prelude::*;

use crate::descriptors::{BackendInfo, InstanceDescriptor};
use crate::errors::InstanceCreateError;
use crate::flags::{bits_contain, Backend, InstanceFeatures};
use crate::version::{packed_value, Version};
use crate::vulkan::{
    ERROR_EXTENSION_NOT_PRESENT, ERROR_INCOMPATIBLE_DRIVER, ERROR_INITIALIZATION_FAILED,
    ERROR_LAYER_NOT_PRESENT, ERROR_OUT_OF_DEVICE_MEMORY, ERROR_OUT_OF_HOST_MEMORY,
    ERROR_VALIDATION_FAILED,
};

verus! {

/// The Vulkan API version the backend asks for, packed.
///
/// Calls vulkanalia's `From<vulkanalia::Version> for u32` on
/// `vulkanalia::Version::V1_3_0`; that conversion is `vk::make_version(1, 3, 0)`,
/// which is `(1 << 22) | (3 << 12) | 0`. The contract claims exactly this value.
#[verifier::external_body]
fn vulkan_api_version() -> (packed: u32)
    ensures
        packed as int == packed_value(1, 3, 0),
{
    vulkanalia::Version::V1_3_0.into()
}

/// The name and version of the Vulkan backend: "Vulkan", 1.3.0.
pub fn vulkan_backend_info() -> (info: BackendInfo)
    ensures
        info.name@ == "Vulkan"@,
        info.version == (Version { major: 1, minor: 3, patch: 0 }),
{
    let packed = vulkan_api_version();
    proof {
        crate::version::lemma_unpack_of_pack(Version { major: 1, minor: 3, patch: 0 });
    }
    let name = "Vulkan";
    BackendInfo { name, version: Version::from(packed) }
}

/// Whether an instance can be created for the requested backends: the Vulkan
/// backend serves a request for Vulkan, and on a platform of Metal also a
/// request for Metal.
pub open spec fn backend_supported(backends: u8, metal_platform: bool) -> bool {
    ||| metal_platform && bits_contain(backends, 2)
    ||| bits_contain(backends, 1)
}

/// The backend an instance is created with, for the requested backends.
/// `metal_platform` says whether the code runs where Metal is native. The
/// Metal backend is served by the Vulkan one.
pub fn select_backend(backends: Backend, metal_platform: bool) -> (selected: Result<Backend, InstanceCreateError>)
    ensures
        match selected {
            Ok(backend) => backend_supported(backends@, metal_platform) && backend@ == 1,
            Err(error) => !backend_supported(backends@, metal_platform) && error is UnsupportedBackend,
        },
        bits_contain(backends@, 1) ==> (selected matches Ok(backend) && backend@ == 1),
        metal_platform && bits_contain(backends@, 2) ==> (selected matches Ok(backend) && backend@ == 1),
        !bits_contain(backends@, 1) && !(metal_platform && bits_contain(backends@, 2)) ==> selected matches Err(
            InstanceCreateError::UnsupportedBackend,
        ),
{
    if metal_platform && backends.contains(Backend::metal()) {
        Ok(Backend::vulkan())
    } else if backends.contains(Backend::vulkan()) {
        Ok(Backend::vulkan())
    } else {
        Err(InstanceCreateError::UnsupportedBackend)
    }
}

/// What the Vulkan instance is created with.
pub struct InstancePlan {
    pub application_name: &'static str,
    pub application_version: u32,
    pub engine_name: &'static str,
    pub engine_version: u32,
    pub api_version: u32,
    /// The extensions the window needs are enabled.
    pub window_extensions: bool,
    /// The validation layer and the debug utilities extension are enabled,
    /// and a debug messenger is created.
    pub validation: bool,
}

/// The plan for an instance created from `descriptor`. `validation_available`
/// says whether this build carries debug validation support.
pub fn plan_instance<W>(descriptor: &InstanceDescriptor<W>, validation_available: bool) -> (plan: InstancePlan)
    ensures
        plan.application_name == descriptor.application.name,
        plan.application_version as int == descriptor.application.version.packed(),
        plan.engine_name == descriptor.application.engine_name,
        plan.engine_version as int == descriptor.application.engine_version.packed(),
        plan.api_version as int == packed_value(1, 3, 0),
        plan.window_extensions == descriptor.window.is_some(),
        plan.validation == (validation_available && bits_contain(descriptor.features@, 1)),
        plan.application_version as int == descriptor.application.version.major as int * 0x40_0000
            + descriptor.application.version.minor as int * 0x1000 + descriptor.application.version.patch as int,
        plan.engine_version as int == descriptor.application.engine_version.major as int * 0x40_0000
            + descriptor.application.engine_version.minor as int * 0x1000
            + descriptor.application.engine_version.patch as int,
        plan.api_version == 0x0040_3000,
        plan.validation == (validation_available && descriptor.features@ & 1 == 1),
{
    let application = &descriptor.application;
    InstancePlan {
        application_name: application.name,
        application_version: u32::from(application.version),
        engine_name: application.engine_name,
        engine_version: u32::from(application.engine_version),
        api_version: vulkan_api_version(),
        window_extensions: descriptor.window.is_some(),
        validation: validation_available && descriptor.features.contains(InstanceFeatures::debug()),
    }
}

/// The error for a failed creation of the instance handle, by its Vulkan
/// result code.
pub open spec fn spec_instance_create_error(code: i32) -> InstanceCreateError {
    if code == ERROR_EXTENSION_NOT_PRESENT {
        InstanceCreateError::WindowRequirementsNotPresent
    } else if code == ERROR_INCOMPATIBLE_DRIVER {
        InstanceCreateError::IncompatibleDriver
    } else if code == ERROR_INITIALIZATION_FAILED {
        InstanceCreateError::InitializationFailure
    } else if code == ERROR_LAYER_NOT_PRESENT {
        InstanceCreateError::DebugRequirementsNotPresent
    } else if code == ERROR_OUT_OF_DEVICE_MEMORY {
        InstanceCreateError::OutOfDeviceMemory
    } else if code == ERROR_OUT_OF_HOST_MEMORY {
        InstanceCreateError::OutOfHostMemory
    } else if code == ERROR_VALIDATION_FAILED {
        InstanceCreateError::DebugFailed
    } else {
        InstanceCreateError::Unknown
    }
}

/// The error for a failed creation of the instance handle.
pub fn instance_create_error(code: i32) -> (error: InstanceCreateError)
    ensures
        error == spec_instance_create_error(code),
        code == ERROR_EXTENSION_NOT_PRESENT ==> error is WindowRequirementsNotPresent,
        code == ERROR_INCOMPATIBLE_DRIVER ==> error is IncompatibleDriver,
        code == ERROR_INITIALIZATION_FAILED ==> error is InitializationFailure,
        code == ERROR_LAYER_NOT_PRESENT ==> error is DebugRequirementsNotPresent,
        code == ERROR_OUT_OF_DEVICE_MEMORY ==> error is OutOfDeviceMemory,
        code == ERROR_OUT_OF_HOST_MEMORY ==> error is OutOfHostMemory,
        code == ERROR_VALIDATION_FAILED ==> error is DebugFailed,
        code != ERROR_EXTENSION_NOT_PRESENT && code != ERROR_INCOMPATIBLE_DRIVER && code != ERROR_INITIALIZATION_FAILED
            && code != ERROR_LAYER_NOT_PRESENT && code != ERROR_OUT_OF_DEVICE_MEMORY && code != ERROR_OUT_OF_HOST_MEMORY
            && code != ERROR_VALIDATION_FAILED ==> error is Unknown,
{
    if code == ERROR_EXTENSION_NOT_PRESENT {
        InstanceCreateError::WindowRequirementsNotPresent
    } else if code == ERROR_INCOMPATIBLE_DRIVER {
        InstanceCreateError::IncompatibleDriver
    } else if code == ERROR_INITIALIZATION_FAILED {
        InstanceCreateError::InitializationFailure
    } else if code == ERROR_LAYER_NOT_PRESENT {
        InstanceCreateError::DebugRequirementsNotPresent
    } else if code == ERROR_OUT_OF_DEVICE_MEMORY {
        InstanceCreateError::OutOfDeviceMemory
    } else if code == ERROR_OUT_OF_HOST_MEMORY {
        InstanceCreateError::OutOfHostMemory
    } else if code == ERROR_VALIDATION_FAILED {
        InstanceCreateError::DebugFailed
    } else {
        InstanceCreateError::Unknown
    }
}

/// The error for a failed creation of the debug messenger, by its Vulkan
/// result code.
pub open spec fn spec_debug_messenger_error(code: i32) -> InstanceCreateError {
    if code == ERROR_OUT_OF_HOST_MEMORY {
        InstanceCreateError::OutOfHostMemory
    } else if code == ERROR_VALIDATION_FAILED {
        InstanceCreateError::DebugFailed
    } else {
        InstanceCreateError::Unknown
    }
}

/// The error for a failed creation of the debug messenger.
pub fn debug_messenger_error(code: i32) -> (error: InstanceCreateError)
    ensures
        error == spec_debug_messenger_error(code),
        code == ERROR_OUT_OF_HOST_MEMORY ==> error is OutOfHostMemory,
        code == ERROR_VALIDATION_FAILED ==> error is DebugFailed,
        code != ERROR_OUT_OF_HOST_MEMORY && code != ERROR_VALIDATION_FAILED ==> error is Unknown,
{
    if code == ERROR_OUT_OF_HOST_MEMORY {
        InstanceCreateError::OutOfHostMemory
    } else if code == ERROR_VALIDATION_FAILED {
        InstanceCreateError::DebugFailed
    } else {
        InstanceCreateError::Unknown
    }
}

/// `VK_DEBUG_UTILS_MESSAGE_SEVERITY_ERROR_BIT_EXT`.
pub const DEBUG_SEVERITY_ERROR: u32 = 0x1000;

/// What the debug messenger's callback answers for a message of the given
/// severity bits: 1 (`VK_TRUE`, abort the call that raised it) for a severity
/// of at least `ERROR`, 0 otherwise.
pub fn debug_callback_verdict(severity: u32) -> (verdict: u32)
    ensures
        verdict == (if severity >= DEBUG_SEVERITY_ERROR { 1u32 } else { 0u32 }),
{
    if severity >= DEBUG_SEVERITY_ERROR {
        1
    } else {
        0
    }
}

/// A step of setting up a Vulkan instance, run by the caller.
#[derive(Clone, Copy, PartialEq, Eq, Structural, Debug)]
pub enum SetupStep {
    /// Load the Vulkan library.
    LoadLibrary,
    /// Create the entry point from the loaded library.
    CreateEntry,
    /// Create the instance handle as the plan says.
    CreateInstance,
    /// Create the debug messenger.
    CreateDebugMessenger,
}

/// What the caller does after a setup step.
#[derive(Debug)]
pub enum SetupAction {
    /// Run this step next.
    Run(SetupStep),
    /// The instance is ready; it owns a debug messenger exactly when
    /// `debug_messenger` is set.
    Finish { debug_messenger: bool },
    /// Give up with this error.
    Fail(InstanceCreateError),
}

/// The step the setup starts with.
pub open spec fn first_setup_step() -> SetupStep {
    SetupStep::LoadLibrary
}

/// What follows a step that succeeded.
pub open spec fn action_after_success(validation: bool, step: SetupStep) -> SetupAction {
    match step {
        SetupStep::LoadLibrary => SetupAction::Run(SetupStep::CreateEntry),
        SetupStep::CreateEntry => SetupAction::Run(SetupStep::CreateInstance),
        SetupStep::CreateInstance => if validation {
            SetupAction::Run(SetupStep::CreateDebugMessenger)
        } else {
            SetupAction::Finish { debug_messenger: false }
        },
        SetupStep::CreateDebugMessenger => SetupAction::Finish { debug_messenger: true },
    }
}

/// `error` is what a failure of `step` with result code `code` ends the
/// setup with; `library` is where the library was looked for.
pub open spec fn is_failure_error(step: SetupStep, code: i32, library: Seq<char>, error: InstanceCreateError) -> bool {
    match step {
        SetupStep::LoadLibrary | SetupStep::CreateEntry => error matches InstanceCreateError::UnableToLoadLibrary(location) && location@ == library,
        SetupStep::CreateInstance => error == spec_instance_create_error(code),
        SetupStep::CreateDebugMessenger => error == spec_debug_messenger_error(code),
    }
}

/// What follows `step`, given its outcome: `Ok` when it succeeded, the
/// Vulkan result code when it failed (for the two loading steps any code
/// stands for a failure to load). `library` is where the Vulkan library was
/// looked for.
pub fn next_setup_action(plan: &InstancePlan, library: &str, step: SetupStep, outcome: Result<(), i32>) -> (action: SetupAction)
    ensures
        match outcome {
            Ok(()) => action == action_after_success(plan.validation, step),
            Err(code) => action matches SetupAction::Fail(error) && is_failure_error(step, code, library@, error),
        },
        (match outcome {
            Ok(()) => match step {
                SetupStep::LoadLibrary => action == SetupAction::Run(SetupStep::CreateEntry),
                SetupStep::CreateEntry => action == SetupAction::Run(SetupStep::CreateInstance),
                SetupStep::CreateInstance => if plan.validation {
                    action == SetupAction::Run(SetupStep::CreateDebugMessenger)
                } else {
                    action == (SetupAction::Finish { debug_messenger: false })
                },
                SetupStep::CreateDebugMessenger => action == (SetupAction::Finish { debug_messenger: true }),
            },
            Err(code) => match action {
                SetupAction::Fail(error) => match step {
                    SetupStep::LoadLibrary | SetupStep::CreateEntry => error matches InstanceCreateError::UnableToLoadLibrary(
                        location,
                    ) && location@ == library@,
                    SetupStep::CreateInstance => {
                        &&& code == ERROR_EXTENSION_NOT_PRESENT ==> error is WindowRequirementsNotPresent
                        &&& code == ERROR_INCOMPATIBLE_DRIVER ==> error is IncompatibleDriver
                        &&& code == ERROR_INITIALIZATION_FAILED ==> error is InitializationFailure
                        &&& code == ERROR_LAYER_NOT_PRESENT ==> error is DebugRequirementsNotPresent
                        &&& code == ERROR_OUT_OF_DEVICE_MEMORY ==> error is OutOfDeviceMemory
                        &&& code == ERROR_OUT_OF_HOST_MEMORY ==> error is OutOfHostMemory
                        &&& code == ERROR_VALIDATION_FAILED ==> error is DebugFailed
                        &&& code != ERROR_EXTENSION_NOT_PRESENT && code != ERROR_INCOMPATIBLE_DRIVER
                            && code != ERROR_INITIALIZATION_FAILED && code != ERROR_LAYER_NOT_PRESENT
                            && code != ERROR_OUT_OF_DEVICE_MEMORY && code != ERROR_OUT_OF_HOST_MEMORY
                            && code != ERROR_VALIDATION_FAILED ==> error is Unknown
                    },
                    SetupStep::CreateDebugMessenger => {
                        &&& code == ERROR_OUT_OF_HOST_MEMORY ==> error is OutOfHostMemory
                        &&& code == ERROR_VALIDATION_FAILED ==> error is DebugFailed
                        &&& code != ERROR_OUT_OF_HOST_MEMORY && code != ERROR_VALIDATION_FAILED ==> error is Unknown
                    },
                },
                _ => false,
            },
        }),
{
    match outcome {
        Ok(()) => match step {
            SetupStep::LoadLibrary => SetupAction::Run(SetupStep::CreateEntry),
            SetupStep::CreateEntry => SetupAction::Run(SetupStep::CreateInstance),
            SetupStep::CreateInstance => if plan.validation {
                SetupAction::Run(SetupStep::CreateDebugMessenger)
            } else {
                SetupAction::Finish { debug_messenger: false }
            },
            SetupStep::CreateDebugMessenger => SetupAction::Finish { debug_messenger: true },
        },
        Err(code) => match step {
            SetupStep::LoadLibrary | SetupStep::CreateEntry => SetupAction::Fail(
                InstanceCreateError::UnableToLoadLibrary(library.to_owned()),
            ),
            SetupStep::CreateInstance => SetupAction::Fail(instance_create_error(code)),
            SetupStep::CreateDebugMessenger => SetupAction::Fail(debug_messenger_error(code)),
        },
    }
}

/// When every step succeeds, the setup loads the library, creates the entry
/// point, creates the instance and, exactly when the plan asks for
/// validation, creates the debug messenger; then it finishes, owning a debug
/// messenger exactly when the plan asks for validation.
pub proof fn lemma_successful_setup(validation: bool)
    ensures
        first_setup_step() == SetupStep::LoadLibrary,
        action_after_success(validation, SetupStep::LoadLibrary) == SetupAction::Run(SetupStep::CreateEntry),
        action_after_success(validation, SetupStep::CreateEntry) == SetupAction::Run(SetupStep::CreateInstance),
        validation ==> action_after_success(validation, SetupStep::CreateInstance) == SetupAction::Run(SetupStep::CreateDebugMessenger),
        validation ==> action_after_success(validation, SetupStep::CreateDebugMessenger) == (SetupAction::Finish { debug_messenger: true }),
        !validation ==> action_after_success(validation, SetupStep::CreateInstance) == (SetupAction::Finish { debug_messenger: false }),
{
}

/// A failure to create the instance handle is reported by its cause: a
/// missing extension as missing window requirements, an incompatible driver
/// as such, a failed initialisation as such, a missing layer as missing
/// debug requirements, exhausted device or host memory as such, failed
/// validation as a failure to debug, and any other code as unknown. A failure
/// to create the debug messenger is reported as exhausted host memory, a
/// failure to debug, or unknown.
pub proof fn lemma_failure_causes(code: i32, library: Seq<char>, error: InstanceCreateError)
    ensures
        is_failure_error(SetupStep::CreateInstance, code, library, error) <==> error == spec_instance_create_error(code),
        spec_instance_create_error(ERROR_EXTENSION_NOT_PRESENT) is WindowRequirementsNotPresent,
        spec_instance_create_error(ERROR_INCOMPATIBLE_DRIVER) is IncompatibleDriver,
        spec_instance_create_error(ERROR_INITIALIZATION_FAILED) is InitializationFailure,
        spec_instance_create_error(ERROR_LAYER_NOT_PRESENT) is DebugRequirementsNotPresent,
        spec_instance_create_error(ERROR_OUT_OF_DEVICE_MEMORY) is OutOfDeviceMemory,
        spec_instance_create_error(ERROR_OUT_OF_HOST_MEMORY) is OutOfHostMemory,
        spec_instance_create_error(ERROR_VALIDATION_FAILED) is DebugFailed,
        code != ERROR_EXTENSION_NOT_PRESENT && code != ERROR_INCOMPATIBLE_DRIVER && code != ERROR_INITIALIZATION_FAILED
            && code != ERROR_LAYER_NOT_PRESENT && code != ERROR_OUT_OF_DEVICE_MEMORY && code != ERROR_OUT_OF_HOST_MEMORY
            && code != ERROR_VALIDATION_FAILED ==> spec_instance_create_error(code) is Unknown,
        is_failure_error(SetupStep::CreateDebugMessenger, code, library, error) <==> error == spec_debug_messenger_error(code),
        spec_debug_messenger_error(ERROR_OUT_OF_HOST_MEMORY) is OutOfHostMemory,
        spec_debug_messenger_error(ERROR_VALIDATION_FAILED) is DebugFailed,
        code != ERROR_OUT_OF_HOST_MEMORY && code != ERROR_VALIDATION_FAILED ==> spec_debug_messenger_error(code) is Unknown,
{
}

/// A request that holds Vulkan is always served, on every platform, and so
/// is a request that holds Metal on a Metal platform; any other request is
/// refused.
pub proof fn lemma_backend_requests_served(backends: u8, metal_platform: bool)
    ensures
        bits_contain(backends, 1) ==> backend_supported(backends, metal_platform),
        metal_platform && bits_contain(backends, 2) ==> backend_supported(backends, metal_platform),
        !bits_contain(backends, 1) && !(metal_platform && bits_contain(backends, 2)) ==> !backend_supported(
            backends,
            metal_platform,
        ),
{
}

/// A step that succeeds never ends the setup with an error.
pub proof fn lemma_success_never_fails(validation: bool, step: SetupStep)
    ensures
        !(action_after_success(validation, step) is Fail),
{
}

/// The debug messenger is created only for a descriptor that asks for the
/// debug feature, in a build that carries validation support.
pub proof fn lemma_messenger_only_when_debugging(validation_available: bool, features: u8, step: SetupStep)
    requires
        action_after_success(validation_available && bits_contain(features, 1), step) == SetupAction::Run(SetupStep::CreateDebugMessenger),
    ensures
        validation_available,
        bits_contain(features, 1),
{
}

} // verus!
