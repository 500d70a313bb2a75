//! The Vulkan backend's decisions. The calls into the Vulkan driver are made
//! by the caller, who hands the raw result codes and device types in here.

use vstd::prelude::*;

use crate::descriptors::AdapterInfo;
use crate::enums::AdapterType;
use crate::errors::AdapterRequestError;

pub mod instance;

verus! {

/// `VK_ERROR_OUT_OF_HOST_MEMORY`.
pub const ERROR_OUT_OF_HOST_MEMORY: i32 = -1;

/// `VK_ERROR_OUT_OF_DEVICE_MEMORY`.
pub const ERROR_OUT_OF_DEVICE_MEMORY: i32 = -2;

/// `VK_ERROR_INITIALIZATION_FAILED`.
pub const ERROR_INITIALIZATION_FAILED: i32 = -3;

/// `VK_ERROR_LAYER_NOT_PRESENT`.
pub const ERROR_LAYER_NOT_PRESENT: i32 = -6;

/// `VK_ERROR_EXTENSION_NOT_PRESENT`.
pub const ERROR_EXTENSION_NOT_PRESENT: i32 = -7;

/// `VK_ERROR_INCOMPATIBLE_DRIVER`.
pub const ERROR_INCOMPATIBLE_DRIVER: i32 = -9;

/// `VK_ERROR_VALIDATION_FAILED`.
pub const ERROR_VALIDATION_FAILED: i32 = -1000011001;

/// `VK_PHYSICAL_DEVICE_TYPE_OTHER`.
pub const DEVICE_TYPE_OTHER: i32 = 0;

/// `VK_PHYSICAL_DEVICE_TYPE_INTEGRATED_GPU`.
pub const DEVICE_TYPE_INTEGRATED_GPU: i32 = 1;

/// `VK_PHYSICAL_DEVICE_TYPE_DISCRETE_GPU`.
pub const DEVICE_TYPE_DISCRETE_GPU: i32 = 2;

/// `VK_PHYSICAL_DEVICE_TYPE_VIRTUAL_GPU`.
pub const DEVICE_TYPE_VIRTUAL_GPU: i32 = 3;

/// `VK_PHYSICAL_DEVICE_TYPE_CPU`.
pub const DEVICE_TYPE_CPU: i32 = 4;

/// The adapter type a raw Vulkan device type stands for.
pub open spec fn spec_adapter_type(device_type: i32) -> AdapterType {
    if device_type == DEVICE_TYPE_DISCRETE_GPU {
        AdapterType::Dedicated
    } else if device_type == DEVICE_TYPE_INTEGRATED_GPU {
        AdapterType::Integrated
    } else if device_type == DEVICE_TYPE_VIRTUAL_GPU {
        AdapterType::Virtual
    } else if device_type == DEVICE_TYPE_CPU {
        AdapterType::Cpu
    } else {
        AdapterType::Unknown
    }
}

/// The adapter type of a raw Vulkan device type; `OTHER` and any value Vulkan
/// does not define are `Unknown`.
pub fn adapter_type_from_raw(device_type: i32) -> (adapter_type: AdapterType)
    ensures
        adapter_type == spec_adapter_type(device_type),
        device_type == DEVICE_TYPE_DISCRETE_GPU ==> adapter_type == AdapterType::Dedicated,
        device_type == DEVICE_TYPE_INTEGRATED_GPU ==> adapter_type == AdapterType::Integrated,
        device_type == DEVICE_TYPE_VIRTUAL_GPU ==> adapter_type == AdapterType::Virtual,
        device_type == DEVICE_TYPE_CPU ==> adapter_type == AdapterType::Cpu,
        device_type != DEVICE_TYPE_DISCRETE_GPU && device_type != DEVICE_TYPE_INTEGRATED_GPU
            && device_type != DEVICE_TYPE_VIRTUAL_GPU && device_type != DEVICE_TYPE_CPU
            ==> adapter_type == AdapterType::Unknown,
{
    if device_type == DEVICE_TYPE_OTHER {
        AdapterType::Unknown
    } else if device_type == DEVICE_TYPE_INTEGRATED_GPU {
        AdapterType::Integrated
    } else if device_type == DEVICE_TYPE_DISCRETE_GPU {
        AdapterType::Dedicated
    } else if device_type == DEVICE_TYPE_VIRTUAL_GPU {
        AdapterType::Virtual
    } else if device_type == DEVICE_TYPE_CPU {
        AdapterType::Cpu
    } else {
        AdapterType::Unknown
    }
}

impl AdapterInfo {
    /// The information of an adapter, from the name, raw device type and ids
    /// that the driver reports for it.
    pub fn from_properties(device_name: String, device_type: i32, device_id: u32, vendor_id: u32) -> (info: Self)
        ensures
            info.device_name@ == device_name@,
            info.device_type == spec_adapter_type(device_type),
            info.device_type == AdapterType::Unknown <==> (device_type != DEVICE_TYPE_DISCRETE_GPU
                && device_type != DEVICE_TYPE_INTEGRATED_GPU && device_type != DEVICE_TYPE_VIRTUAL_GPU
                && device_type != DEVICE_TYPE_CPU),
            info.device_id == device_id,
            info.vendor_id == vendor_id,
    {
        AdapterInfo {
            device_name,
            device_type: adapter_type_from_raw(device_type),
            device_id,
            vendor_id,
        }
    }
}

/// The error an adapter request reports when the devices cannot be listed.
pub open spec fn spec_adapter_request_error(code: i32) -> AdapterRequestError {
    if code == ERROR_INITIALIZATION_FAILED {
        AdapterRequestError::InitializationFailure
    } else if code == ERROR_OUT_OF_DEVICE_MEMORY {
        AdapterRequestError::OutOfDeviceMemory
    } else if code == ERROR_OUT_OF_HOST_MEMORY {
        AdapterRequestError::OutOfHostMemory
    } else if code == ERROR_VALIDATION_FAILED {
        AdapterRequestError::DebugFailed
    } else {
        AdapterRequestError::Unknown
    }
}

/// The error for a failed listing of the devices, from its Vulkan result code.
pub fn adapter_request_error(code: i32) -> (error: AdapterRequestError)
    ensures
        error == spec_adapter_request_error(code),
        code == ERROR_INITIALIZATION_FAILED ==> error == AdapterRequestError::InitializationFailure,
        code == ERROR_OUT_OF_DEVICE_MEMORY ==> error == AdapterRequestError::OutOfDeviceMemory,
        code == ERROR_OUT_OF_HOST_MEMORY ==> error == AdapterRequestError::OutOfHostMemory,
        code == ERROR_VALIDATION_FAILED ==> error == AdapterRequestError::DebugFailed,
        code != ERROR_INITIALIZATION_FAILED && code != ERROR_OUT_OF_DEVICE_MEMORY && code != ERROR_OUT_OF_HOST_MEMORY
            && code != ERROR_VALIDATION_FAILED ==> error == AdapterRequestError::Unknown,
        error != AdapterRequestError::NoneAvailable,
{
    if code == ERROR_INITIALIZATION_FAILED {
        AdapterRequestError::InitializationFailure
    } else if code == ERROR_OUT_OF_DEVICE_MEMORY {
        AdapterRequestError::OutOfDeviceMemory
    } else if code == ERROR_OUT_OF_HOST_MEMORY {
        AdapterRequestError::OutOfHostMemory
    } else if code == ERROR_VALIDATION_FAILED {
        AdapterRequestError::DebugFailed
    } else {
        AdapterRequestError::Unknown
    }
}

/// How strongly a device type is preferred: 0 for a discrete GPU, then an
/// integrated GPU, a virtual GPU, a CPU and an `OTHER` device; 5 for a value
/// that is never picked.
pub open spec fn preference_rank(device_type: i32) -> int {
    if device_type == DEVICE_TYPE_DISCRETE_GPU {
        0
    } else if device_type == DEVICE_TYPE_INTEGRATED_GPU {
        1
    } else if device_type == DEVICE_TYPE_VIRTUAL_GPU {
        2
    } else if device_type == DEVICE_TYPE_CPU {
        3
    } else if device_type == DEVICE_TYPE_OTHER {
        4
    } else {
        5
    }
}

/// The device type of a given preference rank below 5.
pub open spec fn preferred_type(rank: int) -> i32 {
    if rank == 0 {
        DEVICE_TYPE_DISCRETE_GPU
    } else if rank == 1 {
        DEVICE_TYPE_INTEGRATED_GPU
    } else if rank == 2 {
        DEVICE_TYPE_VIRTUAL_GPU
    } else if rank == 3 {
        DEVICE_TYPE_CPU
    } else {
        DEVICE_TYPE_OTHER
    }
}

/// `index` is the adapter to pick among devices of the given types: one of
/// the most preferred kind present, and the first of that kind.
pub open spec fn is_chosen_adapter(device_types: Seq<i32>, index: int) -> bool {
    &&& 0 <= index < device_types.len()
    &&& preference_rank(device_types[index]) < 5
    &&& forall|j: int| 0 <= j < device_types.len() ==> preference_rank(device_types[index]) <= preference_rank(#[trigger] device_types[j])
    &&& forall|j: int| 0 <= j < index ==> preference_rank(#[trigger] device_types[j]) != preference_rank(device_types[index])
}

/// No device has a type that is ever picked.
pub open spec fn no_adapter_available(device_types: Seq<i32>) -> bool {
    forall|j: int| 0 <= j < device_types.len() ==> preference_rank(#[trigger] device_types[j]) == 5
}

/// The preference among device types is the one the backend promises: a
/// discrete GPU before an integrated one, before a virtual one, before a CPU,
/// before any other device; a type Vulkan does not define is never picked.
pub proof fn lemma_preference_order()
    ensures
        preference_rank(DEVICE_TYPE_DISCRETE_GPU) < preference_rank(DEVICE_TYPE_INTEGRATED_GPU),
        preference_rank(DEVICE_TYPE_INTEGRATED_GPU) < preference_rank(DEVICE_TYPE_VIRTUAL_GPU),
        preference_rank(DEVICE_TYPE_VIRTUAL_GPU) < preference_rank(DEVICE_TYPE_CPU),
        preference_rank(DEVICE_TYPE_CPU) < preference_rank(DEVICE_TYPE_OTHER),
        forall|t: i32| preference_rank(t) < 5 <==> 0 <= t <= 4,
{
}

/// The error of a failed listing of the devices names its cause: a failed
/// initialisation, exhausted device or host memory, failed validation, or
/// else an unknown cause; it never says that no adapter is available.
pub proof fn lemma_adapter_request_error_causes(code: i32)
    ensures
        spec_adapter_request_error(ERROR_INITIALIZATION_FAILED) == AdapterRequestError::InitializationFailure,
        spec_adapter_request_error(ERROR_OUT_OF_DEVICE_MEMORY) == AdapterRequestError::OutOfDeviceMemory,
        spec_adapter_request_error(ERROR_OUT_OF_HOST_MEMORY) == AdapterRequestError::OutOfHostMemory,
        spec_adapter_request_error(ERROR_VALIDATION_FAILED) == AdapterRequestError::DebugFailed,
        spec_adapter_request_error(code) != AdapterRequestError::NoneAvailable,
{
}

/// The first index of a device of the given type, if there is one.
fn find_device_of_type(device_types: &Vec<i32>, wanted: i32) -> (found: Option<usize>)
    ensures
        match found {
            Some(i) => i < device_types@.len() && device_types@[i as int] == wanted
                && forall|j: int| 0 <= j < i ==> #[trigger] device_types@[j] != wanted,
            None => forall|j: int| 0 <= j < device_types@.len() ==> #[trigger] device_types@[j] != wanted,
        },
{
    let mut i: usize = 0;
    while i < device_types.len()
        invariant
            i <= device_types@.len(),
            forall|j: int| 0 <= j < i ==> #[trigger] device_types@[j] != wanted,
        decreases device_types@.len() - i,
    {
        if device_types[i] == wanted {
            return Some(i);
        }
        i = i + 1;
    }
    None
}

/// Picks the adapter among devices of the given raw Vulkan types: the first
/// discrete GPU, else the first integrated GPU, else the first virtual GPU,
/// else the first CPU, else the first `OTHER` device. A device of a type that
/// Vulkan does not define is never picked; with none left the request fails
/// with `NoneAvailable`.
pub fn choose_adapter(device_types: &Vec<i32>) -> (chosen: Result<usize, AdapterRequestError>)
    ensures
        match chosen {
            Ok(index) => is_chosen_adapter(device_types@, index as int),
            Err(error) => error == AdapterRequestError::NoneAvailable && no_adapter_available(device_types@),
        },
        ({
            let t = device_types@;
            match chosen {
                Ok(index) => {
                    &&& 0 <= index < t.len()
                    &&& 0 <= t[index as int] <= 4
                    &&& forall|j: int| 0 <= j < index ==> #[trigger] t[j] != t[index as int]
                    &&& t[index as int] != DEVICE_TYPE_DISCRETE_GPU ==> forall|j: int|
                        0 <= j < t.len() ==> #[trigger] t[j] != DEVICE_TYPE_DISCRETE_GPU
                    &&& t[index as int] != DEVICE_TYPE_DISCRETE_GPU && t[index as int] != DEVICE_TYPE_INTEGRATED_GPU
                        ==> forall|j: int| 0 <= j < t.len() ==> #[trigger] t[j] != DEVICE_TYPE_INTEGRATED_GPU
                    &&& t[index as int] == DEVICE_TYPE_CPU || t[index as int] == DEVICE_TYPE_OTHER ==> forall|j: int|
                        0 <= j < t.len() ==> #[trigger] t[j] != DEVICE_TYPE_VIRTUAL_GPU
                    &&& t[index as int] == DEVICE_TYPE_OTHER ==> forall|j: int|
                        0 <= j < t.len() ==> #[trigger] t[j] != DEVICE_TYPE_CPU
                },
                Err(error) => {
                    &&& error == AdapterRequestError::NoneAvailable
                    &&& forall|j: int| 0 <= j < t.len() ==> !(0 <= #[trigger] t[j] <= 4)
                },
            }
        }),
{
    let ghost types = device_types@;
    let mut rank: usize = 0;
    while rank < 5
        invariant
            rank <= 5,
            types == device_types@,
            forall|j: int| 0 <= j < types.len() ==> preference_rank(#[trigger] types[j]) >= rank,
        decreases 5 - rank,
    {
        let wanted: i32 = if rank == 0 {
            DEVICE_TYPE_DISCRETE_GPU
        } else if rank == 1 {
            DEVICE_TYPE_INTEGRATED_GPU
        } else if rank == 2 {
            DEVICE_TYPE_VIRTUAL_GPU
        } else if rank == 3 {
            DEVICE_TYPE_CPU
        } else {
            DEVICE_TYPE_OTHER
        };
        assert(wanted == preferred_type(rank as int));
        match find_device_of_type(device_types, wanted) {
            Some(index) => {
                assert(preference_rank(types[index as int]) == rank);
                assert forall|j: int| 0 <= j < index implies preference_rank(#[trigger] types[j]) != rank by {
                    assert(types[j] != wanted);
                }
                return Ok(index);
            },
            None => {
                assert forall|j: int| 0 <= j < types.len() implies preference_rank(#[trigger] types[j]) >= rank + 1 by {
                    assert(types[j] != wanted);
                }
            },
        }
        rank = rank + 1;
    }
    Err(AdapterRequestError::NoneAvailable)
}

} // verus!
