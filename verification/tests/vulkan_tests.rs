use ignis::vulkan::instance::{
    debug_callback_verdict, debug_messenger_error, instance_create_error, next_setup_action,
    plan_instance, select_backend, vulkan_backend_info, SetupAction, SetupStep,
    DEBUG_SEVERITY_ERROR,
};
use ignis::vulkan::{
    adapter_request_error, adapter_type_from_raw, choose_adapter, DEVICE_TYPE_CPU,
    DEVICE_TYPE_DISCRETE_GPU, DEVICE_TYPE_INTEGRATED_GPU, DEVICE_TYPE_OTHER,
    DEVICE_TYPE_VIRTUAL_GPU, ERROR_EXTENSION_NOT_PRESENT, ERROR_INCOMPATIBLE_DRIVER,
    ERROR_INITIALIZATION_FAILED, ERROR_LAYER_NOT_PRESENT, ERROR_OUT_OF_DEVICE_MEMORY,
    ERROR_OUT_OF_HOST_MEMORY, ERROR_VALIDATION_FAILED,
};
use ignis::{
    AdapterInfo, AdapterRequestError, AdapterType, ApplicationDescriptor, Backend,
    InstanceCreateError, InstanceDescriptor, InstanceFeatures, Version,
};
use vulkanalia::vk;

#[test]
fn result_codes_match_vulkanalia() {
    assert_eq!(ERROR_OUT_OF_HOST_MEMORY, vk::ErrorCode::OUT_OF_HOST_MEMORY.as_raw());
    assert_eq!(ERROR_OUT_OF_DEVICE_MEMORY, vk::ErrorCode::OUT_OF_DEVICE_MEMORY.as_raw());
    assert_eq!(ERROR_INITIALIZATION_FAILED, vk::ErrorCode::INITIALIZATION_FAILED.as_raw());
    assert_eq!(ERROR_LAYER_NOT_PRESENT, vk::ErrorCode::LAYER_NOT_PRESENT.as_raw());
    assert_eq!(ERROR_EXTENSION_NOT_PRESENT, vk::ErrorCode::EXTENSION_NOT_PRESENT.as_raw());
    assert_eq!(ERROR_INCOMPATIBLE_DRIVER, vk::ErrorCode::INCOMPATIBLE_DRIVER.as_raw());
    assert_eq!(ERROR_VALIDATION_FAILED, vk::ErrorCode::VALIDATION_FAILED.as_raw());
}

#[test]
fn device_types_match_vulkanalia() {
    assert_eq!(DEVICE_TYPE_OTHER, vk::PhysicalDeviceType::OTHER.as_raw());
    assert_eq!(DEVICE_TYPE_INTEGRATED_GPU, vk::PhysicalDeviceType::INTEGRATED_GPU.as_raw());
    assert_eq!(DEVICE_TYPE_DISCRETE_GPU, vk::PhysicalDeviceType::DISCRETE_GPU.as_raw());
    assert_eq!(DEVICE_TYPE_VIRTUAL_GPU, vk::PhysicalDeviceType::VIRTUAL_GPU.as_raw());
    assert_eq!(DEVICE_TYPE_CPU, vk::PhysicalDeviceType::CPU.as_raw());
}

#[test]
fn severity_error_matches_vulkanalia() {
    assert_eq!(DEBUG_SEVERITY_ERROR, vk::DebugUtilsMessageSeverityFlagsEXT::ERROR.bits());
}

#[test]
fn adapter_types() {
    assert_eq!(adapter_type_from_raw(0), AdapterType::Unknown);
    assert_eq!(adapter_type_from_raw(1), AdapterType::Integrated);
    assert_eq!(adapter_type_from_raw(2), AdapterType::Dedicated);
    assert_eq!(adapter_type_from_raw(3), AdapterType::Virtual);
    assert_eq!(adapter_type_from_raw(4), AdapterType::Cpu);
    assert_eq!(adapter_type_from_raw(5), AdapterType::Unknown);
    assert_eq!(adapter_type_from_raw(-1), AdapterType::Unknown);
}

#[test]
fn adapter_info_from_properties() {
    let info = AdapterInfo::from_properties("Test GPU".to_string(), 2, 0x1234, 0x10de);
    assert_eq!(info.device_name, "Test GPU");
    assert_eq!(info.device_type, AdapterType::Dedicated);
    assert_eq!(info.device_id, 0x1234);
    assert_eq!(info.vendor_id, 0x10de);
}

#[test]
fn choose_prefers_discrete_gpu() {
    assert_eq!(choose_adapter(&vec![1, 4, 2, 2]), Ok(2));
}

#[test]
fn choose_falls_back_in_order() {
    assert_eq!(choose_adapter(&vec![0, 4, 1, 3]), Ok(2));
    assert_eq!(choose_adapter(&vec![0, 4, 3]), Ok(2));
    assert_eq!(choose_adapter(&vec![0, 4, 0]), Ok(1));
    assert_eq!(choose_adapter(&vec![7, 0]), Ok(1));
}

#[test]
fn choose_with_no_known_device() {
    assert_eq!(choose_adapter(&vec![]), Err(AdapterRequestError::NoneAvailable));
    assert_eq!(choose_adapter(&vec![5, -2, 99]), Err(AdapterRequestError::NoneAvailable));
}

#[test]
fn adapter_request_errors() {
    assert_eq!(adapter_request_error(-3), AdapterRequestError::InitializationFailure);
    assert_eq!(adapter_request_error(-2), AdapterRequestError::OutOfDeviceMemory);
    assert_eq!(adapter_request_error(-1), AdapterRequestError::OutOfHostMemory);
    assert_eq!(adapter_request_error(-1000011001), AdapterRequestError::DebugFailed);
    assert_eq!(adapter_request_error(-4), AdapterRequestError::Unknown);
}

#[test]
fn instance_create_errors() {
    assert!(matches!(instance_create_error(-7), InstanceCreateError::WindowRequirementsNotPresent));
    assert!(matches!(instance_create_error(-9), InstanceCreateError::IncompatibleDriver));
    assert!(matches!(instance_create_error(-3), InstanceCreateError::InitializationFailure));
    assert!(matches!(instance_create_error(-6), InstanceCreateError::DebugRequirementsNotPresent));
    assert!(matches!(instance_create_error(-2), InstanceCreateError::OutOfDeviceMemory));
    assert!(matches!(instance_create_error(-1), InstanceCreateError::OutOfHostMemory));
    assert!(matches!(instance_create_error(-1000011001), InstanceCreateError::DebugFailed));
    assert!(matches!(instance_create_error(-13), InstanceCreateError::Unknown));
}

#[test]
fn debug_messenger_errors() {
    assert!(matches!(debug_messenger_error(-1), InstanceCreateError::OutOfHostMemory));
    assert!(matches!(debug_messenger_error(-1000011001), InstanceCreateError::DebugFailed));
    assert!(matches!(debug_messenger_error(-3), InstanceCreateError::Unknown));
}

#[test]
fn backend_selection() {
    assert_eq!(select_backend(Backend::vulkan(), false).unwrap(), Backend::vulkan());
    assert_eq!(select_backend(Backend::metal(), true).unwrap(), Backend::vulkan());
    assert!(matches!(select_backend(Backend::metal(), false), Err(InstanceCreateError::UnsupportedBackend)));
    assert!(matches!(select_backend(Backend::empty(), true), Err(InstanceCreateError::UnsupportedBackend)));
    let both = Backend::vulkan().union(Backend::metal());
    assert_eq!(select_backend(both, false).unwrap(), Backend::vulkan());
}

#[test]
fn backend_info_is_vulkan_one_three() {
    let info = vulkan_backend_info();
    assert_eq!(info.name, "Vulkan");
    assert_eq!(info.version, Version::new(1, 3, 0));
}

#[test]
fn debug_verdicts() {
    assert_eq!(debug_callback_verdict(0x1000), 1);
    assert_eq!(debug_callback_verdict(0x1100), 1);
    assert_eq!(debug_callback_verdict(0x100), 0);
    assert_eq!(debug_callback_verdict(0x10), 0);
    assert_eq!(debug_callback_verdict(1), 0);
}

fn descriptor(features: InstanceFeatures, window: Option<u32>) -> InstanceDescriptor<u32> {
    InstanceDescriptor {
        backends: Backend::vulkan(),
        application: ApplicationDescriptor {
            name: "Ignis Main Test",
            version: Version::default(),
            engine_name: "Ignis Main Test Engine",
            engine_version: Version::new(0, 2, 1),
        },
        features,
        window,
    }
}

#[test]
fn plan_for_debug_descriptor() {
    let plan = plan_instance(&descriptor(InstanceFeatures::debug(), None), true);
    assert_eq!(plan.application_name, "Ignis Main Test");
    assert_eq!(plan.engine_name, "Ignis Main Test Engine");
    assert_eq!(plan.application_version, 1 << 22);
    assert_eq!(plan.engine_version, (2 << 12) | 1);
    assert_eq!(plan.api_version, 0x0040_3000);
    assert!(!plan.window_extensions);
    assert!(plan.validation);
}

#[test]
fn plan_without_validation_support_or_feature() {
    let plan = plan_instance(&descriptor(InstanceFeatures::debug(), Some(7)), false);
    assert!(plan.window_extensions);
    assert!(!plan.validation);
    let plan = plan_instance(&descriptor(InstanceFeatures::empty(), None), true);
    assert!(!plan.validation);
}

#[test]
fn successful_setup_runs_every_step() {
    let plan = plan_instance(&descriptor(InstanceFeatures::debug(), None), true);
    let mut step = SetupStep::LoadLibrary;
    let mut seen = vec![step];
    loop {
        match next_setup_action(&plan, "libvulkan.so.1", step, Ok(())) {
            SetupAction::Run(next) => {
                seen.push(next);
                step = next;
            }
            SetupAction::Finish { debug_messenger } => {
                assert!(debug_messenger);
                break;
            }
            SetupAction::Fail(error) => panic!("unexpected failure {:?}", error),
        }
    }
    assert_eq!(
        seen,
        vec![
            SetupStep::LoadLibrary,
            SetupStep::CreateEntry,
            SetupStep::CreateInstance,
            SetupStep::CreateDebugMessenger
        ]
    );
}

#[test]
fn setup_without_validation_skips_messenger() {
    let plan = plan_instance(&descriptor(InstanceFeatures::empty(), None), true);
    assert!(matches!(
        next_setup_action(&plan, "libvulkan.so.1", SetupStep::CreateInstance, Ok(())),
        SetupAction::Finish { debug_messenger: false }
    ));
}

#[test]
fn failed_steps_end_setup() {
    let plan = plan_instance(&descriptor(InstanceFeatures::debug(), None), true);
    match next_setup_action(&plan, "libvulkan.so.1", SetupStep::LoadLibrary, Err(0)) {
        SetupAction::Fail(InstanceCreateError::UnableToLoadLibrary(location)) => {
            assert_eq!(location, "libvulkan.so.1")
        }
        other => panic!("unexpected {:?}", other),
    }
    assert!(matches!(
        next_setup_action(&plan, "vulkan-1.dll", SetupStep::CreateEntry, Err(-3)),
        SetupAction::Fail(InstanceCreateError::UnableToLoadLibrary(_))
    ));
    assert!(matches!(
        next_setup_action(&plan, "vulkan-1.dll", SetupStep::CreateInstance, Err(-9)),
        SetupAction::Fail(InstanceCreateError::IncompatibleDriver)
    ));
    assert!(matches!(
        next_setup_action(&plan, "vulkan-1.dll", SetupStep::CreateDebugMessenger, Err(-1000011001)),
        SetupAction::Fail(InstanceCreateError::DebugFailed)
    ));
}
