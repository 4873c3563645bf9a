use vk_bootstrap::compose::{
    application_identity, compose_creation_parameters, debug_messenger_descriptor,
    portability_notice, BootstrapConfig, BootstrapError, DebugMessengerDescriptor,
};
use vk_bootstrap::router::LogLevel;
use vk_bootstrap::registry::{
    is_listed, portability_macos_version, validation_layer_identifier, ApiVersion, AvailabilitySet,
};

fn names(list: &[&str]) -> Vec<String> {
    list.iter().map(|name| name.to_string()).collect()
}

fn offered(list: &[&str]) -> AvailabilitySet {
    AvailabilitySet::probe(&names(list))
}

fn config(validation_enabled: bool, portability_platform: bool) -> BootstrapConfig {
    BootstrapConfig { validation_enabled, portability_platform }
}

fn version(major: u32, minor: u32, patch: u32) -> ApiVersion {
    ApiVersion { major, minor, patch }
}

#[test]
fn validation_layer_has_its_khronos_name() {
    assert_eq!(validation_layer_identifier(), "VK_LAYER_KHRONOS_validation");
}

#[test]
fn portability_threshold_is_1_3_216() {
    assert_eq!(portability_macos_version(), version(1, 3, 216));
}

#[test]
fn listing_finds_exact_names_only() {
    let layer = validation_layer_identifier();
    assert!(is_listed(&names(&["VK_LAYER_KHRONOS_validation", "a"]), &layer));
    assert!(!is_listed(&names(&["a", "b"]), &layer));
    assert!(!is_listed(&names(&[]), &layer));
    assert!(!is_listed(&names(&["VK_LAYER_KHRONOS_validatio"]), &layer));
}

#[test]
fn availability_collapses_duplicates() {
    let layer = validation_layer_identifier();
    let available = offered(&["a", "VK_LAYER_KHRONOS_validation", "a", "b", "VK_LAYER_KHRONOS_validation"]);
    assert_eq!(available.names, names(&["a", "VK_LAYER_KHRONOS_validation", "b"]));
    assert!(available.contains(&layer));
    assert!(available.contains(&"b".to_string()));
    assert!(!available.contains(&"c".to_string()));
}

#[test]
fn availability_ignores_order() {
    let layer = validation_layer_identifier();
    assert!(offered(&["VK_LAYER_KHRONOS_validation", "a"]).contains(&layer));
    assert!(offered(&["a", "VK_LAYER_KHRONOS_validation"]).contains(&layer));
    assert!(!offered(&[]).contains(&layer));
    assert!(offered(&[]).names.is_empty());
}

#[test]
fn version_order_is_lexicographic() {
    let threshold = portability_macos_version();
    assert!(version(1, 3, 216).reaches(&threshold));
    assert!(version(1, 3, 217).reaches(&threshold));
    assert!(version(1, 4, 0).reaches(&threshold));
    assert!(version(2, 0, 0).reaches(&threshold));
    assert!(!version(1, 3, 215).reaches(&threshold));
    assert!(!version(1, 2, 999).reaches(&threshold));
    assert!(!version(0, 9, 999).reaches(&threshold));
}

#[test]
fn validation_with_one_windowing_extension() {
    let composed = compose_creation_parameters(
        &config(true, false),
        &offered(&["VK_LAYER_KHRONOS_validation"]),
        &names(&["surface_ext"]),
        &version(1, 0, 0),
    )
    .unwrap();
    assert_eq!(composed.extensions, names(&["surface_ext", "VK_EXT_debug_utils"]));
    assert_eq!(composed.layers, names(&["VK_LAYER_KHRONOS_validation"]));
    assert_eq!(composed.flags, 0);
    assert_eq!(
        composed.debug_messenger,
        Some(DebugMessengerDescriptor { severities: 0x1111, categories: 0xF })
    );
}

#[test]
fn empty_availability_is_refused() {
    let composed = compose_creation_parameters(
        &config(true, false),
        &offered(&[]),
        &names(&["surface_ext"]),
        &version(1, 0, 0),
    );
    assert_eq!(composed.err(), Some(BootstrapError::MissingCapability));
}

#[test]
fn missing_layer_is_no_error_without_validation() {
    let composed = compose_creation_parameters(
        &config(false, false),
        &offered(&[]),
        &names(&["surface_ext", "other_ext"]),
        &version(1, 0, 0),
    )
    .unwrap();
    assert!(composed.layers.is_empty());
    assert_eq!(composed.extensions, names(&["surface_ext", "other_ext"]));
    assert_eq!(composed.flags, 0);
    assert_eq!(composed.debug_messenger, None);
}

#[test]
fn portability_adds_two_extensions_and_the_flag() {
    let composed = compose_creation_parameters(
        &config(true, true),
        &offered(&["VK_LAYER_KHRONOS_validation"]),
        &names(&["surface_ext"]),
        &version(1, 3, 216),
    )
    .unwrap();
    assert_eq!(
        composed.extensions,
        names(&[
            "surface_ext",
            "VK_KHR_get_physical_device_properties2",
            "VK_KHR_portability_enumeration",
            "VK_EXT_debug_utils",
        ])
    );
    assert_eq!(composed.flags, 1);
}

#[test]
fn portability_is_announced_exactly_when_enabled() {
    let enabled = compose_creation_parameters(
        &config(false, true),
        &offered(&[]),
        &names(&["surface_ext"]),
        &version(1, 3, 216),
    )
    .unwrap();
    let notice = portability_notice(&enabled).unwrap();
    assert_eq!(notice.level, LogLevel::Info);
    assert_eq!(notice.text, "Enabling extensions for MacOS portability.");
    let plain = compose_creation_parameters(
        &config(true, false),
        &offered(&["VK_LAYER_KHRONOS_validation"]),
        &names(&["surface_ext"]),
        &version(1, 3, 216),
    )
    .unwrap();
    assert!(portability_notice(&plain).is_none());
}

#[test]
fn portability_needs_the_threshold_version() {
    let composed = compose_creation_parameters(
        &config(false, true),
        &offered(&[]),
        &names(&["surface_ext"]),
        &version(1, 3, 215),
    )
    .unwrap();
    assert_eq!(composed.extensions, names(&["surface_ext"]));
    assert_eq!(composed.flags, 0);
}

#[test]
fn portability_needs_the_platform() {
    let composed = compose_creation_parameters(
        &config(false, false),
        &offered(&[]),
        &names(&[]),
        &version(1, 3, 216),
    )
    .unwrap();
    assert!(composed.extensions.is_empty());
    assert_eq!(composed.flags, 0);
}

#[test]
fn composition_is_repeatable() {
    let offered = offered(&["x", "VK_LAYER_KHRONOS_validation"]);
    let windowing = names(&["surface_ext", "platform_surface_ext"]);
    let first =
        compose_creation_parameters(&config(true, true), &offered, &windowing, &version(1, 3, 300))
            .unwrap();
    let second =
        compose_creation_parameters(&config(true, true), &offered, &windowing, &version(1, 3, 300))
            .unwrap();
    assert_eq!(first.layers, second.layers);
    assert_eq!(first.extensions, second.extensions);
    assert_eq!(first.flags, second.flags);
    assert_eq!(first.debug_messenger, second.debug_messenger);
}

#[test]
fn identity_is_version_one_of_the_application() {
    let identity = application_identity();
    assert_eq!(identity.application_name, "Vulkan Testing");
    assert_eq!(identity.engine_name, "No Engine");
    assert_eq!(identity.application_version, 4194304);
    assert_eq!(identity.engine_version, 4194304);
    assert_eq!(identity.api_version, 4194304);
}

#[test]
fn descriptor_takes_every_severity_and_category() {
    let descriptor = debug_messenger_descriptor();
    assert_eq!(descriptor.severities, 0x1111);
    assert_eq!(descriptor.categories, 0xF);
}

#[test]
fn fatal_errors_have_their_messages() {
    assert_eq!(
        BootstrapError::MissingCapability.message(),
        "Validation layer requested but not supported."
    );
    assert_eq!(
        BootstrapError::NoSuitableDevice.message(),
        "Failed to find suitable physical device."
    );
    let layer = BootstrapError::PlatformRejection(-6).message();
    let extension = BootstrapError::PlatformRejection(-7).message();
    assert_eq!(layer, "A requested layer is not present or could not be loaded.");
    assert_ne!(layer, extension);
    assert!(!extension.is_empty());
}
