//! Composition of the parameters with which the instance is created: the
//! layers, the extensions, the creation flags and the descriptor of the debug
//! messenger.

use vstd::prelude::*;
use crate::platform::{
    all_categories,
    all_severities,
    debug_utils_extension_name,
    device_properties_extension_name,
    error_code_text,
    no_creation_flags,
    pack_version,
    platform_error_text,
    portability_enumeration_extension_name,
    portability_enumeration_flag,
};
use crate::router::{LogLevel, LogRecord};
use crate::registry::{
    portability_macos_version,
    portability_threshold,
    validation_layer,
    validation_layer_identifier,
    ApiVersion,
    AvailabilitySet,
};

verus! {

/// What the caller fixes before the bootstrap: whether validation is
/// instrumented, and whether the platform needs the portability subset.
#[derive(Clone, Copy, Debug, PartialEq, Eq, Structural)]
pub struct BootstrapConfig {
    pub validation_enabled: bool,
    pub portability_platform: bool,
}

/// The fatal outcomes of the bootstrap.
#[derive(Clone, Copy, Debug, PartialEq, Eq, Structural)]
pub enum BootstrapError {
    /// Validation is instrumented and the platform lacks the validation layer.
    MissingCapability,
    /// The platform refused a call; the code is the platform's own.
    PlatformRejection(i32),
    /// No enumerated device is suitable.
    NoSuitableDevice,
}

/// The masks of a debug messenger. Its callback is always the router.
#[derive(Clone, Copy, Debug, PartialEq, Eq, Structural)]
pub struct DebugMessengerDescriptor {
    pub severities: u32,
    pub categories: u32,
}

/// Names and versions by which the application presents itself.
#[derive(Debug)]
pub struct ApplicationIdentity {
    pub application_name: String,
    pub application_version: u32,
    pub engine_name: String,
    pub engine_version: u32,
    pub api_version: u32,
}

/// Everything that the creation of the instance is given.
#[derive(Debug)]
pub struct CreationParameters {
    pub identity: ApplicationIdentity,
    pub layers: Vec<String>,
    pub extensions: Vec<String>,
    pub flags: u32,
    pub debug_messenger: Option<DebugMessengerDescriptor>,
}

/// Whether the portability extensions are enabled: on a platform that needs
/// them, from the threshold version on.
pub open spec fn portability_applies(config: BootstrapConfig, version: ApiVersion) -> bool {
    config.portability_platform && version.at_least(portability_threshold())
}

/// Whether the composition is refused: validation is instrumented and the
/// platform does not offer the validation layer.
pub open spec fn capability_missing(config: BootstrapConfig, available: Set<Seq<char>>) -> bool {
    config.validation_enabled && !available.contains(validation_layer())
}

/// The enabled layers: the validation layer where validation is instrumented.
pub open spec fn composed_layers(config: BootstrapConfig) -> Seq<Seq<char>> {
    if config.validation_enabled {
        seq![validation_layer()]
    } else {
        Seq::empty()
    }
}

/// The extensions that portability adds.
pub open spec fn portability_extensions(config: BootstrapConfig, version: ApiVersion) -> Seq<
    Seq<char>,
> {
    if portability_applies(config, version) {
        seq!["VK_KHR_get_physical_device_properties2"@, "VK_KHR_portability_enumeration"@]
    } else {
        Seq::empty()
    }
}

/// The extensions that validation adds.
pub open spec fn validation_extensions(config: BootstrapConfig) -> Seq<Seq<char>> {
    if config.validation_enabled {
        seq!["VK_EXT_debug_utils"@]
    } else {
        Seq::empty()
    }
}

/// The enabled extensions: those that the windowing needs, then those of
/// portability, then that of validation.
pub open spec fn composed_extensions(
    config: BootstrapConfig,
    windowing: Seq<Seq<char>>,
    version: ApiVersion,
) -> Seq<Seq<char>> {
    windowing + portability_extensions(config, version) + validation_extensions(config)
}

/// The creation flags: the portability enumeration bit where portability
/// applies.
pub open spec fn composed_flags(config: BootstrapConfig, version: ApiVersion) -> u32 {
    if portability_applies(config, version) {
        1
    } else {
        0
    }
}

/// The descriptor that takes every severity and every category.
pub open spec fn full_descriptor() -> DebugMessengerDescriptor {
    DebugMessengerDescriptor { severities: 0x1111, categories: 0xF }
}

/// The descriptor chained into the creation: the full one, where validation
/// is instrumented.
pub open spec fn composed_descriptor(config: BootstrapConfig) -> Option<DebugMessengerDescriptor> {
    if config.validation_enabled {
        Some(full_descriptor())
    } else {
        None
    }
}

/// Whether `identity` is the identity of this application: its two names, and
/// version 1.0.0 in each of the three version words.
pub open spec fn is_application_identity(identity: ApplicationIdentity) -> bool {
    &&& identity.application_name@ == "Vulkan Testing"@
    &&& identity.engine_name@ == "No Engine"@
    &&& identity.application_version == 0x400000
    &&& identity.engine_version == 0x400000
    &&& identity.api_version == 0x400000
}

/// Whether `parameters` are the ones composed for this configuration, these
/// windowing extensions and this version: each part is fixed.
pub open spec fn parameters_match(
    config: BootstrapConfig,
    windowing: Seq<String>,
    version: ApiVersion,
    parameters: CreationParameters,
) -> bool {
    &&& is_application_identity(parameters.identity)
    &&& parameters.layers.deep_view() == composed_layers(config)
    &&& parameters.extensions.deep_view() == composed_extensions(
        config,
        windowing.map_values(|name: String| name@),
        version,
    )
    &&& parameters.flags == composed_flags(config, version)
    &&& parameters.debug_messenger == composed_descriptor(config)
}

/// What `compose_creation_parameters` promises: the refusal exactly where the
/// capability is missing, and otherwise each part of the parameters.
pub open spec fn composes(
    config: BootstrapConfig,
    available: Set<Seq<char>>,
    windowing: Seq<String>,
    version: ApiVersion,
    composed: Result<CreationParameters, BootstrapError>,
) -> bool {
    match composed {
        Err(error) => capability_missing(config, available) && error
            == BootstrapError::MissingCapability,
        Ok(parameters) => !capability_missing(config, available) && parameters_match(
            config,
            windowing,
            version,
            parameters,
        ),
    }
}

/// The notice that the portability extensions are enabled.
pub open spec fn portability_text() -> Seq<char> {
    "Enabling extensions for MacOS portability."@
}

/// The text of a fatal error.
pub open spec fn error_message(error: BootstrapError) -> Seq<char> {
    match error {
        BootstrapError::MissingCapability => "Validation layer requested but not supported."@,
        BootstrapError::PlatformRejection(code) => platform_error_text(code),
        BootstrapError::NoSuitableDevice => "Failed to find suitable physical device."@,
    }
}

impl BootstrapError {
    /// The error as a line of text. A refusal by the platform is given in the
    /// platform's own words.
    pub fn message(&self) -> (text: String)
        ensures
            text@ == error_message(*self),
    {
        match self {
            BootstrapError::MissingCapability => String::from_str(
                "Validation layer requested but not supported.",
            ),
            BootstrapError::PlatformRejection(code) => error_code_text(*code),
            BootstrapError::NoSuitableDevice => String::from_str(
                "Failed to find suitable physical device.",
            ),
        }
    }
}

/// The descriptor of the debug messenger: every severity, every category.
pub fn debug_messenger_descriptor() -> (descriptor: DebugMessengerDescriptor)
    ensures
        descriptor == full_descriptor(),
{
    DebugMessengerDescriptor { severities: all_severities(), categories: all_categories() }
}

/// The identity of this application.
pub fn application_identity() -> (identity: ApplicationIdentity)
    ensures
        is_application_identity(identity),
{
    assert(((1u32 << 22) | (0u32 << 12) | 0u32) == 0x400000) by (bit_vector);
    ApplicationIdentity {
        application_name: String::from_str("Vulkan Testing"),
        application_version: pack_version(1, 0, 0),
        engine_name: String::from_str("No Engine"),
        engine_version: pack_version(1, 0, 0),
        api_version: pack_version(1, 0, 0),
    }
}

/// Checks the offered layers against what the configuration needs: the
/// validation layer, where validation is instrumented.
pub fn check_capabilities(config: &BootstrapConfig, available_layers: &AvailabilitySet) -> (checked:
    Result<(), BootstrapError>)
    ensures
        checked is Err <==> capability_missing(*config, available_layers@),
        checked matches Err(error) ==> error == BootstrapError::MissingCapability,
{
    let validation = validation_layer_identifier();
    if config.validation_enabled && !available_layers.contains(&validation) {
        Err(BootstrapError::MissingCapability)
    } else {
        Ok(())
    }
}

/// Composes the creation parameters once the capabilities are known to be
/// there: the layers, the extensions in their order, the flags, the
/// descriptor and the identity.
pub fn compose_enabled(
    config: &BootstrapConfig,
    windowing_extensions: &Vec<String>,
    api_version: &ApiVersion,
) -> (parameters: CreationParameters)
    ensures
        parameters_match(*config, windowing_extensions@, *api_version, parameters),
{
    let mut layers: Vec<String> = Vec::new();
    if config.validation_enabled {
        layers.push(validation_layer_identifier());
    }
    let ghost windowing = windowing_extensions@.map_values(|name: String| name@);
    let mut extensions: Vec<String> = Vec::new();
    let mut i: usize = 0;
    while i < windowing_extensions.len()
        invariant
            i <= windowing_extensions.len(),
            windowing == windowing_extensions@.map_values(|name: String| name@),
            extensions@.len() == i,
            forall|j: int| 0 <= j < i ==> (#[trigger] extensions@[j])@ == windowing_extensions@[j]@,
        decreases windowing_extensions.len() - i,
    {
        extensions.push(windowing_extensions[i].clone());
        i += 1;
    }
    assert(extensions.deep_view() =~= windowing);
    let mut flags = no_creation_flags();
    if config.portability_platform && api_version.reaches(&portability_macos_version()) {
        extensions.push(device_properties_extension_name());
        extensions.push(portability_enumeration_extension_name());
        flags = portability_enumeration_flag();
    }
    assert(extensions.deep_view() =~= windowing + portability_extensions(*config, *api_version));
    let mut debug_messenger: Option<DebugMessengerDescriptor> = None;
    if config.validation_enabled {
        extensions.push(debug_utils_extension_name());
        debug_messenger = Some(debug_messenger_descriptor());
    }
    assert(extensions.deep_view() =~= composed_extensions(*config, windowing, *api_version));
    assert(layers.deep_view() =~= composed_layers(*config));
    CreationParameters { identity: application_identity(), layers, extensions, flags, debug_messenger }
}

/// Composes the creation parameters from the layers that the platform
/// offers, the extensions that the windowing needs and the version of the
/// platform's API. Refuses only where validation is instrumented and the
/// validation layer is not offered.
pub fn compose_creation_parameters(
    config: &BootstrapConfig,
    available_layers: &AvailabilitySet,
    windowing_extensions: &Vec<String>,
    api_version: &ApiVersion,
) -> (composed: Result<CreationParameters, BootstrapError>)
    ensures
        composes(*config, available_layers@, windowing_extensions@, *api_version, composed),
{
    match check_capabilities(config, available_layers) {
        Err(error) => Err(error),
        Ok(_) => Ok(compose_enabled(config, windowing_extensions, api_version)),
    }
}

/// The line that reports that the portability extensions are enabled, at
/// info level: there is one exactly where the parameters carry the
/// portability enumeration flag.
pub fn portability_notice(parameters: &CreationParameters) -> (record: Option<LogRecord>)
    ensures
        record is Some <==> parameters.flags == 1,
        record matches Some(line) ==> line.level == LogLevel::Info && line.text@
            == portability_text(),
{
    if parameters.flags == portability_enumeration_flag() {
        Some(
            LogRecord {
                level: LogLevel::Info,
                text: String::from_str("Enabling extensions for MacOS portability."),
            },
        )
    } else {
        None
    }
}

/// Composing twice from the same availability, the same windowing extensions
/// and the same version gives the same layers, extensions, flags and
/// descriptor, name for name.
pub proof fn composition_is_deterministic(
    config: BootstrapConfig,
    available: Set<Seq<char>>,
    windowing: Seq<String>,
    version: ApiVersion,
    first: Result<CreationParameters, BootstrapError>,
    second: Result<CreationParameters, BootstrapError>,
)
    requires
        composes(config, available, windowing, version, first),
        composes(config, available, windowing, version, second),
    ensures
        first is Ok <==> second is Ok,
        first is Err ==> first->Err_0 == second->Err_0,
        first is Ok ==> {
            &&& first->Ok_0.layers.deep_view() == second->Ok_0.layers.deep_view()
            &&& first->Ok_0.extensions.deep_view() == second->Ok_0.extensions.deep_view()
            &&& first->Ok_0.flags == second->Ok_0.flags
            &&& first->Ok_0.debug_messenger == second->Ok_0.debug_messenger
        },
{
}

} // verus!
