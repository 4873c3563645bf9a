//! The application: the handles that it holds and the steps of its life. The
//! creation is a dialogue with the platform: the application says which call
//! comes next, the caller makes it and reports what came back.

use vstd::prelude::*;
use crate::compose::{
    capability_missing,
    check_capabilities,
    compose_enabled,
    debug_messenger_descriptor,
    full_descriptor,
    parameters_match,
    BootstrapConfig,
    BootstrapError,
    CreationParameters,
    DebugMessengerDescriptor,
};
use crate::device::{any_suitable, choose_physical_device, selects, DeviceInfo, Rejection, Selection};
use crate::registry::{availability_set, ApiVersion, AvailabilitySet};

verus! {

/// Where the application stands in its life.
#[derive(Clone, Copy, Debug, PartialEq, Eq, Structural)]
pub enum Phase {
    /// Nothing exists yet, or the creation was aborted.
    Uninitialized,
    /// The layers of the platform were asked for.
    Probing,
    /// The layers suffice; the windowing's extensions and the version of the
    /// platform's API were asked for.
    Composing,
    /// The creation of the instance was asked for.
    Instantiating,
    /// The instance exists and the debug messenger was asked for.
    Registering,
    /// The devices were asked for.
    Selecting,
    /// Instance, messenger (under validation) and device are held.
    Created,
    /// Instance and messenger were released; the device, which is the
    /// platform's, is still named. Nothing follows.
    Destroyed,
}

/// The application and the handles it owns. A handle is the platform's raw
/// value.
#[derive(Clone, Copy, Debug, PartialEq, Eq, Structural)]
pub struct App {
    pub config: BootstrapConfig,
    pub phase: Phase,
    pub instance: Option<u64>,
    pub debug_messenger: Option<u64>,
    pub phys_device: Option<u64>,
}

/// What the platform reports during the creation.
#[derive(Debug)]
pub enum Event {
    /// The creation is asked for.
    Begin,
    /// The layers that the platform offers.
    LayersEnumerated(Vec<String>),
    /// The extensions that the windowing needs and, where it was asked for,
    /// the version of the platform's API.
    ExtensionsGathered { windowing_extensions: Vec<String>, api_version: Option<ApiVersion> },
    /// The instance was created.
    InstanceCreated(u64),
    /// The debug messenger was registered.
    MessengerRegistered(u64),
    /// The devices of the platform, in its order.
    DevicesEnumerated(Vec<DeviceInfo>),
    /// The call that was asked for failed with this code.
    PlatformFailed(i32),
}

/// What the caller does next.
#[derive(Debug)]
pub enum Action {
    /// Enumerate the layers of the platform.
    EnumerateLayers,
    /// Ask the windowing for its extensions and, where `query_version` is
    /// set, the platform for the version of its API.
    GatherExtensions { query_version: bool },
    /// Create the instance with these parameters.
    CreateInstance(CreationParameters),
    /// Register a debug messenger on the instance.
    RegisterMessenger { instance: u64, descriptor: DebugMessengerDescriptor },
    /// Enumerate the devices of the instance.
    EnumerateDevices { instance: u64 },
    /// The application is created, with the device at this place; the
    /// devices before it were rejected.
    Ready { device: usize, rejections: Vec<Rejection> },
    /// The creation failed; under `NoSuitableDevice` every device was
    /// rejected. `releases` names, in order, what the failed step had
    /// already allocated and the caller now releases: the instance, where
    /// the registration of the messenger failed on it.
    Abort { error: BootstrapError, rejections: Vec<Rejection>, releases: Vec<Release> },
    /// The event does not belong to the phase: nothing changed.
    Ignored,
}

/// One release of a handle.
#[derive(Clone, Copy, Debug, PartialEq, Eq, Structural)]
pub enum Release {
    DebugMessenger(u64),
    Instance(u64),
}

impl App {
    /// The handles fit the phase: none before the instance exists; a
    /// messenger only under validation, and always from the selection on; a
    /// device from the creation on, also after instance and messenger are
    /// released.
    pub open spec fn well_formed(self) -> bool {
        match self.phase {
            Phase::Uninitialized | Phase::Probing | Phase::Composing | Phase::Instantiating => {
                self.instance is None && self.debug_messenger is None && self.phys_device is None
            },
            Phase::Destroyed => {
                self.instance is None && self.debug_messenger is None && self.phys_device is Some
            },
            Phase::Registering => {
                &&& self.config.validation_enabled
                &&& self.instance is Some
                &&& self.debug_messenger is None
                &&& self.phys_device is None
            },
            Phase::Selecting => {
                &&& self.instance is Some
                &&& (self.debug_messenger is Some <==> self.config.validation_enabled)
                &&& self.phys_device is None
            },
            Phase::Created => {
                &&& self.instance is Some
                &&& (self.debug_messenger is Some <==> self.config.validation_enabled)
                &&& self.phys_device is Some
            },
        }
    }

    /// The application with nothing created.
    pub open spec fn initial(config: BootstrapConfig) -> App {
        App {
            config,
            phase: Phase::Uninitialized,
            instance: None,
            debug_messenger: None,
            phys_device: None,
        }
    }

    /// The same application in another phase.
    pub open spec fn at(self, phase: Phase) -> App {
        App {
            config: self.config,
            phase,
            instance: self.instance,
            debug_messenger: self.debug_messenger,
            phys_device: self.phys_device,
        }
    }

    /// Whether a call on the platform is awaited.
    pub open spec fn awaits_platform(self) -> bool {
        self.phase == Phase::Probing || self.phase == Phase::Composing || self.phase
            == Phase::Instantiating || self.phase == Phase::Registering || self.phase
            == Phase::Selecting
    }

    /// What a failed call leaves to release: the instance, where the call
    /// was the registration of the messenger on it; nothing elsewhere.
    pub open spec fn failure_releases(self) -> Seq<Release> {
        match (self.phase, self.instance) {
            (Phase::Registering, Some(instance)) => seq![Release::Instance(instance)],
            _ => Seq::empty(),
        }
    }

    /// The application after `destroy`: instance and messenger are gone, the
    /// device is the one that was selected.
    pub open spec fn destroyed(self) -> App {
        App {
            config: self.config,
            phase: Phase::Destroyed,
            instance: None,
            debug_messenger: None,
            phys_device: self.phys_device,
        }
    }

    /// The phase that follows the creation of the instance.
    pub open spec fn after_instance(self, instance: u64) -> App {
        App {
            config: self.config,
            phase: if self.config.validation_enabled {
                Phase::Registering
            } else {
                Phase::Selecting
            },
            instance: Some(instance),
            debug_messenger: None,
            phys_device: None,
        }
    }

    /// The releases of `destroy`, in their order: the messenger, where there
    /// is one, and then the instance.
    pub open spec fn teardown(self) -> Seq<Release> {
        match (self.debug_messenger, self.instance) {
            (Some(messenger), Some(instance)) => seq![
                Release::DebugMessenger(messenger),
                Release::Instance(instance),
            ],
            (None, Some(instance)) => seq![Release::Instance(instance)],
            _ => Seq::empty(),
        }
    }

    /// An application with nothing created.
    pub fn new(config: BootstrapConfig) -> (app: App)
        ensures
            app == App::initial(config),
            app.well_formed(),
    {
        App { config, phase: Phase::Uninitialized, instance: None, debug_messenger: None, phys_device: None }
    }

    /// Decides `well_formed`.
    pub fn is_well_formed(&self) -> (fits: bool)
        ensures
            fits == self.well_formed(),
    {
        match self.phase {
            Phase::Uninitialized | Phase::Probing | Phase::Composing | Phase::Instantiating => {
                self.instance.is_none() && self.debug_messenger.is_none() && self.phys_device.is_none()
            },
            Phase::Destroyed => {
                self.instance.is_none() && self.debug_messenger.is_none() && self.phys_device.is_some()
            },
            Phase::Registering => {
                self.config.validation_enabled && self.instance.is_some()
                    && self.debug_messenger.is_none() && self.phys_device.is_none()
            },
            Phase::Selecting => {
                self.instance.is_some() && self.debug_messenger.is_some()
                    == self.config.validation_enabled && self.phys_device.is_none()
            },
            Phase::Created => {
                self.instance.is_some() && self.debug_messenger.is_some()
                    == self.config.validation_enabled && self.phys_device.is_some()
            },
        }
    }

    /// Takes one step of the creation: reads what the platform reported and
    /// says what to do next. An abort leaves the application with nothing and
    /// names what the caller has to release. An event that does not belong to
    /// the phase changes nothing.
    pub fn create(&mut self, event: Event) -> (action: Action)
        requires
            old(self).well_formed(),
        ensures
            final(self).well_formed(),
            steps(*old(self), event, *final(self), action),
    {
        match event {
            Event::Begin => {
                if self.phase == Phase::Uninitialized {
                    self.phase = Phase::Probing;
                    Action::EnumerateLayers
                } else {
                    Action::Ignored
                }
            },
            Event::LayersEnumerated(layers) => {
                if self.phase == Phase::Probing {
                    let available = AvailabilitySet::probe(&layers);
                    match check_capabilities(&self.config, &available) {
                        Ok(_) => {
                            self.phase = Phase::Composing;
                            Action::GatherExtensions { query_version: self.config.portability_platform }
                        },
                        Err(error) => {
                            self.phase = Phase::Uninitialized;
                            Action::Abort { error, rejections: Vec::new(), releases: Vec::new() }
                        },
                    }
                } else {
                    Action::Ignored
                }
            },
            Event::ExtensionsGathered { windowing_extensions, api_version } => {
                if self.phase == Phase::Composing {
                    self.phase = Phase::Instantiating;
                    let version = match api_version {
                        Some(version) => version,
                        None => ApiVersion { major: 0, minor: 0, patch: 0 },
                    };
                    Action::CreateInstance(
                        compose_enabled(&self.config, &windowing_extensions, &version),
                    )
                } else {
                    Action::Ignored
                }
            },
            Event::InstanceCreated(instance) => {
                if self.phase == Phase::Instantiating {
                    self.instance = Some(instance);
                    if self.config.validation_enabled {
                        self.phase = Phase::Registering;
                        Action::RegisterMessenger { instance, descriptor: debug_messenger_descriptor() }
                    } else {
                        self.phase = Phase::Selecting;
                        Action::EnumerateDevices { instance }
                    }
                } else {
                    Action::Ignored
                }
            },
            Event::MessengerRegistered(messenger) => {
                if self.phase == Phase::Registering {
                    match self.instance {
                        Some(instance) => {
                            self.debug_messenger = Some(messenger);
                            self.phase = Phase::Selecting;
                            Action::EnumerateDevices { instance }
                        },
                        None => Action::Ignored,
                    }
                } else {
                    Action::Ignored
                }
            },
            Event::DevicesEnumerated(devices) => {
                if self.phase == Phase::Selecting {
                    let selection = choose_physical_device(&devices);
                    match selection.chosen {
                        Some(device) => {
                            self.phys_device = Some(devices[device].handle);
                            self.phase = Phase::Created;
                            Action::Ready { device, rejections: selection.rejections }
                        },
                        None => {
                            self.abandon();
                            Action::Abort {
                                error: BootstrapError::NoSuitableDevice,
                                rejections: selection.rejections,
                                releases: Vec::new(),
                            }
                        },
                    }
                } else {
                    Action::Ignored
                }
            },
            Event::PlatformFailed(code) => {
                if self.phase == Phase::Probing || self.phase == Phase::Composing || self.phase
                    == Phase::Instantiating || self.phase == Phase::Registering || self.phase
                    == Phase::Selecting {
                    let mut releases: Vec<Release> = Vec::new();
                    if self.phase == Phase::Registering {
                        match self.instance {
                            Some(instance) => {
                                releases.push(Release::Instance(instance));
                            },
                            None => {},
                        }
                    }
                    proof {
                        assert(releases@ =~= old(self).failure_releases());
                    }
                    self.abandon();
                    Action::Abort {
                        error: BootstrapError::PlatformRejection(code),
                        rejections: Vec::new(),
                        releases,
                    }
                } else {
                    Action::Ignored
                }
            },
        }
    }

    /// Forgets what was created so far.
    fn abandon(&mut self)
        ensures
            *final(self) == App::initial(old(self).config),
    {
        self.phase = Phase::Uninitialized;
        self.instance = None;
        self.debug_messenger = None;
        self.phys_device = None;
    }

    /// Renders a frame. There is nothing to render yet: the application is
    /// left as it is, however often this is called.
    pub fn render(&mut self) -> (rendered: Result<(), BootstrapError>)
        ensures
            rendered is Ok,
            *final(self) == *old(self),
    {
        Ok(())
    }

    /// Ends the application and says which handles to release, in order: the
    /// debug messenger, if there is one, before the instance. The device is
    /// the platform's: it is not released and stays as it was selected.
    pub fn destroy(&mut self) -> (releases: Vec<Release>)
        requires
            old(self).well_formed(),
            old(self).phase == Phase::Created,
        ensures
            releases@ == old(self).teardown(),
            *final(self) == old(self).destroyed(),
            final(self).phys_device == old(self).phys_device,
            final(self).well_formed(),
    {
        let mut releases: Vec<Release> = Vec::new();
        match self.debug_messenger {
            Some(messenger) => {
                releases.push(Release::DebugMessenger(messenger));
            },
            None => {},
        }
        match self.instance {
            Some(instance) => {
                releases.push(Release::Instance(instance));
            },
            None => {},
        }
        proof {
            assert(releases@ =~= old(self).teardown());
        }
        self.instance = None;
        self.debug_messenger = None;
        self.phase = Phase::Destroyed;
        releases
    }
}

/// The version that the composition goes by: the one reported, and the
/// earliest of all where none was reported, so that no threshold is reached.
pub open spec fn reported_version(api_version: Option<ApiVersion>) -> ApiVersion {
    match api_version {
        Some(version) => version,
        None => ApiVersion { major: 0, minor: 0, patch: 0 },
    }
}

/// Whether `rejections` is empty.
pub open spec fn none_rejected(rejections: Vec<Rejection>) -> bool {
    rejections@.len() == 0
}

/// Whether `releases` is empty.
pub open spec fn none_released(releases: Vec<Release>) -> bool {
    releases@.len() == 0
}

/// Whether the step changed nothing.
pub open spec fn ignores(before: App, after: App, action: Action) -> bool {
    after == before && action is Ignored
}

/// One step of the creation, as a relation between the application before,
/// the event, the application after and the action.
pub open spec fn steps(before: App, event: Event, after: App, action: Action) -> bool {
    match event {
        Event::Begin => if before.phase == Phase::Uninitialized {
            after == before.at(Phase::Probing) && action is EnumerateLayers
        } else {
            ignores(before, after, action)
        },
        Event::LayersEnumerated(layers) => if before.phase == Phase::Probing {
            if capability_missing(before.config, availability_set(layers@)) {
                &&& after == App::initial(before.config)
                &&& action matches Action::Abort { error, rejections, releases }
                &&& error == BootstrapError::MissingCapability
                &&& none_rejected(rejections)
                &&& none_released(releases)
            } else {
                &&& after == before.at(Phase::Composing)
                &&& action matches Action::GatherExtensions { query_version }
                &&& query_version == before.config.portability_platform
            }
        } else {
            ignores(before, after, action)
        },
        Event::ExtensionsGathered { windowing_extensions, api_version } => if before.phase
            == Phase::Composing {
            &&& after == before.at(Phase::Instantiating)
            &&& action matches Action::CreateInstance(parameters)
            &&& parameters_match(
                before.config,
                windowing_extensions@,
                reported_version(api_version),
                parameters,
            )
        } else {
            ignores(before, after, action)
        },
        Event::InstanceCreated(handle) => if before.phase == Phase::Instantiating {
            &&& after == before.after_instance(handle)
            &&& if before.config.validation_enabled {
                &&& action matches Action::RegisterMessenger { instance, descriptor }
                &&& instance == handle
                &&& descriptor == full_descriptor()
            } else {
                action matches Action::EnumerateDevices { instance } && instance == handle
            }
        } else {
            ignores(before, after, action)
        },
        Event::MessengerRegistered(messenger) => if before.phase == Phase::Registering {
            &&& after == App {
                config: before.config,
                phase: Phase::Selecting,
                instance: before.instance,
                debug_messenger: Some(messenger),
                phys_device: None,
            }
            &&& action matches Action::EnumerateDevices { instance }
            &&& Some(instance) == before.instance
        } else {
            ignores(before, after, action)
        },
        Event::DevicesEnumerated(devices) => if before.phase == Phase::Selecting {
            if any_suitable(devices@) {
                &&& action matches Action::Ready { device, rejections }
                &&& selects(devices@, Selection { chosen: Some(device), rejections })
                &&& after == App {
                    config: before.config,
                    phase: Phase::Created,
                    instance: before.instance,
                    debug_messenger: before.debug_messenger,
                    phys_device: Some(devices@[device as int].handle),
                }
            } else {
                &&& action matches Action::Abort { error, rejections, releases }
                &&& error == BootstrapError::NoSuitableDevice
                &&& selects(devices@, Selection { chosen: None, rejections })
                &&& none_released(releases)
                &&& after == App::initial(before.config)
            }
        } else {
            ignores(before, after, action)
        },
        Event::PlatformFailed(code) => if before.awaits_platform() {
            &&& after == App::initial(before.config)
            &&& action matches Action::Abort { error, rejections, releases }
            &&& error == BootstrapError::PlatformRejection(code)
            &&& none_rejected(rejections)
            &&& releases@ == before.failure_releases()
        } else {
            ignores(before, after, action)
        },
    }
}

/// Where validation is instrumented and the platform does not offer the
/// validation layer, the creation is aborted with the missing capability, no
/// instance is asked for and none is held.
pub proof fn missing_layer_aborts_creation(before: App, event: Event, after: App, action: Action)
    requires
        before.well_formed(),
        before.phase == Phase::Probing,
        before.config.validation_enabled,
        event matches Event::LayersEnumerated(layers) && capability_missing(
            before.config,
            availability_set(layers@),
        ),
        steps(before, event, after, action),
    ensures
        action matches Action::Abort { error, .. } && error == BootstrapError::MissingCapability,
        !(action is CreateInstance),
        !(action is GatherExtensions),
        after.phase == Phase::Uninitialized,
        after.instance is None,
{
}

/// A created application under validation releases two handles: first the
/// debug messenger, then the instance.
pub proof fn messenger_is_released_before_instance(app: App)
    requires
        app.well_formed(),
        app.phase == Phase::Created,
        app.config.validation_enabled,
    ensures
        app.teardown().len() == 2,
        app.teardown()[0] is DebugMessenger,
        app.teardown()[1] is Instance,
        app.teardown()[0] == Release::DebugMessenger(app.debug_messenger->Some_0),
        app.teardown()[1] == Release::Instance(app.instance->Some_0),
{
}

/// In every teardown of a created application the instance is released
/// last and exactly once, and a messenger is released only where validation
/// is instrumented.
pub proof fn instance_is_released_last(app: App)
    requires
        app.well_formed(),
        app.phase == Phase::Created,
    ensures
        app.teardown().len() >= 1,
        app.teardown().last() == Release::Instance(app.instance->Some_0),
        forall|i: int|
            0 <= i < app.teardown().len() - 1 ==> (#[trigger] app.teardown()[i]) is DebugMessenger,
        app.teardown().len() == 2 <==> app.config.validation_enabled,
{
}

/// Where the registration of the debug messenger fails, the instance that
/// was created for it is handed out for release, alone, and the application
/// holds nothing.
pub proof fn failed_registration_releases_instance(
    before: App,
    code: i32,
    after: App,
    action: Action,
)
    requires
        before.well_formed(),
        before.phase == Phase::Registering,
        steps(before, Event::PlatformFailed(code), after, action),
    ensures
        action matches Action::Abort { error, releases, .. } && error
            == BootstrapError::PlatformRejection(code) && releases@ == seq![
            Release::Instance(before.instance->Some_0),
        ],
        after == App::initial(before.config),
{
}

/// The destruction releases nothing of the device and leaves it as it was
/// selected.
pub proof fn destroy_keeps_device(app: App)
    requires
        app.well_formed(),
        app.phase == Phase::Created,
    ensures
        app.destroyed().phys_device == app.phys_device,
        app.destroyed().phys_device is Some,
        app.destroyed().well_formed(),
{
}

/// Nothing follows the destruction: every event is ignored and the
/// application stays as it is. The same holds of a created application.
pub proof fn created_and_destroyed_ignore_events(before: App, event: Event, after: App, action: Action)
    requires
        before.phase == Phase::Destroyed || before.phase == Phase::Created,
        steps(before, event, after, action),
    ensures
        after == before,
        action is Ignored,
{
}

/// No step of the creation leaves the application created without a device,
/// and an abort leaves it with none of its handles.
pub proof fn creation_is_all_or_nothing(before: App, event: Event, after: App, action: Action)
    requires
        before.well_formed(),
        steps(before, event, after, action),
    ensures
        action is Abort ==> after == App::initial(before.config),
        action is Ready ==> after.phase == Phase::Created && after.phys_device is Some
            && after.instance is Some,
        after.phase == Phase::Created && before.phase != Phase::Created ==> action is Ready,
{
}

} // verus!
