//! Provisioning a simulator for a new session.
//!
//! Provisioning is a chain of tool runs, each decided by what the run before
//! it gave. The [`Provisioner`] holds where the chain stands: the caller asks
//! it for the action that is due, performs the action and reports the event
//! that came of it.

use crate::command::{text_object, Response, ResponseValue, ResponseView};
use crate::json::{json_parse, JsonModel};
use crate::ports::{after_probe, port_step, PortManager, PortStep};
use crate::search::{find_simulator, search_simulator, Search, SearchView};
use crate::simctl::{
    add_root_certificate, add_root_certificate_spec, app_location, app_path, boot, boot_spec,
    followed_by, create, create_spec, device_name, install, install_spec, launch, launch_spec,
    list_devices, list_devices_spec, log_config, log_config_spec, log_stream_spec,
    monitor_simulator_logs, open_simulator, open_simulator_spec, simulator_name, terminate,
    terminate_spec, uninstall, uninstall_spec, write_defaults, write_defaults_spec, LogLevel,
    ToolCommand, ToolCommandView,
};
use crate::text::{decimal, decimal_text, owned, trim, trimmed};
use vstd::prelude::*;

verus! {

/// The device type that is provisioned when none is asked for.
pub const DEFAULT_DEVICE: &'static str = "iPhone-16";

/// The operating system version that is provisioned when none is asked for.
pub const DEFAULT_OS: &'static str = "iOS-18-2";

/// Where the build output lies, below the working directory, when no other
/// place is given.
pub const DEFAULT_DERIVED_DATA: &'static str = "/../DerivedData";

/// How often the automation port is tried before the wait for the
/// application is given up, when no other number is given.
pub const DEFAULT_HANDSHAKE_POLLS: u32 = 600;

/// What a session is provisioned with.
#[derive(Clone, Debug, PartialEq, Eq)]
pub struct ProvisionConfig {
    pub target_device: String,
    pub target_os: String,
    /// The build-output directory that holds the application binary.
    pub derived_data_path: String,
    /// The root certificate that a new simulator is made to trust.
    pub certificate_path: String,
    pub log_level: LogLevel,
    /// How often the automation port is tried before the wait for the
    /// application is given up.
    pub handshake_polls: u32,
}

/// What a session is provisioned with, as plain data.
pub struct ConfigView {
    pub target_device: Seq<char>,
    pub target_os: Seq<char>,
    pub derived_data_path: Seq<char>,
    pub certificate_path: Seq<char>,
    pub log_level: LogLevel,
    pub handshake_polls: u32,
}

impl View for ProvisionConfig {
    type V = ConfigView;

    open spec fn view(&self) -> ConfigView {
        ConfigView {
            target_device: self.target_device@,
            target_os: self.target_os@,
            derived_data_path: self.derived_data_path@,
            certificate_path: self.certificate_path@,
            log_level: self.log_level,
            handshake_polls: self.handshake_polls,
        }
    }
}

/// The text of an optional setting, or the default where it is not set.
pub open spec fn setting_or(setting: Option<String>, default: Seq<char>) -> Seq<char> {
    match setting {
        Some(text) => text@,
        None => default,
    }
}

/// The configuration that the environment asks for.
pub open spec fn resolved(
    target_device: Option<String>,
    target_os: Option<String>,
    derived_data: Option<String>,
    current_dir: Seq<char>,
    certificate_path: Seq<char>,
    log_level: LogLevel,
) -> ConfigView {
    ConfigView {
        target_device: setting_or(target_device, DEFAULT_DEVICE@),
        target_os: setting_or(target_os, DEFAULT_OS@),
        derived_data_path: setting_or(derived_data, current_dir + DEFAULT_DERIVED_DATA@),
        certificate_path,
        log_level,
        handshake_polls: DEFAULT_HANDSHAKE_POLLS,
    }
}

/// Why provisioning came to an end without a session.
#[derive(Clone, Copy, Debug, PartialEq, Eq, Structural)]
pub enum ProvisionError {
    /// The list of simulators could not be read.
    InvalidDeviceList,
    /// The tool did not create the simulator.
    CreateFailed,
    /// The tool did not install the application.
    InstallFailed,
    /// The tool did not set the level at which the log is streamed.
    LogLevelFailed,
    /// The tool did not set the level at which the log is kept.
    LogPersistFailed,
    /// No port is left for the automation server.
    NoPortAvailable,
    /// The tool did not launch the application.
    LaunchFailed,
    /// The application did not start listening in time.
    HandshakeTimeout,
    /// An event was reported that does not answer the action that was due.
    UnexpectedEvent,
}

/// Whether a failure ends the whole process. Only a simulator that could not
/// be created leaves the process running: the command is then answered with
/// null.
pub open spec fn is_fatal_spec(error: ProvisionError) -> bool {
    error != ProvisionError::CreateFailed
}

/// What a failure is called when it is reported.
pub open spec fn message_spec(error: ProvisionError) -> Seq<char> {
    match error {
        ProvisionError::InvalidDeviceList => "Failed to parse simulator list"@,
        ProvisionError::CreateFailed => "Failed to create a new simulator"@,
        ProvisionError::InstallFailed => "Failed to install the app"@,
        ProvisionError::LogLevelFailed => "Failed to set log level"@,
        ProvisionError::LogPersistFailed => "Failed to persist log level"@,
        ProvisionError::NoPortAvailable => "No available ports found"@,
        ProvisionError::LaunchFailed => "Failed to launch the app"@,
        ProvisionError::HandshakeTimeout => "Timed out waiting for the automation server"@,
        ProvisionError::UnexpectedEvent => "Unexpected event"@,
    }
}

impl ProvisionError {
    /// Whether the failure ends the whole process.
    pub fn is_fatal(&self) -> (r: bool)
        ensures
            r == is_fatal_spec(*self),
    {
        match *self {
            ProvisionError::CreateFailed => false,
            _ => true,
        }
    }

    /// What the failure is called when it is reported.
    pub fn message(&self) -> (r: String)
        ensures
            r@ == message_spec(*self),
    {
        match *self {
            ProvisionError::InvalidDeviceList => owned("Failed to parse simulator list"),
            ProvisionError::CreateFailed => owned("Failed to create a new simulator"),
            ProvisionError::InstallFailed => owned("Failed to install the app"),
            ProvisionError::LogLevelFailed => owned("Failed to set log level"),
            ProvisionError::LogPersistFailed => owned("Failed to persist log level"),
            ProvisionError::NoPortAvailable => owned("No available ports found"),
            ProvisionError::LaunchFailed => owned("Failed to launch the app"),
            ProvisionError::HandshakeTimeout => owned(
                "Timed out waiting for the automation server",
            ),
            ProvisionError::UnexpectedEvent => owned("Unexpected event"),
        }
    }
}

/// Where provisioning stands: the action that is due, or the end it came to.
#[derive(Clone, Copy, Debug, PartialEq, Eq, Structural)]
pub enum Step {
    SearchExisting,
    CreateNew,
    InstallingCertificate,
    Booting,
    OpeningApp,
    Terminating,
    Uninstalling,
    Installing,
    StartingLogMonitor,
    SettingLogLevel,
    PersistingLogLevel,
    WritingTestingFlag,
    WritingOnboardingFlag,
    AllocatingPort,
    WritingPort,
    Launching,
    AwaitingHandshake,
    StoppingLogMonitor,
    Ready,
    Failed,
}

/// The phases in the life of a session that is being provisioned.
#[derive(Clone, Copy, Debug, PartialEq, Eq, Structural)]
pub enum Phase {
    SearchExisting,
    CreateNew,
    Booting,
    OpeningApp,
    CleaningPriorInstall,
    Installing,
    ConfiguringInstrumentation,
    Launching,
    AwaitingHandshake,
    Ready,
    Failed,
}

/// The place of a step in the order in which steps are taken.
pub open spec fn rank(step: Step) -> nat {
    match step {
        Step::SearchExisting => 0,
        Step::CreateNew => 1,
        Step::InstallingCertificate => 2,
        Step::Booting => 3,
        Step::OpeningApp => 4,
        Step::Terminating => 5,
        Step::Uninstalling => 6,
        Step::Installing => 7,
        Step::StartingLogMonitor => 8,
        Step::SettingLogLevel => 9,
        Step::PersistingLogLevel => 10,
        Step::WritingTestingFlag => 11,
        Step::WritingOnboardingFlag => 12,
        Step::AllocatingPort => 13,
        Step::WritingPort => 14,
        Step::Launching => 15,
        Step::AwaitingHandshake => 16,
        Step::StoppingLogMonitor => 17,
        Step::Ready => 18,
        Step::Failed => 19,
    }
}

/// The phase that a step belongs to.
pub open spec fn phase_of(step: Step) -> Phase {
    match step {
        Step::SearchExisting => Phase::SearchExisting,
        Step::CreateNew => Phase::CreateNew,
        Step::InstallingCertificate => Phase::CreateNew,
        Step::Booting => Phase::Booting,
        Step::OpeningApp => Phase::OpeningApp,
        Step::Terminating => Phase::CleaningPriorInstall,
        Step::Uninstalling => Phase::CleaningPriorInstall,
        Step::Installing => Phase::Installing,
        Step::StartingLogMonitor => Phase::ConfiguringInstrumentation,
        Step::SettingLogLevel => Phase::ConfiguringInstrumentation,
        Step::PersistingLogLevel => Phase::ConfiguringInstrumentation,
        Step::WritingTestingFlag => Phase::ConfiguringInstrumentation,
        Step::WritingOnboardingFlag => Phase::ConfiguringInstrumentation,
        Step::AllocatingPort => Phase::ConfiguringInstrumentation,
        Step::WritingPort => Phase::ConfiguringInstrumentation,
        Step::Launching => Phase::Launching,
        Step::AwaitingHandshake => Phase::AwaitingHandshake,
        Step::StoppingLogMonitor => Phase::AwaitingHandshake,
        Step::Ready => Phase::Ready,
        Step::Failed => Phase::Failed,
    }
}

/// What came of an action.
#[derive(Clone, Debug, PartialEq, Eq)]
pub enum Event {
    /// A tool ran to its end.
    Tool { success: bool, stdout: String, stderr: String },
    /// A port was tried: `available` says that it could be bound.
    Probe { available: bool },
    /// The log monitor was started or stopped.
    Done,
}

/// What the caller has to do next.
#[derive(Debug, PartialEq)]
pub enum Action {
    /// Run the tool to its end and report an [`Event::Tool`].
    Run(ToolCommand),
    /// Start the tool, keep forwarding the lines it prints, and report
    /// [`Event::Done`].
    StartLogMonitor(ToolCommand),
    /// Stop the tool that was started last and report [`Event::Done`].
    StopLogMonitor,
    /// Try to bind the port and report an [`Event::Probe`].
    Probe(u16),
    /// Provisioning is over: answer the command with this response.
    Finish(Response),
    /// Provisioning is over: give up with this failure.
    Abort { error: ProvisionError, detail: String },
}

/// What the caller has to do next, as plain data.
pub enum ActionView {
    Run(ToolCommandView),
    StartLogMonitor(ToolCommandView),
    StopLogMonitor,
    Probe(u16),
    Finish(ResponseView),
    Abort { error: ProvisionError, detail: Seq<char> },
}

impl View for Action {
    type V = ActionView;

    open spec fn view(&self) -> ActionView {
        match *self {
            Action::Run(command) => ActionView::Run(command@),
            Action::StartLogMonitor(command) => ActionView::StartLogMonitor(command@),
            Action::StopLogMonitor => ActionView::StopLogMonitor,
            Action::Probe(port) => ActionView::Probe(port),
            Action::Finish(response) => ActionView::Finish(response@),
            Action::Abort { error, detail } => ActionView::Abort { error, detail: detail@ },
        }
    }
}

/// Where provisioning stands, as plain data.
pub struct ProvisionerView {
    pub config: ConfigView,
    pub step: Step,
    /// The identifier of the simulator, once it is found or created.
    pub udid: Seq<char>,
    /// Whether the simulator was created for this session.
    pub created: bool,
    /// The automation port: the one being tried while a port is looked for,
    /// the session's own afterwards.
    pub port: u16,
    /// How often the port may still be tried while the application starts.
    pub polls_left: u32,
    pub error: Option<ProvisionError>,
    /// What the tool printed when it failed.
    pub detail: Seq<char>,
}

/// Where provisioning begins.
pub open spec fn initial(config: ConfigView) -> ProvisionerView {
    ProvisionerView {
        config,
        step: Step::SearchExisting,
        udid: Seq::empty(),
        created: false,
        port: 0,
        polls_left: 0,
        error: None,
        detail: Seq::empty(),
    }
}

/// The same state at another step.
pub open spec fn at_step(state: ProvisionerView, step: Step) -> ProvisionerView {
    ProvisionerView { step, ..state }
}

/// The state after a failure.
pub open spec fn failed(
    state: ProvisionerView,
    error: ProvisionError,
    detail: Seq<char>,
) -> ProvisionerView {
    ProvisionerView { step: Step::Failed, error: Some(error), detail, ..state }
}

/// The state once the port registry has said how to come by the port.
pub open spec fn with_port_step(state: ProvisionerView, step: PortStep) -> ProvisionerView {
    match step {
        PortStep::Known(port) => ProvisionerView { step: Step::WritingPort, port, ..state },
        PortStep::Probe(port) => ProvisionerView { step: Step::AllocatingPort, port, ..state },
        PortStep::Exhausted => failed(state, ProvisionError::NoPortAvailable, Seq::empty()),
    }
}

/// Goes on to `step` if the tool succeeded, and fails with `error` and what
/// the tool printed if it did not.
pub open spec fn require(
    state: ProvisionerView,
    success: bool,
    stderr: Seq<char>,
    step: Step,
    error: ProvisionError,
) -> ProvisionerView {
    if success {
        at_step(state, step)
    } else {
        failed(state, error, stderr)
    }
}

/// The state after a tool ran to its end.
pub open spec fn on_tool(
    state: ProvisionerView,
    ports: Seq<(Seq<char>, u16)>,
    success: bool,
    stdout: Seq<char>,
    stderr: Seq<char>,
) -> ProvisionerView {
    match state.step {
        Step::SearchExisting => match search_simulator(
            json_parse(stdout),
            simulator_name(state.config.target_device, state.config.target_os),
            state.config.target_os,
        ) {
            SearchView::Found(udid) => ProvisionerView { step: Step::Booting, udid, ..state },
            SearchView::NotFound => at_step(state, Step::CreateNew),
            SearchView::Malformed => failed(
                state,
                ProvisionError::InvalidDeviceList,
                Seq::empty(),
            ),
        },
        Step::CreateNew => if success {
            ProvisionerView {
                step: Step::InstallingCertificate,
                udid: trimmed(stdout),
                created: true,
                ..state
            }
        } else {
            failed(state, ProvisionError::CreateFailed, stderr)
        },
        Step::InstallingCertificate => at_step(state, Step::Booting),
        Step::Booting => at_step(state, Step::OpeningApp),
        Step::OpeningApp => at_step(state, Step::Terminating),
        Step::Terminating => at_step(state, Step::Uninstalling),
        Step::Uninstalling => at_step(state, Step::Installing),
        Step::Installing => require(
            state,
            success,
            stderr,
            Step::StartingLogMonitor,
            ProvisionError::InstallFailed,
        ),
        Step::SettingLogLevel => require(
            state,
            success,
            stderr,
            Step::PersistingLogLevel,
            ProvisionError::LogLevelFailed,
        ),
        Step::PersistingLogLevel => require(
            state,
            success,
            stderr,
            Step::WritingTestingFlag,
            ProvisionError::LogPersistFailed,
        ),
        Step::WritingTestingFlag => at_step(state, Step::WritingOnboardingFlag),
        Step::WritingOnboardingFlag => with_port_step(state, port_step(ports, state.udid)),
        Step::WritingPort => at_step(state, Step::Launching),
        Step::Launching => if success {
            ProvisionerView {
                step: Step::AwaitingHandshake,
                polls_left: state.config.handshake_polls,
                ..state
            }
        } else {
            failed(state, ProvisionError::LaunchFailed, stderr)
        },
        _ => failed(state, ProvisionError::UnexpectedEvent, Seq::empty()),
    }
}

/// The state and the port registry after a port was tried.
///
/// While a port is looked for, the registry takes the answer in. While the
/// application starts, a port that can no longer be bound says that the
/// application listens; one that still can be bound uses up one try.
pub open spec fn on_probe(
    state: ProvisionerView,
    ports: Seq<(Seq<char>, u16)>,
    available: bool,
) -> (ProvisionerView, Seq<(Seq<char>, u16)>) {
    match state.step {
        Step::AllocatingPort => {
            let (registry, step) = after_probe(ports, state.udid, state.port, available);
            (with_port_step(state, step), registry)
        },
        Step::AwaitingHandshake => if !available {
            (at_step(state, Step::StoppingLogMonitor), ports)
        } else if state.polls_left > 1 {
            (ProvisionerView { polls_left: (state.polls_left - 1) as u32, ..state }, ports)
        } else {
            (failed(state, ProvisionError::HandshakeTimeout, Seq::empty()), ports)
        },
        _ => (failed(state, ProvisionError::UnexpectedEvent, Seq::empty()), ports),
    }
}

/// The state after the log monitor was started or stopped.
pub open spec fn on_done(state: ProvisionerView) -> ProvisionerView {
    match state.step {
        Step::StartingLogMonitor => at_step(state, Step::SettingLogLevel),
        Step::StoppingLogMonitor => at_step(state, Step::Ready),
        _ => failed(state, ProvisionError::UnexpectedEvent, Seq::empty()),
    }
}

/// Provisioning is over, one way or the other.
pub open spec fn is_over(step: Step) -> bool {
    step == Step::Ready || step == Step::Failed
}

/// The state and the port registry after an event. Once provisioning is
/// over, nothing changes any more.
pub open spec fn next_state(
    state: ProvisionerView,
    ports: Seq<(Seq<char>, u16)>,
    event: Event,
) -> (ProvisionerView, Seq<(Seq<char>, u16)>) {
    if is_over(state.step) {
        (state, ports)
    } else {
        match event {
            Event::Tool { success, stdout, stderr } => (
                on_tool(state, ports, success, stdout@, stderr@),
                ports,
            ),
            Event::Probe { available } => on_probe(state, ports, available),
            Event::Done => (on_done(state), ports),
        }
    }
}

/// The state and the port registry after the first `count` of `events`.
pub open spec fn state_after(
    start: ProvisionerView,
    ports: Seq<(Seq<char>, u16)>,
    events: Seq<Event>,
    count: nat,
) -> (ProvisionerView, Seq<(Seq<char>, u16)>)
    decreases count,
{
    if count == 0 {
        (start, ports)
    } else {
        let before = state_after(start, ports, events, (count - 1) as nat);
        next_state(before.0, before.1, events[count - 1])
    }
}

/// The response that tells of the new session.
pub open spec fn session_response(udid: Seq<char>) -> ResponseView {
    ResponseView::NewSession { session_id: udid, capabilities: JsonModel::Object(Seq::empty()) }
}

/// The action that is due in a state.
pub open spec fn action_of(state: ProvisionerView) -> ActionView {
    let udid = state.udid;
    let level = state.config.log_level;
    match state.step {
        Step::SearchExisting => ActionView::Run(list_devices_spec()),
        Step::CreateNew => ActionView::Run(
            create_spec(state.config.target_device, state.config.target_os),
        ),
        Step::InstallingCertificate => ActionView::Run(
            add_root_certificate_spec(udid, state.config.certificate_path),
        ),
        Step::Booting => ActionView::Run(boot_spec(udid)),
        Step::OpeningApp => ActionView::Run(open_simulator_spec()),
        Step::Terminating => ActionView::Run(terminate_spec(udid)),
        Step::Uninstalling => ActionView::Run(uninstall_spec(udid)),
        Step::Installing => ActionView::Run(
            install_spec(udid, app_location(state.config.derived_data_path)),
        ),
        Step::StartingLogMonitor => ActionView::StartLogMonitor(log_stream_spec(udid, level)),
        Step::SettingLogLevel => ActionView::Run(log_config_spec(udid, "level"@, level)),
        Step::PersistingLogLevel => ActionView::Run(log_config_spec(udid, "persist"@, level)),
        Step::WritingTestingFlag => ActionView::Run(
            write_defaults_spec(udid, "isUITesting"@, "bool"@, "true"@),
        ),
        Step::WritingOnboardingFlag => ActionView::Run(
            write_defaults_spec(udid, "isOnboardingCompleted"@, "string"@, "true"@),
        ),
        Step::AllocatingPort => ActionView::Probe(state.port),
        Step::WritingPort => ActionView::Run(
            write_defaults_spec(udid, "automationPort"@, "int"@, decimal(state.port as nat)),
        ),
        Step::Launching => ActionView::Run(launch_spec(udid)),
        Step::AwaitingHandshake => ActionView::Probe(state.port),
        Step::StoppingLogMonitor => ActionView::StopLogMonitor,
        Step::Ready => ActionView::Finish(session_response(udid)),
        Step::Failed => match state.error {
            Some(error) => if is_fatal_spec(error) {
                ActionView::Abort { error, detail: state.detail }
            } else {
                ActionView::Finish(ResponseView::Generic(JsonModel::Null))
            },
            None => ActionView::Abort {
                error: ProvisionError::UnexpectedEvent,
                detail: state.detail,
            },
        },
    }
}

impl ProvisionConfig {
    /// The configuration that the environment asks for: the device type, the
    /// operating system version and the build-output directory as they are
    /// set, and the defaults where they are not.
    pub fn resolve(
        target_device: Option<String>,
        target_os: Option<String>,
        derived_data: Option<String>,
        current_dir: &str,
        certificate_path: String,
        log_level: LogLevel,
    ) -> (r: Self)
        ensures
            r@ == resolved(
                target_device,
                target_os,
                derived_data,
                current_dir@,
                certificate_path@,
                log_level,
            ),
    {
        let device = match target_device {
            Some(device) => device,
            None => owned(DEFAULT_DEVICE),
        };
        let os = match target_os {
            Some(os) => os,
            None => owned(DEFAULT_OS),
        };
        let derived_data_path = match derived_data {
            Some(path) => path,
            None => followed_by(current_dir, DEFAULT_DERIVED_DATA),
        };
        ProvisionConfig {
            target_device: device,
            target_os: os,
            derived_data_path,
            certificate_path,
            log_level,
            handshake_polls: DEFAULT_HANDSHAKE_POLLS,
        }
    }
}

/// A session that is being provisioned.
pub struct Provisioner {
    config: ProvisionConfig,
    step: Step,
    udid: String,
    created: bool,
    port: u16,
    polls_left: u32,
    error: Option<ProvisionError>,
    detail: String,
}

/// A session that was provisioned.
#[derive(Clone, Debug, PartialEq, Eq)]
pub struct DeviceSession {
    /// The identifier of the simulator, which is the session's own.
    pub id: String,
    /// The port on which the session's automation server listens.
    pub port: u16,
}

impl View for Provisioner {
    type V = ProvisionerView;

    closed spec fn view(&self) -> ProvisionerView {
        ProvisionerView {
            config: self.config@,
            step: self.step,
            udid: self.udid@,
            created: self.created,
            port: self.port,
            polls_left: self.polls_left,
            error: self.error,
            detail: self.detail@,
        }
    }
}

impl Provisioner {
    /// Provisioning at its beginning.
    pub fn new(config: ProvisionConfig) -> (r: Self)
        ensures
            r@ == initial(config@),
    {
        Provisioner {
            config,
            step: Step::SearchExisting,
            udid: String::new(),
            created: false,
            port: 0,
            polls_left: 0,
            error: None,
            detail: String::new(),
        }
    }

    /// Where provisioning stands.
    pub fn step(&self) -> (r: Step)
        ensures
            r == self@.step,
    {
        self.step
    }

    /// The phase that provisioning is in.
    pub fn phase(&self) -> (r: Phase)
        ensures
            r == phase_of(self@.step),
    {
        match self.step {
            Step::SearchExisting => Phase::SearchExisting,
            Step::CreateNew => Phase::CreateNew,
            Step::InstallingCertificate => Phase::CreateNew,
            Step::Booting => Phase::Booting,
            Step::OpeningApp => Phase::OpeningApp,
            Step::Terminating => Phase::CleaningPriorInstall,
            Step::Uninstalling => Phase::CleaningPriorInstall,
            Step::Installing => Phase::Installing,
            Step::StartingLogMonitor => Phase::ConfiguringInstrumentation,
            Step::SettingLogLevel => Phase::ConfiguringInstrumentation,
            Step::PersistingLogLevel => Phase::ConfiguringInstrumentation,
            Step::WritingTestingFlag => Phase::ConfiguringInstrumentation,
            Step::WritingOnboardingFlag => Phase::ConfiguringInstrumentation,
            Step::AllocatingPort => Phase::ConfiguringInstrumentation,
            Step::WritingPort => Phase::ConfiguringInstrumentation,
            Step::Launching => Phase::Launching,
            Step::AwaitingHandshake => Phase::AwaitingHandshake,
            Step::StoppingLogMonitor => Phase::AwaitingHandshake,
            Step::Ready => Phase::Ready,
            Step::Failed => Phase::Failed,
        }
    }

    /// The identifier of the simulator; empty until one is found or created.
    pub fn udid(&self) -> (r: &str)
        ensures
            r@ == self@.udid,
    {
        self.udid.as_str()
    }

    /// Whether the simulator was created for this session.
    pub fn was_created(&self) -> (r: bool)
        ensures
            r == self@.created,
    {
        self.created
    }

    /// Whether provisioning is over.
    pub fn is_finished(&self) -> (r: bool)
        ensures
            r == is_over(self@.step),
    {
        self.step == Step::Ready || self.step == Step::Failed
    }

    /// The session, once it is ready.
    pub fn session(&self) -> (r: Option<DeviceSession>)
        ensures
            r is Some <==> self@.step == Step::Ready,
            r matches Some(session) ==> session.id@ == self@.udid && session.port == self@.port,
    {
        if self.step == Step::Ready {
            Some(DeviceSession { id: self.udid.clone(), port: self.port })
        } else {
            None
        }
    }

    /// The failure, once provisioning has failed.
    pub fn failure(&self) -> (r: Option<ProvisionError>)
        ensures
            r == if self@.step == Step::Failed {
                self@.error
            } else {
                None
            },
    {
        if self.step == Step::Failed {
            self.error
        } else {
            None
        }
    }

    fn run_on_device(&self) -> (r: Action)
        requires
            rank(self@.step) >= 2,
            rank(self@.step) <= 15,
            self@.step != Step::OpeningApp,
            self@.step != Step::StartingLogMonitor,
            self@.step != Step::AllocatingPort,
        ensures
            r@ == action_of(self@),
    {
        let udid = self.udid.as_str();
        let level = self.config.log_level;
        let command = match self.step {
            Step::InstallingCertificate => add_root_certificate(
                udid,
                self.config.certificate_path.as_str(),
            ),
            Step::Booting => boot(udid),
            Step::Terminating => terminate(udid),
            Step::Uninstalling => uninstall(udid),
            Step::Installing => {
                let path = app_path(self.config.derived_data_path.as_str());
                install(udid, path.as_str())
            },
            Step::SettingLogLevel => log_config(udid, "level", level),
            Step::PersistingLogLevel => log_config(udid, "persist", level),
            Step::WritingTestingFlag => write_defaults(udid, "isUITesting", "bool", "true"),
            Step::WritingOnboardingFlag => write_defaults(
                udid,
                "isOnboardingCompleted",
                "string",
                "true",
            ),
            Step::WritingPort => {
                let port = decimal_text(self.port);
                write_defaults(udid, "automationPort", "int", port.as_str())
            },
            _ => launch(udid),
        };
        Action::Run(command)
    }

    fn end(&self) -> (r: Action)
        requires
            is_over(self@.step),
        ensures
            r@ == action_of(self@),
    {
        if self.step == Step::Ready {
            let capabilities: Vec<(String, String)> = Vec::new();
            assert(text_object(capabilities@)->Object_0 =~= Seq::empty());
            Action::Finish(
                Response::NewSession {
                    session_id: self.udid.clone(),
                    capabilities: ResponseValue::Object(capabilities),
                },
            )
        } else {
            match self.error {
                Some(error) => if error.is_fatal() {
                    Action::Abort { error, detail: self.detail.clone() }
                } else {
                    Action::Finish(Response::Generic(ResponseValue::Null))
                },
                None => Action::Abort {
                    error: ProvisionError::UnexpectedEvent,
                    detail: self.detail.clone(),
                },
            }
        }
    }

    /// The action that is due.
    pub fn action(&self) -> (r: Action)
        ensures
            r@ == action_of(self@),
    {
        match self.step {
            Step::SearchExisting => Action::Run(list_devices()),
            Step::CreateNew => Action::Run(
                create(self.config.target_device.as_str(), self.config.target_os.as_str()),
            ),
            Step::OpeningApp => Action::Run(open_simulator()),
            Step::StartingLogMonitor => Action::StartLogMonitor(
                monitor_simulator_logs(self.udid.as_str(), self.config.log_level),
            ),
            Step::AllocatingPort => Action::Probe(self.port),
            Step::AwaitingHandshake => Action::Probe(self.port),
            Step::StoppingLogMonitor => Action::StopLogMonitor,
            Step::Ready => self.end(),
            Step::Failed => self.end(),
            _ => self.run_on_device(),
        }
    }

    fn fail(&mut self, error: ProvisionError, detail: &str)
        ensures
            final(self)@ == failed(old(self)@, error, detail@),
    {
        self.step = Step::Failed;
        self.error = Some(error);
        self.detail = owned(detail);
    }

    fn fail_silently(&mut self, error: ProvisionError)
        ensures
            final(self)@ == failed(old(self)@, error, Seq::empty()),
    {
        self.step = Step::Failed;
        self.error = Some(error);
        self.detail = String::new();
    }

    fn go_on_if(&mut self, success: bool, stderr: &str, step: Step, error: ProvisionError)
        ensures
            final(self)@ == require(old(self)@, success, stderr@, step, error),
    {
        if success {
            self.step = step;
        } else {
            self.fail(error, stderr);
        }
    }

    fn take_port_step(&mut self, step: PortStep)
        ensures
            final(self)@ == with_port_step(old(self)@, step),
    {
        match step {
            PortStep::Known(port) => {
                self.step = Step::WritingPort;
                self.port = port;
            },
            PortStep::Probe(port) => {
                self.step = Step::AllocatingPort;
                self.port = port;
            },
            PortStep::Exhausted => {
                self.fail_silently(ProvisionError::NoPortAvailable);
            },
        }
    }

    fn tool_finished(&mut self, ports: &PortManager, success: bool, stdout: &str, stderr: &str)
        ensures
            final(self)@ == on_tool(old(self)@, ports@, success, stdout@, stderr@),
    {
        match self.step {
            Step::SearchExisting => {
                let name = device_name(
                    self.config.target_device.as_str(),
                    self.config.target_os.as_str(),
                );
                match find_simulator(stdout, name.as_str(), self.config.target_os.as_str()) {
                    Search::Found(udid) => {
                        self.step = Step::Booting;
                        self.udid = udid;
                    },
                    Search::NotFound => {
                        self.step = Step::CreateNew;
                    },
                    Search::Malformed => {
                        self.fail_silently(ProvisionError::InvalidDeviceList);
                    },
                }
            },
            Step::CreateNew => {
                if success {
                    self.step = Step::InstallingCertificate;
                    self.udid = owned(trim(stdout));
                    self.created = true;
                } else {
                    self.fail(ProvisionError::CreateFailed, stderr);
                }
            },
            Step::InstallingCertificate => {
                self.step = Step::Booting;
            },
            Step::Booting => {
                self.step = Step::OpeningApp;
            },
            Step::OpeningApp => {
                self.step = Step::Terminating;
            },
            Step::Terminating => {
                self.step = Step::Uninstalling;
            },
            Step::Uninstalling => {
                self.step = Step::Installing;
            },
            Step::Installing => {
                self.go_on_if(
                    success,
                    stderr,
                    Step::StartingLogMonitor,
                    ProvisionError::InstallFailed,
                );
            },
            Step::SettingLogLevel => {
                self.go_on_if(
                    success,
                    stderr,
                    Step::PersistingLogLevel,
                    ProvisionError::LogLevelFailed,
                );
            },
            Step::PersistingLogLevel => {
                self.go_on_if(
                    success,
                    stderr,
                    Step::WritingTestingFlag,
                    ProvisionError::LogPersistFailed,
                );
            },
            Step::WritingTestingFlag => {
                self.step = Step::WritingOnboardingFlag;
            },
            Step::WritingOnboardingFlag => {
                let step = ports.get_port(self.udid.as_str());
                self.take_port_step(step);
            },
            Step::WritingPort => {
                self.step = Step::Launching;
            },
            Step::Launching => {
                if success {
                    self.step = Step::AwaitingHandshake;
                    self.polls_left = self.config.handshake_polls;
                } else {
                    self.fail(ProvisionError::LaunchFailed, stderr);
                }
            },
            _ => {
                self.fail_silently(ProvisionError::UnexpectedEvent);
            },
        }
    }

    fn port_tried(&mut self, ports: &mut PortManager, available: bool)
        ensures
            (final(self)@, final(ports)@) == on_probe(old(self)@, old(ports)@, available),
    {
        match self.step {
            Step::AllocatingPort => {
                let step = ports.probed(self.udid.as_str(), self.port, available);
                self.take_port_step(step);
            },
            Step::AwaitingHandshake => {
                if !available {
                    self.step = Step::StoppingLogMonitor;
                } else if self.polls_left > 1 {
                    self.polls_left = self.polls_left - 1;
                } else {
                    self.fail_silently(ProvisionError::HandshakeTimeout);
                }
            },
            _ => {
                self.fail_silently(ProvisionError::UnexpectedEvent);
            },
        }
    }

    fn monitor_switched(&mut self)
        ensures
            final(self)@ == on_done(old(self)@),
    {
        match self.step {
            Step::StartingLogMonitor => {
                self.step = Step::SettingLogLevel;
            },
            Step::StoppingLogMonitor => {
                self.step = Step::Ready;
            },
            _ => {
                self.fail_silently(ProvisionError::UnexpectedEvent);
            },
        }
    }

    /// Takes in a run of events, one after the other.
    pub fn advance_all(&mut self, ports: &mut PortManager, events: &Vec<Event>)
        ensures
            (final(self)@, final(ports)@) == state_after(
                old(self)@,
                old(ports)@,
                events@,
                events@.len(),
            ),
    {
        let mut i: usize = 0;
        while i < events.len()
            invariant
                i <= events.len(),
                (self@, ports@) == state_after(old(self)@, old(ports)@, events@, i as nat),
            decreases events.len() - i,
        {
            self.advance(ports, &events[i]);
            i += 1;
        }
    }

    /// Takes in the event that came of the action that was due.
    ///
    /// The state and the port registry afterwards are those that
    /// [`next_state`] describes. An event that does not answer the action
    /// makes provisioning fail.
    pub fn advance(&mut self, ports: &mut PortManager, event: &Event)
        ensures
            (final(self)@, final(ports)@) == next_state(old(self)@, old(ports)@, *event),
    {
        if self.is_finished() {
            return;
        }
        match event {
            Event::Tool { success, stdout, stderr } => {
                self.tool_finished(ports, *success, stdout.as_str(), stderr.as_str());
            },
            Event::Probe { available } => {
                self.port_tried(ports, *available);
            },
            Event::Done => {
                self.monitor_switched();
            },
        }
    }
}

} // verus!
