use simulator_bridge::command::{Response, ResponseValue};
use simulator_bridge::ports::PortManager;
use simulator_bridge::provision::{
    Action, DeviceSession, Event, Phase, ProvisionConfig, ProvisionError, Provisioner, Step,
    DEFAULT_DEVICE, DEFAULT_HANDSHAKE_POLLS, DEFAULT_OS,
};
use simulator_bridge::search::{find_simulator, Search};
use simulator_bridge::simctl::{LogLevel, ToolCommand};

const NAME: &str = "iPhone-16 iOS-18-2 (webdriver)";

const LISTING: &str = "{
  \"devices\": {
    \"com.apple.CoreSimulator.SimRuntime.iOS-17-5\": [
      {\"name\": \"iPhone-16 iOS-18-2 (webdriver)\", \"udid\": \"OLD-SYSTEM\", \"isAvailable\": true, \"state\": \"Shutdown\"}
    ],
    \"com.apple.CoreSimulator.SimRuntime.iOS-18-2\": [
      {\"name\": \"iPhone 16\", \"udid\": \"OTHER-NAME\", \"isAvailable\": true, \"state\": \"Shutdown\"},
      {\"name\": \"iPhone-16 iOS-18-2 (webdriver)\", \"udid\": \"BOOTED\", \"isAvailable\": true, \"state\": \"Booted\"},
      {\"name\": \"iPhone-16 iOS-18-2 (webdriver)\", \"udid\": \"UNAVAILABLE\", \"isAvailable\": false, \"state\": \"Shutdown\"},
      {\"name\": \"iPhone-16 iOS-18-2 (webdriver)\", \"udid\": \"FIRST-MATCH\", \"isAvailable\": true, \"state\": \"Shutdown\"},
      {\"name\": \"iPhone-16 iOS-18-2 (webdriver)\", \"udid\": \"SECOND-MATCH\", \"isAvailable\": true, \"state\": \"Shutdown\"}
    ]
  }
}";

const NO_MATCH: &str = "{
  \"devices\": {
    \"com.apple.CoreSimulator.SimRuntime.iOS-18-2\": [
      {\"name\": \"iPhone-16 iOS-18-2 (webdriver)\", \"udid\": \"BOOTED\", \"isAvailable\": true, \"state\": \"Booted\"}
    ]
  }
}";

fn config() -> ProvisionConfig {
    ProvisionConfig::resolve(
        None,
        None,
        None,
        "/work/driver",
        "/assets/cacert.pem".to_string(),
        LogLevel::Info,
    )
}

fn xcrun(args: &[&str]) -> Action {
    Action::Run(ToolCommand {
        program: "xcrun".to_string(),
        args: args.iter().map(|arg| arg.to_string()).collect(),
    })
}

fn ok(stdout: &str) -> Event {
    Event::Tool { success: true, stdout: stdout.to_string(), stderr: String::new() }
}

fn failure(stderr: &str) -> Event {
    Event::Tool { success: false, stdout: String::new(), stderr: stderr.to_string() }
}

fn after(events: &[Event]) -> (Provisioner, PortManager) {
    let mut ports = PortManager::new();
    let mut provisioner = Provisioner::new(config());
    provisioner.advance_all(&mut ports, &events.to_vec());
    (provisioner, ports)
}

fn found_up_to_install() -> Vec<Event> {
    vec![ok(LISTING), ok(""), ok(""), failure("not running"), failure("not installed")]
}

fn found_up_to_launch() -> Vec<Event> {
    let mut events = found_up_to_install();
    events.extend(vec![
        ok(""),
        Event::Done,
        ok(""),
        ok(""),
        ok(""),
        ok(""),
        Event::Probe { available: true },
        ok(""),
    ]);
    events
}

#[test]
fn resolve_uses_the_defaults_where_nothing_is_set() {
    let config = config();
    assert_eq!(DEFAULT_DEVICE, "iPhone-16");
    assert_eq!(DEFAULT_OS, "iOS-18-2");
    assert_eq!(config.target_device, "iPhone-16");
    assert_eq!(config.target_os, "iOS-18-2");
    assert_eq!(config.derived_data_path, "/work/driver/../DerivedData");
    assert_eq!(config.certificate_path, "/assets/cacert.pem");
    assert_eq!(config.log_level, LogLevel::Info);
    assert_eq!(config.handshake_polls, DEFAULT_HANDSHAKE_POLLS);
}

#[test]
fn resolve_takes_what_the_environment_sets() {
    let config = ProvisionConfig::resolve(
        Some("iPad-Air".to_string()),
        Some("iOS-17-0".to_string()),
        Some("/builds/dd".to_string()),
        "/work/driver",
        "c.pem".to_string(),
        LogLevel::Trace,
    );
    assert_eq!(config.target_device, "iPad-Air");
    assert_eq!(config.target_os, "iOS-17-0");
    assert_eq!(config.derived_data_path, "/builds/dd");
    assert_eq!(config.log_level, LogLevel::Trace);
}

#[test]
fn find_simulator_takes_the_first_that_fits() {
    assert_eq!(find_simulator(LISTING, NAME, "iOS-18-2"), Search::Found("FIRST-MATCH".to_string()));
}

#[test]
fn find_simulator_looks_only_at_runtimes_of_the_wanted_system() {
    assert_eq!(find_simulator(LISTING, NAME, "iOS-17-5"), Search::Found("OLD-SYSTEM".to_string()));
    assert_eq!(find_simulator(LISTING, NAME, "iOS-16-0"), Search::NotFound);
    assert_eq!(find_simulator(LISTING, NAME, "iOS"), Search::Found("OLD-SYSTEM".to_string()));
}

#[test]
fn find_simulator_finds_nothing_without_a_shut_down_match() {
    assert_eq!(find_simulator(NO_MATCH, NAME, "iOS-18-2"), Search::NotFound);
    assert_eq!(find_simulator(LISTING, "iPhone-15 iOS-18-2 (webdriver)", "iOS-18-2"), Search::NotFound);
    assert_eq!(find_simulator("{\"devices\": {}}", NAME, "iOS-18-2"), Search::NotFound);
    assert_eq!(find_simulator("{}", NAME, "iOS-18-2"), Search::NotFound);
    assert_eq!(find_simulator("[]", NAME, "iOS-18-2"), Search::NotFound);
}

#[test]
fn find_simulator_reports_a_list_it_cannot_read() {
    assert_eq!(find_simulator("not json", NAME, "iOS-18-2"), Search::Malformed);
    assert_eq!(find_simulator("{\"devices\": []}", NAME, "iOS-18-2"), Search::Malformed);
    assert_eq!(
        find_simulator("{\"devices\": {\"iOS-18-2\": {}}}", NAME, "iOS-18-2"),
        Search::Malformed
    );
    let without_udid = "{\"devices\": {\"iOS-18-2\": [
        {\"name\": \"iPhone-16 iOS-18-2 (webdriver)\", \"isAvailable\": true, \"state\": \"Shutdown\"}
    ]}}";
    assert_eq!(find_simulator(without_udid, NAME, "iOS-18-2"), Search::Malformed);
}

#[test]
fn find_simulator_skips_malformed_runtimes_of_other_systems() {
    let listing = "{\"devices\": {\"iOS-17-0\": 5, \"iOS-18-2\": [
        {\"name\": \"iPhone-16 iOS-18-2 (webdriver)\", \"udid\": \"U\", \"isAvailable\": true, \"state\": \"Shutdown\"}
    ]}}";
    assert_eq!(find_simulator(listing, NAME, "iOS-18-2"), Search::Found("U".to_string()));
}

#[test]
fn provisioning_begins_with_the_search() {
    let (provisioner, _) = after(&[]);
    assert_eq!(provisioner.step(), Step::SearchExisting);
    assert_eq!(provisioner.phase(), Phase::SearchExisting);
    assert_eq!(provisioner.action(), xcrun(&["simctl", "list", "devices", "-j"]));
    assert!(!provisioner.is_finished());
    assert_eq!(provisioner.session(), None);
    assert_eq!(provisioner.failure(), None);
}

#[test]
fn a_simulator_that_is_found_is_booted_without_creating_one() {
    let (provisioner, _) = after(&[ok(LISTING)]);
    assert_eq!(provisioner.udid(), "FIRST-MATCH");
    assert!(!provisioner.was_created());
    assert_eq!(provisioner.step(), Step::Booting);
    assert_eq!(provisioner.phase(), Phase::Booting);
    assert_eq!(provisioner.action(), xcrun(&["simctl", "boot", "FIRST-MATCH"]));
}

#[test]
fn without_a_match_a_simulator_is_created_once() {
    let (provisioner, _) = after(&[ok(NO_MATCH)]);
    assert_eq!(provisioner.step(), Step::CreateNew);
    assert_eq!(provisioner.phase(), Phase::CreateNew);
    assert_eq!(
        provisioner.action(),
        xcrun(&[
            "simctl",
            "create",
            "iPhone-16 iOS-18-2 (webdriver)",
            "com.apple.CoreSimulator.SimDeviceType.iPhone-16",
            "com.apple.CoreSimulator.SimRuntime.iOS-18-2",
        ])
    );

    let mut ports = PortManager::new();
    let mut provisioner = Provisioner::new(config());
    let mut events = vec![ok(NO_MATCH), ok("NEW-UDID\n"), ok("")];
    events.extend(found_up_to_launch().into_iter().skip(1));
    let mut creations = 0;
    for event in &events {
        if let Action::Run(command) = provisioner.action() {
            if command.args[1] == "create" {
                creations += 1;
            }
        }
        provisioner.advance(&mut ports, event);
    }
    assert_eq!(creations, 1);
    assert_eq!(provisioner.step(), Step::Launching);
}

#[test]
fn the_created_identifier_is_used_for_every_later_step() {
    let mut ports = PortManager::new();
    let mut provisioner = Provisioner::new(config());
    provisioner.advance(&mut ports, &ok(NO_MATCH));
    assert_eq!(provisioner.udid(), "");
    provisioner.advance(&mut ports, &ok("  NEW-UDID \n"));
    assert_eq!(provisioner.udid(), "NEW-UDID");
    assert!(provisioner.was_created());
    assert_eq!(provisioner.step(), Step::InstallingCertificate);
    assert_eq!(
        provisioner.action(),
        xcrun(&["simctl", "keychain", "NEW-UDID", "add-root-cert", "/assets/cacert.pem"])
    );
    let mut events = vec![failure("ignored")];
    events.extend(found_up_to_launch().into_iter().skip(1));
    events.push(ok(""));
    events.push(Event::Probe { available: false });
    events.push(Event::Done);
    for event in &events {
        match provisioner.action() {
            Action::Run(command) if command.program == "xcrun" => {
                assert_eq!(command.args[2], "NEW-UDID");
            }
            Action::StartLogMonitor(command) => assert_eq!(command.args[2], "NEW-UDID"),
            _ => {}
        }
        provisioner.advance(&mut ports, event);
    }
    assert_eq!(provisioner.step(), Step::Ready);
    assert_eq!(
        provisioner.action(),
        Action::Finish(Response::NewSession {
            session_id: "NEW-UDID".to_string(),
            capabilities: ResponseValue::Object(Vec::new()),
        })
    );
    assert_eq!(ports.lookup("NEW-UDID"), Some(8557));
}

#[test]
fn a_simulator_that_cannot_be_created_ends_the_session_with_null() {
    let (provisioner, _) = after(&[ok(NO_MATCH), failure("no such runtime")]);
    assert_eq!(provisioner.step(), Step::Failed);
    assert_eq!(provisioner.phase(), Phase::Failed);
    assert_eq!(provisioner.failure(), Some(ProvisionError::CreateFailed));
    assert!(!ProvisionError::CreateFailed.is_fatal());
    assert_eq!(provisioner.action(), Action::Finish(Response::Generic(ResponseValue::Null)));
    assert!(provisioner.is_finished());
}

#[test]
fn a_list_that_cannot_be_read_is_fatal() {
    let (provisioner, _) = after(&[ok("garbage")]);
    assert_eq!(provisioner.failure(), Some(ProvisionError::InvalidDeviceList));
    assert_eq!(
        provisioner.action(),
        Action::Abort { error: ProvisionError::InvalidDeviceList, detail: String::new() }
    );
}

#[test]
fn the_steps_follow_each_other_in_order() {
    let mut ports = PortManager::new();
    let mut provisioner = Provisioner::new(config());
    let script: Vec<(Event, Step, Phase, Action)> = vec![
        (ok(LISTING), Step::Booting, Phase::Booting, xcrun(&["simctl", "boot", "FIRST-MATCH"])),
        (
            failure("already booted"),
            Step::OpeningApp,
            Phase::OpeningApp,
            Action::Run(ToolCommand {
                program: "open".to_string(),
                args: vec!["-a".to_string(), "Simulator".to_string()],
            }),
        ),
        (
            ok(""),
            Step::Terminating,
            Phase::CleaningPriorInstall,
            xcrun(&["simctl", "terminate", "FIRST-MATCH", "com.duckduckgo.mobile.ios"]),
        ),
        (
            failure("not running"),
            Step::Uninstalling,
            Phase::CleaningPriorInstall,
            xcrun(&["simctl", "uninstall", "FIRST-MATCH", "com.duckduckgo.mobile.ios"]),
        ),
        (
            failure("not installed"),
            Step::Installing,
            Phase::Installing,
            xcrun(&[
                "simctl",
                "install",
                "FIRST-MATCH",
                "/work/driver/../DerivedData/Build/Products/Debug-iphonesimulator/DuckDuckGo.app",
            ]),
        ),
        (
            ok(""),
            Step::StartingLogMonitor,
            Phase::ConfiguringInstrumentation,
            Action::StartLogMonitor(ToolCommand {
                program: "xcrun".to_string(),
                args: vec![
                    "simctl".to_string(),
                    "spawn".to_string(),
                    "FIRST-MATCH".to_string(),
                    "log".to_string(),
                    "stream".to_string(),
                    "--level".to_string(),
                    "info".to_string(),
                    "--predicate".to_string(),
                    "subsystem == \"com.duckduckgo.mobile.ios\"".to_string(),
                ],
            }),
        ),
        (
            Event::Done,
            Step::SettingLogLevel,
            Phase::ConfiguringInstrumentation,
            xcrun(&[
                "simctl",
                "spawn",
                "FIRST-MATCH",
                "log",
                "config",
                "--mode",
                "level:info",
                "-subsystem",
                "com.duckduckgo.mobile.ios",
            ]),
        ),
        (
            ok(""),
            Step::PersistingLogLevel,
            Phase::ConfiguringInstrumentation,
            xcrun(&[
                "simctl",
                "spawn",
                "FIRST-MATCH",
                "log",
                "config",
                "--mode",
                "persist:info",
                "-subsystem",
                "com.duckduckgo.mobile.ios",
            ]),
        ),
        (
            ok(""),
            Step::WritingTestingFlag,
            Phase::ConfiguringInstrumentation,
            xcrun(&[
                "simctl",
                "spawn",
                "FIRST-MATCH",
                "defaults",
                "write",
                "com.duckduckgo.mobile.ios",
                "isUITesting",
                "-bool",
                "true",
            ]),
        ),
        (
            ok(""),
            Step::WritingOnboardingFlag,
            Phase::ConfiguringInstrumentation,
            xcrun(&[
                "simctl",
                "spawn",
                "FIRST-MATCH",
                "defaults",
                "write",
                "com.duckduckgo.mobile.ios",
                "isOnboardingCompleted",
                "-string",
                "true",
            ]),
        ),
        (ok(""), Step::AllocatingPort, Phase::ConfiguringInstrumentation, Action::Probe(8557)),
        (
            Event::Probe { available: false },
            Step::AllocatingPort,
            Phase::ConfiguringInstrumentation,
            Action::Probe(8558),
        ),
        (
            Event::Probe { available: true },
            Step::WritingPort,
            Phase::ConfiguringInstrumentation,
            xcrun(&[
                "simctl",
                "spawn",
                "FIRST-MATCH",
                "defaults",
                "write",
                "com.duckduckgo.mobile.ios",
                "automationPort",
                "-int",
                "8558",
            ]),
        ),
        (
            failure("ignored"),
            Step::Launching,
            Phase::Launching,
            xcrun(&[
                "simctl",
                "launch",
                "FIRST-MATCH",
                "com.duckduckgo.mobile.ios",
                "isUITesting",
                "true",
            ]),
        ),
        (ok(""), Step::AwaitingHandshake, Phase::AwaitingHandshake, Action::Probe(8558)),
        (
            Event::Probe { available: true },
            Step::AwaitingHandshake,
            Phase::AwaitingHandshake,
            Action::Probe(8558),
        ),
        (
            Event::Probe { available: false },
            Step::StoppingLogMonitor,
            Phase::AwaitingHandshake,
            Action::StopLogMonitor,
        ),
        (
            Event::Done,
            Step::Ready,
            Phase::Ready,
            Action::Finish(Response::NewSession {
                session_id: "FIRST-MATCH".to_string(),
                capabilities: ResponseValue::Object(Vec::new()),
            }),
        ),
    ];
    for (event, step, phase, action) in script {
        provisioner.advance(&mut ports, &event);
        assert_eq!(provisioner.step(), step);
        assert_eq!(provisioner.phase(), phase);
        assert_eq!(provisioner.action(), action);
    }
    assert!(provisioner.is_finished());
    assert_eq!(
        provisioner.session(),
        Some(DeviceSession { id: "FIRST-MATCH".to_string(), port: 8558 })
    );
    assert_eq!(ports.lookup("FIRST-MATCH"), Some(8558));
    assert!(!ports.holds_port(8557));
}

#[test]
fn a_device_that_has_a_port_keeps_it_in_a_new_session() {
    let mut ports = PortManager::new();
    ports.probed("FIRST-MATCH", 8600, true);
    let mut provisioner = Provisioner::new(config());
    let mut events = found_up_to_install();
    events.extend(vec![ok(""), Event::Done, ok(""), ok(""), ok(""), ok("")]);
    for event in &events {
        provisioner.advance(&mut ports, event);
    }
    assert_eq!(provisioner.step(), Step::WritingPort);
    match provisioner.action() {
        Action::Run(command) => assert_eq!(command.args[8], "8600"),
        other => panic!("unexpected action {:?}", other),
    }
}

#[test]
fn a_failed_install_is_fatal() {
    let mut events = found_up_to_install();
    events.push(failure("no such file"));
    let (provisioner, _) = after(&events);
    assert_eq!(provisioner.failure(), Some(ProvisionError::InstallFailed));
    assert_eq!(
        provisioner.action(),
        Action::Abort { error: ProvisionError::InstallFailed, detail: "no such file".to_string() }
    );
    assert!(ProvisionError::InstallFailed.is_fatal());
}

#[test]
fn a_failed_log_configuration_is_fatal() {
    let mut events = found_up_to_install();
    events.extend(vec![ok(""), Event::Done, failure("bad level")]);
    let (provisioner, _) = after(&events);
    assert_eq!(
        provisioner.action(),
        Action::Abort { error: ProvisionError::LogLevelFailed, detail: "bad level".to_string() }
    );

    let mut events = found_up_to_install();
    events.extend(vec![ok(""), Event::Done, ok(""), failure("cannot persist")]);
    let (provisioner, _) = after(&events);
    assert_eq!(
        provisioner.action(),
        Action::Abort {
            error: ProvisionError::LogPersistFailed,
            detail: "cannot persist".to_string(),
        }
    );
}

#[test]
fn a_failed_launch_is_fatal() {
    let mut events = found_up_to_launch();
    events.pop();
    events.push(ok(""));
    events.push(failure("launch refused"));
    let (provisioner, _) = after(&events);
    assert_eq!(
        provisioner.action(),
        Action::Abort { error: ProvisionError::LaunchFailed, detail: "launch refused".to_string() }
    );
}

#[test]
fn the_wait_for_the_application_has_an_end() {
    let mut ports = PortManager::new();
    let mut patient = config();
    patient.handshake_polls = 3;
    let mut provisioner = Provisioner::new(patient);
    let mut events = found_up_to_launch();
    events.push(ok(""));
    for event in &events {
        provisioner.advance(&mut ports, event);
    }
    assert_eq!(provisioner.step(), Step::AwaitingHandshake);
    provisioner.advance(&mut ports, &Event::Probe { available: true });
    assert_eq!(provisioner.step(), Step::AwaitingHandshake);
    provisioner.advance(&mut ports, &Event::Probe { available: true });
    assert_eq!(provisioner.step(), Step::AwaitingHandshake);
    provisioner.advance(&mut ports, &Event::Probe { available: true });
    assert_eq!(provisioner.step(), Step::Failed);
    assert_eq!(provisioner.failure(), Some(ProvisionError::HandshakeTimeout));
    assert_eq!(
        provisioner.action(),
        Action::Abort { error: ProvisionError::HandshakeTimeout, detail: String::new() }
    );
}

#[test]
fn an_event_that_does_not_answer_the_action_fails() {
    let (provisioner, _) = after(&[Event::Done]);
    assert_eq!(provisioner.failure(), Some(ProvisionError::UnexpectedEvent));
    let (provisioner, _) = after(&[ok(LISTING), Event::Probe { available: true }]);
    assert_eq!(provisioner.failure(), Some(ProvisionError::UnexpectedEvent));
    let mut events = found_up_to_install();
    events.extend(vec![ok(""), ok("")]);
    let (provisioner, _) = after(&events);
    assert_eq!(
        provisioner.action(),
        Action::Abort { error: ProvisionError::UnexpectedEvent, detail: String::new() }
    );
}

#[test]
fn nothing_changes_once_provisioning_is_over() {
    let (mut provisioner, mut ports) = after(&[ok(NO_MATCH), failure("x")]);
    provisioner.advance(&mut ports, &ok(LISTING));
    provisioner.advance(&mut ports, &Event::Done);
    assert_eq!(provisioner.step(), Step::Failed);
    assert_eq!(provisioner.failure(), Some(ProvisionError::CreateFailed));
}

#[test]
fn every_failure_has_its_message() {
    assert_eq!(ProvisionError::InvalidDeviceList.message(), "Failed to parse simulator list");
    assert_eq!(ProvisionError::CreateFailed.message(), "Failed to create a new simulator");
    assert_eq!(ProvisionError::InstallFailed.message(), "Failed to install the app");
    assert_eq!(ProvisionError::LogLevelFailed.message(), "Failed to set log level");
    assert_eq!(ProvisionError::LogPersistFailed.message(), "Failed to persist log level");
    assert_eq!(ProvisionError::NoPortAvailable.message(), "No available ports found");
    assert_eq!(ProvisionError::LaunchFailed.message(), "Failed to launch the app");
    assert_eq!(
        ProvisionError::HandshakeTimeout.message(),
        "Timed out waiting for the automation server"
    );
    assert_eq!(ProvisionError::UnexpectedEvent.message(), "Unexpected event");
}

fn has_white_space_property(c: char) -> bool {
    matches!(
        c,
        '\u{9}'..='\u{d}'
            | '\u{20}'
            | '\u{85}'
            | '\u{a0}'
            | '\u{1680}'
            | '\u{2000}'..='\u{200a}'
            | '\u{2028}'
            | '\u{2029}'
            | '\u{202f}'
            | '\u{205f}'
            | '\u{3000}'
    )
}

#[test]
fn the_created_identifier_loses_exactly_the_white_space_around_it() {
    let mut code: u32 = 0;
    while code <= 0x3100 {
        if let Some(c) = char::from_u32(code) {
            let printed = format!("{}{}A B{}", c, c, c);
            let mut ports = PortManager::new();
            let mut provisioner = Provisioner::new(config());
            provisioner.advance(&mut ports, &ok("{}"));
            provisioner.advance(&mut ports, &ok(&printed));
            let expected = if has_white_space_property(c) { "A B".to_string() } else { printed };
            assert_eq!(provisioner.udid(), expected, "character {:x}", code);
        }
        code += 1;
    }
}

#[test]
fn a_created_identifier_of_white_space_only_is_empty() {
    let (provisioner, _) = after(&[ok("{}"), ok(" \t\r\n")]);
    assert_eq!(provisioner.udid(), "");
    assert_eq!(provisioner.step(), Step::InstallingCertificate);
}

#[test]
fn a_run_of_events_is_taken_in_one_after_the_other() {
    let events = found_up_to_launch();
    let (all_at_once, ports_at_once) = after(&events);
    let mut ports = PortManager::new();
    let mut one_by_one = Provisioner::new(config());
    for event in &events {
        one_by_one.advance(&mut ports, event);
    }
    assert_eq!(all_at_once.step(), one_by_one.step());
    assert_eq!(all_at_once.action(), one_by_one.action());
    assert_eq!(all_at_once.udid(), one_by_one.udid());
    assert_eq!(ports_at_once.lookup("FIRST-MATCH"), ports.lookup("FIRST-MATCH"));
    assert_eq!(all_at_once.step(), Step::Launching);
}

#[test]
fn provisioning_fails_when_no_port_is_left() {
    let mut events = found_up_to_install();
    events.extend(vec![ok(""), Event::Done, ok(""), ok(""), ok(""), ok("")]);
    let (mut provisioner, mut ports) = after(&events);
    assert_eq!(provisioner.action(), Action::Probe(8557));
    let mut tried: u32 = 0;
    while provisioner.step() == Step::AllocatingPort {
        assert_eq!(provisioner.action(), Action::Probe((8557 + tried) as u16));
        provisioner.advance(&mut ports, &Event::Probe { available: false });
        tried += 1;
    }
    assert_eq!(tried, 65536 - 8557);
    assert_eq!(provisioner.failure(), Some(ProvisionError::NoPortAvailable));
    assert_eq!(
        provisioner.action(),
        Action::Abort { error: ProvisionError::NoPortAvailable, detail: String::new() }
    );
    assert_eq!(ports.lookup("FIRST-MATCH"), None);
}
