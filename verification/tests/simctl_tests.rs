use simulator_bridge::simctl::{
    add_root_certificate, app_path, boot, followed_by, create, device_name, install, launch,
    list_devices, log_config, log_level, monitor_simulator_logs, open_simulator, push_arg,
    shutdown, terminate, uninstall, write_defaults, LogLevel, ToolCommand, APP_BUNDLE_ID, TOOL,
};

fn xcrun(args: &[&str]) -> ToolCommand {
    ToolCommand {
        program: "xcrun".to_string(),
        args: args.iter().map(|arg| arg.to_string()).collect(),
    }
}

#[test]
fn the_tool_and_the_bundle_have_their_names() {
    assert_eq!(TOOL, "xcrun");
    assert_eq!(APP_BUNDLE_ID, "com.duckduckgo.mobile.ios");
}

#[test]
fn log_level_names_every_level() {
    assert_eq!(log_level(LogLevel::Error), "error");
    assert_eq!(log_level(LogLevel::Warn), "warn");
    assert_eq!(log_level(LogLevel::Info), "info");
    assert_eq!(log_level(LogLevel::Debug), "debug");
    assert_eq!(log_level(LogLevel::Trace), "trace");
    assert_eq!(log_level(LogLevel::Off), "off");
}

#[test]
fn device_name_joins_device_and_system() {
    assert_eq!(device_name("iPhone-16", "iOS-18-2"), "iPhone-16 iOS-18-2 (webdriver)");
}

#[test]
fn app_path_lies_below_the_build_output() {
    assert_eq!(
        app_path("/work/../DerivedData"),
        "/work/../DerivedData/Build/Products/Debug-iphonesimulator/DuckDuckGo.app"
    );
}

#[test]
fn followed_by_and_push_arg_build_text_and_lists() {
    assert_eq!(followed_by("-", "bool"), "-bool");
    let mut args = vec!["simctl".to_string()];
    push_arg(&mut args, "boot");
    assert_eq!(args, vec!["simctl", "boot"]);
}

#[test]
fn list_devices_asks_for_json() {
    assert_eq!(list_devices(), xcrun(&["simctl", "list", "devices", "-j"]));
}

#[test]
fn create_names_device_type_and_runtime() {
    assert_eq!(
        create("iPhone-16", "iOS-18-2"),
        xcrun(&[
            "simctl",
            "create",
            "iPhone-16 iOS-18-2 (webdriver)",
            "com.apple.CoreSimulator.SimDeviceType.iPhone-16",
            "com.apple.CoreSimulator.SimRuntime.iOS-18-2",
        ])
    );
}

#[test]
fn add_root_certificate_names_the_simulator_and_the_file() {
    assert_eq!(
        add_root_certificate("U-1", "/certs/cacert.pem"),
        xcrun(&["simctl", "keychain", "U-1", "add-root-cert", "/certs/cacert.pem"])
    );
}

#[test]
fn lifecycle_commands_name_the_simulator() {
    assert_eq!(boot("U-1"), xcrun(&["simctl", "boot", "U-1"]));
    assert_eq!(shutdown("U-1"), xcrun(&["simctl", "shutdown", "U-1"]));
    assert_eq!(
        terminate("U-1"),
        xcrun(&["simctl", "terminate", "U-1", "com.duckduckgo.mobile.ios"])
    );
    assert_eq!(
        uninstall("U-1"),
        xcrun(&["simctl", "uninstall", "U-1", "com.duckduckgo.mobile.ios"])
    );
    assert_eq!(install("U-1", "/b/App.app"), xcrun(&["simctl", "install", "U-1", "/b/App.app"]));
    assert_eq!(
        launch("U-1"),
        xcrun(&["simctl", "launch", "U-1", "com.duckduckgo.mobile.ios", "isUITesting", "true"])
    );
}

#[test]
fn open_simulator_uses_the_opener() {
    assert_eq!(
        open_simulator(),
        ToolCommand {
            program: "open".to_string(),
            args: vec!["-a".to_string(), "Simulator".to_string()],
        }
    );
}

#[test]
fn monitor_simulator_logs_streams_the_subsystem() {
    assert_eq!(
        monitor_simulator_logs("U-1", LogLevel::Debug),
        xcrun(&[
            "simctl",
            "spawn",
            "U-1",
            "log",
            "stream",
            "--level",
            "debug",
            "--predicate",
            "subsystem == \"com.duckduckgo.mobile.ios\"",
        ])
    );
}

#[test]
fn log_config_sets_mode_and_level() {
    assert_eq!(
        log_config("U-1", "level", LogLevel::Info),
        xcrun(&[
            "simctl",
            "spawn",
            "U-1",
            "log",
            "config",
            "--mode",
            "level:info",
            "-subsystem",
            "com.duckduckgo.mobile.ios",
        ])
    );
    assert_eq!(log_config("U-1", "persist", LogLevel::Off).args[6], "persist:off");
}

#[test]
fn write_defaults_writes_one_typed_entry() {
    assert_eq!(
        write_defaults("U-1", "automationPort", "int", "8557"),
        xcrun(&[
            "simctl",
            "spawn",
            "U-1",
            "defaults",
            "write",
            "com.duckduckgo.mobile.ios",
            "automationPort",
            "-int",
            "8557",
        ])
    );
}
