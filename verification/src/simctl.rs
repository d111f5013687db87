//! The command lines handed to the device-control tool.
//!
//! Nothing here runs a tool: each function builds the program name and the
//! arguments, for the caller to run.

use crate::text::owned;
use vstd::prelude::*;

verus! {

/// The bundle identifier of the application under test.
pub const APP_BUNDLE_ID: &'static str = "com.duckduckgo.mobile.ios";

/// The device-control tool is reached through this launcher.
pub const TOOL: &'static str = "xcrun";

/// How much the application's log subsystem reports.
#[derive(Clone, Copy, Debug, PartialEq, Eq, Structural)]
pub enum LogLevel {
    Error,
    Warn,
    Info,
    Debug,
    Trace,
    Off,
}

/// A program and its arguments.
#[derive(Clone, Debug, PartialEq, Eq)]
pub struct ToolCommand {
    pub program: String,
    pub args: Vec<String>,
}

/// A program and its arguments, as plain text.
pub struct ToolCommandView {
    pub program: Seq<char>,
    pub args: Seq<Seq<char>>,
}

impl View for ToolCommand {
    type V = ToolCommandView;

    open spec fn view(&self) -> ToolCommandView {
        ToolCommandView { program: self.program@, args: self.args.deep_view() }
    }
}

/// The name by which the tool's log commands know a level.
pub open spec fn level_name(level: LogLevel) -> Seq<char> {
    match level {
        LogLevel::Error => "error"@,
        LogLevel::Warn => "warn"@,
        LogLevel::Info => "info"@,
        LogLevel::Debug => "debug"@,
        LogLevel::Trace => "trace"@,
        LogLevel::Off => "off"@,
    }
}

/// The name under which a simulator is created for a device type and an
/// operating system version.
pub open spec fn simulator_name(device: Seq<char>, os: Seq<char>) -> Seq<char> {
    device + " "@ + os + " (webdriver)"@
}

/// Where the application binary lies below the build-output directory.
pub open spec fn app_location(derived_data: Seq<char>) -> Seq<char> {
    derived_data + "/Build/Products/Debug-iphonesimulator/DuckDuckGo.app"@
}

/// A call of the device-control tool.
pub open spec fn tool(args: Seq<Seq<char>>) -> ToolCommandView {
    ToolCommandView { program: TOOL@, args }
}

pub open spec fn list_devices_spec() -> ToolCommandView {
    tool(seq!["simctl"@, "list"@, "devices"@, "-j"@])
}

pub open spec fn create_spec(device: Seq<char>, os: Seq<char>) -> ToolCommandView {
    tool(
        seq![
            "simctl"@,
            "create"@,
            simulator_name(device, os),
            "com.apple.CoreSimulator.SimDeviceType."@ + device,
            "com.apple.CoreSimulator.SimRuntime."@ + os,
        ],
    )
}

pub open spec fn add_root_certificate_spec(
    udid: Seq<char>,
    certificate: Seq<char>,
) -> ToolCommandView {
    tool(seq!["simctl"@, "keychain"@, udid, "add-root-cert"@, certificate])
}

pub open spec fn boot_spec(udid: Seq<char>) -> ToolCommandView {
    tool(seq!["simctl"@, "boot"@, udid])
}

pub open spec fn open_simulator_spec() -> ToolCommandView {
    ToolCommandView { program: "open"@, args: seq!["-a"@, "Simulator"@] }
}

pub open spec fn terminate_spec(udid: Seq<char>) -> ToolCommandView {
    tool(seq!["simctl"@, "terminate"@, udid, APP_BUNDLE_ID@])
}

pub open spec fn uninstall_spec(udid: Seq<char>) -> ToolCommandView {
    tool(seq!["simctl"@, "uninstall"@, udid, APP_BUNDLE_ID@])
}

pub open spec fn install_spec(udid: Seq<char>, app_path: Seq<char>) -> ToolCommandView {
    tool(seq!["simctl"@, "install"@, udid, app_path])
}

pub open spec fn log_stream_spec(udid: Seq<char>, level: LogLevel) -> ToolCommandView {
    tool(
        seq![
            "simctl"@,
            "spawn"@,
            udid,
            "log"@,
            "stream"@,
            "--level"@,
            level_name(level),
            "--predicate"@,
            "subsystem == \""@ + APP_BUNDLE_ID@ + "\""@,
        ],
    )
}

pub open spec fn log_config_spec(
    udid: Seq<char>,
    mode: Seq<char>,
    level: LogLevel,
) -> ToolCommandView {
    tool(
        seq![
            "simctl"@,
            "spawn"@,
            udid,
            "log"@,
            "config"@,
            "--mode"@,
            mode + ":"@ + level_name(level),
            "-subsystem"@,
            APP_BUNDLE_ID@,
        ],
    )
}

pub open spec fn write_defaults_spec(
    udid: Seq<char>,
    key: Seq<char>,
    key_type: Seq<char>,
    value: Seq<char>,
) -> ToolCommandView {
    tool(
        seq![
            "simctl"@,
            "spawn"@,
            udid,
            "defaults"@,
            "write"@,
            APP_BUNDLE_ID@,
            key,
            "-"@ + key_type,
            value,
        ],
    )
}

pub open spec fn launch_spec(udid: Seq<char>) -> ToolCommandView {
    tool(seq!["simctl"@, "launch"@, udid, APP_BUNDLE_ID@, "isUITesting"@, "true"@])
}

pub open spec fn shutdown_spec(udid: Seq<char>) -> ToolCommandView {
    tool(seq!["simctl"@, "shutdown"@, udid])
}

/// Adds one argument to a list.
pub fn push_arg(args: &mut Vec<String>, arg: &str)
    ensures
        final(args).deep_view() == old(args).deep_view().push(arg@),
{
    args.push(owned(arg));
    assert(args.deep_view() =~= old(args).deep_view().push(arg@));
}

/// Two pieces of text, one after the other.
pub fn followed_by(head: &str, tail: &str) -> (r: String)
    ensures
        r@ == head@ + tail@,
{
    let mut out = owned(head);
    out.append(tail);
    out
}

fn tool_command(args: Vec<String>) -> (r: ToolCommand)
    ensures
        r@ == tool(args.deep_view()),
{
    ToolCommand { program: owned(TOOL), args }
}

/// The name by which the tool's log commands know a level.
pub fn log_level(level: LogLevel) -> (r: String)
    ensures
        r@ == level_name(level),
{
    match level {
        LogLevel::Error => owned("error"),
        LogLevel::Warn => owned("warn"),
        LogLevel::Info => owned("info"),
        LogLevel::Debug => owned("debug"),
        LogLevel::Trace => owned("trace"),
        LogLevel::Off => owned("off"),
    }
}

/// The name under which a simulator is created.
pub fn device_name(device: &str, os: &str) -> (r: String)
    ensures
        r@ == simulator_name(device@, os@),
{
    let mut out = owned(device);
    out.append(" ");
    out.append(os);
    out.append(" (webdriver)");
    out
}

/// Where the application binary lies below the build-output directory.
pub fn app_path(derived_data: &str) -> (r: String)
    ensures
        r@ == app_location(derived_data@),
{
    followed_by(derived_data, "/Build/Products/Debug-iphonesimulator/DuckDuckGo.app")
}

/// Lists the simulators the tool knows, as JSON.
pub fn list_devices() -> (r: ToolCommand)
    ensures
        r@ == list_devices_spec(),
{
    let mut args: Vec<String> = Vec::new();
    push_arg(&mut args, "simctl");
    push_arg(&mut args, "list");
    push_arg(&mut args, "devices");
    push_arg(&mut args, "-j");
    assert(args.deep_view() =~= list_devices_spec().args);
    tool_command(args)
}

/// Creates a simulator of the given device type and operating system.
pub fn create(device: &str, os: &str) -> (r: ToolCommand)
    ensures
        r@ == create_spec(device@, os@),
{
    let name = device_name(device, os);
    let device_type = followed_by("com.apple.CoreSimulator.SimDeviceType.", device);
    let runtime = followed_by("com.apple.CoreSimulator.SimRuntime.", os);
    let mut args: Vec<String> = Vec::new();
    push_arg(&mut args, "simctl");
    push_arg(&mut args, "create");
    push_arg(&mut args, name.as_str());
    push_arg(&mut args, device_type.as_str());
    push_arg(&mut args, runtime.as_str());
    assert(args.deep_view() =~= create_spec(device@, os@).args);
    tool_command(args)
}

/// Adds a root certificate to a simulator's keychain.
pub fn add_root_certificate(udid: &str, certificate: &str) -> (r: ToolCommand)
    ensures
        r@ == add_root_certificate_spec(udid@, certificate@),
{
    let mut args: Vec<String> = Vec::new();
    push_arg(&mut args, "simctl");
    push_arg(&mut args, "keychain");
    push_arg(&mut args, udid);
    push_arg(&mut args, "add-root-cert");
    push_arg(&mut args, certificate);
    assert(args.deep_view() =~= add_root_certificate_spec(udid@, certificate@).args);
    tool_command(args)
}

/// Boots a simulator.
pub fn boot(udid: &str) -> (r: ToolCommand)
    ensures
        r@ == boot_spec(udid@),
{
    let mut args: Vec<String> = Vec::new();
    push_arg(&mut args, "simctl");
    push_arg(&mut args, "boot");
    push_arg(&mut args, udid);
    assert(args.deep_view() =~= boot_spec(udid@).args);
    tool_command(args)
}

/// Brings up the simulator's user interface.
pub fn open_simulator() -> (r: ToolCommand)
    ensures
        r@ == open_simulator_spec(),
{
    let mut args: Vec<String> = Vec::new();
    push_arg(&mut args, "-a");
    push_arg(&mut args, "Simulator");
    assert(args.deep_view() =~= open_simulator_spec().args);
    ToolCommand { program: owned("open"), args }
}

/// Stops the application on a simulator.
pub fn terminate(udid: &str) -> (r: ToolCommand)
    ensures
        r@ == terminate_spec(udid@),
{
    let mut args: Vec<String> = Vec::new();
    push_arg(&mut args, "simctl");
    push_arg(&mut args, "terminate");
    push_arg(&mut args, udid);
    push_arg(&mut args, APP_BUNDLE_ID);
    assert(args.deep_view() =~= terminate_spec(udid@).args);
    tool_command(args)
}

/// Removes the application from a simulator.
pub fn uninstall(udid: &str) -> (r: ToolCommand)
    ensures
        r@ == uninstall_spec(udid@),
{
    let mut args: Vec<String> = Vec::new();
    push_arg(&mut args, "simctl");
    push_arg(&mut args, "uninstall");
    push_arg(&mut args, udid);
    push_arg(&mut args, APP_BUNDLE_ID);
    assert(args.deep_view() =~= uninstall_spec(udid@).args);
    tool_command(args)
}

/// Installs the application binary on a simulator.
pub fn install(udid: &str, app_path: &str) -> (r: ToolCommand)
    ensures
        r@ == install_spec(udid@, app_path@),
{
    let mut args: Vec<String> = Vec::new();
    push_arg(&mut args, "simctl");
    push_arg(&mut args, "install");
    push_arg(&mut args, udid);
    push_arg(&mut args, app_path);
    assert(args.deep_view() =~= install_spec(udid@, app_path@).args);
    tool_command(args)
}

/// Streams the log lines of the application's subsystem on a simulator.
pub fn monitor_simulator_logs(udid: &str, level: LogLevel) -> (r: ToolCommand)
    ensures
        r@ == log_stream_spec(udid@, level),
{
    let level_text = log_level(level);
    let mut predicate = owned("subsystem == \"");
    predicate.append(APP_BUNDLE_ID);
    predicate.append("\"");
    let mut args: Vec<String> = Vec::new();
    push_arg(&mut args, "simctl");
    push_arg(&mut args, "spawn");
    push_arg(&mut args, udid);
    push_arg(&mut args, "log");
    push_arg(&mut args, "stream");
    push_arg(&mut args, "--level");
    push_arg(&mut args, level_text.as_str());
    push_arg(&mut args, "--predicate");
    push_arg(&mut args, predicate.as_str());
    assert(args.deep_view() =~= log_stream_spec(udid@, level).args);
    tool_command(args)
}

/// Sets how the application's log subsystem on a simulator treats a level:
/// `mode` is `level` to stream it or `persist` to keep it.
pub fn log_config(udid: &str, mode: &str, level: LogLevel) -> (r: ToolCommand)
    ensures
        r@ == log_config_spec(udid@, mode@, level),
{
    let level_text = log_level(level);
    let mut setting = owned(mode);
    setting.append(":");
    setting.append(level_text.as_str());
    let mut args: Vec<String> = Vec::new();
    push_arg(&mut args, "simctl");
    push_arg(&mut args, "spawn");
    push_arg(&mut args, udid);
    push_arg(&mut args, "log");
    push_arg(&mut args, "config");
    push_arg(&mut args, "--mode");
    push_arg(&mut args, setting.as_str());
    push_arg(&mut args, "-subsystem");
    push_arg(&mut args, APP_BUNDLE_ID);
    assert(args.deep_view() =~= log_config_spec(udid@, mode@, level).args);
    tool_command(args)
}

/// Writes one entry of the application's preference store on a simulator.
pub fn write_defaults(udid: &str, key: &str, key_type: &str, value: &str) -> (r: ToolCommand)
    ensures
        r@ == write_defaults_spec(udid@, key@, key_type@, value@),
{
    let type_flag = followed_by("-", key_type);
    let mut args: Vec<String> = Vec::new();
    push_arg(&mut args, "simctl");
    push_arg(&mut args, "spawn");
    push_arg(&mut args, udid);
    push_arg(&mut args, "defaults");
    push_arg(&mut args, "write");
    push_arg(&mut args, APP_BUNDLE_ID);
    push_arg(&mut args, key);
    push_arg(&mut args, type_flag.as_str());
    push_arg(&mut args, value);
    assert(args.deep_view() =~= write_defaults_spec(udid@, key@, key_type@, value@).args);
    tool_command(args)
}

/// Starts the application on a simulator, in testing mode.
pub fn launch(udid: &str) -> (r: ToolCommand)
    ensures
        r@ == launch_spec(udid@),
{
    let mut args: Vec<String> = Vec::new();
    push_arg(&mut args, "simctl");
    push_arg(&mut args, "launch");
    push_arg(&mut args, udid);
    push_arg(&mut args, APP_BUNDLE_ID);
    push_arg(&mut args, "isUITesting");
    push_arg(&mut args, "true");
    assert(args.deep_view() =~= launch_spec(udid@).args);
    tool_command(args)
}

/// Shuts a simulator down.
pub fn shutdown(udid: &str) -> (r: ToolCommand)
    ensures
        r@ == shutdown_spec(udid@),
{
    let mut args: Vec<String> = Vec::new();
    push_arg(&mut args, "simctl");
    push_arg(&mut args, "shutdown");
    push_arg(&mut args, udid);
    assert(args.deep_view() =~= shutdown_spec(udid@).args);
    tool_command(args)
}

} // verus!
