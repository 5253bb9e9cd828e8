//! How the configuration is put together from its parts and taken apart
//! again, and what it says about logging.

use crate::config::{
    ConnectionConfig, ConnectionConfigView, CustomCommand, CustomCommandView, DeviceConfig,
    DeviceConfigView, FlowControlConfig, GlobalConfig, GlobalConfigView, ParityConfig,
    TermComConfig, TermComConfigView,
};
use crate::text::text_eq;
use vstd::prelude::*;

verus! {

/// How much is logged.
#[derive(Clone, Copy, Debug, PartialEq, Eq, Structural)]
pub enum LogLevel {
    Error,
    Warn,
    Info,
    Debug,
    Trace,
}

/// The level that a configured name stands for; `Info` for every other
/// name.
pub open spec fn level_named(name: Seq<char>) -> LogLevel {
    if name == "error"@ {
        LogLevel::Error
    } else if name == "warn"@ {
        LogLevel::Warn
    } else if name == "info"@ {
        LogLevel::Info
    } else if name == "debug"@ {
        LogLevel::Debug
    } else if name == "trace"@ {
        LogLevel::Trace
    } else {
        LogLevel::Info
    }
}

/// The level at which to log: `Debug` where much is asked for, else the
/// level that the configuration names.
pub fn log_level_for(configured: &str, verbose: bool) -> (level: LogLevel)
    ensures
        level == if verbose {
            LogLevel::Debug
        } else {
            level_named(configured@)
        },
{
    if verbose {
        LogLevel::Debug
    } else if text_eq(configured, "error") {
        LogLevel::Error
    } else if text_eq(configured, "warn") {
        LogLevel::Warn
    } else if text_eq(configured, "info") {
        LogLevel::Info
    } else if text_eq(configured, "debug") {
        LogLevel::Debug
    } else if text_eq(configured, "trace") {
        LogLevel::Trace
    } else {
        LogLevel::Info
    }
}

/// The global settings of a fresh configuration.
pub open spec fn default_global() -> GlobalConfigView {
    GlobalConfigView {
        log_level: "info"@,
        max_sessions: 10,
        timeout_ms: 5000,
        auto_save: true,
        history_limit: 1000,
    }
}

/// The devices of a configuration that may be missing.
pub open spec fn devices_of(config: Option<TermComConfig>) -> Seq<DeviceConfigView> {
    match config {
        Some(config) => config@.devices,
        None => Seq::empty(),
    }
}

/// The configuration in force: the global settings are those of the global
/// configuration, or the defaults where there is none; the devices are
/// those of the project's configuration.
pub fn merge_config(global: Option<TermComConfig>, project: Option<TermComConfig>) -> (merged:
    TermComConfig)
    ensures
        merged@.global == match global {
            Some(config) => config@.global,
            None => default_global(),
        },
        merged@.devices == devices_of(project),
{
    let mut merged = TermComConfig::default();
    assert(merged@.devices =~= Seq::<DeviceConfigView>::empty());
    if let Some(config) = global {
        merged.global = config.global;
    }
    if let Some(config) = project {
        let mut devices = config.devices;
        let ghost added = devices.deep_view();
        merged.devices.append(&mut devices);
        assert(merged.devices.deep_view() =~= added);
    }
    merged
}

/// The part of a configuration that is kept for all projects: its global
/// settings, without devices.
pub fn global_part(config: &TermComConfig) -> (part: TermComConfig)
    ensures
        part@ == (TermComConfigView { global: config@.global, devices: Seq::empty() }),
{
    let devices: Vec<DeviceConfig> = Vec::new();
    assert(devices.deep_view() =~= Seq::<DeviceConfigView>::empty());
    TermComConfig { global: config.global.clone(), devices }
}

/// The part of a configuration that is kept with the project: its devices,
/// with the default global settings.
pub fn project_part(config: &TermComConfig) -> (part: TermComConfig)
    ensures
        part@ == (TermComConfigView { global: default_global(), devices: config@.devices }),
{
    let devices = config.devices.clone();
    assert(devices.deep_view() =~= config.devices.deep_view());
    TermComConfig { global: GlobalConfig::default(), devices }
}

/// The configuration that a new project starts with: the default global
/// settings, one serial device with a command to ask for its status, and
/// one TCP device.
pub fn example_project_config() -> (config: TermComConfig)
    ensures
        config@.global == default_global(),
        config@.devices.len() == 2,
        config@.devices[0] == (DeviceConfigView {
            name: "example_serial"@,
            description: "Example serial device"@,
            connection: ConnectionConfigView::Serial {
                port: "/dev/ttyUSB0"@,
                baud_rate: 9600,
                data_bits: 8,
                stop_bits: 1,
                parity: ParityConfig::NoParity,
                flow_control: FlowControlConfig::NoFlowControl,
            },
            commands: seq![
                CustomCommandView {
                    name: "status"@,
                    description: "Get device status"@,
                    template: "STATUS\\r\\n"@,
                    response_pattern: Some("OK.*"@),
                    timeout_ms: 1000,
                },
            ],
        }),
        config@.devices[1] == (DeviceConfigView {
            name: "example_tcp"@,
            description: "Example TCP device"@,
            connection: ConnectionConfigView::Tcp {
                host: "192.168.1.100"@,
                port: 8080,
                timeout_ms: 3000,
                keep_alive: true,
            },
            commands: Seq::empty(),
        }),
{
    let mut commands: Vec<CustomCommand> = Vec::new();
    commands.push(
        CustomCommand {
            name: String::from_str("status"),
            description: String::from_str("Get device status"),
            template: String::from_str("STATUS\\r\\n"),
            response_pattern: Some(String::from_str("OK.*")),
            timeout_ms: 1000,
        },
    );
    let serial = DeviceConfig {
        name: String::from_str("example_serial"),
        description: String::from_str("Example serial device"),
        connection: ConnectionConfig::Serial {
            port: String::from_str("/dev/ttyUSB0"),
            baud_rate: 9600,
            data_bits: 8,
            stop_bits: 1,
            parity: ParityConfig::NoParity,
            flow_control: FlowControlConfig::NoFlowControl,
        },
        commands,
    };
    let tcp = DeviceConfig {
        name: String::from_str("example_tcp"),
        description: String::from_str("Example TCP device"),
        connection: ConnectionConfig::Tcp {
            host: String::from_str("192.168.1.100"),
            port: 8080,
            timeout_ms: 3000,
            keep_alive: true,
        },
        commands: Vec::new(),
    };
    assert(serial@.commands =~= seq![
        CustomCommandView {
            name: "status"@,
            description: "Get device status"@,
            template: "STATUS\\r\\n"@,
            response_pattern: Some("OK.*"@),
            timeout_ms: 1000,
        },
    ]);
    assert(tcp@.commands =~= Seq::<CustomCommandView>::empty());
    let mut devices: Vec<DeviceConfig> = Vec::new();
    devices.push(serial);
    devices.push(tcp);
    TermComConfig { global: GlobalConfig::default(), devices }
}

/// The name of the configuration file in the working directory.
pub open spec fn local_config_name() -> Seq<char> {
    "termcom.toml"@
}

/// The file that the configuration is read from: the one that was asked
/// for; else the one in the working directory, where it exists; else the
/// one for all projects, where it exists; else none, and the defaults hold.
pub fn config_source(explicit: Option<String>, local_exists: bool, global: Option<String>) -> (source:
    Option<String>)
    ensures
        source.deep_view() == match explicit {
            Some(path) => Some(path@),
            None => if local_exists {
                Some(local_config_name())
            } else {
                global.deep_view()
            },
        },
{
    match explicit {
        Some(path) => Some(path),
        None => if local_exists {
            Some(String::from_str("termcom.toml"))
        } else {
            global
        },
    }
}

} // verus!
