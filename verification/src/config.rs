//! Configuration records: the global settings and the description of each
//! device and of how to reach it.

use crate::time::Duration;
use vstd::prelude::*;

verus! {

/// Parity of a serial line.
#[derive(Clone, Copy, Debug, PartialEq, Eq, Structural)]
pub enum ParityConfig {
    NoParity,
    Odd,
    Even,
}

/// Flow control of a serial line.
#[derive(Clone, Copy, Debug, PartialEq, Eq, Structural)]
pub enum FlowControlConfig {
    NoFlowControl,
    Hardware,
    Software,
}

/// How a device is reached.
#[derive(Debug)]
#[allow(inconsistent_fields)]
pub enum ConnectionConfig {
    Serial {
        port: String,
        baud_rate: u32,
        data_bits: u8,
        stop_bits: u8,
        parity: ParityConfig,
        flow_control: FlowControlConfig,
    },
    Tcp { host: String, port: u16, timeout_ms: u64, keep_alive: bool },
}

/// A connection description with its texts as sequences of characters.
#[allow(inconsistent_fields)]
pub enum ConnectionConfigView {
    Serial {
        port: Seq<char>,
        baud_rate: u32,
        data_bits: u8,
        stop_bits: u8,
        parity: ParityConfig,
        flow_control: FlowControlConfig,
    },
    Tcp { host: Seq<char>, port: u16, timeout_ms: u64, keep_alive: bool },
}

impl View for ConnectionConfig {
    type V = ConnectionConfigView;

    open spec fn view(&self) -> ConnectionConfigView {
        match self {
            ConnectionConfig::Serial {
                port,
                baud_rate,
                data_bits,
                stop_bits,
                parity,
                flow_control,
            } => ConnectionConfigView::Serial {
                port: port@,
                baud_rate: *baud_rate,
                data_bits: *data_bits,
                stop_bits: *stop_bits,
                parity: *parity,
                flow_control: *flow_control,
            },
            ConnectionConfig::Tcp {
                host,
                port,
                timeout_ms,
                keep_alive,
            } => ConnectionConfigView::Tcp {
                host: host@,
                port: *port,
                timeout_ms: *timeout_ms,
                keep_alive: *keep_alive,
            },
        }
    }
}

impl Clone for ConnectionConfig {
    fn clone(&self) -> (copy: Self)
        ensures
            copy@ == self@,
    {
        match self {
            ConnectionConfig::Serial {
                port,
                baud_rate,
                data_bits,
                stop_bits,
                parity,
                flow_control,
            } => ConnectionConfig::Serial {
                port: port.clone(),
                baud_rate: *baud_rate,
                data_bits: *data_bits,
                stop_bits: *stop_bits,
                parity: *parity,
                flow_control: *flow_control,
            },
            ConnectionConfig::Tcp {
                host,
                port,
                timeout_ms,
                keep_alive,
            } => ConnectionConfig::Tcp {
                host: host.clone(),
                port: *port,
                timeout_ms: *timeout_ms,
                keep_alive: *keep_alive,
            },
        }
    }
}

/// A named command that can be sent to a device.
#[derive(Debug)]
pub struct CustomCommand {
    pub name: String,
    pub description: String,
    pub template: String,
    /// Pattern that the response is expected to match.
    pub response_pattern: Option<String>,
    pub timeout_ms: u64,
}

/// A command with its texts as sequences of characters.
pub struct CustomCommandView {
    pub name: Seq<char>,
    pub description: Seq<char>,
    pub template: Seq<char>,
    pub response_pattern: Option<Seq<char>>,
    pub timeout_ms: u64,
}

impl View for CustomCommand {
    type V = CustomCommandView;

    open spec fn view(&self) -> CustomCommandView {
        CustomCommandView {
            name: self.name@,
            description: self.description@,
            template: self.template@,
            response_pattern: self.response_pattern.deep_view(),
            timeout_ms: self.timeout_ms,
        }
    }
}

impl DeepView for CustomCommand {
    type V = CustomCommandView;

    open spec fn deep_view(&self) -> CustomCommandView {
        self@
    }
}

impl Clone for CustomCommand {
    fn clone(&self) -> (copy: Self)
        ensures
            copy@ == self@,
    {
        let response_pattern = match &self.response_pattern {
            Some(pattern) => Some(pattern.clone()),
            None => None,
        };
        CustomCommand {
            name: self.name.clone(),
            description: self.description.clone(),
            template: self.template.clone(),
            response_pattern,
            timeout_ms: self.timeout_ms,
        }
    }
}

/// A device and how to reach it.
#[derive(Debug)]
pub struct DeviceConfig {
    pub name: String,
    pub description: String,
    pub connection: ConnectionConfig,
    pub commands: Vec<CustomCommand>,
}

/// A device description with its texts as sequences of characters.
pub struct DeviceConfigView {
    pub name: Seq<char>,
    pub description: Seq<char>,
    pub connection: ConnectionConfigView,
    pub commands: Seq<CustomCommandView>,
}

impl View for DeviceConfig {
    type V = DeviceConfigView;

    open spec fn view(&self) -> DeviceConfigView {
        DeviceConfigView {
            name: self.name@,
            description: self.description@,
            connection: self.connection@,
            commands: self.commands.deep_view(),
        }
    }
}

impl DeepView for DeviceConfig {
    type V = DeviceConfigView;

    open spec fn deep_view(&self) -> DeviceConfigView {
        self@
    }
}

impl Clone for DeviceConfig {
    fn clone(&self) -> (copy: Self)
        ensures
            copy@ == self@,
    {
        let commands = self.commands.clone();
        assert(commands.deep_view() =~= self.commands.deep_view());
        DeviceConfig {
            name: self.name.clone(),
            description: self.description.clone(),
            connection: self.connection.clone(),
            commands,
        }
    }
}

/// Settings that hold for every device.
#[derive(Debug)]
pub struct GlobalConfig {
    pub log_level: String,
    pub max_sessions: usize,
    pub timeout_ms: u64,
    pub auto_save: bool,
    pub history_limit: usize,
}

/// The global settings with their texts as sequences of characters.
pub struct GlobalConfigView {
    pub log_level: Seq<char>,
    pub max_sessions: usize,
    pub timeout_ms: u64,
    pub auto_save: bool,
    pub history_limit: usize,
}

impl View for GlobalConfig {
    type V = GlobalConfigView;

    open spec fn view(&self) -> GlobalConfigView {
        GlobalConfigView {
            log_level: self.log_level@,
            max_sessions: self.max_sessions,
            timeout_ms: self.timeout_ms,
            auto_save: self.auto_save,
            history_limit: self.history_limit,
        }
    }
}

impl Clone for GlobalConfig {
    fn clone(&self) -> (copy: Self)
        ensures
            copy@ == self@,
    {
        GlobalConfig {
            log_level: self.log_level.clone(),
            max_sessions: self.max_sessions,
            timeout_ms: self.timeout_ms,
            auto_save: self.auto_save,
            history_limit: self.history_limit,
        }
    }
}

/// The whole configuration: global settings and the known devices.
#[derive(Debug)]
pub struct TermComConfig {
    pub global: GlobalConfig,
    pub devices: Vec<DeviceConfig>,
}

/// The whole configuration with its texts as sequences of characters.
pub struct TermComConfigView {
    pub global: GlobalConfigView,
    pub devices: Seq<DeviceConfigView>,
}

impl View for TermComConfig {
    type V = TermComConfigView;

    open spec fn view(&self) -> TermComConfigView {
        TermComConfigView { global: self.global@, devices: self.devices.deep_view() }
    }
}

impl Clone for TermComConfig {
    fn clone(&self) -> (copy: Self)
        ensures
            copy@ == self@,
    {
        let devices = self.devices.clone();
        assert(devices.deep_view() =~= self.devices.deep_view());
        TermComConfig { global: self.global.clone(), devices }
    }
}

/// The log level of a fresh configuration.
pub fn default_log_level() -> (level: String)
    ensures
        level@ == "info"@,
{
    String::from_str("info")
}

/// The session limit of a fresh configuration.
pub fn default_max_sessions() -> (limit: usize)
    ensures
        limit == 10,
{
    10
}

/// The timeout, in milliseconds, of a fresh configuration.
pub fn default_timeout() -> (millis: u64)
    ensures
        millis == 5000,
{
    5000
}

/// Whether a fresh configuration saves session data by itself.
pub fn default_auto_save() -> (on: bool)
    ensures
        on,
{
    true
}

/// The history limit of a fresh configuration.
pub fn default_history_limit() -> (limit: usize)
    ensures
        limit == 1000,
{
    1000
}

/// The data bits of a serial line where none are given.
pub fn default_data_bits() -> (bits: u8)
    ensures
        bits == 8,
{
    8
}

/// The stop bits of a serial line where none are given.
pub fn default_stop_bits() -> (bits: u8)
    ensures
        bits == 1,
{
    1
}

/// The parity of a serial line where none is given.
pub fn default_parity() -> (parity: ParityConfig)
    ensures
        parity == ParityConfig::NoParity,
{
    ParityConfig::NoParity
}

/// The flow control of a serial line where none is given.
pub fn default_flow_control() -> (flow_control: FlowControlConfig)
    ensures
        flow_control == FlowControlConfig::NoFlowControl,
{
    FlowControlConfig::NoFlowControl
}

/// The connection timeout of a TCP device, in milliseconds, where none is
/// given.
pub fn default_tcp_timeout() -> (millis: u64)
    ensures
        millis == 3000,
{
    3000
}

/// The timeout of a command, in milliseconds, where none is given.
pub fn default_command_timeout() -> (millis: u64)
    ensures
        millis == 1000,
{
    1000
}

impl Default for GlobalConfig {
    fn default() -> (config: Self)
        ensures
            config@ == (GlobalConfigView {
                log_level: "info"@,
                max_sessions: 10,
                timeout_ms: 5000,
                auto_save: true,
                history_limit: 1000,
            }),
    {
        GlobalConfig {
            log_level: default_log_level(),
            max_sessions: default_max_sessions(),
            timeout_ms: default_timeout(),
            auto_save: default_auto_save(),
            history_limit: default_history_limit(),
        }
    }
}

impl Default for TermComConfig {
    fn default() -> (config: Self)
        ensures
            config.global@ == (GlobalConfigView {
                log_level: "info"@,
                max_sessions: 10,
                timeout_ms: 5000,
                auto_save: true,
                history_limit: 1000,
            }),
            config.devices@.len() == 0,
    {
        TermComConfig { global: GlobalConfig::default(), devices: Vec::new() }
    }
}

impl Default for ParityConfig {
    fn default() -> (parity: Self)
        ensures
            parity == ParityConfig::NoParity,
    {
        default_parity()
    }
}

impl Default for FlowControlConfig {
    fn default() -> (flow_control: Self)
        ensures
            flow_control == FlowControlConfig::NoFlowControl,
    {
        default_flow_control()
    }
}

/// The settings of a serial connection, with the time to wait for the line.
#[derive(Debug)]
pub struct SerialConfig {
    pub port: String,
    pub baud_rate: u32,
    pub data_bits: u8,
    pub stop_bits: u8,
    pub parity: ParityConfig,
    pub flow_control: FlowControlConfig,
    pub timeout: Duration,
}

/// The settings of a TCP connection.
#[derive(Debug)]
pub struct TcpConfig {
    pub host: String,
    pub port: u16,
    pub timeout: Duration,
    pub keep_alive: bool,
    pub no_delay: bool,
}

impl From<SerialConfig> for ConnectionConfig {
    fn from(config: SerialConfig) -> (connection: Self) {
        ConnectionConfig::Serial {
            port: config.port,
            baud_rate: config.baud_rate,
            data_bits: config.data_bits,
            stop_bits: config.stop_bits,
            parity: config.parity,
            flow_control: config.flow_control,
        }
    }
}

impl vstd::std_specs::convert::FromSpecImpl<SerialConfig> for ConnectionConfig {
    open spec fn obeys_from_spec() -> bool {
        true
    }

    open spec fn from_spec(config: SerialConfig) -> ConnectionConfig {
        ConnectionConfig::Serial {
            port: config.port,
            baud_rate: config.baud_rate,
            data_bits: config.data_bits,
            stop_bits: config.stop_bits,
            parity: config.parity,
            flow_control: config.flow_control,
        }
    }
}

impl From<TcpConfig> for ConnectionConfig {
    fn from(config: TcpConfig) -> (connection: Self) {
        ConnectionConfig::Tcp {
            host: config.host,
            port: config.port,
            timeout_ms: config.timeout.as_millis_u64(),
            keep_alive: config.keep_alive,
        }
    }
}

impl vstd::std_specs::convert::FromSpecImpl<TcpConfig> for ConnectionConfig {
    open spec fn obeys_from_spec() -> bool {
        true
    }

    open spec fn from_spec(config: TcpConfig) -> ConnectionConfig {
        ConnectionConfig::Tcp {
            host: config.host,
            port: config.port,
            timeout_ms: crate::time::millis_u64(config.timeout),
            keep_alive: config.keep_alive,
        }
    }
}

impl ConnectionConfig {
    /// Whether the device is reached over a serial line.
    pub fn is_serial(&self) -> (serial: bool)
        ensures
            serial == (self is Serial),
    {
        match self {
            ConnectionConfig::Serial { .. } => true,
            ConnectionConfig::Tcp { .. } => false,
        }
    }
}

} // verus!
