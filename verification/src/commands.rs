//! What the commands of the command line are made of: the configuration of
//! the session that a connect command asks for, the filter that a list
//! command asks for, and the lines that report the statistics.

use crate::config::{
    ConnectionConfig, ConnectionConfigView, DeviceConfig, DeviceConfigView, FlowControlConfig,
    ParityConfig,
};
use crate::ident::fresh_uuid;
use crate::manager::{GlobalStatistics, SessionFilter, SessionFilterView};
use crate::properties::Properties;
use crate::session::{SessionConfig, SessionConfigView, SessionType};
use crate::state::SessionStatus;
use crate::text::{decimal_digits, decimal_text};
use vstd::prelude::*;

verus! {

/// The settings of a serial line.
#[derive(Clone, Copy, Debug, PartialEq, Eq, Structural)]
pub struct SerialLine {
    pub baud_rate: u32,
    pub data_bits: u8,
    pub stop_bits: u8,
    pub parity: ParityConfig,
    pub flow_control: FlowControlConfig,
}

/// The configuration of an interactive session of the given name for the
/// given device: no reconnecting, three attempts a second apart, no
/// timeout, a history of a thousand entries, activities logged, no tags and
/// no properties.
pub open spec fn interactive_session(name: Seq<char>, device: DeviceConfigView) -> SessionConfigView {
    SessionConfigView {
        name,
        session_type: SessionType::Interactive,
        device_config: device,
        auto_reconnect: false,
        max_reconnect_attempts: 3,
        reconnect_delay_ms: 1000,
        timeout_ms: 0,
        max_history_size: 1000,
        log_activities: true,
        tags: Seq::empty(),
        properties: Seq::empty(),
    }
}

/// The device that a connect command for a serial port describes.
pub open spec fn serial_device(port: Seq<char>, line: SerialLine, name: Option<Seq<char>>) -> DeviceConfigView {
    DeviceConfigView {
        name: match name {
            Some(name) => name,
            None => "serial-"@ + port,
        },
        description: "Serial device on "@ + port,
        connection: ConnectionConfigView::Serial {
            port,
            baud_rate: line.baud_rate,
            data_bits: line.data_bits,
            stop_bits: line.stop_bits,
            parity: line.parity,
            flow_control: line.flow_control,
        },
        commands: Seq::empty(),
    }
}

/// A host and a port as they are written together.
pub open spec fn endpoint(host: Seq<char>, port: u16) -> Seq<char> {
    host + ":"@ + decimal_digits(port as nat)
}

/// Seconds as milliseconds, or the largest number where that is more.
pub open spec fn capped_millis(secs: u64) -> u64 {
    if secs * 1000 > u64::MAX {
        u64::MAX
    } else {
        (secs * 1000) as u64
    }
}

/// The device that a connect command for a TCP client describes.
pub open spec fn tcp_client_device(
    host: Seq<char>,
    port: u16,
    timeout_secs: u64,
    name: Option<Seq<char>>,
) -> DeviceConfigView {
    DeviceConfigView {
        name: match name {
            Some(name) => name,
            None => "tcp-"@ + endpoint(host, port),
        },
        description: "TCP client connection to "@ + endpoint(host, port),
        connection: ConnectionConfigView::Tcp {
            host,
            port,
            timeout_ms: capped_millis(timeout_secs),
            keep_alive: true,
        },
        commands: Seq::empty(),
    }
}

/// The device that a command for a TCP server describes.
pub open spec fn tcp_server_device(bind: Seq<char>, port: u16, name: Option<Seq<char>>) -> DeviceConfigView {
    DeviceConfigView {
        name: match name {
            Some(name) => name,
            None => "tcp-server-"@ + endpoint(bind, port),
        },
        description: "TCP server listening on "@ + endpoint(bind, port),
        connection: ConnectionConfigView::Tcp {
            host: bind,
            port,
            timeout_ms: 5000,
            keep_alive: true,
        },
        commands: Seq::empty(),
    }
}

/// The name that a session gets: the one that was asked for, or a fresh
/// identifier of 36 characters.
pub fn session_name(wanted: Option<String>) -> (name: String)
    ensures
        match wanted {
            Some(wanted) => name@ == wanted@,
            None => name@.len() == 36,
        },
{
    match wanted {
        Some(wanted) => wanted,
        None => fresh_uuid(),
    }
}

/// The configuration of an interactive session of the given name for the
/// given device.
pub fn interactive_session_config(name: String, device: DeviceConfig) -> (config: SessionConfig)
    ensures
        config@ == interactive_session(name@, device@),
{
    let tags: Vec<String> = Vec::new();
    assert(tags.deep_view() =~= Seq::<Seq<char>>::empty());
    SessionConfig {
        name,
        session_type: SessionType::Interactive,
        device_config: device,
        auto_reconnect: false,
        max_reconnect_attempts: 3,
        reconnect_delay_ms: 1000,
        timeout_ms: 0,
        max_history_size: 1000,
        log_activities: true,
        tags,
        properties: Properties::new(),
    }
}

fn written_endpoint(host: &str, port: u16) -> (text: String)
    ensures
        text@ == endpoint(host@, port),
{
    String::from_str(host).concat(":").concat(decimal_text(port as u64).as_str())
}

/// The device that a connect command for a serial port describes.
pub fn serial_device_config(port: String, line: SerialLine, name: Option<String>) -> (device:
    DeviceConfig)
    ensures
        device@ == serial_device(port@, line, name.deep_view()),
{
    let device_name = match name {
        Some(name) => name,
        None => String::from_str("serial-").concat(port.as_str()),
    };
    let commands: Vec<crate::config::CustomCommand> = Vec::new();
    assert(commands.deep_view() =~= Seq::<crate::config::CustomCommandView>::empty());
    DeviceConfig {
        name: device_name,
        description: String::from_str("Serial device on ").concat(port.as_str()),
        connection: ConnectionConfig::Serial {
            port,
            baud_rate: line.baud_rate,
            data_bits: line.data_bits,
            stop_bits: line.stop_bits,
            parity: line.parity,
            flow_control: line.flow_control,
        },
        commands,
    }
}

/// The device that a connect command for a TCP client describes.
pub fn tcp_client_device_config(
    host: String,
    port: u16,
    timeout_secs: u64,
    name: Option<String>,
) -> (device: DeviceConfig)
    ensures
        device@ == tcp_client_device(host@, port, timeout_secs, name.deep_view()),
{
    let place = written_endpoint(host.as_str(), port);
    let device_name = match name {
        Some(name) => name,
        None => String::from_str("tcp-").concat(place.as_str()),
    };
    let timeout_ms: u64 = if timeout_secs > u64::MAX / 1000 {
        u64::MAX
    } else {
        timeout_secs * 1000
    };
    let commands: Vec<crate::config::CustomCommand> = Vec::new();
    assert(commands.deep_view() =~= Seq::<crate::config::CustomCommandView>::empty());
    DeviceConfig {
        name: device_name,
        description: String::from_str("TCP client connection to ").concat(place.as_str()),
        connection: ConnectionConfig::Tcp { host, port, timeout_ms, keep_alive: true },
        commands,
    }
}

/// The device that a command for a TCP server describes.
pub fn tcp_server_device_config(bind: String, port: u16, name: Option<String>) -> (device:
    DeviceConfig)
    ensures
        device@ == tcp_server_device(bind@, port, name.deep_view()),
{
    let place = written_endpoint(bind.as_str(), port);
    let device_name = match name {
        Some(name) => name,
        None => String::from_str("tcp-server-").concat(place.as_str()),
    };
    let commands: Vec<crate::config::CustomCommand> = Vec::new();
    assert(commands.deep_view() =~= Seq::<crate::config::CustomCommandView>::empty());
    DeviceConfig {
        name: device_name,
        description: String::from_str("TCP server listening on ").concat(place.as_str()),
        connection: ConnectionConfig::Tcp { host: bind, port, timeout_ms: 5000, keep_alive: true },
        commands,
    }
}

/// The filter that a list command asks for: each condition that is given
/// is set, and no other.
pub fn list_filter(
    session_type: Option<SessionType>,
    status: Option<SessionStatus>,
    device: Option<String>,
) -> (filter: SessionFilter)
    ensures
        filter@ == (SessionFilterView {
            session_type,
            status: crate::manager::status_view(status),
            device_name: device.deep_view(),
            ..SessionFilterView::any()
        }),
{
    let mut filter = SessionFilter::new();
    if let Some(session_type) = session_type {
        filter = filter.with_session_type(session_type);
    }
    if let Some(status) = status {
        filter = filter.with_status(status);
    }
    if let Some(device) = device {
        filter = filter.with_device_name(device.as_str());
    }
    filter
}

/// The lines that report the statistics of all sessions.
pub open spec fn statistics_lines(stats: GlobalStatistics) -> Seq<Seq<char>> {
    seq![
        "Session Statistics:"@,
        "  Total sessions: "@ + decimal_digits(stats.total_sessions as nat),
        "  Active sessions: "@ + decimal_digits(stats.active_sessions as nat),
        "  Total messages: "@ + decimal_digits(stats.total_messages as nat),
        "  Total bytes sent: "@ + decimal_digits(stats.total_bytes_sent as nat),
        "  Total bytes received: "@ + decimal_digits(stats.total_bytes_received as nat),
        "  Total errors: "@ + decimal_digits(stats.total_errors as nat),
    ]
}

fn counted(label: &str, count: u64) -> (line: String)
    ensures
        line@ == label@ + decimal_digits(count as nat),
{
    String::from_str(label).concat(decimal_text(count).as_str())
}

/// The lines that report the statistics of all sessions.
pub fn statistics_report(stats: &GlobalStatistics) -> (report: Vec<String>)
    ensures
        report.deep_view() == statistics_lines(*stats),
{
    let mut report: Vec<String> = Vec::new();
    report.push(String::from_str("Session Statistics:"));
    report.push(counted("  Total sessions: ", stats.total_sessions as u64));
    report.push(counted("  Active sessions: ", stats.active_sessions as u64));
    report.push(counted("  Total messages: ", stats.total_messages));
    report.push(counted("  Total bytes sent: ", stats.total_bytes_sent));
    report.push(counted("  Total bytes received: ", stats.total_bytes_received));
    report.push(counted("  Total errors: ", stats.total_errors));
    assert(report.deep_view() =~= statistics_lines(*stats));
    report
}

} // verus!
