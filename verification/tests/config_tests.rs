use termcom::config::{
    default_auto_save, default_command_timeout, default_data_bits, default_flow_control,
    default_history_limit, default_log_level, default_max_sessions, default_parity,
    default_stop_bits, default_tcp_timeout, default_timeout, ConnectionConfig, CustomCommand,
    DeviceConfig, FlowControlConfig, GlobalConfig, ParityConfig, SerialConfig, TcpConfig,
};
use termcom::time::Duration;
use termcom::TermComConfig;

#[test]
fn test_config_defaults() {
    let config = TermComConfig::default();

    assert_eq!(config.global.log_level, "info");
    assert_eq!(config.global.max_sessions, 10);
    assert_eq!(config.global.timeout_ms, 5000);
    assert!(config.global.auto_save);
    assert_eq!(config.global.history_limit, 1000);
    assert!(config.devices.is_empty());
}

#[test]
fn test_default_values() {
    assert_eq!(default_log_level(), "info");
    assert_eq!(default_max_sessions(), 10);
    assert_eq!(default_timeout(), 5000);
    assert!(default_auto_save());
    assert_eq!(default_history_limit(), 1000);
    assert_eq!(default_data_bits(), 8);
    assert_eq!(default_stop_bits(), 1);
    assert_eq!(default_parity(), ParityConfig::NoParity);
    assert_eq!(default_flow_control(), FlowControlConfig::NoFlowControl);
    assert_eq!(default_tcp_timeout(), 3000);
    assert_eq!(default_command_timeout(), 1000);
    assert_eq!(ParityConfig::default(), ParityConfig::NoParity);
    assert_eq!(FlowControlConfig::default(), FlowControlConfig::NoFlowControl);
    assert_eq!(GlobalConfig::default().log_level, "info");
}

#[test]
fn test_connection_from_serial_config() {
    let connection: ConnectionConfig = SerialConfig {
        port: "/dev/ttyUSB0".to_string(),
        baud_rate: 115200,
        data_bits: 7,
        stop_bits: 2,
        parity: ParityConfig::Even,
        flow_control: FlowControlConfig::Hardware,
        timeout: Duration::from_millis(100),
    }
    .into();
    match connection {
        ConnectionConfig::Serial { port, baud_rate, data_bits, stop_bits, parity, flow_control } => {
            assert_eq!(port, "/dev/ttyUSB0");
            assert_eq!(baud_rate, 115200);
            assert_eq!(data_bits, 7);
            assert_eq!(stop_bits, 2);
            assert_eq!(parity, ParityConfig::Even);
            assert_eq!(flow_control, FlowControlConfig::Hardware);
        }
        _ => panic!("a serial configuration became something else"),
    }
    assert!(ConnectionConfig::from(SerialConfig {
        port: "p".to_string(),
        baud_rate: 1,
        data_bits: 8,
        stop_bits: 1,
        parity: ParityConfig::Odd,
        flow_control: FlowControlConfig::Software,
        timeout: Duration::zero(),
    })
    .is_serial());
}

#[test]
fn test_connection_from_tcp_config() {
    let connection: ConnectionConfig = TcpConfig {
        host: "192.168.1.100".to_string(),
        port: 8080,
        timeout: Duration::from_secs(3),
        keep_alive: true,
        no_delay: false,
    }
    .into();
    match connection {
        ConnectionConfig::Tcp { host, port, timeout_ms, keep_alive } => {
            assert_eq!(host, "192.168.1.100");
            assert_eq!(port, 8080);
            assert_eq!(timeout_ms, 3000);
            assert!(keep_alive);
        }
        _ => panic!("a TCP configuration became something else"),
    }
}

#[test]
fn test_config_copies() {
    let device = DeviceConfig {
        name: "probe".to_string(),
        description: "A probe".to_string(),
        connection: ConnectionConfig::Tcp {
            host: "localhost".to_string(),
            port: 1,
            timeout_ms: 2,
            keep_alive: false,
        },
        commands: vec![CustomCommand {
            name: "status".to_string(),
            description: "Get device status".to_string(),
            template: "STATUS\r\n".to_string(),
            response_pattern: Some("OK.*".to_string()),
            timeout_ms: 1000,
        }],
    };
    let config = TermComConfig { global: GlobalConfig::default(), devices: vec![device] };
    let copy = config.clone();
    assert_eq!(copy.devices.len(), 1);
    assert_eq!(copy.devices[0].name, "probe");
    assert_eq!(copy.devices[0].commands[0].template, "STATUS\r\n");
    assert_eq!(copy.devices[0].commands[0].response_pattern, Some("OK.*".to_string()));
    assert!(!copy.devices[0].connection.is_serial());
    assert_eq!(copy.global.max_sessions, 10);
}
