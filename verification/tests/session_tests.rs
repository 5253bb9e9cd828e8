use termcom::config::{ConnectionConfig, DeviceConfig, FlowControlConfig, ParityConfig};
use termcom::engine::CommunicationEngine;
use termcom::error::TermComError;
use termcom::message::MessagePattern;
use termcom::properties::Properties;
use termcom::session::{Session, SessionConfig, SessionType};
use termcom::state::{ActivityType, SessionStatus};
use termcom::time::Timestamp;
use termcom::transport::TransportClient;

/// A client that opens every device but the serial port `/dev/null`, and
/// that fails to write the bytes `fail`.
struct MockClient;

impl TransportClient for MockClient {
    fn open(connection: &ConnectionConfig) -> Result<Self, TermComError> {
        match connection {
            ConnectionConfig::Serial { port, .. } if port == "/dev/null" => {
                Err(TermComError::Communication {
                    message: "Failed to open serial port: Not a typewriter".to_string(),
                })
            }
            _ => Ok(MockClient),
        }
    }

    fn send(&mut self, data: &Vec<u8>) -> Result<(), TermComError> {
        if data.as_slice() == b"fail" {
            Err(TermComError::Communication { message: "write failed".to_string() })
        } else {
            Ok(())
        }
    }

    fn is_connected(&self) -> bool {
        true
    }

    fn close(self) -> Result<(), TermComError> {
        Ok(())
    }
}

fn config_for_port(port: &str) -> SessionConfig {
    SessionConfig {
        name: "test_session".to_string(),
        session_type: SessionType::Testing,
        device_config: DeviceConfig {
            name: "test_device".to_string(),
            description: "Test device".to_string(),
            connection: ConnectionConfig::Serial {
                port: port.to_string(),
                baud_rate: 9600,
                data_bits: 8,
                stop_bits: 1,
                parity: ParityConfig::NoParity,
                flow_control: FlowControlConfig::NoFlowControl,
            },
            commands: Vec::new(),
        },
        auto_reconnect: false,
        max_reconnect_attempts: 1,
        reconnect_delay_ms: 100,
        timeout_ms: 5000,
        max_history_size: 100,
        log_activities: true,
        tags: vec!["test".to_string()],
        properties: {
            let mut props = Properties::new();
            props.insert("priority".to_string(), "high".to_string());
            props
        },
    }
}

fn create_test_config() -> SessionConfig {
    config_for_port("/dev/null")
}

fn create_test_session() -> Session {
    Session::new(create_test_config()).unwrap()
}

fn create_engine() -> CommunicationEngine<MockClient> {
    CommunicationEngine::new(1000, 10)
}

#[test]
fn session_test_session_creation() {
    let session = create_test_session();

    assert_eq!(session.get_config().name, "test_session");
    assert!(matches!(session.get_config().session_type, SessionType::Testing));
    assert!(!session.is_running());

    let state = session.get_state();
    assert_eq!(state.device_name, "test_device");
    assert!(matches!(state.status, SessionStatus::Initializing));
    assert_eq!(state.metadata.transport_type, "serial");
    assert_eq!(state.metadata.config_name, Some("test_session".to_string()));
    assert_eq!(state.metadata.tags, vec!["test".to_string()]);
    assert_eq!(state.metadata.properties.get("priority"), Some(&"high".to_string()));
    assert_eq!(session.get_session_id().len(), 36);
    assert_eq!(session.get_session_id(), state.session_id);
}

#[test]
fn test_session_tags_are_taken_once() {
    let mut config = create_test_config();
    config.tags = vec!["a".to_string(), "b".to_string(), "a".to_string()];
    let session =
        Session::with_identity(config, "fixed-id".to_string(), Timestamp::from_millis(12));
    let state = session.get_state();
    assert_eq!(state.session_id, "fixed-id");
    assert_eq!(state.created_at, Timestamp::from_millis(12));
    assert_eq!(state.metadata.tags, vec!["a".to_string(), "b".to_string()]);
}

#[test]
fn session_test_session_lifecycle() {
    let mut engine = create_engine();
    let mut session = create_test_session();

    assert!(!session.is_running());

    let result = session.start(&mut engine);
    assert!(result.is_err());

    assert!(!session.is_running());
    let state = session.get_state();
    assert!(state.has_error());
    assert_eq!(
        state.get_error_message(),
        Some("Communication error: Failed to open serial port: Not a typewriter")
    );

    let result = session.stop(&mut engine);
    assert!(result.is_ok());
    assert!(session.get_state().has_error());
}

#[test]
fn test_session_runs_and_closes() {
    let mut engine = create_engine();
    assert!(engine.start().is_ok());
    let mut session = Session::new(config_for_port("/dev/ttyUSB0")).unwrap();

    assert!(session.start(&mut engine).is_ok());
    assert!(session.is_running());
    assert!(session.get_state().is_active());
    assert_eq!(engine.list_sessions().len(), 1);

    match session.start(&mut engine) {
        Err(TermComError::Session { message }) => {
            assert_eq!(message, "Session is already running");
        }
        _ => panic!("a running session started again"),
    }
    assert_eq!(engine.list_sessions().len(), 1);

    assert!(session.send_data(&mut engine, b"hello".to_vec()).is_ok());
    assert!(session.send_command(&mut engine, "STATUS").is_ok());
    assert!(session.send_data(&mut engine, b"fail".to_vec()).is_err());
    assert_eq!(session.process_activities(), 4);

    let state = session.get_state();
    assert_eq!(state.statistics.messages_sent, 1);
    assert_eq!(state.statistics.bytes_sent, 5);
    assert_eq!(state.statistics.error_count, 0);

    let activities = session.get_activity_history();
    assert_eq!(activities.len(), 4);
    assert_eq!(activities[0].activity_type, ActivityType::Created);
    assert_eq!(
        activities[0].description,
        "Session 'test_session' created for device 'test_device'"
    );
    assert_eq!(activities[1].activity_type, ActivityType::Connected);
    assert_eq!(activities[1].description, "Transport session established");
    assert_eq!(activities[2].activity_type, ActivityType::DataSent);
    assert_eq!(activities[2].description, "Sent 5 bytes");
    assert_eq!(activities[2].data_size, Some(5));
    assert_eq!(activities[3].activity_type, ActivityType::CommandExecuted);
    assert_eq!(activities[3].description, "Executed command: STATUS");
    assert_eq!(session.activity_count(), 4);

    assert!(session.stop(&mut engine).is_ok());
    assert!(!session.is_running());
    assert!(session.get_state().is_closed());
    assert!(engine.list_sessions().is_empty());
    assert_eq!(session.process_activities(), 1);
    assert_eq!(session.get_activity_history()[4].activity_type, ActivityType::Closed);
    assert_eq!(session.get_activity_history()[4].description, "Session closed");
}

#[test]
fn test_idempotent_stop() {
    let mut engine = create_engine();
    assert!(engine.start().is_ok());
    let mut session = Session::new(config_for_port("/dev/ttyUSB0")).unwrap();
    assert!(session.start(&mut engine).is_ok());
    assert!(session.stop(&mut engine).is_ok());
    assert!(session.get_state().is_closed());
    let after_first = session.process_activities();
    engine.process_pending_messages();
    let messages = engine.get_message_history().len();

    assert!(session.stop(&mut engine).is_ok());
    assert!(session.get_state().is_closed());
    assert!(!session.is_running());
    assert_eq!(session.process_activities(), 0);
    assert_eq!(engine.process_pending_messages(), 0);
    assert_eq!(engine.get_message_history().len(), messages);
    assert_eq!(after_first, 3);
    let closed = session
        .get_activity_history()
        .iter()
        .filter(|activity| activity.activity_type == ActivityType::Closed)
        .count();
    assert_eq!(closed, 1);
}

#[test]
fn test_closed_session_is_terminal() {
    let mut engine = create_engine();
    assert!(engine.start().is_ok());
    let mut session = Session::new(config_for_port("/dev/ttyUSB0")).unwrap();
    assert!(session.start(&mut engine).is_ok());
    assert!(session.stop(&mut engine).is_ok());

    match session.send_data(&mut engine, b"hello".to_vec()) {
        Err(TermComError::Session { message }) => assert_eq!(message, "Session is not running"),
        _ => panic!("a closed session sent data"),
    }
    match session.send_command(&mut engine, "STATUS") {
        Err(TermComError::Session { message }) => assert_eq!(message, "Session is not running"),
        _ => panic!("a closed session sent a command"),
    }
    match session.start(&mut engine) {
        Err(TermComError::Session { message }) => assert_eq!(message, "Session is closed"),
        _ => panic!("a closed session started"),
    }
    assert!(session.get_state().is_closed());
    assert!(!session.is_running());
}

#[test]
fn test_start_on_active_session_leaves_statistics() {
    let mut engine = create_engine();
    let mut session = Session::new(config_for_port("/dev/ttyUSB0")).unwrap();
    assert!(session.start(&mut engine).is_ok());
    assert!(session.send_data(&mut engine, b"abc".to_vec()).is_ok());
    session.process_activities();
    let before = session.get_state();
    assert!(session.start(&mut engine).is_err());
    assert_eq!(session.process_activities(), 0);
    let after = session.get_state();
    assert_eq!(after.statistics, before.statistics);
    assert!(after.is_active());
    assert_eq!(after.last_activity, before.last_activity);
}

#[test]
fn test_session_operations_when_not_running() {
    let mut engine = create_engine();
    let mut session = create_test_session();

    let result = session.send_data(&mut engine, b"test".to_vec());
    assert!(result.is_err());

    let result = session.send_command(&mut engine, "TEST");
    assert!(result.is_err());
}

#[test]
fn test_session_history() {
    let mut session = create_test_session();

    let messages = session.get_message_history();
    assert!(messages.is_empty());
    assert!(session.get_filtered_messages(&MessagePattern::new()).is_empty());
    assert_eq!(session.message_count(), 0);

    session.process_activities();
    let activities = session.get_activity_history();
    let _ = activities.len();

    session.clear_message_history();
    session.clear_activity_history();

    let activities = session.get_activity_history();
    assert!(activities.is_empty());
}

#[test]
fn test_activity_history_is_bounded() {
    let mut engine = create_engine();
    let mut config = config_for_port("/dev/ttyUSB0");
    config.max_history_size = 3;
    let mut session = Session::new(config).unwrap();
    assert!(session.start(&mut engine).is_ok());
    for i in 0..5u8 {
        assert!(session.send_data(&mut engine, vec![i; (i + 1) as usize]).is_ok());
    }
    assert_eq!(session.process_activities(), 7);
    let activities = session.get_activity_history();
    assert_eq!(activities.len(), 3);
    assert_eq!(activities[0].data_size, Some(3));
    assert_eq!(activities[1].data_size, Some(4));
    assert_eq!(activities[2].data_size, Some(5));
    let state = session.get_state();
    assert_eq!(state.statistics.messages_sent, 5);
    assert_eq!(state.statistics.bytes_sent, 15);
}

#[test]
fn test_configuration_update() {
    let mut session = create_test_session();

    let mut new_config = create_test_config();
    new_config.name = "updated_session".to_string();
    new_config.tags.push("updated".to_string());

    let result = session.update_config(new_config);
    assert!(result.is_ok());
    assert_eq!(session.get_config().name, "updated_session");

    let state = session.get_state();
    assert!(state.metadata.tags.contains(&"updated".to_string()));
    assert_eq!(state.metadata.config_name, Some("updated_session".to_string()));
}

#[test]
fn test_configuration_update_while_running() {
    let mut engine = create_engine();
    let mut session = Session::new(config_for_port("/dev/ttyUSB0")).unwrap();
    assert!(session.start(&mut engine).is_ok());
    let mut new_config = config_for_port("/dev/ttyUSB0");
    new_config.name = "other".to_string();
    match session.update_config(new_config) {
        Err(TermComError::Session { message }) => {
            assert_eq!(message, "Cannot update configuration while session is running");
        }
        _ => panic!("a running session took a new configuration"),
    }
    assert_eq!(session.get_config().name, "test_session");
}

#[test]
fn session_test_session_type_display() {
    assert_eq!(SessionType::Interactive.to_string(), "Interactive");
    assert_eq!(SessionType::Automated.to_string(), "Automated");
    assert_eq!(SessionType::Monitoring.to_string(), "Monitoring");
    assert_eq!(SessionType::Testing.to_string(), "Testing");
}

#[test]
fn integration_tests_test_session_type_display() {
    assert_eq!(termcom::SessionType::Interactive.to_string(), "Interactive");
    assert_eq!(termcom::SessionType::Automated.to_string(), "Automated");
    assert_eq!(termcom::SessionType::Monitoring.to_string(), "Monitoring");
    assert_eq!(termcom::SessionType::Testing.to_string(), "Testing");
}

#[test]
fn test_default_session_config() {
    let config = SessionConfig::default();
    assert_eq!(config.name, "default_session");
    assert!(matches!(config.session_type, SessionType::Interactive));
    assert!(!config.auto_reconnect);
    assert_eq!(config.max_history_size, 1000);
}
