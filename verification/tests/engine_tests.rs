use termcom::config::{ConnectionConfig, DeviceConfig, FlowControlConfig, ParityConfig};
use termcom::engine::{estimate_bytes, CommunicationEngine};
use termcom::error::TermComError;
use termcom::message::{Message, MessagePattern, MessageType};
use termcom::time::Timestamp;
use termcom::transport::{SessionStatus, TransportClient, TransportType};

/// A client that opens every device but the serial port `/dev/null`, and
/// that fails to write the bytes `fail`.
struct MockClient;

impl TransportClient for MockClient {
    fn open(connection: &ConnectionConfig) -> Result<Self, TermComError> {
        match connection {
            ConnectionConfig::Serial { port, .. } if port == "/dev/null" => {
                Err(TermComError::Communication {
                    message: "Failed to open serial port: Not a typewriter".to_string(),
                })
            }
            _ => Ok(MockClient),
        }
    }

    fn send(&mut self, data: &Vec<u8>) -> Result<(), TermComError> {
        if data.as_slice() == b"fail" {
            Err(TermComError::Communication { message: "write failed".to_string() })
        } else {
            Ok(())
        }
    }

    fn is_connected(&self) -> bool {
        true
    }

    fn close(self) -> Result<(), TermComError> {
        Ok(())
    }
}

fn create_test_serial_device() -> DeviceConfig {
    DeviceConfig {
        name: "test_serial".to_string(),
        description: "Test serial device".to_string(),
        connection: ConnectionConfig::Serial {
            port: "/dev/null".to_string(),
            baud_rate: 9600,
            data_bits: 8,
            stop_bits: 1,
            parity: ParityConfig::NoParity,
            flow_control: FlowControlConfig::NoFlowControl,
        },
        commands: Vec::new(),
    }
}

fn mock_device(name: &str) -> DeviceConfig {
    DeviceConfig {
        name: name.to_string(),
        description: "Mock device".to_string(),
        connection: ConnectionConfig::Tcp {
            host: "127.0.0.1".to_string(),
            port: 9000,
            timeout_ms: 1000,
            keep_alive: false,
        },
        commands: Vec::new(),
    }
}

#[test]
fn test_communication_engine_creation() {
    let engine: CommunicationEngine<MockClient> = CommunicationEngine::new(1000, 10);

    assert!(!engine.is_running());
    assert_eq!(engine.available_transports().len(), 2);
    assert!(engine.available_transports().contains(&TransportType::Serial));
    assert!(engine.available_transports().contains(&TransportType::Tcp));
}

#[test]
fn test_engine_lifecycle() {
    let mut engine: CommunicationEngine<MockClient> = CommunicationEngine::new(1000, 10);

    assert!(engine.start().is_ok());
    assert!(engine.is_running());

    assert!(engine.start().is_err());

    assert!(engine.stop().is_ok());
    assert!(!engine.is_running());
}

#[test]
fn test_communication_engine_lifecycle() {
    let mut engine: CommunicationEngine<MockClient> = CommunicationEngine::new(1000, 10);

    assert!(!engine.is_running());

    let start_result = engine.start();
    assert!(start_result.is_ok());
    assert!(engine.is_running());

    let stop_result = engine.stop();
    assert!(stop_result.is_ok());
    assert!(!engine.is_running());
}

#[test]
fn test_double_start_is_reported() {
    let mut engine: CommunicationEngine<MockClient> = CommunicationEngine::new(10, 10);
    assert!(engine.start().is_ok());
    match engine.start() {
        Err(TermComError::Communication { message }) => {
            assert_eq!(message, "Communication engine is already running");
        }
        _ => panic!("a running engine started again"),
    }
    assert!(engine.is_running());
}

#[test]
fn test_session_creation_failure() {
    let mut engine: CommunicationEngine<MockClient> = CommunicationEngine::new(1000, 10);
    assert!(engine.start().is_ok());

    let device = create_test_serial_device();

    let result = engine.create_session(&device);
    assert!(result.is_err());
    assert!(engine.list_sessions().is_empty());
    assert_eq!(engine.process_pending_messages(), 0);

    assert!(engine.stop().is_ok());
}

#[test]
fn test_message_history() {
    let mut engine: CommunicationEngine<MockClient> = CommunicationEngine::new(1000, 10);

    assert!(engine.start().is_ok());

    let message = Message::system(
        "test_session".to_string(),
        "test_device".to_string(),
        "Test message".to_string(),
        "test".to_string(),
    );

    engine.add_message_to_history(message);
    assert_eq!(engine.process_pending_messages(), 1);

    let history = engine.get_message_history();
    assert!(!history.is_empty());
    assert_eq!(history[0].data, b"Test message");

    assert!(engine.stop().is_ok());
}

#[test]
fn test_statistics() {
    let engine: CommunicationEngine<MockClient> = CommunicationEngine::new(1000, 10);
    let stats = engine.get_statistics();

    assert_eq!(stats.total_sessions, 0);
    assert_eq!(stats.active_sessions, 0);
    assert_eq!(stats.total_messages, 0);
}

#[test]
fn test_stopped_engine_moves_nothing() {
    let mut engine: CommunicationEngine<MockClient> = CommunicationEngine::new(5, 10);
    engine.add_message_to_history(Message::sent(
        "s".to_string(),
        "d".to_string(),
        vec![1],
        "tcp".to_string(),
    ));
    assert!(!engine.process_next_message());
    assert_eq!(engine.process_pending_messages(), 0);
    assert!(engine.get_message_history().is_empty());
    assert!(engine.start().is_ok());
    assert!(engine.process_next_message());
    assert!(!engine.process_next_message());
    assert_eq!(engine.get_message_history().len(), 1);
    assert_eq!(engine.get_statistics().total_messages, 1);
}

#[test]
fn test_bounded_engine_history() {
    let mut engine: CommunicationEngine<MockClient> = CommunicationEngine::new(3, 10);
    assert!(engine.start().is_ok());
    for i in 0..10u8 {
        engine.add_message_to_history(Message::received(
            "s".to_string(),
            "d".to_string(),
            vec![i],
            "tcp".to_string(),
        ));
        engine.process_pending_messages();
        assert!(engine.get_message_history().len() <= 3);
    }
    let history = engine.get_message_history();
    assert_eq!(history.len(), 3);
    assert_eq!(history[0].data, vec![7]);
    assert_eq!(history[1].data, vec![8]);
    assert_eq!(history[2].data, vec![9]);
    let stats = engine.get_statistics();
    assert_eq!(stats.total_messages, 10);
    assert_eq!(stats.received_messages, 3);
    assert_eq!(stats.sent_messages, 0);

    engine.clear_history();
    assert!(engine.get_message_history().is_empty());
    assert_eq!(engine.get_statistics().total_messages, 10);
}

#[test]
fn test_history_of_capacity_zero_keeps_nothing() {
    let mut engine: CommunicationEngine<MockClient> = CommunicationEngine::new(0, 10);
    assert!(engine.start().is_ok());
    engine.add_message_to_history(Message::received(
        "s".to_string(),
        "d".to_string(),
        vec![1],
        "tcp".to_string(),
    ));
    assert_eq!(engine.process_pending_messages(), 1);
    assert!(engine.get_message_history().is_empty());
    assert_eq!(engine.get_statistics().total_messages, 1);
}

#[test]
fn test_concrete_scenario() {
    let mut engine: CommunicationEngine<MockClient> = CommunicationEngine::new(3, 10);
    assert!(engine.start().is_ok());

    let a = engine.create_session(&mock_device("a")).unwrap();
    let b = engine.create_session(&mock_device("b")).unwrap();
    assert_ne!(a, b);

    for i in 1..=5u8 {
        assert!(engine.send_data(&a, vec![i]).is_ok());
    }
    assert_eq!(engine.process_pending_messages(), 7);

    let history = engine.get_message_history();
    assert_eq!(history.len(), 3);
    let sequences: Vec<u64> = history.iter().map(|m| m.metadata.sequence).collect();
    assert_eq!(sequences, vec![3, 4, 5]);
    for (message, byte) in history.iter().zip([3u8, 4, 5]) {
        assert!(matches!(message.message_type, MessageType::Sent));
        assert_eq!(message.session_id, a);
        assert_eq!(message.device_name, "a");
        assert_eq!(message.metadata.transport, "tcp");
        assert_eq!(message.data, vec![byte]);
    }

    let stats = engine.get_statistics();
    assert_eq!(stats.total_messages, 7);
    assert_eq!(stats.total_sessions, 2);
    assert_eq!(stats.active_sessions, 2);
    assert_eq!(stats.sent_messages, 3);
    assert_eq!(stats.total_bytes_sent, 5);
}

#[test]
fn test_system_messages_of_create_and_close() {
    let mut engine: CommunicationEngine<MockClient> = CommunicationEngine::new(10, 10);
    assert!(engine.start().is_ok());
    let id = engine.create_session(&mock_device("probe")).unwrap();
    let info = engine.get_session_info(&id).unwrap();
    assert_eq!(info.device_name, "probe");
    assert!(matches!(info.status, SessionStatus::Connected));
    assert!(engine.close_session(&id).is_ok());
    assert!(engine.get_session_info(&id).is_none());
    engine.process_pending_messages();

    let history = engine.get_message_history();
    assert_eq!(history.len(), 2);
    assert!(matches!(history[0].message_type, MessageType::System));
    assert_eq!(
        history[0].data_as_string(),
        Some("Session created using tcp transport".to_string())
    );
    assert_eq!(history[0].session_id, id);
    assert_eq!(history[0].device_name, "probe");
    assert_eq!(history[0].metadata.transport, "tcp");
    assert_eq!(history[0].metadata.sequence, 0);
    assert_eq!(history[1].data_as_string(), Some("Session closed".to_string()));
    assert_eq!(history[1].device_name, "probe");

    let system = MessagePattern::new().with_message_type(MessageType::System);
    assert_eq!(engine.get_filtered_messages(&system).len(), 2);
    let sent = MessagePattern::new().with_message_type(MessageType::Sent);
    assert!(engine.get_filtered_messages(&sent).is_empty());
}

#[test]
fn test_send_to_unknown_session() {
    let mut engine: CommunicationEngine<MockClient> = CommunicationEngine::new(10, 10);
    assert!(engine.start().is_ok());
    match engine.send_data("ghost", vec![1]) {
        Err(TermComError::Communication { message }) => {
            assert_eq!(message, "Session 'ghost' not found");
        }
        _ => panic!("an unknown session took data"),
    }
    match engine.send_command("ghost", "PING") {
        Err(TermComError::Communication { message }) => {
            assert_eq!(message, "Session 'ghost' not found");
        }
        _ => panic!("an unknown session took a command"),
    }
    assert!(engine.close_session("ghost").is_err());
    assert_eq!(engine.process_pending_messages(), 0);
    assert_eq!(engine.get_statistics().total_bytes_sent, 0);
}

#[test]
fn test_failed_write_gets_no_sequence_number() {
    let mut engine: CommunicationEngine<MockClient> = CommunicationEngine::new(10, 10);
    assert!(engine.start().is_ok());
    let id = engine.create_session(&mock_device("probe")).unwrap();
    assert!(engine.send_data(&id, b"fail".to_vec()).is_err());
    assert!(engine.send_command(&id, "PING").is_ok());
    engine.process_pending_messages();
    let commands = engine
        .get_filtered_messages(&MessagePattern::new().with_message_type(MessageType::Command));
    assert_eq!(commands.len(), 1);
    assert_eq!(commands[0].metadata.sequence, 1);
    assert_eq!(commands[0].data, b"PING");
    assert_eq!(engine.get_statistics().total_bytes_sent, 4);
}

#[test]
fn test_stop_closes_all_sessions_and_is_idempotent() {
    let mut engine: CommunicationEngine<MockClient> = CommunicationEngine::new(10, 10);
    assert!(engine.start().is_ok());
    engine.create_session(&mock_device("a")).unwrap();
    engine.create_session(&mock_device("b")).unwrap();
    assert_eq!(engine.list_sessions().len(), 2);
    assert!(engine.stop().is_ok());
    assert!(!engine.is_running());
    assert!(engine.list_sessions().is_empty());
    let queued = engine.get_statistics();
    assert!(engine.stop().is_ok());
    assert!(!engine.is_running());
    assert_eq!(engine.get_statistics().total_messages, queued.total_messages);
    assert!(engine.list_sessions().is_empty());
}

#[test]
fn test_cleanup_waits_for_its_interval() {
    let mut engine: CommunicationEngine<MockClient> = CommunicationEngine::new(2, 10);
    assert!(engine.start().is_ok());
    for i in 0..4u8 {
        engine.add_message_to_history(Message::sent(
            "s".to_string(),
            "d".to_string(),
            vec![i],
            "tcp".to_string(),
        ));
    }
    engine.process_pending_messages();
    engine.cleanup_old_data();
    assert_eq!(engine.get_message_history().len(), 2);
    let much_later = Timestamp::from_nanos(Timestamp::now().nanos + 301_000_000_000);
    engine.cleanup_old_data_at(much_later);
    assert_eq!(engine.get_message_history().len(), 2);
    let info = engine.get_memory_info();
    assert_eq!(info.message_count, 2);
    assert_eq!(info.max_history_size, 2);
    assert_eq!(
        info.estimated_memory_bytes,
        (info.message_count + info.message_capacity) * std::mem::size_of::<Message>()
    );
}

#[test]
fn test_estimate_bytes() {
    assert_eq!(estimate_bytes(2, 3, 10), 50);
    assert_eq!(estimate_bytes(2, 3, 0), 0);
    assert_eq!(estimate_bytes(usize::MAX, 1, 2), usize::MAX);
}

#[test]
fn test_uptime_runs_from_the_start() {
    let mut engine: CommunicationEngine<MockClient> = CommunicationEngine::new(2, 10);
    let at = Timestamp::from_millis(1_000);
    assert_eq!(engine.get_statistics_at(at).uptime.as_millis(), 0);
    assert!(engine.start_at(at).is_ok());
    let later = Timestamp::from_millis(3_500);
    assert_eq!(engine.get_statistics_at(later).uptime.as_millis(), 2_500);
}
