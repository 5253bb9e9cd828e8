use termcom::adapter::TransportAdapter;
use termcom::config::{ConnectionConfig, DeviceConfig};
use termcom::engine::CommunicationEngine;
use termcom::error::{combine_failures, TermComError};
use termcom::message::MessageType;
use termcom::properties::Properties;
use termcom::registry::TransportRegistry;
use termcom::session::{Session, SessionConfig, SessionType};
use termcom::state::{ActivityType, SessionStatus};
use termcom::time::Timestamp;
use termcom::transport::{SessionInfo, SessionStatus as LinkStatus, TransportClient, TransportType};

/// A client that opens every device and whose connection dies with the
/// first write of the bytes `fail`.
struct MockClient {
    alive: bool,
}

impl TransportClient for MockClient {
    fn open(_connection: &ConnectionConfig) -> Result<Self, TermComError> {
        Ok(MockClient { alive: true })
    }

    fn send(&mut self, data: &Vec<u8>) -> Result<(), TermComError> {
        if data.as_slice() == b"fail" {
            self.alive = false;
            Err(TermComError::Timeout)
        } else {
            Ok(())
        }
    }

    fn is_connected(&self) -> bool {
        self.alive
    }

    fn close(self) -> Result<(), TermComError> {
        Err(TermComError::DeviceNotConnected)
    }
}

fn device(name: &str) -> DeviceConfig {
    DeviceConfig {
        name: name.to_string(),
        description: String::new(),
        connection: ConnectionConfig::Tcp {
            host: "localhost".to_string(),
            port: 4000,
            timeout_ms: 100,
            keep_alive: false,
        },
        commands: Vec::new(),
    }
}

fn config(name: &str) -> SessionConfig {
    SessionConfig {
        name: name.to_string(),
        session_type: SessionType::Automated,
        device_config: device("probe"),
        auto_reconnect: false,
        max_reconnect_attempts: 0,
        reconnect_delay_ms: 0,
        timeout_ms: 0,
        max_history_size: 10,
        log_activities: false,
        tags: Vec::new(),
        properties: Properties::new(),
    }
}

fn info(id: &str) -> SessionInfo {
    SessionInfo {
        id: id.to_string(),
        device_name: "probe".to_string(),
        transport_type: TransportType::Serial,
        status: LinkStatus::Connected,
        created_at: Timestamp::from_millis(0),
        last_activity: Timestamp::from_millis(0),
        bytes_sent: 0,
        bytes_received: 0,
        messages_sent: 0,
        messages_received: 0,
    }
}

#[test]
fn test_install_session_takes_the_outcome_of_the_opening() {
    let mut table: TransportAdapter<MockClient> = TransportAdapter::new(TransportType::Tcp, 2);
    let failed = table.install_session(
        "probe".to_string(),
        Err(TermComError::Timeout),
        "tcp_1".to_string(),
        Timestamp::from_millis(1),
    );
    assert!(matches!(failed, Err(TermComError::Timeout)));
    assert_eq!(table.get_session_count(), 0);

    let installed = table.install_session(
        "probe".to_string(),
        Ok(MockClient { alive: true }),
        "tcp_1".to_string(),
        Timestamp::from_millis(2),
    );
    assert_eq!(installed.unwrap(), "tcp_1");
    let entry = table.get_session_info("tcp_1").unwrap();
    assert_eq!(entry.device_name, "probe");
    assert_eq!(entry.created_at, Timestamp::from_millis(2));
    assert_eq!(entry.last_activity, Timestamp::from_millis(2));
    assert!(table.has_session("tcp_1"));

    assert!(table.settle_send("tcp_1", Err(TermComError::Timeout), Timestamp::from_millis(3)).is_err());
    assert_eq!(table.get_session_info("tcp_1").unwrap().last_activity, Timestamp::from_millis(2));
    assert!(table.settle_send("tcp_1", Ok(()), Timestamp::from_millis(4)).is_ok());
    assert_eq!(table.get_session_info("tcp_1").unwrap().last_activity, Timestamp::from_millis(4));
    assert!(table.check_admission(&device("probe")).is_err());
    assert!(table.check_admission(&device("other")).is_ok());

    assert!(matches!(table.close_session("tcp_1"), Err(TermComError::DeviceNotConnected)));
    assert!(!table.has_session("tcp_1"));
}

#[test]
fn test_registry_routes_to_the_claimant() {
    let mut registry: TransportRegistry<MockClient> = TransportRegistry::new();
    registry.register_transport(TransportAdapter::new(TransportType::Tcp, 2));
    let (id, _) = registry.create_session(&device("probe")).unwrap();
    assert_eq!(registry.claimant(&id), Some(TransportType::Tcp));
    assert_eq!(registry.claimant("ghost"), None);
    assert!(registry.transport(&TransportType::Tcp).is_some());
    assert!(registry.transport(&TransportType::Serial).is_none());
    assert_eq!(registry.get_transport(&TransportType::Tcp).unwrap().get_session_count(), 1);
    assert!(registry.get_transport(&TransportType::Serial).is_none());

    match registry.send_claimed(None, &id, vec![1]) {
        Err(TermComError::Communication { message }) => {
            assert_eq!(message, format!("Session '{}' not found in any transport", id));
        }
        _ => panic!("data went to a connection that nobody claimed"),
    }
    assert!(registry.send_claimed(Some(TransportType::Serial), &id, vec![1]).is_err());
    assert!(registry.send_claimed(Some(TransportType::Tcp), &id, vec![1]).is_ok());

    assert!(registry.send_data(&id, b"fail".to_vec()).is_err());
    assert_eq!(registry.claimant(&id), None);
    assert!(registry.get_session_info(&id).is_some());
    match registry.close_session(&id) {
        Err(TermComError::Communication { message }) => {
            assert_eq!(message, format!("Session '{}' not found in any transport", id));
        }
        _ => panic!("a dead connection was claimed"),
    }
    assert!(registry.get_session_info(&id).is_some());
    assert!(matches!(
        registry.close_claimed(Some(TransportType::Tcp), &id),
        Err(TermComError::DeviceNotConnected)
    ));
    assert!(registry.get_session_info(&id).is_none());
    assert!(registry.close_claimed(None, &id).is_err());
}

#[test]
fn test_engine_settles_what_the_registry_answered() {
    let mut engine: CommunicationEngine<MockClient> = CommunicationEngine::new(10, 10);
    assert!(engine.start_at(Timestamp::from_millis(1)).is_ok());

    let failed = engine.settle_create(&device("probe"), Err(TermComError::Timeout));
    assert!(matches!(failed, Err(TermComError::Timeout)));
    let made =
        engine.settle_create(&device("probe"), Ok(("serial_1".to_string(), TransportType::Serial)));
    assert_eq!(made.unwrap(), "serial_1");

    assert!(engine
        .settle_send("serial_1", info("serial_1"), vec![1, 2], MessageType::Sent, Err(TermComError::Timeout))
        .is_err());
    assert!(engine
        .settle_send("serial_1", info("serial_1"), vec![1, 2, 3], MessageType::Command, Ok(()))
        .is_ok());

    assert!(engine.settle_close("serial_1", Some(info("serial_1")), Err(TermComError::Timeout)).is_err());
    assert!(engine.settle_close("serial_1", None, Ok(())).is_ok());
    assert!(engine.settle_close("serial_1", Some(info("serial_1")), Ok(())).is_ok());
    assert_eq!(engine.process_pending_messages(), 3);

    let history = engine.get_message_history();
    assert_eq!(history[0].data_as_string(), Some("Session created using serial transport".to_string()));
    assert_eq!(history[0].metadata.transport, "serial");
    assert!(matches!(history[1].message_type, MessageType::Command));
    assert_eq!(history[1].metadata.sequence, 1);
    assert_eq!(history[1].device_name, "probe");
    assert_eq!(history[2].data_as_string(), Some("Session closed".to_string()));
    assert_eq!(engine.get_statistics().total_bytes_sent, 3);
}

#[test]
fn test_session_steps() {
    let mut session = Session::new(config("steps")).unwrap();
    assert!(session.check_sendable().is_err());
    assert!(!session.begin_stop());
    assert!(session.begin_start().is_ok());
    assert!(matches!(session.get_state().status, SessionStatus::Initializing));
    assert!(session.settle_start(Err(TermComError::Timeout)).is_err());
    assert_eq!(session.get_state().get_error_message(), Some("Communication timeout"));
    assert!(!session.is_running());
    assert_eq!(session.get_transport_session_id(), None);

    assert!(session.begin_start().is_ok());
    assert!(session.settle_start(Ok("tcp_7".to_string())).is_ok());
    assert!(session.is_running());
    assert_eq!(session.get_transport_session_id(), Some("tcp_7".to_string()));
    assert_eq!(session.check_sendable().unwrap(), "tcp_7");
    assert!(session.begin_start().is_err());

    assert!(session.settle_send_data(4, Err(TermComError::Timeout)).is_err());
    assert!(session.settle_send_data(4, Ok(())).is_ok());
    assert!(session.settle_send_command("PING", Err(TermComError::Timeout)).is_err());
    assert!(session.settle_send_command("PING", Ok(())).is_ok());

    assert!(session.begin_stop());
    assert!(matches!(session.get_state().status, SessionStatus::Closing));
    session.finish_stop();
    assert!(session.get_state().is_closed());
    assert!(!session.is_running());
    assert_eq!(session.get_transport_session_id(), None);
    assert!(session.begin_start().is_err());

    assert_eq!(session.process_activities(), 7);
    let kinds: Vec<ActivityType> =
        session.get_activity_history().into_iter().map(|a| a.activity_type).collect();
    assert_eq!(
        kinds,
        vec![
            ActivityType::Created,
            ActivityType::Error,
            ActivityType::Created,
            ActivityType::Connected,
            ActivityType::DataSent,
            ActivityType::CommandExecuted,
            ActivityType::Closed,
        ]
    );
    assert_eq!(session.get_activity_history()[1].description, "Error: Communication timeout");
    let state = session.get_state();
    assert_eq!(state.statistics.error_count, 1);
    assert_eq!(state.statistics.bytes_sent, 4);
}

#[test]
fn test_stop_succeeds_when_the_close_fails() {
    let mut engine: CommunicationEngine<MockClient> = CommunicationEngine::new(10, 10);
    let mut session = Session::new(config("stubborn")).unwrap();
    assert!(session.start(&mut engine).is_ok());
    assert!(session.stop(&mut engine).is_ok());
    assert!(session.get_state().is_closed());
    assert!(engine.list_sessions().is_empty());
    engine.start().unwrap();
    assert_eq!(engine.process_pending_messages(), 1);
}

#[test]
fn test_combined_failures() {
    assert!(combine_failures("Errors: ", &Vec::new(), true).is_ok());
    match combine_failures("Errors: ", &vec!["a".to_string(), "b".to_string()], true) {
        Err(TermComError::Session { message }) => assert_eq!(message, "Errors: a, b"),
        _ => panic!("the failures of sessions were not combined"),
    }
    match combine_failures("Errors closing sessions: ", &vec!["x".to_string()], false) {
        Err(TermComError::Communication { message }) => {
            assert_eq!(message, "Errors closing sessions: x");
        }
        _ => panic!("the failures of transports were not combined"),
    }
}

#[test]
fn test_first_claimant() {
    assert_eq!(
        TransportRegistry::<MockClient>::first_claimant(true, true),
        Some(TransportType::Serial)
    );
    assert_eq!(
        TransportRegistry::<MockClient>::first_claimant(true, false),
        Some(TransportType::Serial)
    );
    assert_eq!(
        TransportRegistry::<MockClient>::first_claimant(false, true),
        Some(TransportType::Tcp)
    );
    assert_eq!(TransportRegistry::<MockClient>::first_claimant(false, false), None);
}

#[test]
fn test_receive_data() {
    let mut engine: CommunicationEngine<MockClient> = CommunicationEngine::new(10, 10);
    engine.start().unwrap();
    match engine.receive_data("ghost", vec![1]) {
        Err(TermComError::Communication { message }) => {
            assert_eq!(message, "Session 'ghost' not found");
        }
        _ => panic!("bytes were taken in for an unknown connection"),
    }
    let mut session = Session::new(config("listener")).unwrap();
    assert!(session.receive_data(&mut engine, vec![1]).is_err());
    session.start(&mut engine).unwrap();
    assert!(session.send_data(&mut engine, vec![9]).is_ok());
    assert!(session.receive_data(&mut engine, vec![1, 2, 3]).is_ok());
    assert!(session.receive_data(&mut engine, Vec::new()).is_ok());
    engine.process_pending_messages();
    session.process_activities();

    let history = engine.get_message_history();
    assert_eq!(history.len(), 4);
    assert!(matches!(history[2].message_type, MessageType::Received));
    assert_eq!(history[2].data, vec![1, 2, 3]);
    assert_eq!(history[2].metadata.sequence, 0);
    assert_eq!(history[2].device_name, "probe");
    assert_eq!(history[2].metadata.transport, "tcp");
    let stats = engine.get_statistics();
    assert_eq!(stats.total_bytes_received, 3);
    assert_eq!(stats.received_messages, 2);
    assert_eq!(stats.total_bytes_sent, 1);

    let state = session.get_state();
    assert_eq!(state.statistics.messages_received, 2);
    assert_eq!(state.statistics.bytes_received, 3);
    let activities = session.get_activity_history();
    assert_eq!(activities[3].activity_type, ActivityType::DataReceived);
    assert_eq!(activities[3].description, "Received 3 bytes");
    assert_eq!(activities[3].data_size, Some(3));

    session.stop(&mut engine).unwrap();
    match session.receive_data(&mut engine, vec![1]) {
        Err(TermComError::Session { message }) => assert_eq!(message, "Session is not running"),
        _ => panic!("a closed session took bytes in"),
    }
}
