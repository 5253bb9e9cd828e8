use termcom::config::{ConnectionConfig, DeviceConfig, FlowControlConfig, ParityConfig};
use termcom::engine::CommunicationEngine;
use termcom::error::TermComError;
use termcom::manager::{any_tag_among, SessionFilter, SessionManager};
use termcom::properties::Properties;
use termcom::session::{SessionConfig, SessionType};
use termcom::state::SessionStatus;
use termcom::time::Timestamp;
use termcom::transport::TransportClient;

/// A client that opens every device but the serial port `/dev/null`, and
/// that fails to write the bytes `fail`.
struct MockClient;

impl TransportClient for MockClient {
    fn open(connection: &ConnectionConfig) -> Result<Self, TermComError> {
        match connection {
            ConnectionConfig::Serial { port, .. } if port == "/dev/null" => {
                Err(TermComError::Communication {
                    message: "Failed to open serial port: Not a typewriter".to_string(),
                })
            }
            _ => Ok(MockClient),
        }
    }

    fn send(&mut self, data: &Vec<u8>) -> Result<(), TermComError> {
        if data.as_slice() == b"fail" {
            Err(TermComError::Communication { message: "write failed".to_string() })
        } else {
            Ok(())
        }
    }

    fn is_connected(&self) -> bool {
        true
    }

    fn close(self) -> Result<(), TermComError> {
        Ok(())
    }
}

fn device_on_port(name: &str, port: &str) -> DeviceConfig {
    DeviceConfig {
        name: name.to_string(),
        description: format!("Test device {}", name),
        connection: ConnectionConfig::Serial {
            port: port.to_string(),
            baud_rate: 9600,
            data_bits: 8,
            stop_bits: 1,
            parity: ParityConfig::NoParity,
            flow_control: FlowControlConfig::NoFlowControl,
        },
        commands: Vec::new(),
    }
}

fn config_on_port(name: &str, device_name: &str, port: &str) -> SessionConfig {
    SessionConfig {
        name: name.to_string(),
        session_type: SessionType::Testing,
        device_config: device_on_port(device_name, port),
        auto_reconnect: false,
        max_reconnect_attempts: 1,
        reconnect_delay_ms: 100,
        timeout_ms: 5000,
        max_history_size: 100,
        log_activities: true,
        tags: vec!["test".to_string()],
        properties: Properties::new(),
    }
}

fn create_test_session_config(name: &str, device_name: &str) -> SessionConfig {
    config_on_port(name, device_name, "/dev/null")
}

fn create_test_manager() -> SessionManager<MockClient> {
    let comm_engine = CommunicationEngine::new(1000, 10);
    SessionManager::new(comm_engine, 5)
}

#[test]
fn test_session_manager_creation() {
    let manager = create_test_manager();

    assert_eq!(manager.get_max_sessions(), 5);
    assert_eq!(manager.get_session_count(), 0);
    assert_eq!(manager.get_active_session_count(), 0);
}

#[test]
fn test_session_manager_basic_operations() {
    let engine: CommunicationEngine<MockClient> = CommunicationEngine::new(1000, 10);
    let manager = SessionManager::new(engine, 10);

    assert_eq!(manager.get_session_count(), 0);
    assert_eq!(manager.get_max_sessions(), 10);

    let stats = manager.get_statistics();
    assert_eq!(stats.total_sessions, 0);
    assert_eq!(stats.active_sessions, 0);
}

#[test]
fn manager_test_session_creation() {
    let mut manager = create_test_manager();
    let config = create_test_session_config("test_session", "test_device");

    let result = manager.create_session(config);
    assert!(result.is_ok());

    let session_id = result.unwrap();
    assert!(!session_id.is_empty());
    assert_eq!(manager.get_session_count(), 1);

    assert!(manager.has_session(&session_id));
}

#[test]
fn test_duplicate_session_names() {
    let mut manager = create_test_manager();
    let config1 = create_test_session_config("duplicate", "device1");
    let config2 = create_test_session_config("duplicate", "device2");

    let result1 = manager.create_session(config1);
    assert!(result1.is_ok());

    let result2 = manager.create_session(config2);
    assert!(result2.is_err());
    match result2 {
        Err(TermComError::Session { message }) => {
            assert_eq!(message, "Session with name 'duplicate' already exists");
        }
        _ => panic!("a second session took the name of the first"),
    }
    let named: Vec<_> = manager
        .list_sessions()
        .into_iter()
        .filter(|summary| summary.name == "duplicate")
        .collect();
    assert_eq!(named.len(), 1);
    assert_eq!(named[0].device_name, "device1");
}

#[test]
fn test_session_limit() {
    let mut manager = create_test_manager();

    for i in 0..5 {
        let config =
            create_test_session_config(&format!("session_{}", i), &format!("device_{}", i));
        let result = manager.create_session(config);
        assert!(result.is_ok());
    }

    let config = create_test_session_config("session_6", "device_6");
    let result = manager.create_session(config);
    assert!(result.is_err());
    match result {
        Err(TermComError::Session { message }) => {
            assert_eq!(message, "Maximum number of sessions (5) reached");
        }
        _ => panic!("a full manager took a session"),
    }
    let listed = manager.list_sessions();
    assert_eq!(listed.len(), 5);
    assert!(listed.iter().all(|summary| summary.name != "session_6"));
    assert!(manager.find_sessions_by_name("session_6").is_empty());
}

#[test]
fn manager_test_session_lifecycle() {
    let mut manager = create_test_manager();
    let config = create_test_session_config("lifecycle_test", "test_device");

    let session_id = manager.create_session(config).unwrap();

    let result = manager.start_session(&session_id);
    assert!(result.is_err());

    let result = manager.stop_session(&session_id);
    assert!(result.is_ok());

    let result = manager.remove_session(&session_id);
    assert!(result.is_ok());
    assert_eq!(manager.get_session_count(), 0);
}

#[test]
fn test_session_operations_on_nonexistent() {
    let mut manager = create_test_manager();

    let result = manager.start_session("nonexistent");
    assert!(result.is_err());

    let result = manager.stop_session("nonexistent");
    assert!(result.is_err());

    let result = manager.remove_session("nonexistent");
    assert!(result.is_err());

    let result = manager.send_data("nonexistent", b"test".to_vec());
    assert!(result.is_err());

    let result = manager.send_command("nonexistent", "TEST");
    assert!(result.is_err());
    match result {
        Err(TermComError::Session { message }) => {
            assert_eq!(message, "Session 'nonexistent' not found");
        }
        _ => panic!("an unknown session took a command"),
    }
    assert!(manager.get_session_state("nonexistent").is_none());
    assert!(manager
        .update_session_config("nonexistent", create_test_session_config("a", "b"))
        .is_err());
}

#[test]
fn test_session_listing() {
    let mut manager = create_test_manager();

    for i in 0..3 {
        let config =
            create_test_session_config(&format!("session_{}", i), &format!("device_{}", i));
        manager.create_session(config).unwrap();
    }

    let sessions = manager.list_sessions();
    assert_eq!(sessions.len(), 3);

    let filter = SessionFilter::new().with_session_type(SessionType::Testing);
    let filtered = manager.list_sessions_filtered(&filter);
    assert_eq!(filtered.len(), 3);
}

#[test]
fn test_filters_combine_conditions() {
    let mut manager = create_test_manager();
    let mut first = config_on_port("alpha_one", "device_A", "/dev/ttyUSB0");
    first.tags = vec!["lab".to_string()];
    let mut second = config_on_port("alpha_two", "device_B", "/dev/null");
    second.session_type = SessionType::Monitoring;
    second.tags = vec!["field".to_string(), "lab".to_string()];
    let mut third = config_on_port("beta", "device_C", "/dev/null");
    third.tags = Vec::new();
    let first_id = manager.create_session(first).unwrap();
    let second_id = manager.create_session(second).unwrap();
    manager.create_session(third).unwrap();
    assert!(manager.start_session(&first_id).is_ok());
    assert!(manager.start_session(&second_id).is_err());

    let by_pattern = SessionFilter::new().with_name_pattern("alpha");
    assert_eq!(manager.list_sessions_filtered(&by_pattern).len(), 2);
    let by_pattern_and_type = SessionFilter::new()
        .with_name_pattern("alpha")
        .with_session_type(SessionType::Testing);
    let found = manager.list_sessions_filtered(&by_pattern_and_type);
    assert_eq!(found.len(), 1);
    assert_eq!(found[0].session_id, first_id);

    let failed = SessionFilter::new().with_status(SessionStatus::Error("whatever".to_string()));
    let found = manager.get_sessions_summary_filtered(&failed);
    assert_eq!(found.len(), 1);
    assert_eq!(found[0].session_id, second_id);
    assert_eq!(found[0].activity_count, 0);
    assert_eq!(found[0].device_name, "device_B");

    let by_device = SessionFilter::new().with_device_name("device_C");
    assert_eq!(manager.list_sessions_filtered(&by_device)[0].name, "beta");

    let by_tag = SessionFilter::new().with_tag("field");
    assert_eq!(manager.list_sessions_filtered(&by_tag).len(), 1);
    let by_either_tag = SessionFilter::new().with_tag("field").with_tag("lab");
    assert_eq!(manager.list_sessions_filtered(&by_either_tag).len(), 2);
    let nothing = SessionFilter::new().with_tag("lab").with_device_name("device_C");
    assert!(manager.list_sessions_filtered(&nothing).is_empty());

    let at = Timestamp::from_nanos(Timestamp::now().nanos + 5_000_000_000);
    let all = manager.list_sessions_at(at);
    assert_eq!(all.len(), 3);
    assert!(all[0].uptime.as_secs() >= 4);
    assert_eq!(
        manager.list_sessions_filtered_at(&SessionFilter::default(), at).len(),
        3
    );
    assert_eq!(
        manager.get_sessions_summary_filtered_at(&by_tag.clone(), at).len(),
        1
    );
    assert!(any_tag_among(&vec!["a".to_string()], &Vec::new()));
    assert!(!any_tag_among(&Vec::new(), &vec!["a".to_string()]));
}

#[test]
fn test_find_sessions() {
    let mut manager = create_test_manager();

    let config1 = create_test_session_config("test_session_1", "device_A");
    let config2 = create_test_session_config("prod_session_1", "device_A");
    let config3 = create_test_session_config("test_session_2", "device_B");

    manager.create_session(config1).unwrap();
    manager.create_session(config2).unwrap();
    manager.create_session(config3).unwrap();

    let results = manager.find_sessions_by_name("test");
    assert_eq!(results.len(), 2);

    let results = manager.find_sessions_by_device("device_A");
    assert_eq!(results.len(), 2);
}

#[test]
fn test_session_statistics() {
    let mut manager = create_test_manager();

    let stats = manager.get_statistics();
    assert_eq!(stats.total_sessions, 0);

    for i in 0..3 {
        let config =
            create_test_session_config(&format!("session_{}", i), &format!("device_{}", i));
        manager.create_session(config).unwrap();
    }

    let stats = manager.get_statistics();
    assert_eq!(stats.total_sessions, 3);
    assert_eq!(stats.other_sessions, 3);
}

#[test]
fn test_statistics_sum_over_sessions() {
    let mut manager = create_test_manager();
    assert!(manager.start_engine().is_ok());
    assert!(manager.start_engine().is_err());
    let a = manager.create_session(config_on_port("a", "device_a", "/dev/ttyUSB0")).unwrap();
    let b = manager.create_session(config_on_port("b", "device_b", "/dev/ttyUSB1")).unwrap();
    let c = manager.create_session(config_on_port("c", "device_c", "/dev/null")).unwrap();
    assert!(manager.start_session(&a).is_ok());
    assert!(manager.start_session(&b).is_ok());
    assert!(manager.start_session(&c).is_err());
    assert!(manager.send_data(&a, vec![0; 10]).is_ok());
    assert!(manager.send_data(&a, vec![0; 5]).is_ok());
    assert!(manager.send_data(&b, vec![0; 7]).is_ok());
    assert!(manager.send_command(&b, "PING").is_ok());
    assert!(manager.send_data(&c, vec![0; 1]).is_err());
    assert!(manager.stop_session(&b).is_ok());
    manager.process_pending();

    assert_eq!(manager.get_active_session_count(), 1);
    let stats = manager.get_statistics();
    assert_eq!(stats.total_sessions, 3);
    assert_eq!(stats.active_sessions, 1);
    assert_eq!(stats.closed_sessions, 1);
    assert_eq!(stats.error_sessions, 1);
    assert_eq!(stats.disconnected_sessions, 0);
    assert_eq!(stats.other_sessions, 0);
    assert_eq!(stats.total_bytes_sent, 22);
    assert_eq!(stats.total_messages_sent, 3);
    assert_eq!(stats.total_messages_received, 0);
    assert_eq!(stats.total_errors, 1);

    let global = manager.get_global_statistics();
    assert_eq!(global.total_sessions, 3);
    assert_eq!(global.active_sessions, 1);
    assert_eq!(global.total_messages, 3);
    assert_eq!(global.total_bytes_sent, 22);
    assert_eq!(global.total_bytes_received, 0);
    assert_eq!(global.total_errors, 1);

    let state = manager.get_session_state(&a).unwrap();
    assert_eq!(state.statistics.bytes_sent, 15);
    let summaries = manager.get_sessions_summary_filtered(&SessionFilter::new());
    assert_eq!(summaries[0].message_count, 2);
    assert_eq!(summaries[0].bytes_sent, 15);
    let listed = manager.list_sessions();
    assert_eq!(listed[0].message_count, 0);
    assert_eq!(listed[0].activity_count, 4);

    let engine_stats = manager.engine().get_statistics();
    assert_eq!(engine_stats.total_bytes_sent, 26);
    assert_eq!(engine_stats.total_sessions, 1);
}

#[test]
fn test_bulk_operations() {
    let mut manager = create_test_manager();

    for i in 0..3 {
        let config =
            create_test_session_config(&format!("session_{}", i), &format!("device_{}", i));
        manager.create_session(config).unwrap();
    }

    assert_eq!(manager.get_session_count(), 3);

    let result = manager.stop_all_sessions();
    assert!(result.is_ok());

    let result = manager.remove_all_sessions();
    assert!(result.is_ok());
    assert_eq!(manager.get_session_count(), 0);
}

#[test]
fn test_start_all_reports_every_failure() {
    let mut manager = create_test_manager();
    let bad_one = manager.create_session(config_on_port("bad_one", "d1", "/dev/null")).unwrap();
    let good = manager.create_session(config_on_port("good", "d2", "/dev/ttyUSB0")).unwrap();
    let bad_two = manager.create_session(config_on_port("bad_two", "d3", "/dev/null")).unwrap();

    let result = manager.start_all_sessions();
    let text = "Communication error: Failed to open serial port: Not a typewriter";
    match result {
        Err(TermComError::Session { message }) => {
            assert_eq!(
                message,
                format!(
                    "Errors starting sessions: Session '{}': {}, Session '{}': {}",
                    bad_one, text, bad_two, text
                )
            );
        }
        _ => panic!("the failures were not reported"),
    }
    assert_eq!(manager.get_active_session_count(), 1);
    assert!(manager.get_session_state(&good).unwrap().is_active());

    assert!(manager.stop_all_sessions().is_ok());
    assert_eq!(manager.get_active_session_count(), 0);
    assert!(manager.get_session_state(&good).unwrap().is_closed());
    assert!(manager.get_session_state(&bad_one).unwrap().has_error());
    assert!(manager.engine().list_sessions().is_empty());
    assert!(manager.remove_all_sessions().is_ok());
    assert_eq!(manager.get_session_count(), 0);
}

#[test]
fn test_remove_stops_a_running_session() {
    let mut manager = create_test_manager();
    let id = manager.create_session(config_on_port("a", "d", "/dev/ttyUSB0")).unwrap();
    assert!(manager.start_session(&id).is_ok());
    assert_eq!(manager.engine().list_sessions().len(), 1);
    assert!(manager.remove_session(&id).is_ok());
    assert!(!manager.has_session(&id));
    assert!(manager.engine().list_sessions().is_empty());
    assert!(manager.remove_session(&id).is_err());
}

#[test]
fn test_update_session_config_keeps_names_apart() {
    let mut manager = create_test_manager();
    let a = manager.create_session(create_test_session_config("a", "d1")).unwrap();
    manager.create_session(create_test_session_config("b", "d2")).unwrap();

    match manager.update_session_config(&a, create_test_session_config("b", "d1")) {
        Err(TermComError::Session { message }) => {
            assert_eq!(message, "Session with name 'b' already exists");
        }
        _ => panic!("two sessions got the same name"),
    }
    assert!(manager.update_session_config(&a, create_test_session_config("a", "d9")).is_ok());
    assert!(manager.update_session_config(&a, create_test_session_config("c", "d9")).is_ok());
    assert_eq!(manager.find_sessions_by_name("c"), vec![a.clone()]);
    assert_eq!(manager.find_sessions_by_device("d9"), vec![a]);
    let check = manager.check_admission("c");
    assert!(check.is_err());
    assert!(manager.check_admission("d").is_ok());
}

#[test]
fn test_create_session_with_known_identity() {
    let mut manager = create_test_manager();
    let at = Timestamp::from_millis(42);
    let id = manager
        .create_session_with(create_test_session_config("a", "d1"), "id-1".to_string(), at)
        .unwrap();
    assert_eq!(id, "id-1");
    let state = manager.get_session_state("id-1").unwrap();
    assert_eq!(state.created_at, at);
    assert!(matches!(state.status, SessionStatus::Initializing));
    let replaced = manager
        .create_session_with(create_test_session_config("b", "d2"), "id-1".to_string(), at)
        .unwrap();
    assert_eq!(replaced, "id-1");
    assert_eq!(manager.get_session_count(), 1);
    assert_eq!(manager.list_sessions()[0].name, "b");
}

#[test]
fn test_manager_takes_in_received_bytes() {
    let mut manager = create_test_manager();
    let id = manager.create_session(config_on_port("a", "d", "/dev/ttyUSB0")).unwrap();
    assert!(manager.receive_data(&id, vec![1, 2]).is_err());
    assert!(manager.start_session(&id).is_ok());
    assert!(manager.receive_data(&id, vec![1, 2]).is_ok());
    match manager.receive_data("ghost", vec![1]) {
        Err(TermComError::Session { message }) => assert_eq!(message, "Session 'ghost' not found"),
        _ => panic!("an unknown session took bytes in"),
    }
    manager.process_pending();
    let stats = manager.get_statistics();
    assert_eq!(stats.total_bytes_received, 2);
    assert_eq!(stats.total_messages_received, 1);
    assert_eq!(manager.get_global_statistics().total_messages, 1);
}
