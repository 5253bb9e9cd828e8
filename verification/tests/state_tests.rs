use termcom::state::{
    mean_after, ActivityType, SessionActivity, SessionState, SessionStatistics, SessionStatus,
};
use termcom::time::{Duration, Timestamp};

#[test]
fn test_session_state_creation() {
    let state = SessionState::new(
        "test_session".to_string(),
        "test_device".to_string(),
        "serial".to_string(),
    );

    assert_eq!(state.session_id, "test_session");
    assert_eq!(state.device_name, "test_device");
    assert_eq!(state.metadata.transport_type, "serial");
    assert!(matches!(state.status, SessionStatus::Initializing));
    assert!(state.is_active() == false);
    assert!(state.is_closed() == false);
}

#[test]
fn test_status_updates() {
    let mut state = SessionState::new(
        "test_session".to_string(),
        "test_device".to_string(),
        "tcp".to_string(),
    );

    state.update_status(SessionStatus::Active);
    assert!(state.is_active());
    assert!(!state.has_error());

    state.update_status(SessionStatus::Error("Connection failed".to_string()));
    assert!(state.has_error());
    assert_eq!(state.get_error_message(), Some("Connection failed"));

    state.update_status(SessionStatus::Closed);
    assert!(state.is_closed());
}

#[test]
fn test_activity_recording() {
    let mut state = SessionState::new(
        "test_session".to_string(),
        "test_device".to_string(),
        "serial".to_string(),
    );

    let activity = SessionActivity::data_sent("Test data".to_string(), 100);
    state.record_activity(activity);

    assert_eq!(state.statistics.messages_sent, 1);
    assert_eq!(state.statistics.bytes_sent, 100);

    let activity = SessionActivity::data_received("Response data".to_string(), 50);
    state.record_activity(activity);

    assert_eq!(state.statistics.messages_received, 1);
    assert_eq!(state.statistics.bytes_received, 50);

    let activity = SessionActivity::error("Test error".to_string());
    state.record_activity(activity);

    assert_eq!(state.statistics.error_count, 1);
}

#[test]
fn test_response_time_tracking() {
    let mut state = SessionState::new(
        "test_session".to_string(),
        "test_device".to_string(),
        "tcp".to_string(),
    );

    let activity =
        SessionActivity::response_received("First response".to_string(), Duration::from_millis(100));
    state.record_activity(activity);

    assert_eq!(state.statistics.last_response_time_ms, Some(100));
    assert_eq!(state.statistics.avg_response_time_micros as f64 / 1000.0, 100.0);

    let activity = SessionActivity::response_received(
        "Second response".to_string(),
        Duration::from_millis(200),
    );
    state.record_activity(activity);

    assert_eq!(state.statistics.last_response_time_ms, Some(200));
    assert_eq!(state.statistics.avg_response_time_micros as f64 / 1000.0, 150.0);
}

#[test]
fn test_average_response_time_of_three_responses() {
    let mut state = SessionState::new("s".to_string(), "d".to_string(), "tcp".to_string());
    let mut averages = Vec::new();
    for millis in [100u64, 200, 300] {
        state.record_activity(SessionActivity::response_received(
            "response".to_string(),
            Duration::from_millis(millis),
        ));
        averages.push(state.statistics.avg_response_time_micros as f64 / 1000.0);
    }
    assert_eq!(averages, vec![100.0, 150.0, 200.0]);
    assert_eq!(state.statistics.last_response_time_ms, Some(300));
    assert_eq!(state.statistics.messages_received, 3);
    assert_eq!(state.statistics.avg_response_time_ms(), 200);
}

#[test]
fn test_running_mean_counts_every_received_message() {
    let mut state = SessionState::new("s".to_string(), "d".to_string(), "tcp".to_string());
    state.record_activity(SessionActivity::data_received("data".to_string(), 4));
    state.record_activity(SessionActivity::response_received(
        "response".to_string(),
        Duration::from_millis(100),
    ));
    assert_eq!(state.statistics.messages_received, 2);
    assert_eq!(state.statistics.avg_response_time_micros, 50_000);
    let before = state.statistics;
    state.record_activity(SessionActivity::new(
        ActivityType::ResponseReceived,
        "no duration".to_string(),
    ));
    assert_eq!(state.statistics.messages_received, 3);
    assert_eq!(state.statistics.avg_response_time_micros, before.avg_response_time_micros);
    assert_eq!(state.statistics.last_response_time_ms, before.last_response_time_ms);
}

#[test]
fn test_mean_after() {
    assert_eq!(mean_after(0, 1, 100), 100_000);
    assert_eq!(mean_after(999, 0, 7), 7_000);
    assert_eq!(mean_after(100_000, 2, 200), 150_000);
    assert_eq!(mean_after(150_000, 3, 300), 200_000);
    assert_eq!(mean_after(1, 3, 0), 0);
    assert_eq!(mean_after(0, 1, u64::MAX), u64::MAX);
    assert_eq!(mean_after(u64::MAX, u64::MAX, u64::MAX), u64::MAX);
}

#[test]
fn test_counters_stop_at_the_largest_number() {
    let mut statistics = SessionStatistics::default();
    statistics.bytes_sent = u64::MAX - 1;
    statistics.messages_sent = u64::MAX;
    statistics.record(&SessionActivity::data_sent("data".to_string(), 5));
    assert_eq!(statistics.bytes_sent, u64::MAX);
    assert_eq!(statistics.messages_sent, u64::MAX);
}

#[test]
fn test_other_activities_count_nothing() {
    let mut state = SessionState::new("s".to_string(), "d".to_string(), "tcp".to_string());
    let at = Timestamp::from_millis(77);
    for activity_type in [
        ActivityType::Created,
        ActivityType::Connected,
        ActivityType::CommandExecuted,
        ActivityType::ConnectionLost,
        ActivityType::Closed,
        ActivityType::Custom("probe".to_string()),
    ] {
        state.record_activity(SessionActivity::at(at, activity_type, "x".to_string()));
    }
    assert_eq!(state.statistics, SessionStatistics::default());
    assert_eq!(state.last_activity, at);
}

#[test]
fn test_metadata_management() {
    let mut state = SessionState::new(
        "test_session".to_string(),
        "test_device".to_string(),
        "serial".to_string(),
    );

    state.add_tag("important".to_string());
    state.add_tag("test".to_string());
    state.add_tag("important".to_string());

    assert_eq!(state.metadata.tags.len(), 2);
    assert!(state.metadata.tags.contains(&"important".to_string()));
    assert!(state.metadata.tags.contains(&"test".to_string()));

    state.add_property("priority".to_string(), "high".to_string());
    state.add_property("owner".to_string(), "user1".to_string());

    assert_eq!(state.metadata.properties.len(), 2);
    assert_eq!(state.metadata.properties.get("priority"), Some(&"high".to_string()));

    state.set_connection_param("baud_rate".to_string(), "9600".to_string());
    state.set_connection_param("data_bits".to_string(), "8".to_string());

    assert_eq!(state.metadata.connection_params.len(), 2);
}

#[test]
fn test_properties_replace_by_key() {
    let mut state = SessionState::new("s".to_string(), "d".to_string(), "tcp".to_string());
    state.add_property("priority".to_string(), "high".to_string());
    state.add_property("owner".to_string(), "a".to_string());
    state.add_property("priority".to_string(), "low".to_string());
    assert_eq!(state.metadata.properties.len(), 2);
    assert_eq!(state.metadata.properties.get("priority"), Some(&"low".to_string()));
    assert_eq!(state.metadata.properties.get("owner"), Some(&"a".to_string()));
    assert_eq!(state.metadata.properties.get("missing"), None);
    assert!(state.metadata.properties.contains_key("owner"));
    assert!(!state.metadata.properties.is_empty());
    let copy = state.metadata.properties.clone();
    assert_eq!(copy.get("priority"), Some(&"low".to_string()));
}

#[test]
fn test_time_tracking() {
    let state = SessionState::new(
        "test_session".to_string(),
        "test_device".to_string(),
        "tcp".to_string(),
    );

    let uptime = state.get_uptime();
    assert!(uptime.as_millis() < 100);

    let idle_time = state.get_idle_time();
    assert!(idle_time.as_millis() < 100);
}

#[test]
fn test_time_spans() {
    let state = SessionState::new_at(
        "s".to_string(),
        "d".to_string(),
        "tcp".to_string(),
        Timestamp::from_millis(1_000),
    );
    assert_eq!(state.uptime_at(Timestamp::from_millis(1_250)).as_millis(), 250);
    assert_eq!(state.idle_time_at(Timestamp::from_millis(900)), Duration::zero());
    assert_eq!(Duration::from_secs(2).as_millis(), 2_000);
    assert_eq!(Duration::from_millis(1_500).as_secs(), 1);
    assert_eq!(Duration::from_millis(7).as_millis_u64(), 7);
    assert!(Duration::from_millis(8).longer_than(&Duration::from_millis(7)));
    assert_eq!(Duration::default(), Duration::zero());
    assert!(Timestamp::now().elapsed().as_secs() < 5);
}

#[test]
fn test_activity_constructors() {
    let activity = SessionActivity::command_executed("RESET".to_string());
    assert_eq!(activity.description, "Executed command: RESET");
    assert!(matches!(activity.activity_type, ActivityType::CommandExecuted));
    assert_eq!(activity.data_size, None);

    let activity = SessionActivity::error("boom".to_string());
    assert_eq!(activity.description, "Error: boom");
    assert!(matches!(activity.activity_type, ActivityType::Error));

    let activity = SessionActivity::custom("probe".to_string(), "looked".to_string());
    assert_eq!(activity.activity_type, ActivityType::Custom("probe".to_string()));
    assert_eq!(activity.description, "looked");

    let activity = SessionActivity::new(ActivityType::Connected, "up".to_string())
        .with_data_size(3)
        .with_duration(Duration::from_millis(9));
    assert_eq!(activity.data_size, Some(3));
    assert_eq!(activity.duration, Some(Duration::from_millis(9)));
}

#[test]
fn test_status_and_activity_names() {
    assert_eq!(SessionStatus::Initializing.to_string(), "Initializing");
    assert_eq!(SessionStatus::Active.to_string(), "Active");
    assert_eq!(SessionStatus::Disconnected.to_string(), "Disconnected");
    assert_eq!(SessionStatus::Closing.to_string(), "Closing");
    assert_eq!(SessionStatus::Closed.to_string(), "Closed");
    assert_eq!(SessionStatus::Error("x".to_string()).to_string(), "Error: x");
    assert!(SessionStatus::Error("a".to_string()).same_kind(&SessionStatus::Error("b".to_string())));
    assert!(!SessionStatus::Active.same_kind(&SessionStatus::Closed));

    assert_eq!(ActivityType::Created.to_string(), "Created");
    assert_eq!(ActivityType::Connected.to_string(), "Connected");
    assert_eq!(ActivityType::DataSent.to_string(), "Data Sent");
    assert_eq!(ActivityType::DataReceived.to_string(), "Data Received");
    assert_eq!(ActivityType::CommandExecuted.to_string(), "Command Executed");
    assert_eq!(ActivityType::ResponseReceived.to_string(), "Response Received");
    assert_eq!(ActivityType::ConnectionLost.to_string(), "Connection Lost");
    assert_eq!(ActivityType::Closed.to_string(), "Closed");
    assert_eq!(ActivityType::Error.to_string(), "Error");
    assert_eq!(ActivityType::Custom("probe".to_string()).to_string(), "probe");
}

#[test]
fn test_update_statistics() {
    let mut state = SessionState::new("s".to_string(), "d".to_string(), "tcp".to_string());
    state.update_statistics(|mut statistics: SessionStatistics| {
        statistics.error_count = 4;
        statistics
    });
    assert_eq!(state.statistics.error_count, 4);
    state.set_statistics(SessionStatistics::default(), Timestamp::from_millis(3));
    assert_eq!(state.statistics.error_count, 0);
    assert_eq!(state.last_activity, Timestamp::from_millis(3));
    state.set_status(SessionStatus::Active, Timestamp::from_millis(4));
    assert!(state.is_active());
    assert_eq!(state.last_activity, Timestamp::from_millis(4));
}
