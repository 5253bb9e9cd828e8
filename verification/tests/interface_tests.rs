use termcom::commands::{
    interactive_session_config, list_filter, serial_device_config, session_name,
    statistics_report, tcp_client_device_config, tcp_server_device_config, SerialLine,
};
use termcom::config::{
    ConnectionConfig, DeviceConfig, FlowControlConfig, GlobalConfig, ParityConfig, TermComConfig,
};
use termcom::input::OutputFormat;
use termcom::manager::{GlobalStatistics, SessionSummary};
use termcom::output::{
    check_file_format, config_as_text, device_csv_row, devices_as_text, devices_csv, session_csv_row,
    session_detail_csv, sessions_csv, OutputError, OutputKind,
};
use termcom::session::SessionType;
use termcom::settings::{
    config_source, example_project_config, global_part, log_level_for, merge_config, project_part, LogLevel,
};
use termcom::state::{SessionActivity, SessionState, SessionStatus};
use termcom::time::{Duration, Timestamp};
use termcom::transport::check_line;
use termcom::tui::{
    age_text, command_body, format_timestamp, ActivePanel, AppEvent, AppState, EventHandler, InputBuffer, Key,
    PanelState, ViewMode,
};
use termcom::TermComError;

fn tcp_device(name: &str, description: &str) -> DeviceConfig {
    DeviceConfig {
        name: name.to_string(),
        description: description.to_string(),
        connection: ConnectionConfig::Tcp {
            host: "localhost".to_string(),
            port: 1,
            timeout_ms: 2,
            keep_alive: false,
        },
        commands: Vec::new(),
    }
}

fn summary(id: &str, status: SessionStatus) -> SessionSummary {
    SessionSummary {
        session_id: id.to_string(),
        name: "name".to_string(),
        device_name: "probe".to_string(),
        session_type: SessionType::Monitoring,
        status,
        created_at: Timestamp::from_millis(0),
        last_activity: Timestamp::from_millis(0),
        uptime: Duration::zero(),
        message_count: 12,
        activity_count: 3,
        bytes_sent: 1024,
        bytes_received: 0,
    }
}

#[test]
fn test_log_levels() {
    assert_eq!(log_level_for("error", false), LogLevel::Error);
    assert_eq!(log_level_for("warn", false), LogLevel::Warn);
    assert_eq!(log_level_for("info", false), LogLevel::Info);
    assert_eq!(log_level_for("debug", false), LogLevel::Debug);
    assert_eq!(log_level_for("trace", false), LogLevel::Trace);
    assert_eq!(log_level_for("loud", false), LogLevel::Info);
    assert_eq!(log_level_for("error", true), LogLevel::Debug);
}

#[test]
fn test_merge_and_split_config() {
    let mut global = TermComConfig::default();
    global.global.log_level = "debug".to_string();
    global.devices.push(tcp_device("ignored", ""));
    let mut project = TermComConfig::default();
    project.global.log_level = "trace".to_string();
    project.devices.push(tcp_device("probe", ""));

    let merged = merge_config(Some(global), Some(project));
    assert_eq!(merged.global.log_level, "debug");
    assert_eq!(merged.devices.len(), 1);
    assert_eq!(merged.devices[0].name, "probe");

    let plain = merge_config(None, None);
    assert_eq!(plain.global.log_level, "info");
    assert!(plain.devices.is_empty());

    let kept = global_part(&merged);
    assert_eq!(kept.global.log_level, "debug");
    assert!(kept.devices.is_empty());
    let local = project_part(&merged);
    assert_eq!(local.global.log_level, GlobalConfig::default().log_level);
    assert_eq!(local.devices.len(), 1);
}

#[test]
fn test_example_project_config() {
    let config = example_project_config();
    assert_eq!(config.devices.len(), 2);
    assert_eq!(config.devices[0].name, "example_serial");
    assert_eq!(config.devices[0].commands.len(), 1);
    assert_eq!(config.devices[0].commands[0].template, "STATUS\\r\\n");
    assert_eq!(config.devices[0].commands[0].response_pattern, Some("OK.*".to_string()));
    assert!(config.devices[0].connection.is_serial());
    assert_eq!(config.devices[1].name, "example_tcp");
    assert!(matches!(
        config.devices[1].connection,
        ConnectionConfig::Tcp { port: 8080, timeout_ms: 3000, keep_alive: true, .. }
    ));
}

#[test]
fn test_serial_line_settings_are_checked() {
    let line = |data_bits: u8, stop_bits: u8| ConnectionConfig::Serial {
        port: "/dev/ttyUSB0".to_string(),
        baud_rate: 9600,
        data_bits,
        stop_bits,
        parity: ParityConfig::NoParity,
        flow_control: FlowControlConfig::NoFlowControl,
    };
    for data_bits in 5..=8 {
        assert!(check_line(&line(data_bits, 1)).is_ok());
        assert!(check_line(&line(data_bits, 2)).is_ok());
    }
    match check_line(&line(9, 1)) {
        Err(TermComError::Communication { message }) => {
            assert_eq!(message, "Invalid data bits: 9");
        }
        _ => panic!("nine data bits were taken"),
    }
    match check_line(&line(4, 3)) {
        Err(TermComError::Communication { message }) => {
            assert_eq!(message, "Invalid data bits: 4");
        }
        _ => panic!("four data bits were taken"),
    }
    match check_line(&line(8, 0)) {
        Err(TermComError::Communication { message }) => {
            assert_eq!(message, "Invalid stop bits: 0");
        }
        _ => panic!("no stop bits were taken"),
    }
    assert!(check_line(&tcp_device("a", "").connection).is_ok());
}

#[test]
fn test_csv_output() {
    let sessions = vec![
        summary("id-1", SessionStatus::Active),
        summary("id-2", SessionStatus::Error("lost".to_string())),
    ];
    assert_eq!(
        sessions_csv(&sessions),
        "id,device_name,session_type,status,message_count,bytes_sent,bytes_received\n\
         id-1,probe,Monitoring,Active,12,1024,0\n\
         id-2,probe,Monitoring,Error: lost,12,1024,0\n"
    );
    assert_eq!(
        sessions_csv(&Vec::new()),
        "id,device_name,session_type,status,message_count,bytes_sent,bytes_received\n"
    );
    assert_eq!(session_csv_row(&sessions[0]), "id-1,probe,Monitoring,Active,12,1024,0");

    let devices = vec![tcp_device("a", "first"), tcp_device("b", "")];
    assert_eq!(devices_csv(&devices), "name,description,transport_type\na,first,tcp\nb,,tcp\n");
    assert_eq!(device_csv_row(&devices[0]), "a,first,tcp");
    assert_eq!(
        devices_as_text(&devices),
        "Device: a\n  Description: first\n  Transport: tcp\n\n\
         Device: b\n  Description: No description\n  Transport: tcp\n\n"
    );

    let mut state = SessionState::new("sid".to_string(), "dev".to_string(), "serial".to_string());
    state.record_activity(SessionActivity::data_sent("x".to_string(), 7));
    state.record_activity(SessionActivity::error("x".to_string()));
    assert_eq!(
        session_detail_csv(&state),
        "id,device_name,session_type,status,transport_type,messages_sent,messages_received,\
         bytes_sent,bytes_received,error_count\n\
         sid,dev,serial,Initializing,serial,1,0,7,0,1\n"
    );
}

#[test]
fn test_file_formats() {
    assert!(check_file_format(OutputKind::Sessions, OutputFormat::Json).is_ok());
    assert!(check_file_format(OutputKind::Sessions, OutputFormat::Csv).is_ok());
    assert!(check_file_format(OutputKind::Devices, OutputFormat::Csv).is_ok());
    assert!(check_file_format(OutputKind::Config, OutputFormat::Json).is_ok());
    match check_file_format(OutputKind::Sessions, OutputFormat::Table) {
        Err(OutputError::TableError(text)) => {
            assert_eq!(text, "File output only supports JSON and CSV formats");
        }
        _ => panic!("a table went into a file"),
    }
    match check_file_format(OutputKind::SessionDetail, OutputFormat::Csv) {
        Err(e) => {
            assert_eq!(
                e.to_string(),
                "Table formatting error: File output only supports JSON format for session details"
            );
        }
        _ => panic!("a record went into a file as CSV"),
    }
    match check_file_format(OutputKind::Config, OutputFormat::Text) {
        Err(e) => match e.into_error() {
            TermComError::Output(text) => assert_eq!(
                text,
                "Table formatting error: File output only supports JSON format for configuration"
            ),
            _ => panic!("an output error became another error"),
        },
        _ => panic!("a configuration went into a file as text"),
    }
    assert_eq!(OutputError::JsonError("x".to_string()).to_string(), "JSON serialization error: x");
    assert_eq!(OutputError::IoError("x".to_string()).to_string(), "IO error: x");
}

#[test]
fn test_connect_configurations() {
    let line = SerialLine {
        baud_rate: 115200,
        data_bits: 8,
        stop_bits: 1,
        parity: ParityConfig::Odd,
        flow_control: FlowControlConfig::Software,
    };
    let device = serial_device_config("/dev/ttyS1".to_string(), line, None);
    assert_eq!(device.name, "serial-/dev/ttyS1");
    assert_eq!(device.description, "Serial device on /dev/ttyS1");
    assert!(matches!(
        device.connection,
        ConnectionConfig::Serial { baud_rate: 115200, parity: ParityConfig::Odd, .. }
    ));
    let named = serial_device_config("/dev/ttyS1".to_string(), line, Some("probe".to_string()));
    assert_eq!(named.name, "probe");

    let device = tcp_client_device_config("example.org".to_string(), 8080, 5, None);
    assert_eq!(device.name, "tcp-example.org:8080");
    assert_eq!(device.description, "TCP client connection to example.org:8080");
    assert!(matches!(
        device.connection,
        ConnectionConfig::Tcp { port: 8080, timeout_ms: 5000, keep_alive: true, .. }
    ));
    let device = tcp_client_device_config("h".to_string(), 1, u64::MAX, None);
    assert!(matches!(device.connection, ConnectionConfig::Tcp { timeout_ms: u64::MAX, .. }));

    let device = tcp_server_device_config("0.0.0.0".to_string(), 9000, None);
    assert_eq!(device.name, "tcp-server-0.0.0.0:9000");
    assert_eq!(device.description, "TCP server listening on 0.0.0.0:9000");

    let config = interactive_session_config("s".to_string(), device);
    assert_eq!(config.name, "s");
    assert_eq!(config.session_type, SessionType::Interactive);
    assert_eq!(config.max_reconnect_attempts, 3);
    assert_eq!(config.reconnect_delay_ms, 1000);
    assert_eq!(config.max_history_size, 1000);
    assert!(config.log_activities);
    assert!(config.tags.is_empty());

    assert_eq!(session_name(Some("mine".to_string())), "mine");
    assert_eq!(session_name(None).len(), 36);

    let filter = list_filter(Some(SessionType::Testing), None, Some("probe".to_string()));
    assert_eq!(filter.session_type, Some(SessionType::Testing));
    assert!(filter.status.is_none());
    assert_eq!(filter.device_name, Some("probe".to_string()));
}

#[test]
fn test_statistics_report() {
    let stats = GlobalStatistics {
        total_sessions: 3,
        active_sessions: 1,
        total_messages: 40,
        total_bytes_sent: 1000,
        total_bytes_received: 0,
        total_errors: 2,
    };
    assert_eq!(
        statistics_report(&stats),
        vec![
            "Session Statistics:",
            "  Total sessions: 3",
            "  Active sessions: 1",
            "  Total messages: 40",
            "  Total bytes sent: 1000",
            "  Total bytes received: 0",
            "  Total errors: 2",
        ]
    );
}

fn type_line(state: &mut AppState, line: &str) -> bool {
    for c in line.chars() {
        assert!(!state.handle_key_event(Key::Char(c)));
    }
    state.handle_key_event(Key::Enter)
}

#[test]
fn test_interface_keys() {
    let mut state = AppState::new();
    assert_eq!(state.view_mode, ViewMode::Chat);
    assert_eq!(
        state.status_message,
        Some("Welcome to TermCom TUI! Press ':' to connect or 'h' for help.".to_string())
    );
    assert!(!state.handle_key_event(Key::Char('h')));
    assert!(state.show_help);
    assert!(!state.handle_key_event(Key::Tab));
    assert_eq!(state.view_mode, ViewMode::Command);
    assert!(!state.handle_key_event(Key::Char('i')));
    assert!(!state.input_mode);
    assert!(!state.handle_key_event(Key::Char(':')));
    assert!(state.input_mode);

    assert!(!type_line(&mut state, ":serial /dev/ttyUSB0 9600x"));
    assert_eq!(state.status_message, Some("Invalid baud rate".to_string()));
    assert!(!state.input_mode);
    assert!(!state.handle_key_event(Key::Char(':')));
    for c in "  :serial /dev/ttyUSB0 9600".chars() {
        state.handle_key_event(Key::Char(c));
    }
    state.handle_key_event(Key::Char('!'));
    state.handle_key_event(Key::Backspace);
    assert!(!state.handle_key_event(Key::Enter));
    assert_eq!(state.view_mode, ViewMode::Chat);
    let connection = state.get_connection().unwrap();
    assert_eq!(connection.name, "Serial /dev/ttyUSB0");
    assert_eq!(connection.config_info, "Port: /dev/ttyUSB0, Baud: 9600");
    assert_eq!(state.status_message, Some("Connected to serial port: /dev/ttyUSB0".to_string()));

    assert!(!state.handle_key_event(Key::Char('i')));
    assert!(!type_line(&mut state, "ping"));
    let messages = &state.get_connection().unwrap().messages;
    assert_eq!(messages.len(), 2);
    assert_eq!(messages[0].content, "ping");
    assert!(messages[0].is_sent);
    assert_eq!(messages[1].content, "Echo: ping");
    assert!(!messages[1].is_sent);

    assert!(!state.handle_key_event(Key::Char('i')));
    state.handle_key_event(Key::Char('x'));
    assert!(!state.handle_key_event(Key::Esc));
    assert_eq!(state.input_buffer, "");
    assert!(!state.input_mode);
    assert!(state.handle_key_event(Key::Char('q')));
    assert!(state.handle_key_event(Key::Esc));
}

#[test]
fn test_interface_commands() {
    let mut state = AppState::new();
    assert!(!state.handle_command("serial a 1".to_string()));
    assert_eq!(state.status_message, Some("Commands must start with ':'".to_string()));
    assert!(!state.handle_command("".to_string()));
    assert_eq!(state.status_message, Some("Commands must start with ':'".to_string()));
    assert!(!state.handle_command(":".to_string()));
    assert_eq!(state.status_message, Some("Empty command".to_string()));
    assert!(!state.handle_command(":serial a".to_string()));
    assert_eq!(state.status_message, Some("Usage: :serial <port> <baud_rate>".to_string()));
    assert!(!state.handle_command(":tcp host".to_string()));
    assert_eq!(state.status_message, Some("Usage: :tcp <host> <port>".to_string()));
    assert!(!state.handle_command(":tcp host 70000".to_string()));
    assert_eq!(state.status_message, Some("Invalid port number".to_string()));
    assert!(!state.handle_command(":dance".to_string()));
    assert_eq!(state.status_message, Some("Unknown command: dance".to_string()));
    assert!(!state.handle_command(":close".to_string()));
    assert_eq!(state.status_message, Some("No connection to close".to_string()));
    assert!(!state.handle_command(":tcp host 8080".to_string()));
    assert_eq!(state.status_message, Some("Connected to TCP: host:8080".to_string()));
    assert_eq!(state.get_connection().unwrap().name, "TCP host:8080");
    assert_eq!(state.get_connection().unwrap().config_info, "Host: host, Port: 8080");
    assert!(state.add_message("pong".to_string(), false).is_ok());
    assert_eq!(state.get_connection().unwrap().messages.len(), 1);
    state.get_connection_mut().unwrap().connected = false;
    assert!(!state.get_connection().unwrap().connected);
    assert!(!state.handle_command(":close".to_string()));
    assert_eq!(state.status_message, Some("Closed connection: TCP host:8080".to_string()));
    assert!(state.get_connection().is_none());
    assert!(state.add_message("lost".to_string(), true).is_ok());
    assert!(state.update_connection().is_ok());
    state.clear_status_message();
    assert!(state.status_message.is_none());
    state.toggle_help();
    assert!(state.show_help);
    assert!(state.handle_command(" :quit ".to_string()));
    assert_eq!(ViewMode::Chat.to_string(), "Chat");
    assert_eq!(ViewMode::Command.to_string(), "Command");
}

#[test]
fn test_connect_input() {
    let handler = EventHandler::new();
    match handler.handle_connect_input("Serial /dev/ttyUSB0 9600".to_string()).unwrap() {
        Some(AppEvent::ConnectSerial { port, baud_rate }) => {
            assert_eq!(port, "/dev/ttyUSB0");
            assert_eq!(baud_rate, 9600);
        }
        _ => panic!("a serial line was not understood"),
    }
    match handler.handle_connect_input("  tcp   example.org  8080  extra".to_string()).unwrap() {
        Some(AppEvent::ConnectTcp { host, port }) => {
            assert_eq!(host, "example.org");
            assert_eq!(port, 8080);
        }
        _ => panic!("a TCP line was not understood"),
    }
    assert!(handler.handle_connect_input("tcp example.org".to_string()).unwrap().is_none());
    assert!(matches!(
        handler.handle_connect_input("tcp h +0080".to_string()).unwrap(),
        Some(AppEvent::ConnectTcp { port: 80, .. })
    ));
    assert!(matches!(
        handler.handle_connect_input("serial p 4294967295".to_string()).unwrap(),
        Some(AppEvent::ConnectSerial { baud_rate: u32::MAX, .. })
    ));
    for number in ["+", "-1", "65536", "0x10", "1_0", "\u{664}"] {
        let line = format!("tcp h {}", number);
        assert!(handler.handle_connect_input(line).unwrap().is_none(), "{}", number);
    }
    assert!(handler.handle_connect_input("serial p 4294967296".to_string()).unwrap().is_none());
    assert!(handler.handle_connect_input("tcp example.org x".to_string()).unwrap().is_none());
    assert!(handler.handle_connect_input("udp example.org 1".to_string()).unwrap().is_none());
    assert!(handler.handle_connect_input("".to_string()).unwrap().is_none());
}

#[test]
fn test_session_selection() {
    let handler = EventHandler::new();
    let ids = vec!["a".to_string(), "b".to_string(), "c".to_string()];
    assert_eq!(handler.select_next_session(&ids, None), Some("b".to_string()));
    assert_eq!(handler.select_next_session(&ids, Some("b".to_string())), Some("c".to_string()));
    assert_eq!(handler.select_next_session(&ids, Some("c".to_string())), Some("a".to_string()));
    assert_eq!(handler.select_next_session(&ids, Some("zz".to_string())), Some("b".to_string()));
    assert_eq!(handler.select_previous_session(&ids, None), Some("c".to_string()));
    assert_eq!(
        handler.select_previous_session(&ids, Some("c".to_string())),
        Some("b".to_string())
    );
    assert_eq!(
        handler.select_previous_session(&ids, Some("a".to_string())),
        Some("c".to_string())
    );
    assert_eq!(handler.select_next_session(&Vec::new(), Some("a".to_string())), Some("a".to_string()));
    assert_eq!(handler.select_previous_session(&Vec::new(), None), None);
}

#[test]
fn test_input_buffer() {
    let mut buffer = InputBuffer::new();
    assert!(buffer.is_empty());
    for c in "helo".chars() {
        assert!(buffer.handle_key(Key::Char(c)));
    }
    assert_eq!(buffer.content(), "helo");
    assert_eq!(buffer.cursor_position(), 4);
    assert!(buffer.handle_key(Key::Left));
    assert!(buffer.handle_key(Key::Char('l')));
    assert_eq!(buffer.content(), "hello");
    assert_eq!(buffer.cursor_position(), 4);
    assert!(buffer.handle_key(Key::Home));
    assert!(buffer.handle_key(Key::Backspace));
    assert_eq!(buffer.content(), "hello");
    assert!(buffer.handle_key(Key::Delete));
    assert_eq!(buffer.content(), "ello");
    assert!(buffer.handle_key(Key::End));
    assert!(buffer.handle_key(Key::Right));
    assert_eq!(buffer.cursor_position(), 4);
    assert!(buffer.handle_key(Key::Delete));
    assert!(buffer.handle_key(Key::Backspace));
    assert_eq!(buffer.to_string(), "ell");
    assert_eq!(buffer.len(), 3);
    assert!(!buffer.handle_key(Key::Enter));
    assert!(!buffer.handle_key(Key::Up));
    let copy = buffer.clone();
    buffer.clear();
    assert!(buffer.is_empty());
    assert_eq!(buffer.cursor_position(), 0);
    assert_eq!(copy.content(), "ell");
    assert!(InputBuffer::default().is_empty());
    buffer.insert_char('\u{e9}');
    buffer.insert_char('x');
    buffer.move_cursor_left();
    buffer.delete_char();
    assert_eq!(buffer.content(), "x");
    buffer.move_to_end();
    buffer.move_to_start();
    buffer.move_cursor_right();
    buffer.delete_char_forward();
    assert_eq!(buffer.content(), "x");
}

#[test]
fn test_config_text() {
    let mut config = TermComConfig::default();
    assert_eq!(
        config_as_text(&config),
        "TermCom Configuration:\n  Log level: info\n  Max sessions: 10\n  Timeout: 5000ms\n  \
         Auto save: true\n  History limit: 1000\n"
    );
    config.global.auto_save = false;
    config.devices.push(tcp_device("a", "first"));
    config.devices.push(tcp_device("b", ""));
    assert_eq!(
        config_as_text(&config),
        "TermCom Configuration:\n  Log level: info\n  Max sessions: 10\n  Timeout: 5000ms\n  \
         Auto save: false\n  History limit: 1000\n  Devices:\n    a: first\n    \
         b: No description\n"
    );
}

#[test]
fn test_config_source() {
    let global = Some("/home/user/.config/termcom/config.toml".to_string());
    assert_eq!(
        config_source(Some("mine.toml".to_string()), true, global.clone()),
        Some("mine.toml".to_string())
    );
    assert_eq!(config_source(None, true, global.clone()), Some("termcom.toml".to_string()));
    assert_eq!(config_source(None, false, global.clone()), global);
    assert_eq!(config_source(None, false, None), None);
}

#[test]
fn test_age_text() {
    assert_eq!(age_text(100, 100), "0s");
    assert_eq!(age_text(100, 159), "59s");
    assert_eq!(age_text(100, 160), "1m");
    assert_eq!(age_text(0, 3599), "59m");
    assert_eq!(age_text(0, 3600), "1h");
    assert_eq!(age_text(0, 86399), "23h");
    assert_eq!(age_text(0, 86400), "1d");
    assert_eq!(age_text(0, 86400 * 400), "400d");
    assert_eq!(age_text(500, 100), "0s");
    assert_eq!(format_timestamp(u64::MAX), "0s");
    assert!(format_timestamp(0).ends_with('d'));
}

fn panels() -> PanelState {
    PanelState {
        input_mode: false,
        show_help: false,
        input_buffer: String::new(),
        active_panel: ActivePanel::Sessions,
        selected_session: None,
        sessions: vec!["a".to_string(), "b".to_string()],
    }
}

#[test]
fn test_panel_keys() {
    let handler = EventHandler::new();
    let mut state = panels();

    assert!(handler.handle_key_event(Key::Char('h'), &mut state).unwrap().is_none());
    assert!(state.show_help);
    assert!(handler.handle_key_event(Key::Char('q'), &mut state).unwrap().is_none());
    assert!(handler.handle_key_event(Key::Esc, &mut state).unwrap().is_none());
    assert!(!state.show_help);
    assert!(matches!(
        handler.handle_key_event(Key::Char('q'), &mut state).unwrap(),
        Some(AppEvent::Quit)
    ));
    assert!(matches!(
        handler.handle_key_event(Key::Tab, &mut state).unwrap(),
        Some(AppEvent::SwitchPanel(ActivePanel::Chat))
    ));

    assert!(handler.handle_key_event(Key::Down, &mut state).unwrap().is_none());
    assert_eq!(state.selected_session, Some("b".to_string()));
    assert!(handler.handle_key_event(Key::Char('k'), &mut state).unwrap().is_none());
    assert_eq!(state.selected_session, Some("a".to_string()));
    match handler.handle_key_event(Key::Char('d'), &mut state).unwrap() {
        Some(AppEvent::CloseSession(id)) => assert_eq!(id, "a"),
        _ => panic!("the selected session was not asked to close"),
    }
    assert!(matches!(
        handler.handle_key_event(Key::Enter, &mut state).unwrap(),
        Some(AppEvent::SwitchPanel(ActivePanel::Chat))
    ));
    assert!(matches!(
        handler.handle_key_event(Key::Char('n'), &mut state).unwrap(),
        Some(AppEvent::SwitchPanel(ActivePanel::Connect))
    ));
    assert!(handler.handle_key_event(Key::Char('i'), &mut state).unwrap().is_none());

    state.active_panel = ActivePanel::Chat;
    assert!(matches!(
        handler.handle_key_event(Key::Char('i'), &mut state).unwrap(),
        Some(AppEvent::ToggleInputMode)
    ));
    assert!(matches!(
        handler.handle_key_event(Key::Tab, &mut state).unwrap(),
        Some(AppEvent::SwitchPanel(ActivePanel::Connect))
    ));
    state.input_mode = true;
    for c in " hello!".chars() {
        assert!(handler.handle_key_event(Key::Char(c), &mut state).unwrap().is_none());
    }
    assert!(handler.handle_key_event(Key::Backspace, &mut state).unwrap().is_none());
    assert!(handler.handle_key_event(Key::Left, &mut state).unwrap().is_none());
    match handler.handle_key_event(Key::Enter, &mut state).unwrap() {
        Some(AppEvent::SendMessage(text)) => assert_eq!(text, "hello"),
        _ => panic!("the line was not sent"),
    }
    assert!(!state.input_mode);
    assert_eq!(state.input_buffer, "");

    state.active_panel = ActivePanel::Connect;
    assert!(matches!(
        handler.handle_key_event(Key::Tab, &mut state).unwrap(),
        Some(AppEvent::SwitchPanel(ActivePanel::Sessions))
    ));
    state.input_mode = true;
    for c in "tcp host 23".chars() {
        handler.handle_key_event(Key::Char(c), &mut state).unwrap();
    }
    match handler.handle_key_event(Key::Enter, &mut state).unwrap() {
        Some(AppEvent::ConnectTcp { host, port }) => {
            assert_eq!(host, "host");
            assert_eq!(port, 23);
        }
        _ => panic!("the request to connect was not understood"),
    }
    state.input_mode = true;
    handler.handle_key_event(Key::Char(' '), &mut state).unwrap();
    assert!(handler.handle_key_event(Key::Enter, &mut state).unwrap().is_none());
}

fn words(line: &str) -> Vec<String> {
    line.split(' ').filter(|word| !word.is_empty()).map(str::to_string).collect()
}

#[test]
fn test_command_words() {
    assert_eq!(command_body(""), None);
    assert_eq!(command_body("quit"), None);
    assert_eq!(command_body(":"), Some(String::new()));
    assert_eq!(command_body(":tcp h 1"), Some("tcp h 1".to_string()));
    assert_eq!(command_body(":\u{e9}t\u{e9}"), Some("\u{e9}t\u{e9}".to_string()));

    let at = Timestamp::from_millis(7);
    let mut state = AppState::new();
    assert!(!state.apply_command_words(&Vec::new(), at));
    assert_eq!(state.status_message, Some("Empty command".to_string()));
    assert!(!state.apply_command_words(&words("serial /dev/ttyS0"), at));
    assert_eq!(state.status_message, Some("Usage: :serial <port> <baud_rate>".to_string()));
    assert!(!state.apply_command_words(&words("serial /dev/ttyS0 fast"), at));
    assert_eq!(state.status_message, Some("Invalid baud rate".to_string()));
    assert!(!state.apply_command_words(&words("Serial /dev/ttyS0 9600"), at));
    assert_eq!(state.status_message, Some("Unknown command: Serial".to_string()));
    state.view_mode = ViewMode::Command;
    assert!(!state.apply_command_words(&words("serial /dev/ttyS0 9600 extra"), at));
    assert_eq!(state.view_mode, ViewMode::Chat);
    assert_eq!(state.get_connection().unwrap().name, "Serial /dev/ttyS0");
    assert_eq!(state.get_connection().unwrap().last_activity, at);
    assert!(!state.apply_command_words(&words("tcp h 99999"), at));
    assert_eq!(state.status_message, Some("Invalid port number".to_string()));
    assert_eq!(state.get_connection().unwrap().name, "Serial /dev/ttyS0");
    assert!(!state.apply_command_words(&words("close now"), at));
    assert!(state.get_connection().is_none());
    assert!(state.apply_command_words(&words("quit"), at));

    let later = Timestamp::from_millis(9);
    state.create_tcp_connection_at("h".to_string(), 80, at);
    state.add_message_at("ping".to_string(), true, later);
    let connection = state.get_connection().unwrap();
    assert_eq!(connection.last_activity, later);
    assert_eq!(connection.messages[0].timestamp, later);
    assert_eq!(connection.messages[1].timestamp, later);
    state.create_serial_connection_at("p".to_string(), 1, later);
    assert_eq!(state.get_connection().unwrap().config_info, "Port: p, Baud: 1");
    assert!(state.handle_command_at(" :quit".to_string(), later));
    state.input_mode = true;
    assert!(!state.handle_key_event_at(Key::Char('x'), later));
    assert!(!state.handle_key_event_at(Key::Enter, later));
    assert_eq!(state.get_connection().unwrap().messages.len(), 2);
}

#[test]
fn test_connect_event_on_words() {
    let handler = EventHandler::new();
    match handler.connect_event("serial", &words("whatever /dev/ttyS0 9600")) {
        Some(AppEvent::ConnectSerial { port, baud_rate }) => {
            assert_eq!(port, "/dev/ttyS0");
            assert_eq!(baud_rate, 9600);
        }
        _ => panic!("the words of a serial request were not understood"),
    }
    assert!(matches!(
        handler.connect_event("tcp", &words("x h 23")),
        Some(AppEvent::ConnectTcp { port: 23, .. })
    ));
    assert!(handler.connect_event("tcp", &words("x h")).is_none());
    assert!(handler.connect_event("tcp", &words("x h -1")).is_none());
    assert!(handler.connect_event("TCP", &words("x h 23")).is_none());
    assert!(handler.connect_event("serial", &words("x p 70000000000")).is_none());

    let mut state = panels();
    state.input_mode = true;
    state.input_buffer = "left over".to_string();
    state.active_panel = ActivePanel::Chat;
    match handler.submit_line("hello".to_string(), &mut state).unwrap() {
        Some(AppEvent::SendMessage(text)) => assert_eq!(text, "hello"),
        _ => panic!("the line was not handed to the conversation"),
    }
    assert!(!state.input_mode);
    assert_eq!(state.input_buffer, "");
    assert!(handler.submit_line(String::new(), &mut state).unwrap().is_none());
    state.active_panel = ActivePanel::Sessions;
    assert!(handler.submit_line("hello".to_string(), &mut state).unwrap().is_none());
    state.active_panel = ActivePanel::Connect;
    assert!(matches!(
        handler.submit_line("tcp h 1".to_string(), &mut state).unwrap(),
        Some(AppEvent::ConnectTcp { port: 1, .. })
    ));
}
