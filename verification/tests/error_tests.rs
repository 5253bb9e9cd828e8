use std::time::Instant;
use termcom::{TermComError, TermComResult};

#[test]
fn test_error_types() {
    let errors = vec![
        TermComError::Config { message: "Config error".to_string() },
        TermComError::Session { message: "Session error".to_string() },
        TermComError::Communication { message: "Comm error".to_string() },
        TermComError::Configuration("Config error".to_string()),
        TermComError::InvalidInput("Invalid input".to_string()),
        TermComError::Output("Output error".to_string()),
    ];

    for error in errors {
        let display = error.to_string();
        assert!(!display.is_empty(), "Error display should not be empty");

        fn assert_send_sync<T: Send + Sync>() {}
        assert_send_sync::<TermComError>();
    }
}

#[test]
fn test_every_error_has_its_line() {
    let text = "detail".to_string();
    let lines = vec![
        (TermComError::Serial(text.clone()), "Serial port error: detail"),
        (TermComError::Network(text.clone()), "Network error: detail"),
        (TermComError::Config { message: text.clone() }, "Configuration error: detail"),
        (TermComError::Session { message: text.clone() }, "Session error: detail"),
        (TermComError::Timeout, "Communication timeout"),
        (TermComError::InvalidData(text.clone()), "Invalid data format: detail"),
        (TermComError::DeviceNotConnected, "Device not connected"),
        (TermComError::Protocol(text.clone()), "Protocol error: detail"),
        (TermComError::Communication { message: text.clone() }, "Communication error: detail"),
        (TermComError::Configuration(text.clone()), "Configuration error: detail"),
        (TermComError::InvalidInput(text.clone()), "Invalid input: detail"),
        (TermComError::Output(text.clone()), "Output error: detail"),
    ];
    for (error, line) in lines {
        assert_eq!(error.to_string(), line);
        assert_eq!(error.clone().to_string(), line);
    }
    assert_eq!(TermComError::session("a".to_string()).to_string(), "Session error: a");
    assert_eq!(
        TermComError::communication("b".to_string()).to_string(),
        "Communication error: b"
    );
}

#[test]
fn test_error_conversion() {
    let io_error = std::io::Error::new(std::io::ErrorKind::NotFound, "File not found");
    let termcom_error: TermComError = io_error.into();
    assert!(matches!(termcom_error, TermComError::Network(_)));
    assert_eq!(termcom_error.to_string(), "Network error: File not found");
}

#[test]
fn test_result_type() {
    fn success_function() -> TermComResult<String> {
        Ok("success".to_string())
    }

    fn error_function() -> TermComResult<String> {
        Err(TermComError::Config { message: "Test error".to_string() })
    }

    let success = success_function();
    assert!(success.is_ok());
    assert_eq!(success.unwrap(), "success");

    let error = error_function();
    assert!(error.is_err());
    assert!(error.unwrap_err().to_string().contains("Config"));
}

#[test]
fn test_error_formatting() {
    let error = TermComError::Session {
        message: "Connection failed to device 'test-device' on port '/dev/ttyUSB0'".to_string(),
    };

    let display = format!("{}", error.to_string());
    let debug = format!("{:?}", error);

    assert!(display.contains("Session error"));
    assert!(display.contains("Connection failed"));
    assert!(!debug.is_empty());
    assert_ne!(display, debug);
}

#[test]
fn test_error_display() {
    let error = TermComError::Config { message: "Invalid configuration".to_string() };
    assert!(error.to_string().contains("Configuration error"));
    assert!(error.to_string().contains("Invalid configuration"));
}

#[test]
fn test_error_serialization() {
    let original_error = TermComError::InvalidInput("Test input".to_string());
    let error_string = original_error.to_string();

    let recreated_error = TermComError::InvalidInput(error_string);
    assert!(recreated_error.to_string().contains("Test input"));
}

#[test]
fn test_error_size() {
    let error_size = std::mem::size_of::<TermComError>();
    assert!(error_size <= 128, "TermComError too large: {} bytes", error_size);
}

#[test]
fn test_error_in_option_result() {
    fn complex_function() -> Option<TermComResult<String>> {
        Some(Err(TermComError::Output("Complex error".to_string())))
    }

    match complex_function() {
        Some(Ok(_)) => panic!("Should not succeed"),
        Some(Err(e)) => assert!(e.to_string().contains("Complex error")),
        None => panic!("Should not be None"),
    }
}

#[test]
fn test_error_performance() {
    let start = Instant::now();
    for _ in 0..10000 {
        let error = TermComError::Config { message: "Test error".to_string() };
        let _ = error.to_string();
    }
    let elapsed = start.elapsed();

    assert!(
        elapsed < std::time::Duration::from_millis(50),
        "Error handling too slow: {:?}",
        elapsed
    );
}
