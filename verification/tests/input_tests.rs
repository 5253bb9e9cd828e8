use std::collections::VecDeque;
use termcom::error::TermComError;
use termcom::history::{push_bounded, trim_to};
use termcom::input::{accept_decoded, parse_data, DataFormat, OutputFormat};
use termcom::message::{add_unique_tag, Message};
use termcom::text::{copy_strings, join, list_contains};
use termcom::time::Timestamp;

#[test]
fn test_parse_text() {
    assert_eq!(parse_data("hello", DataFormat::Text).unwrap(), b"hello");
    assert_eq!(parse_data("", DataFormat::Text).unwrap(), b"");
    assert_eq!(parse_data("\u{e9}", DataFormat::Text).unwrap(), vec![0xc3, 0xa9]);
}

#[test]
fn test_parse_hex() {
    assert_eq!(parse_data("48656c6c6f", DataFormat::Hex).unwrap(), b"Hello");
    assert_eq!(parse_data("48 65 6C\n6c 6F", DataFormat::Hex).unwrap(), b"Hello");
    assert_eq!(parse_data("", DataFormat::Hex).unwrap(), b"");
    assert_eq!(parse_data("fF00", DataFormat::Hex).unwrap(), vec![0xff, 0x00]);
}

#[test]
fn test_parse_hex_rejects_malformed_input() {
    match parse_data("123", DataFormat::Hex) {
        Err(TermComError::InvalidInput(text)) => {
            assert_eq!(text, "Invalid hex data: Odd number of digits");
        }
        _ => panic!("an odd number of digits was taken"),
    }
    match parse_data("zz", DataFormat::Hex) {
        Err(TermComError::InvalidInput(text)) => {
            assert!(text.starts_with("Invalid hex data: "));
        }
        _ => panic!("letters beyond f were taken"),
    }
    assert!(parse_data("4 8\t", DataFormat::Hex).is_err());
}

#[test]
fn test_parse_base64() {
    assert_eq!(parse_data("aGVsbG8=", DataFormat::Base64).unwrap(), b"hello");
    assert_eq!(parse_data("", DataFormat::Base64).unwrap(), b"");
    match parse_data("not base64!", DataFormat::Base64) {
        Err(TermComError::InvalidInput(text)) => {
            assert!(text.starts_with("Invalid base64 data: "));
        }
        _ => panic!("malformed Base64 was taken"),
    }
    assert!(parse_data("aGVsbG8", DataFormat::Base64).is_err());
}

#[test]
fn test_accept_decoded() {
    assert_eq!(accept_decoded(Some(vec![1, 2]), "p: ", "").unwrap(), vec![1, 2]);
    match accept_decoded(None, "p: ", "found") {
        Err(TermComError::InvalidInput(text)) => assert_eq!(text, "p: found"),
        _ => panic!("nothing decoded was taken"),
    }
}

#[test]
fn test_format_names() {
    assert_eq!(DataFormat::Text.to_string(), "text");
    assert_eq!(DataFormat::Hex.to_string(), "hex");
    assert_eq!(DataFormat::Base64.to_string(), "base64");
    assert_eq!(OutputFormat::Text.to_string(), "text");
    assert_eq!(OutputFormat::Json.to_string(), "json");
    assert_eq!(OutputFormat::Table.to_string(), "table");
    assert_eq!(OutputFormat::Csv.to_string(), "csv");
    assert_eq!(OutputFormat::default(), OutputFormat::Text);
}

#[test]
fn test_text_helpers() {
    let parts = vec!["a".to_string(), "bc".to_string(), "".to_string()];
    assert_eq!(join(&parts, ", "), "a, bc, ");
    assert_eq!(join(&Vec::new(), ", "), "");
    assert_eq!(join(&vec!["only".to_string()], ", "), "only");
    assert!(list_contains(&parts, "bc"));
    assert!(!list_contains(&parts, "b"));
    assert_eq!(copy_strings(&parts), parts);
    let mut tags = vec!["a".to_string()];
    add_unique_tag(&mut tags, "a".to_string());
    add_unique_tag(&mut tags, "b".to_string());
    assert_eq!(tags, vec!["a".to_string(), "b".to_string()]);
}

#[test]
fn test_bounded_history_keeps_the_newest() {
    for capacity in 0..6usize {
        let mut history: VecDeque<u32> = VecDeque::new();
        for item in 0..10u32 {
            push_bounded(&mut history, item, capacity);
            assert!(history.len() <= capacity);
        }
        let expected: Vec<u32> = (10 - capacity as u32..10).collect();
        assert_eq!(history.into_iter().collect::<Vec<_>>(), expected);
    }
    let mut history: VecDeque<u32> = (0..5).collect();
    trim_to(&mut history, 2);
    assert_eq!(history.into_iter().collect::<Vec<_>>(), vec![3, 4]);
}

#[test]
fn test_message_payloads() {
    let message = Message::from_parts(
        "id".to_string(),
        Timestamp::from_millis(1),
        "s".to_string(),
        "d".to_string(),
        termcom::message::MessageType::Received,
        vec![0x00, 0x0f, 0xa0, 0xff],
        "tcp".to_string(),
    );
    assert_eq!(message.id, "id");
    assert_eq!(message.timestamp, Timestamp::from_millis(1));
    assert_eq!(message.data_as_hex(), "00 0f a0 ff");
    assert_eq!(message.data_as_string(), None);
    assert_eq!(message.metadata.size, 4);
    let empty = Message::received("s".to_string(), "d".to_string(), Vec::new(), "tcp".to_string());
    assert_eq!(empty.data_as_hex(), "");
    assert_eq!(empty.data_as_string(), Some(String::new()));
    assert_eq!(empty.id.len(), 36);
    let failure = Message::error("s".to_string(), "d".to_string(), "boom".to_string(), "t".to_string());
    assert_eq!(failure.data, b"boom");
    let response =
        Message::response("s".to_string(), "d".to_string(), vec![1], "t".to_string(), Some(12));
    assert_eq!(response.metadata.duration_ms, Some(12));
    let copy = response.clone();
    assert_eq!(copy.id, response.id);
    assert_eq!(copy.data, response.data);
}
