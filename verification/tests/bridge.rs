use rusty_web_core::bridge::{command_from_members, decode};
use rusty_web_core::navigation::Command;
use rusty_web_core::text::same_text;

#[test]
fn decode_navigate_message() {
    assert_eq!(
        decode(r#"{"type":"navigate","url":"example.com"}"#),
        Some(Command::NavigateTo(String::from("example.com")))
    );
}

#[test]
fn decode_settings_message() {
    assert_eq!(decode(r#"{"type":"settings"}"#), Some(Command::OpenSettings));
}

#[test]
fn decode_drops_unknown_tag() {
    assert_eq!(decode(r#"{"type":"bogus"}"#), None);
    assert_eq!(decode(r#"{"type":"Navigate","url":"example.com"}"#), None);
    assert_eq!(decode(r#"{"type":""}"#), None);
}

#[test]
fn decode_drops_malformed_json() {
    assert_eq!(decode(""), None);
    assert_eq!(decode("navigate"), None);
    assert_eq!(decode(r#"{"type":"settings""#), None);
    assert_eq!(decode(r#"{"type":"settings"} trailing"#), None);
    assert_eq!(decode(r#"{'type':'settings'}"#), None);
}

#[test]
fn decode_drops_navigate_without_url() {
    assert_eq!(decode(r#"{"type":"navigate"}"#), None);
    assert_eq!(decode(r#"{"type":"navigate","url":null}"#), None);
    assert_eq!(decode(r#"{"type":"navigate","url":42}"#), None);
    assert_eq!(decode(r#"{"type":"navigate","URL":"example.com"}"#), None);
}

#[test]
fn decode_drops_messages_without_a_string_tag() {
    assert_eq!(decode(r#"{}"#), None);
    assert_eq!(decode(r#"{"url":"example.com"}"#), None);
    assert_eq!(decode(r#"{"type":1}"#), None);
    assert_eq!(decode(r#"{"type":["settings"]}"#), None);
}

#[test]
fn decode_drops_values_that_are_no_object() {
    assert_eq!(decode(r#""settings""#), None);
    assert_eq!(decode(r#"["settings"]"#), None);
    assert_eq!(decode("null"), None);
    assert_eq!(decode("7"), None);
}

#[test]
fn decode_reads_json_text_not_raw_text() {
    assert_eq!(
        decode(r#"{ "url" : "ex\u0061mple.com/\"q\"\\", "type" : "navig\u0061te" }"#),
        Some(Command::NavigateTo(String::from("example.com/\"q\"\\")))
    );
    assert_eq!(
        decode("{\"type\":\"navigate\",\"url\":\"caf\u{e9}.example\"}"),
        Some(Command::NavigateTo(String::from("caf\u{e9}.example")))
    );
}

#[test]
fn decode_ignores_other_members() {
    assert_eq!(
        decode(r#"{"type":"settings","url":"example.com","extra":[1,2,3]}"#),
        Some(Command::OpenSettings)
    );
    assert_eq!(
        decode(r#"{"id":1,"type":"navigate","url":"","nested":{"type":"settings"}}"#),
        Some(Command::NavigateTo(String::new()))
    );
}

#[test]
fn command_from_members_covers_every_case() {
    assert_eq!(
        command_from_members(Some("navigate"), Some("example.com")),
        Some(Command::NavigateTo(String::from("example.com")))
    );
    assert_eq!(command_from_members(Some("navigate"), None), None);
    assert_eq!(command_from_members(Some("settings"), None), Some(Command::OpenSettings));
    assert_eq!(command_from_members(Some("settings"), Some("x")), Some(Command::OpenSettings));
    assert_eq!(command_from_members(Some("bogus"), Some("x")), None);
    assert_eq!(command_from_members(Some("navigat"), Some("x")), None);
    assert_eq!(command_from_members(Some("navigate "), Some("x")), None);
    assert_eq!(command_from_members(None, Some("x")), None);
    assert_eq!(command_from_members(None, None), None);
}

#[test]
fn same_text_compares_characters() {
    assert!(same_text("", ""));
    assert!(same_text("navigate", "navigate"));
    assert!(same_text("caf\u{e9}", "caf\u{e9}"));
    assert!(!same_text("navigate", "navigatE"));
    assert!(!same_text("navigate", "navigat"));
    assert!(!same_text("navigat", "navigate"));
    assert!(!same_text("", "a"));
    assert!(!same_text("cafe", "caf\u{e9}"));
}
