use btleplug_client::examples::{add, get_map};
use btleplug_client::gatt_peripheral::{
    notification_payload, short_uuid_to_uuid, CharacteristicServer, DescriptorServer, GattAction,
    GattRequest, CHARACTERISTIC_SHORT_UUID, DESCRIPTOR_SHORT_UUID, SERVICE_SHORT_UUID,
};
use btleplug_client::logging::{
    get_log_mode, init_log, log_level, log_max_width, phoenix_entry, wrap_log_entry, LogLevel, LogMode,
};
use btleplug_client::peripheral_manager::{parse_characteristic_uuid, service_added, GattService, ManagerMessage, RadioOutcome};
use btleplug_client::peripheral_manager_state::PeripheralManagerState;
use btleplug_client::text::{decimal_string, decimal_string_u64};
use btleplug_client::utils::{decode_value, expand_short_uuid};

fn some(s: &str) -> Option<String> {
    Some(s.to_string())
}

/// The UUID text that registering a service with these bytes reports.
fn added_uuid_text(uuid: [u8; 16]) -> String {
    let mut state = PeripheralManagerState::new();
    let service = GattService { uuid, primary: true, characteristics: Vec::new() };
    match service_added(&mut state, service, RadioOutcome::Done) {
        ManagerMessage::ServiceAdded(u) => u,
        other => panic!("unexpected {:?}", other),
    }
}

#[test]
fn log_mode_from_environment() {
    assert_eq!(get_log_mode(&None), LogMode::Cli);
    assert_eq!(get_log_mode(&some("phoenix")), LogMode::Phoenix);
    assert_eq!(get_log_mode(&some("Phoenix")), LogMode::Cli);
    assert_eq!(get_log_mode(&some("cli")), LogMode::Cli);
}

#[test]
fn log_level_from_environment() {
    assert_eq!(log_level(&None), LogLevel::Info);
    assert_eq!(log_level(&some("debug")), LogLevel::Debug);
    assert_eq!(log_level(&some("TrAcE")), LogLevel::Trace);
    assert_eq!(log_level(&some("off")), LogLevel::Off);
    assert_eq!(log_level(&some("verbose")), LogLevel::Info);
    assert_eq!(log_level(&some("WARN")), LogLevel::Warn);
    assert_eq!(log_level(&some("warning")), LogLevel::Info);
}

#[test]
fn line_width_from_environment() {
    assert_eq!(log_max_width(&None), 100);
    assert_eq!(log_max_width(&some("80")), 80);
    assert_eq!(log_max_width(&some("+7")), 7);
    assert_eq!(log_max_width(&some("-7")), 100);
    assert_eq!(log_max_width(&some("wide")), 100);
    assert_eq!(log_max_width(&some("007")), 7);
    assert_eq!(log_max_width(&some("")), 100);
    let s = init_log(&some("phoenix"), &some("error"), &some("40"));
    assert_eq!((s.mode, s.level, s.max_width), (LogMode::Phoenix, LogLevel::Error, 40));
}

#[test]
fn phoenix_lines_are_wrapped() {
    let e = phoenix_entry("2024-01-01 10:00:00", Some("src/lib.rs"), Some(42), "INFO", "hello");
    assert_eq!(e, "[2024-01-01 10:00:00] src/lib.rs:42 [INFO] - hello");
    let e2 = phoenix_entry("t", None, None, "WARN", "m");
    assert_eq!(e2, "[t] unknown:0 [WARN] - m");
    assert_eq!(wrap_log_entry("abcdefg", 3), vec!["abc", "def", "g"]);
    assert_eq!(wrap_log_entry("abcdef", 3), vec!["abc", "def"]);
    assert_eq!(wrap_log_entry("äöü", 2), vec!["äö", "ü"]);
    assert!(wrap_log_entry("", 5).is_empty());
    let long: String = "x".repeat(250);
    let lines = wrap_log_entry(&long, 100);
    assert_eq!(lines.len(), 3);
    assert_eq!(lines.concat(), long);
}

#[test]
fn short_uuids_fill_their_bytes() {
    assert_eq!(short_uuid_to_uuid(0x2A3D), [0, 0, 0, 0, 0, 0, 0x10, 0, 0x80, 0, 0, 0, 0x2A, 0x3D, 0, 0]);
    assert_eq!(added_uuid_text(short_uuid_to_uuid(SERVICE_SHORT_UUID)), "00000000-0000-1000-8000-000012340000");
    assert_ne!(short_uuid_to_uuid(CHARACTERISTIC_SHORT_UUID), short_uuid_to_uuid(DESCRIPTOR_SHORT_UUID));
}

#[test]
fn demo_characteristic_reads_back_text() {
    let mut c = CharacteristicServer::new();
    match c.handle(GattRequest::Read) {
        GattAction::Respond(b) => assert_eq!(b, b"Initial Value".to_vec()),
        other => panic!("unexpected {:?}", other),
    }
    match c.handle(GattRequest::Write(b"hello".to_vec())) {
        GattAction::Respond(b) => assert!(b.is_empty()),
        other => panic!("unexpected {:?}", other),
    }
    c.handle(GattRequest::Write(vec![0xFF]));
    match c.handle(GattRequest::Read) {
        GattAction::Respond(b) => assert_eq!(b, b"hello".to_vec()),
        other => panic!("unexpected {:?}", other),
    }
    assert!(matches!(c.handle(GattRequest::NotifySubscribe), GattAction::StartNotifying));
    assert!(c.notifying);
    assert!(matches!(c.handle(GattRequest::NotifyUnsubscribe), GattAction::Ignore));
    assert!(!c.notifying);
    assert_eq!(notification_payload(3), b"Notification 3".to_vec());
}

#[test]
fn demo_descriptor_stores_bytes() {
    let mut d = DescriptorServer::new();
    assert_eq!(d.value, vec![0, 0]);
    assert!(matches!(d.handle(GattRequest::Write(vec![1, 0])), GattAction::Respond(ref b) if b.is_empty()));
    match d.handle(GattRequest::Read) {
        GattAction::Respond(b) => assert_eq!(b, vec![1, 0]),
        other => panic!("unexpected {:?}", other),
    }
    assert!(matches!(d.handle(GattRequest::NotifySubscribe), GattAction::Ignore));
}

#[test]
fn text_helpers() {
    assert_eq!(decimal_string(0), "0");
    assert_eq!(decimal_string(-32768), "-32768");
    assert_eq!(decimal_string(i64::MIN), "-9223372036854775808");
    assert_eq!(decimal_string_u64(u64::MAX), "18446744073709551615");
    assert_eq!(expand_short_uuid("2a3d"), "00002A3D-0000-1000-8000-00805F9B34FB");
    let text = decode_value("2A3D", &[0xC3, 0xA4]).unwrap();
    assert_eq!(text.string_value, Some("ä".to_string()));
    assert!(decode_value("2A3D", &[0xC3]).is_none());
}

#[test]
fn uuids_parse_and_print() {
    let b = parse_characteristic_uuid("0000180D-0000-1000-8000-00805F9B34FB").unwrap();
    assert_eq!(b, [0, 0, 0x18, 0x0D, 0, 0, 0x10, 0, 0x80, 0, 0, 0x80, 0x5F, 0x9B, 0x34, 0xFB]);
    assert_eq!(added_uuid_text(b), "0000180d-0000-1000-8000-00805f9b34fb");
    assert!(parse_characteristic_uuid("0000180d").is_err());
}

#[test]
fn example_calls() {
    assert_eq!(add(2, 40), 42);
    assert_eq!(add(-5, 3), -2);
    let m = get_map();
    assert_eq!(m[0].0, "outer_key1");
    assert_eq!(m[0].1, vec![
        ("inner_key1".to_string(), "inner_value1".to_string()),
        ("inner_key2".to_string(), "inner_value2".to_string()),
    ]);
}
