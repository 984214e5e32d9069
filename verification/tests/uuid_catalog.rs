use btleplug_client::utils::{
    catalog_entry, data_type_for_uuid, decode_heart_rate, decode_typed, decode_value,
    expand_short_uuid, name_for_uuid, CharacteristicValue, DataType, FloatBits,
};

fn int_of(v: Option<CharacteristicValue>) -> Option<i64> {
    v.and_then(|v| v.int_value)
}

#[test]
fn expands_short_uuid_into_base_uuid() {
    assert_eq!(expand_short_uuid("2a37"), "00002A37-0000-1000-8000-00805F9B34FB");
    assert_eq!(expand_short_uuid("180D"), "0000180D-0000-1000-8000-00805F9B34FB");
}

#[test]
fn long_uuid_is_only_upper_cased() {
    assert_eq!(
        expand_short_uuid("61d20a90-71a1-11ea-ab12-0800200c9a66"),
        "61D20A90-71A1-11EA-AB12-0800200C9A66"
    );
    assert_eq!(expand_short_uuid("abc"), "ABC");
}

#[test]
fn names_come_from_the_catalogue() {
    assert_eq!(name_for_uuid("2A19"), "batteryLevel");
    assert_eq!(name_for_uuid("2a37"), "heartRateMeasurement");
    assert_eq!(name_for_uuid("61d20a90-71a1-11ea-ab12-0800200c9a66"), "pressure");
    assert_eq!(name_for_uuid("abcd"), "unknown uuid abcd");
}

#[test]
fn data_types_come_from_the_catalogue() {
    assert_eq!(data_type_for_uuid("2A6E"), Some(DataType::Float));
    assert_eq!(data_type_for_uuid("1804"), Some(DataType::Int8));
    assert_eq!(data_type_for_uuid("FFFF"), None);
    assert_eq!(
        catalog_entry("00002A37-0000-1000-8000-00805F9B34FB"),
        Some(("heartRateMeasurement", DataType::RawData))
    );
    assert_eq!(catalog_entry("00002a37-0000-1000-8000-00805f9b34fb"), None);
}

#[test]
fn heart_rate_formats() {
    assert_eq!(decode_heart_rate(&[]), None);
    assert_eq!(decode_heart_rate(&[0]), None);
    assert_eq!(decode_heart_rate(&[0, 72]), Some(72));
    assert_eq!(decode_heart_rate(&[0x06, 72, 9]), Some(72));
    assert_eq!(decode_heart_rate(&[1, 5]), None);
    assert_eq!(decode_heart_rate(&[1, 0x2C, 0x01]), Some(300));
}

#[test]
fn heart_rate_uuid_uses_heart_rate_layout() {
    assert_eq!(int_of(decode_value("2A37", &[0, 80])), Some(80));
    assert_eq!(int_of(decode_value("00002a37-0000-1000-8000-00805f9b34fb", &[1, 0x10, 0x27])), Some(10000));
    assert!(decode_value("2A37", &[1]).is_none());
}

#[test]
fn unsigned_and_signed_integers() {
    assert_eq!(int_of(decode_value("2A19", &[55])), Some(55));
    assert!(decode_value("2A19", &[55, 1]).is_none());
    assert_eq!(int_of(decode_value("1804", &[0xFF])), Some(-1));
    assert_eq!(int_of(decode_value("2AAE", &[0xFE, 0xFF, 0xFF, 0xFF])), Some(-2));
    assert_eq!(int_of(decode_value("2AAE", &[0x78, 0x56, 0x34, 0x12])), Some(0x12345678));
    assert_eq!(int_of(decode_typed(DataType::Uint16, &[0x34, 0x12])), Some(0x1234));
    assert_eq!(int_of(decode_typed(DataType::Uint32, &[0xFF, 0xFF, 0xFF, 0xFF])), Some(4294967295));
    assert_eq!(int_of(decode_typed(DataType::Int16, &[0x00, 0x80])), Some(-32768));
    assert!(decode_typed(DataType::Int16, &[0x00]).is_none());
}

#[test]
fn floating_point_values_keep_their_bits() {
    let single = 21.5f32.to_le_bytes();
    let v = decode_value("2A6E", &single).unwrap();
    assert_eq!(v.double_value, Some(FloatBits::Single(21.5f32.to_bits())));
    assert!(v.int_value.is_none());
    let double = (-3.25f64).to_le_bytes();
    let d = decode_typed(DataType::Double, &double).unwrap();
    assert_eq!(d.double_value, Some(FloatBits::Double((-3.25f64).to_bits())));
    assert!(decode_value("2A6E", &[1, 2, 3]).is_none());
}

#[test]
fn booleans_text_and_raw_data() {
    assert_eq!(decode_value("2A3B", &[1]).unwrap().bool_value, Some(true));
    assert_eq!(decode_value("2A3B", &[0]).unwrap().bool_value, Some(false));
    assert_eq!(decode_value("2A00", b"Sensor").unwrap().string_value, Some("Sensor".to_string()));
    assert!(decode_value("2A00", &[0xFF, 0xFE]).is_none());
    assert_eq!(decode_value("2A58", &[9, 8, 7]).unwrap().data_value, Some(vec![9, 8, 7]));
    assert!(decode_value("FFFF", &[1]).is_none());
}

#[test]
fn uuid_forms_decode_alike() {
    let full = expand_short_uuid("2a19");
    assert_eq!(expand_short_uuid(&full), full);
    assert_eq!(expand_short_uuid("2A19"), full);
    assert_eq!(expand_short_uuid("00002a19-0000-1000-8000-00805f9b34fb"), full);
    for form in ["2a19", "2A19", "00002a19-0000-1000-8000-00805f9b34fb", "00002A19-0000-1000-8000-00805F9B34FB"] {
        assert_eq!(decode_value(form, &[42]).unwrap().int_value, Some(42));
    }
    assert!(full.chars().all(|c| !c.is_ascii_lowercase()));
}
