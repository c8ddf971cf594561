use remo_api::config::max_usize_array;
use remo_api::{ApplianceType, MacAddress, ModelNodeKey, ModelNodeParseError, ParserOptions,
    Timestamp, Uuid};

#[test]
fn test_parse_mac_address_colon() {
    let parsed = MacAddress::from_str("f0:08:d1:00:11:22").unwrap();
    assert_eq!(parsed, MacAddress([0xf0, 0x08, 0xd1, 0x00, 0x11, 0x22]));
}

#[test]
fn test_parse_mac_address_hyphen() {
    let parsed = MacAddress::from_str("f0-08-d1-00-11-22").unwrap();
    assert_eq!(parsed, MacAddress([0xf0, 0x08, 0xd1, 0x00, 0x11, 0x22]));
}

#[test]
fn test_parse_mac_address_mixed_delimiters() {
    let parsed = MacAddress::from_str("f0-08:d1-00:11-22").unwrap();
    assert_eq!(parsed, MacAddress([0xf0, 0x08, 0xd1, 0x00, 0x11, 0x22]));
}

#[test]
fn test_parse_mac_address_upper_and_lower_hex() {
    let parsed = MacAddress::from_str("C8:2B:96:00:aF:fe").unwrap();
    assert_eq!(parsed, MacAddress([0xc8, 0x2b, 0x96, 0x00, 0xaf, 0xfe]));
}

#[test]
fn test_parse_mac_address_bad_delimiter() {
    let err = MacAddress::from_str("f0.08.d1.00.11.22").unwrap_err();
    assert!(matches!(err, ModelNodeParseError::MacAddressParseError));
}

#[test]
fn test_parse_mac_address_non_hex_digit() {
    let err = MacAddress::from_str("g0:08:d1:00:11:22").unwrap_err();
    assert!(matches!(err, ModelNodeParseError::MacAddressParseError));
}

#[test]
fn test_parse_mac_address_too_short() {
    let err = MacAddress::from_str("f0:08:d1:00:11").unwrap_err();
    assert!(matches!(err, ModelNodeParseError::MacAddressParseError));
}

#[test]
fn test_parse_mac_address_ignores_trailing_bytes() {
    // Only the first seventeen bytes are read; trailing text is ignored.
    let parsed = MacAddress::from_str("f0:08:d1:00:11:22xyz").unwrap();
    assert_eq!(parsed, MacAddress([0xf0, 0x08, 0xd1, 0x00, 0x11, 0x22]));
}

#[test]
fn test_uuid_parse_value() {
    let u = Uuid::from_str("f262cb0c-a853-47bb-9559-44d0f2c4d6e2").unwrap();
    assert_eq!(u.0, 0xf262cb0c_a853_47bb_9559_44d0f2c4d6e2u128);
}

#[test]
fn test_uuid_parse_rejects_malformed() {
    assert!(Uuid::from_str("f262cb0c-a853-47bb-9559").is_err());
    assert!(Uuid::from_str("").is_err());
}

#[test]
fn test_timestamp_parse_value() {
    let t = Timestamp::from_str("2022-10-14T05:51:30Z").unwrap();
    assert_eq!(t.0, 1_665_726_690i128 * 1_000_000_000);
    let u = Timestamp::from_str("2022-10-18T06:42:59Z").unwrap();
    assert_eq!(u.0, 1_666_075_379i128 * 1_000_000_000);
}

#[test]
fn test_timestamp_parse_offset_forms_agree() {
    let a = Timestamp::from_str("2022-10-14T05:51:30Z").unwrap();
    let b = Timestamp::from_str("2022-10-14 05:51:30+00:00").unwrap();
    assert_eq!(a, b);
}

#[test]
fn test_timestamp_parse_rejects_malformed() {
    assert!(Timestamp::from_str("2022-10-14").is_err());
    assert!(Timestamp::from_str("soon").is_err());
}

#[test]
fn test_node_key_resolution() {
    assert!(matches!(ModelNodeKey::try_from(b"name"), Ok(ModelNodeKey::Name)));
    assert!(matches!(ModelNodeKey::try_from(b"bt_mac_address"), Ok(ModelNodeKey::BtMacAddress)));
    assert!(matches!(
        ModelNodeKey::try_from(b"echonetlite_properties"),
        Ok(ModelNodeKey::EchonetLiteProperties)
    ));
    assert!(matches!(ModelNodeKey::try_from(b"te"), Ok(ModelNodeKey::Te)));
    // Case-sensitive, exact: unknown keys are not an error of the
    // resolver, they simply do not match.
    assert!(ModelNodeKey::try_from(b"Name").is_err());
    assert!(ModelNodeKey::try_from(b"name ").is_err());
    assert!(ModelNodeKey::try_from(b"favorite_color").is_err());
}

#[test]
fn test_appliance_type_resolution() {
    assert!(matches!(ApplianceType::try_from(b"AC"), Ok(ApplianceType::AC)));
    assert!(matches!(ApplianceType::try_from(b"LIGHT"), Ok(ApplianceType::Light)));
    assert!(matches!(ApplianceType::try_from(b"EL_SMART_METER"), Ok(ApplianceType::SmartMeter)));
    assert!(matches!(ApplianceType::try_from(b"MORNIN_PLUS"), Ok(ApplianceType::MorninPlus)));
    assert!(ApplianceType::try_from(b"UNKNOWN_TYPE").is_err());
    assert!(ApplianceType::try_from(b"ac").is_err());
}

#[test]
fn test_copy_string_possible_truncates_at_character_boundary() {
    // Capacity 14 (the serial-number field): 13 ASCII bytes plus a
    // three-byte character; the character cannot fit whole.
    let s = "a".repeat(13) + "\u{3042}";
    let copied: remo_api::SerialNumber = remo_api::copy_string_possible(s.as_bytes());
    assert_eq!(copied.as_bytes(), "a".repeat(13).as_bytes());
}

#[test]
fn test_copy_string_possible_keeps_fitting_text() {
    let copied: remo_api::SerialNumber = remo_api::copy_string_possible(b"2B012345678901");
    assert_eq!(copied.as_bytes(), b"2B012345678901");
}

#[test]
fn test_copy_string_option_reject_policy() {
    let reject = ParserOptions::new(false);
    let ok: Result<remo_api::SerialNumber, _> =
        remo_api::copy_string_option(b"14 bytes exact", &reject);
    assert_eq!(ok.unwrap().as_bytes(), b"14 bytes exact");
    let too_long: Result<remo_api::SerialNumber, _> =
        remo_api::copy_string_option(b"fifteen bytes..", &reject);
    assert!(matches!(too_long.unwrap_err(), ModelNodeParseError::StringTooLong));
}

#[test]
fn test_parser_options_default_truncates() {
    assert!(ParserOptions::default().truncates());
}

#[test]
fn test_max_usize_array() {
    assert_eq!(max_usize_array(&[]), 0);
    assert_eq!(max_usize_array(&[7]), 7);
    assert_eq!(max_usize_array(&[48, 48, 64, 48, 14, 36, 20]), 64);
    assert_eq!(
        max_usize_array(&[
            remo_api::config::MAX_FIRMWARE_VERSION_LEN,
            remo_api::config::MAX_NICKNAME_LEN,
            remo_api::config::MAX_MODEL_NAME_LEN,
            remo_api::config::MAX_DEVICE_NAME_LEN,
            remo_api::config::SERIAL_NUMBER_LEN,
            remo_api::config::ID_LEN,
            remo_api::config::TIMESTAMP_LEN,
        ]) + 2,
        remo_api::config::REQUIRED_DEVICES_PARSER_BUFFER_LEN
    );
}
