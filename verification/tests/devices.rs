use fuga_json_seq_parser::{BufferReader, JsonNode, JsonNumber, JsonScalarValue, Parser,
    ParserCallbackAction, ParserError};
use remo_api::{Device, DeviceSubNode, DevicesParser, DevicesParserState, Emit, JsonEvent,
    MacAddress, ModelNodeKey, ModelNodeParseError, NewestEvents, Number, ParserOptions,
    ScalarValue, SensorValue, Timestamp, User, Uuid};

fn scalar_to_event(v: JsonScalarValue) -> ScalarValue {
    match v {
        JsonScalarValue::Null => ScalarValue::Null,
        JsonScalarValue::Boolean(b) => ScalarValue::Boolean(b),
        JsonScalarValue::String(s) => ScalarValue::Text(s.as_bytes().to_vec()),
        JsonScalarValue::ContinuingString(s, off, fin) => {
            ScalarValue::ContinuingText(s.as_bytes().to_vec(), off, fin)
        }
        JsonScalarValue::Number(n) => ScalarValue::Number(match n {
            JsonNumber::I32(x) => Number::I32(x),
            JsonNumber::U32(x) => Number::U32(x),
            JsonNumber::I64(x) => Number::I64(x),
            JsonNumber::U64(x) => Number::U64(x),
            JsonNumber::F32(x) => Number::F32Bits(x.to_bits()),
            JsonNumber::F64(x) => Number::F64Bits(x.to_bits()),
        }),
    }
}

fn node_to_event(n: JsonNode) -> JsonEvent {
    match n {
        JsonNode::StartMap => JsonEvent::StartMap,
        JsonNode::EndMap => JsonEvent::EndMap,
        JsonNode::StartArray => JsonEvent::StartArray,
        JsonNode::EndArray => JsonEvent::EndArray,
        JsonNode::Key(v) => JsonEvent::Key(scalar_to_event(v)),
        JsonNode::Value(v) => JsonEvent::Value(scalar_to_event(v)),
    }
}

/// Feed a whole JSON document through the tokenizer into the device
/// decoder, collecting a snapshot of the records at each emission.
fn run_devices(
    json: &str,
    options: &ParserOptions,
) -> Result<Vec<(Device, Option<DeviceSubNode>)>, ModelNodeParseError> {
    let mut parser: Parser<66, 16> = Parser::new();
    parser.set_bytes_remaining(Some(json.as_bytes().len()));
    let mut reader = BufferReader::new(json.as_bytes());
    let mut machine = DevicesParser::new(options);
    let mut out: Vec<(Device, Option<DeviceSubNode>)> = Vec::new();
    loop {
        let done = parser.parse(&mut reader, |node| {
            match machine.feed(&node_to_event(node)) {
                Ok(Emit::Nothing) => {}
                Ok(Emit::Record) => out.push((machine.device.clone(), None)),
                Ok(Emit::RecordAndSubNode) => {
                    out.push((machine.device.clone(), Some(machine.subnode.clone())))
                }
                Err(e) => return Err(e),
            }
            Ok(ParserCallbackAction::Nothing)
        });
        match done {
            Ok(true) => break,
            Ok(false) => {}
            Err(ParserError::Callback(e)) => return Err(e),
            Err(e) => panic!("tokenizer failed: {:?}", e),
        }
    }
    Ok(out)
}

fn ts(s: &str) -> Timestamp {
    Timestamp::from_str(s).unwrap()
}

fn uid(s: &str) -> Uuid {
    Uuid::from_str(s).unwrap()
}

fn mac(s: &str) -> MacAddress {
    MacAddress::from_str(s).unwrap()
}

const DEVICES_JSON: &str = r#"[
    {
        "name": "test remo device hoge",
        "id": "f262cb0c-a853-47bb-9559-44d0f2c4d6e2",
        "created_at": "2022-10-18T06:42:59Z",
        "updated_at": "2022-10-19T05:22:28Z",
        "mac_address": "e8:db:84:00:11:22",
        "bt_mac_address": "e8:db:84:22:33:44",
        "serial_number": "2B012345678901",
        "firmware_version": "Remo-mini/1.10.0",
        "temperature_offset": -0.5,
        "humidity_offset": 1.5,
        "users": [
            {
                "id": "50937884-2550-46b1-9b0a-503410c06f6d",
                "nickname": "Hoge Fuga",
                "superuser": true
            }
        ],
        "newest_events": {
            "te": {
                "val": 24.8,
                "created_at": "2022-10-20T22:27:20Z"
            }
        }
    },
    {
        "name": "Remo",
        "id": "12948215-568a-49ca-be45-c556e8140c56",
        "created_at": "2022-10-07T05:57:52Z",
        "updated_at": "2022-10-07T05:57:52Z",
        "mac_address": "24:6f:28:00:11:22",
        "bt_mac_address": "24:6f:28:22:33:44",
        "serial_number": "1W012345678901",
        "firmware_version": "Remo/1.10.0",
        "temperature_offset": 1,
        "humidity_offset": 0,
        "users": [
            {
                "id": "50937884-2550-46b1-9b0a-503410c06f6d",
                "nickname": "Hoge Fuga",
                "superuser": true
            }
        ],
        "newest_events": {
            "hu": {
                "val": 66,
                "created_at": "2022-10-07T05:58:00Z"
            },
            "il": {
                "val": 27,
                "created_at": "2022-10-07T06:05:47Z"
            },
            "mo": {
                "val": 1,
                "created_at": "2022-10-07T06:05:57Z"
            },
            "te": {
                "val": 26.6,
                "created_at": "2022-10-07T06:06:01Z"
            }
        }
    },
    {
        "name": "Remo E lite",
        "id": "b08bdb7b-a2ad-4c3c-88f6-68645ae98077",
        "created_at": "2022-08-22T05:51:50Z",
        "updated_at": "2022-10-03T04:16:16Z",
        "mac_address": "f0:08:d1:00:11:22",
        "bt_mac_address": "f0:08:d1:22:33:44",
        "serial_number": "4W012345678901",
        "firmware_version": "Remo-E-lite/1.7.4",
        "temperature_offset": 0,
        "humidity_offset": 0,
        "users": [
            {
                "id": "50937884-2550-46b1-9b0a-503410c06f6d",
                "nickname": "Hoge Fuga",
                "superuser": true
            }
        ],
        "newest_events": {}
    }
]"#;

#[test]
fn test_parse_empty_devices() {
    let out = run_devices("\n        [\n        ]\n        ", &ParserOptions::default()).unwrap();
    assert!(out.is_empty(), "callback must not be called for empty devices.");
}

#[test]
fn test_parse_devices() {
    let expected_devices = [
        Device {
            name: remo_api::copy_string_possible("test remo device hoge".as_bytes()),
            id: uid("f262cb0c-a853-47bb-9559-44d0f2c4d6e2"),
            created_at: ts("2022-10-18T06:42:59Z"),
            updated_at: ts("2022-10-19T05:22:28Z"),
            mac_address: mac("e8:db:84:00:11:22"),
            bt_mac_address: mac("e8:db:84:22:33:44"),
            serial_number: remo_api::copy_string_possible("2B012345678901".as_bytes()),
            firmware_version: remo_api::copy_string_possible("Remo-mini/1.10.0".as_bytes()),
            temperature_offset: Number::F32Bits((-0.5f32).to_bits()),
            humidity_offset: Number::F32Bits(1.5f32.to_bits()),
        },
        Device {
            name: remo_api::copy_string_possible("Remo".as_bytes()),
            id: uid("12948215-568a-49ca-be45-c556e8140c56"),
            created_at: ts("2022-10-07T05:57:52Z"),
            updated_at: ts("2022-10-07T05:57:52Z"),
            mac_address: mac("24:6f:28:00:11:22"),
            bt_mac_address: mac("24:6f:28:22:33:44"),
            serial_number: remo_api::copy_string_possible("1W012345678901".as_bytes()),
            firmware_version: remo_api::copy_string_possible("Remo/1.10.0".as_bytes()),
            temperature_offset: Number::I32(1),
            humidity_offset: Number::I32(0),
        },
        Device {
            name: remo_api::copy_string_possible("Remo E lite".as_bytes()),
            id: uid("b08bdb7b-a2ad-4c3c-88f6-68645ae98077"),
            created_at: ts("2022-08-22T05:51:50Z"),
            updated_at: ts("2022-10-03T04:16:16Z"),
            mac_address: mac("f0:08:d1:00:11:22"),
            bt_mac_address: mac("f0:08:d1:22:33:44"),
            serial_number: remo_api::copy_string_possible("4W012345678901".as_bytes()),
            firmware_version: remo_api::copy_string_possible("Remo-E-lite/1.7.4".as_bytes()),
            temperature_offset: Number::I32(0),
            humidity_offset: Number::I32(0),
        },
    ];
    let out = run_devices(DEVICES_JSON, &ParserOptions::default()).unwrap();
    let mut expected_devices_iter = expected_devices.iter();
    for (device, sub_node) in out.iter() {
        if sub_node.is_none() {
            let expected_device = expected_devices_iter.next();
            assert!(expected_device.is_some(), "Extra device returned from parser - {:?}", device);
            assert_eq!(device, expected_device.unwrap(), "Device mismatch.");
        }
    }
    assert!(expected_devices_iter.next().is_none(), "Missing devices from parser output.");
}

#[test]
fn test_parse_devices_emission_counts_and_subnodes() {
    let out = run_devices(DEVICES_JSON, &ParserOptions::default()).unwrap();
    // Three records, and per record one user entry and one newest-events
    // group, each emitted exactly once, in document order.
    assert_eq!(out.len(), 9);
    let expected_user = DeviceSubNode::User(User {
        id: uid("50937884-2550-46b1-9b0a-503410c06f6d"),
        nickname: remo_api::copy_string_possible("Hoge Fuga".as_bytes()),
        superuser: true,
    });
    assert_eq!(out[0].1.as_ref().unwrap(), &expected_user);
    assert_eq!(
        out[1].1.as_ref().unwrap(),
        &DeviceSubNode::NewestEvents(NewestEvents {
            temperature: Some(SensorValue {
                val: Number::F32Bits(24.8f32.to_bits()),
                created_at: ts("2022-10-20T22:27:20Z"),
            }),
            humidity: None,
            illumination: None,
            motion: None,
        })
    );
    assert!(out[2].1.is_none());
    assert_eq!(out[3].1.as_ref().unwrap(), &expected_user);
    assert_eq!(
        out[4].1.as_ref().unwrap(),
        &DeviceSubNode::NewestEvents(NewestEvents {
            temperature: Some(SensorValue {
                val: Number::F32Bits(26.6f32.to_bits()),
                created_at: ts("2022-10-07T06:06:01Z"),
            }),
            humidity: Some(SensorValue {
                val: Number::I32(66),
                created_at: ts("2022-10-07T05:58:00Z"),
            }),
            illumination: Some(SensorValue {
                val: Number::I32(27),
                created_at: ts("2022-10-07T06:05:47Z"),
            }),
            motion: Some(SensorValue {
                val: Number::I32(1),
                created_at: ts("2022-10-07T06:05:57Z"),
            }),
        })
    );
    assert!(out[5].1.is_none());
    assert_eq!(out[6].1.as_ref().unwrap(), &expected_user);
    assert_eq!(
        out[7].1.as_ref().unwrap(),
        &DeviceSubNode::NewestEvents(NewestEvents {
            temperature: None,
            humidity: None,
            illumination: None,
            motion: None,
        })
    );
    assert!(out[8].1.is_none());
}

#[test]
fn test_devices_truncate_policy_keeps_prefix() {
    // 50 'a' characters in a 48-byte name field.
    let long = "a".repeat(50);
    let json = format!("[{{\"name\": \"{}\"}}]", long);
    let out = run_devices(&json, &ParserOptions::new(true)).unwrap();
    assert_eq!(out.len(), 1);
    assert_eq!(out[0].0.name.as_bytes(), "a".repeat(48).as_bytes());
}

#[test]
fn test_devices_truncate_never_splits_a_character() {
    // 47 ASCII bytes then a three-byte character: byte 48 would fall
    // inside it, so the copy stops after the 47 whole characters.
    let long = format!("{}\u{3042}", "a".repeat(47));
    let json = format!("[{{\"name\": \"{}\"}}]", long);
    let out = run_devices(&json, &ParserOptions::new(true)).unwrap();
    assert_eq!(out.len(), 1);
    assert_eq!(out[0].0.name.as_bytes(), "a".repeat(47).as_bytes());
}

#[test]
fn test_devices_reject_policy_aborts_with_string_too_long() {
    let long = "a".repeat(50);
    let json = format!("[{{\"name\": \"{}\", \"serial_number\": \"2B012345678901\"}}]", long);
    let err = run_devices(&json, &ParserOptions::new(false)).unwrap_err();
    assert!(matches!(err, ModelNodeParseError::StringTooLong));
}

#[test]
fn test_devices_reject_policy_no_callbacks_after_abort() {
    let long = "a".repeat(50);
    let json = format!("[{{\"name\": \"{}\"}}, {{\"name\": \"ok\"}}]", long);
    let mut parser: Parser<66, 16> = Parser::new();
    parser.set_bytes_remaining(Some(json.as_bytes().len()));
    let mut reader = BufferReader::new(json.as_bytes());
    let mut machine = DevicesParser::new(&ParserOptions::new(false));
    let mut emissions: usize = 0;
    let mut failed = false;
    loop {
        let done = parser.parse(&mut reader, |node| {
            match machine.feed(&node_to_event(node)) {
                Ok(Emit::Nothing) => {}
                Ok(_) => emissions += 1,
                Err(e) => return Err(e),
            }
            Ok(ParserCallbackAction::Nothing)
        });
        match done {
            Ok(true) => break,
            Ok(false) => {}
            Err(ParserError::Callback(e)) => {
                assert!(matches!(e, ModelNodeParseError::StringTooLong));
                failed = true;
                break;
            }
            Err(e) => panic!("tokenizer failed: {:?}", e),
        }
    }
    assert!(failed);
    assert_eq!(emissions, 0, "no callback may fire after the abort");
}

#[test]
fn test_devices_mac_address_error_aborts() {
    let json = "[{\"mac_address\": \"e8;db;84;00;11;22\"}]";
    let err = run_devices(json, &ParserOptions::default()).unwrap_err();
    assert!(matches!(err, ModelNodeParseError::MacAddressParseError));
}

#[test]
fn test_devices_uuid_error_aborts() {
    let json = "[{\"id\": \"not-a-uuid\"}]";
    let err = run_devices(json, &ParserOptions::default()).unwrap_err();
    assert!(matches!(err, ModelNodeParseError::UuidParseError));
}

#[test]
fn test_devices_timestamp_error_aborts() {
    let json = "[{\"created_at\": \"yesterday\"}]";
    let err = run_devices(json, &ParserOptions::default()).unwrap_err();
    assert!(matches!(err, ModelNodeParseError::TimestampParseError));
}

#[test]
fn test_devices_unknown_newest_events_group_is_fatal() {
    let json = "[{\"newest_events\": {\"xx\": {\"val\": 1}}}]";
    let err = run_devices(json, &ParserOptions::default()).unwrap_err();
    assert!(matches!(err, ModelNodeParseError::UnknownNewestEventsType));
}

#[test]
fn test_devices_node_too_deep_before_any_callback() {
    // The decoder's stack holds ten contexts; the eleventh open fails.
    let json = "[{\"a\":{\"b\":{\"c\":{\"d\":{\"e\":{\"f\":{\"g\":{\"h\":{\"i\":{\"j\":1}}}}}}}}}}]";
    let mut parser: Parser<66, 16> = Parser::new();
    parser.set_bytes_remaining(Some(json.as_bytes().len()));
    let mut reader = BufferReader::new(json.as_bytes());
    let mut machine = DevicesParser::new(&ParserOptions::default());
    let mut emissions: usize = 0;
    let mut seen: Option<ModelNodeParseError> = None;
    loop {
        let done = parser.parse(&mut reader, |node| {
            match machine.feed(&node_to_event(node)) {
                Ok(Emit::Nothing) => {}
                Ok(_) => emissions += 1,
                Err(e) => return Err(e),
            }
            Ok(ParserCallbackAction::Nothing)
        });
        match done {
            Ok(true) => break,
            Ok(false) => {}
            Err(ParserError::Callback(e)) => {
                seen = Some(e);
                break;
            }
            Err(e) => panic!("tokenizer failed: {:?}", e),
        }
    }
    assert!(matches!(seen, Some(ModelNodeParseError::NodeTooDeep)));
    assert_eq!(emissions, 0, "NodeTooDeep must fire before any callback");
}

#[test]
fn test_devices_nesting_at_the_depth_boundary_is_skipped() {
    // Mixed unknown map-inside-array-inside-map nesting that stops
    // exactly at the depth bound decodes cleanly.
    let json = "[{\"junk\":{\"a\":[{\"b\":[{\"c\":[1]}]}]},\"name\":\"A\"}]";
    let out = run_devices(json, &ParserOptions::default()).unwrap();
    assert_eq!(out.len(), 1);
    assert_eq!(out[0].0.name.as_bytes(), "A".as_bytes());
}

#[test]
fn test_devices_unknown_subtree_skipped_and_siblings_decode() {
    let json = "[{\"name\":\"A\",\"junk\":{\"x\":[1,{\"y\":[]},[2,3]],\"z\":\"w\",\"name\":\"hidden\"},\"extra\":[{\"name\":\"also hidden\"}],\"serial_number\":\"2B012345678901\"}]";
    let out = run_devices(json, &ParserOptions::default()).unwrap();
    assert_eq!(out.len(), 1, "no callback for the unknown subtrees");
    assert!(out[0].1.is_none());
    assert_eq!(out[0].0.name.as_bytes(), "A".as_bytes());
    assert_eq!(out[0].0.serial_number.as_bytes(), "2B012345678901".as_bytes());
}

#[test]
fn test_device_machine_reports_state_mismatch() {
    // The decoder itself never reaches a context whose sub-record slot
    // holds the wrong discriminant; forcing one by hand is reported as
    // the internal-invariant error, never routed best-effort.
    let mut machine = DevicesParser::new(&ParserOptions::default());
    machine.state = DevicesParserState::UserMap;
    machine.subnode = DeviceSubNode::NewestEvents(NewestEvents::new());
    machine.node_key = Some(ModelNodeKey::SuperUser);
    let err = machine.feed(&JsonEvent::Value(ScalarValue::Boolean(true))).unwrap_err();
    assert!(matches!(err, ModelNodeParseError::UnexpectedParserState));
}
