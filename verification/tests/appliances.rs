use fuga_json_seq_parser::{BufferReader, JsonNode, JsonNumber, JsonScalarValue, Parser,
    ParserCallbackAction, ParserError};
use remo_api::{Appliance, ApplianceModel, ApplianceSubNode, ApplianceType, AppliancesParser,
    Device, EchonetLiteProperty, Emit, JsonEvent, MacAddress, ModelNodeParseError, Number,
    ParserOptions, ScalarValue, Timestamp, Uuid};

fn scalar_to_event(v: JsonScalarValue) -> ScalarValue {
    match v {
        JsonScalarValue::Null => ScalarValue::Null,
        JsonScalarValue::Boolean(b) => ScalarValue::Boolean(b),
        JsonScalarValue::String(s) => ScalarValue::Text(s.as_bytes().to_vec()),
        JsonScalarValue::ContinuingString(s, off, fin) => {
            ScalarValue::ContinuingText(s.as_bytes().to_vec(), off, fin)
        }
        JsonScalarValue::Number(n) => ScalarValue::Number(match n {
            JsonNumber::I32(x) => Number::I32(x),
            JsonNumber::U32(x) => Number::U32(x),
            JsonNumber::I64(x) => Number::I64(x),
            JsonNumber::U64(x) => Number::U64(x),
            JsonNumber::F32(x) => Number::F32Bits(x.to_bits()),
            JsonNumber::F64(x) => Number::F64Bits(x.to_bits()),
        }),
    }
}

fn node_to_event(n: JsonNode) -> JsonEvent {
    match n {
        JsonNode::StartMap => JsonEvent::StartMap,
        JsonNode::EndMap => JsonEvent::EndMap,
        JsonNode::StartArray => JsonEvent::StartArray,
        JsonNode::EndArray => JsonEvent::EndArray,
        JsonNode::Key(v) => JsonEvent::Key(scalar_to_event(v)),
        JsonNode::Value(v) => JsonEvent::Value(scalar_to_event(v)),
    }
}

/// Feed a whole JSON document through the tokenizer into the appliance
/// decoder, collecting a snapshot of the records at each emission.
fn run_appliances(
    json: &str,
    options: &ParserOptions,
) -> Result<Vec<(Appliance, Option<ApplianceSubNode>)>, ModelNodeParseError> {
    let mut parser: Parser<66, 16> = Parser::new();
    parser.set_bytes_remaining(Some(json.as_bytes().len()));
    let mut reader = BufferReader::new(json.as_bytes());
    let mut machine = AppliancesParser::new(options);
    let mut out: Vec<(Appliance, Option<ApplianceSubNode>)> = Vec::new();
    loop {
        let done = parser.parse(&mut reader, |node| {
            match machine.feed(&node_to_event(node)) {
                Ok(Emit::Nothing) => {}
                Ok(Emit::Record) => out.push((machine.appliance.clone(), None)),
                Ok(Emit::RecordAndSubNode) => {
                    out.push((machine.appliance.clone(), Some(machine.subnode.clone())))
                }
                Err(e) => return Err(e),
            }
            Ok(ParserCallbackAction::Nothing)
        });
        match done {
            Ok(true) => break,
            Ok(false) => {}
            Err(ParserError::Callback(e)) => return Err(e),
            Err(e) => panic!("tokenizer failed: {:?}", e),
        }
    }
    Ok(out)
}

fn ts(s: &str) -> Timestamp {
    Timestamp::from_str(s).unwrap()
}

fn uid(s: &str) -> Uuid {
    Uuid::from_str(s).unwrap()
}

fn mac(s: &str) -> MacAddress {
    MacAddress::from_str(s).unwrap()
}

const APPLIANCES_JSON: &str = r#"[
    {
        "id": "84875896-9f1e-44df-9f49-7989352eeecf",
        "device": {
            "name": "てすとりも",
            "id": "8afdef94-43f7-4a16-b499-fbb6286f7438",
            "created_at": "2022-10-14T05:51:30Z",
            "updated_at": "2022-10-15T02:15:00Z",
            "mac_address": "c8:2b:96:00:11:22",
            "bt_mac_address": "c8:2b:96:33:44:55",
            "serial_number": "1W300000000000",
            "firmware_version": "Remo/1.9.9",
            "temperature_offset": 0,
            "humidity_offset": 0
        },
        "model": {
            "id": "2a556fb6-f64b-4bd2-a911-610aa68dfc05",
            "country": "JP",
            "manufacturer": "sharp",
            "remote_name": "a986jb",
            "series": "",
            "name": "Sharp AC 033",
            "image": "ico_ac_1"
        },
        "type": "AC",
        "nickname": "てすとエアコン",
        "image": "ico_ac_1"
    },
    {
        "id": "081c5163-ee9e-486e-ba4d-e86a16ea4c9b",
        "device": {
            "name": "Remo E lite",
            "id": "159c34f6-d99a-46ca-a50a-3440ba7f8c8e",
            "created_at": "2022-10-08T07:49:56Z",
            "updated_at": "2022-10-08T07:52:43Z",
            "mac_address": "34:ab:95:00:11:22",
            "bt_mac_address": "34:ab:95:33:44:55",
            "serial_number": "4W012345678901",
            "firmware_version": "Remo-E-lite/1.7.2",
            "temperature_offset": 0,
            "humidity_offset": 0
        },
        "model": {
            "id": "1eb17958-9a47-4000-8b9d-b3dffaf9616c",
            "country": "",
            "manufacturer": "",
            "remote_name": "",
            "series": "",
            "name": "Smart Meter",
            "image": "ico_smartmeter"
        },
        "type": "EL_SMART_METER",
        "nickname": "スマートメーター",
        "image": "ico_smartmeter",
        "smart_meter": {
            "echonetlite_properties": [
                {
                    "name": "cumulative_electric_energy_effective_digits",
                    "epc": 215,
                    "val": "7",
                    "updated_at": "2022-10-22T11:38:14Z"
                },
                {
                    "name": "normal_direction_cumulative_electric_energy",
                    "epc": 224,
                    "val": "1097158",
                    "updated_at": "2022-10-22T11:38:14Z"
                },
                {
                    "name": "cumulative_electric_energy_unit",
                    "epc": 225,
                    "val": "2",
                    "updated_at": "2022-10-22T11:38:14Z"
                },
                {
                    "name": "measured_instantaneous",
                    "epc": 231,
                    "val": "397",
                    "updated_at": "2022-10-22T11:38:14Z"
                }
            ]
        }
    }
]"#;

#[test]
fn test_parse_empty_appliances() {
    let out = run_appliances("\n        [\n        ]\n        ", &ParserOptions::default())
        .unwrap();
    assert!(out.is_empty(), "callback must not be called for empty appliances.");
}

#[test]
fn test_parse_appliances() {
    let expected_appliances = [
        Appliance {
            id: uid("84875896-9f1e-44df-9f49-7989352eeecf"),
            type_: ApplianceType::AC,
            nickname: remo_api::copy_string_possible("てすとエアコン".as_bytes()),
            image: remo_api::copy_string_possible("ico_ac_1".as_bytes()),
        },
        Appliance {
            id: uid("081c5163-ee9e-486e-ba4d-e86a16ea4c9b"),
            type_: ApplianceType::SmartMeter,
            nickname: remo_api::copy_string_possible("スマートメーター".as_bytes()),
            image: remo_api::copy_string_possible("ico_smartmeter".as_bytes()),
        },
    ];
    let expected_subnodes = [
        ApplianceSubNode::Device(Device {
            name: remo_api::copy_string_possible("てすとりも".as_bytes()),
            id: uid("8afdef94-43f7-4a16-b499-fbb6286f7438"),
            created_at: ts("2022-10-14T05:51:30Z"),
            updated_at: ts("2022-10-15T02:15:00Z"),
            mac_address: mac("c8:2b:96:00:11:22"),
            bt_mac_address: mac("c8:2b:96:33:44:55"),
            serial_number: remo_api::copy_string_possible("1W300000000000".as_bytes()),
            firmware_version: remo_api::copy_string_possible("Remo/1.9.9".as_bytes()),
            temperature_offset: Number::I32(0),
            humidity_offset: Number::I32(0),
        }),
        ApplianceSubNode::Model(ApplianceModel {
            id: uid("2a556fb6-f64b-4bd2-a911-610aa68dfc05"),
            country: remo_api::copy_string_possible("JP".as_bytes()),
            manufacturer: remo_api::copy_string_possible("sharp".as_bytes()),
            remote_name: remo_api::copy_string_possible("a986jb".as_bytes()),
            series: remo_api::copy_string_possible("".as_bytes()),
            name: remo_api::copy_string_possible("Sharp AC 033".as_bytes()),
            image: remo_api::copy_string_possible("ico_ac_1".as_bytes()),
        }),
        ApplianceSubNode::Device(Device {
            name: remo_api::copy_string_possible("Remo E lite".as_bytes()),
            id: uid("159c34f6-d99a-46ca-a50a-3440ba7f8c8e"),
            created_at: ts("2022-10-08T07:49:56Z"),
            updated_at: ts("2022-10-08T07:52:43Z"),
            mac_address: mac("34:ab:95:00:11:22"),
            bt_mac_address: mac("34:ab:95:33:44:55"),
            serial_number: remo_api::copy_string_possible("4W012345678901".as_bytes()),
            firmware_version: remo_api::copy_string_possible("Remo-E-lite/1.7.2".as_bytes()),
            temperature_offset: Number::I32(0),
            humidity_offset: Number::I32(0),
        }),
        ApplianceSubNode::Model(ApplianceModel {
            id: uid("1eb17958-9a47-4000-8b9d-b3dffaf9616c"),
            country: remo_api::copy_string_possible("".as_bytes()),
            manufacturer: remo_api::copy_string_possible("".as_bytes()),
            remote_name: remo_api::copy_string_possible("".as_bytes()),
            series: remo_api::copy_string_possible("".as_bytes()),
            name: remo_api::copy_string_possible("Smart Meter".as_bytes()),
            image: remo_api::copy_string_possible("ico_smartmeter".as_bytes()),
        }),
        ApplianceSubNode::EchonetLiteProperty(EchonetLiteProperty {
            name: remo_api::copy_string_possible(
                "cumulative_electric_energy_effective_digits".as_bytes(),
            ),
            epc: 215,
            val: remo_api::copy_string_possible("7".as_bytes()),
            updated_at: ts("2022-10-22T11:38:14Z"),
        }),
        ApplianceSubNode::EchonetLiteProperty(EchonetLiteProperty {
            name: remo_api::copy_string_possible(
                "normal_direction_cumulative_electric_energy".as_bytes(),
            ),
            epc: 224,
            val: remo_api::copy_string_possible("1097158".as_bytes()),
            updated_at: ts("2022-10-22T11:38:14Z"),
        }),
        ApplianceSubNode::EchonetLiteProperty(EchonetLiteProperty {
            name: remo_api::copy_string_possible("cumulative_electric_energy_unit".as_bytes()),
            epc: 225,
            val: remo_api::copy_string_possible("2".as_bytes()),
            updated_at: ts("2022-10-22T11:38:14Z"),
        }),
        ApplianceSubNode::EchonetLiteProperty(EchonetLiteProperty {
            name: remo_api::copy_string_possible("measured_instantaneous".as_bytes()),
            epc: 231,
            val: remo_api::copy_string_possible("397".as_bytes()),
            updated_at: ts("2022-10-22T11:38:14Z"),
        }),
    ];
    let out = run_appliances(APPLIANCES_JSON, &ParserOptions::default()).unwrap();
    let mut expected_appliances_iter = expected_appliances.iter();
    let mut expected_subnodes_iter = expected_subnodes.iter();
    for (appliance, sub_node) in out.iter() {
        match sub_node {
            None => {
                let expected_appliance = expected_appliances_iter.next();
                assert!(
                    expected_appliance.is_some(),
                    "Extra appliance returned from parser - {:?}",
                    appliance
                );
                assert_eq!(appliance, expected_appliance.unwrap(), "Appliance mismatch.");
            }
            Some(sub_node) => {
                let expected_subnode = expected_subnodes_iter.next();
                assert!(
                    expected_subnode.is_some(),
                    "Extra appliance subnode returned from parser - {:?}",
                    sub_node
                );
                assert_eq!(sub_node, expected_subnode.unwrap(), "Subnode mismatch.");
            }
        }
    }
    assert!(expected_appliances_iter.next().is_none(), "Missing appliances.");
    assert!(expected_subnodes_iter.next().is_none(), "Missing subnodes.");
}

#[test]
fn test_appliances_unknown_type_tag_is_fatal() {
    let json = "[{\"type\": \"UNKNOWN_TYPE\"}]";
    let err = run_appliances(json, &ParserOptions::default()).unwrap_err();
    assert!(matches!(err, ModelNodeParseError::UnexpectedEnumValue));
}

#[test]
fn test_appliances_smart_meter_wrapper_emits_no_callback() {
    let json = "[{\"smart_meter\": {\"echonetlite_properties\": []}}]";
    let out = run_appliances(json, &ParserOptions::default()).unwrap();
    // Only the appliance record itself: neither the wrapper map nor the
    // empty properties array emits.
    assert_eq!(out.len(), 1);
    assert!(out[0].1.is_none());
}

#[test]
fn test_appliances_unknown_subtree_skipped() {
    let json = "[{\"nickname\":\"A\",\"junk\":[{\"nickname\":[\"B\"]}],\"image\":\"i\"}]";
    let out = run_appliances(json, &ParserOptions::default()).unwrap();
    assert_eq!(out.len(), 1);
    assert_eq!(out[0].0.nickname.as_bytes(), "A".as_bytes());
    assert_eq!(out[0].0.image.as_bytes(), "i".as_bytes());
}

#[test]
fn test_appliance_machine_rejects_mismatched_close() {
    let mut machine = AppliancesParser::new(&ParserOptions::default());
    machine.feed(&JsonEvent::StartArray).unwrap();
    let err = machine.feed(&JsonEvent::EndMap).unwrap_err();
    assert!(matches!(err, ModelNodeParseError::UnexpectedMapArrayEnd));
}

#[test]
fn test_appliance_machine_rejects_close_without_open() {
    let mut machine = AppliancesParser::new(&ParserOptions::default());
    let err = machine.feed(&JsonEvent::EndArray).unwrap_err();
    assert!(matches!(err, ModelNodeParseError::UnexpectedMapArrayEnd));
}

#[test]
fn test_appliance_machine_rejects_top_level_scalar() {
    let mut machine = AppliancesParser::new(&ParserOptions::default());
    let err = machine.feed(&JsonEvent::Value(ScalarValue::Number(Number::I32(1)))).unwrap_err();
    match err {
        ModelNodeParseError::UnexpectedNode(d) => {
            assert_eq!(d.as_bytes(), "(Start, Value(Number))".as_bytes());
        }
        other => panic!("expected UnexpectedNode, got {:?}", other),
    }
}
