use drone_telemetry::decoder::{decode, decode_document, decode_text};
use drone_telemetry::error::DecodeError;
use drone_telemetry::event_consumers::drone_status_consumer::{
    advance, receive, written, DeliveryState, Disposition, Event, Step,
};
use drone_telemetry::json::parse::parse;
use drone_telemetry::json::object::member;
use drone_telemetry::json::wire::Wire;
use drone_telemetry::json::{Json, Number};
use drone_telemetry::models::drone_status::{
    is_fixed_field_name, Camera, DroneStatus, PayloadGimbalInfo, StorageInfo,
};

/// A complete payload: every fixed field, and the measurement block of the
/// payload `70-1-0` beside them.
const SAMPLE: &str = r#"{
  "payloads": [
    {
      "control_source": "control_source-3",
      "payload_index": "70-1-0",
      "firmware_version": "firmware_version-5",
      "sn": "4TADL2M001000A"
    }
  ],
  "mode_code": 7,
  "distance_limit_status": {
    "state": 9,
    "distance_limit": 10,
    "is_near_distance_limit": 11
  },
  "wpmz_version": "1.0.6",
  "rth_altitude": 13,
  "rc_lost_action": 14,
  "exit_wayline_when_rc_lost": 1,
  "cameras": [
    {
      "remain_photo_num": 18,
      "remain_record_duration": 19,
      "record_time": 20,
      "payload_index": "70-1-0",
      "camera_mode": 22,
      "photo_state": 23,
      "screen_split_enable": true,
      "recording_state": 25,
      "zoom_factor": 26.5,
      "ir_zoom_factor": 27.5,
      "liveview_world_region": {
        "left": 29.5,
        "top": 30.5,
        "right": 31.5,
        "bottom": 32.5
      },
      "photo_storage_settings": [
        "current",
        "wide"
      ],
      "video_storage_settings": [
        "zoom",
        "ir"
      ],
      "wide_exposure_mode": 39,
      "wide_iso": 40,
      "wide_shutter_speed": 41,
      "wide_exposure_value": 42,
      "zoom_exposure_mode": 43,
      "zoom_iso": 44,
      "zoom_shutter_speed": 45,
      "zoom_exposure_value": 46,
      "zoom_focus_mode": 47,
      "zoom_focus_value": 48,
      "zoom_max_focus_value": 49,
      "zoom_min_focus_value": 50,
      "zoom_calibrate_farthest_focus_value": 51,
      "zoom_calibrate_nearest_focus_value": 52,
      "zoom_focus_state": 53,
      "ir_metering_mode": 54,
      "ir_metering_point": {
        "x": 56.5,
        "y": 57.5,
        "temperature": 58.5
      },
      "ir_metering_area": {
        "x": 60.5,
        "y": 61.5,
        "width": 62.5,
        "height": 63.5,
        "aver_temperature": 64.5,
        "min_temperature_point": {
          "x": 66.5,
          "y": 67.5,
          "temperature": 68.5
        },
        "max_temperature_point": {
          "x": 70.5,
          "y": 71.5,
          "temperature": 72.5
        }
      }
    }
  ],
  "country": "CN",
  "rid_state": true,
  "commander_mode_lost_action": 75,
  "current_commander_flight_mode": "1",
  "commander_flight_height": 77.5,
  "mode_code_reason": 78,
  "gear": 79,
  "firmware_version": "07.01.10.03",
  "compatible_status": 81,
  "firmware_upgrade_status": 82,
  "horizontal_speed": 83.5,
  "vertical_speed": 84.5,
  "longitude": 113.943,
  "latitude": 22.577,
  "height": 120,
  "elevation": 88.5,
  "attitude_pitch": 89.5,
  "attitude_roll": 90.5,
  "attitude_head": 91,
  "home_longitude": 92.5,
  "home_latitude": 93.5,
  "home_distance": 94.5,
  "wind_speed": 95.5,
  "wind_direction": 96,
  "control_source": "A",
  "low_battery_warning_threshold": 98,
  "serious_low_battery_warning_threshold": 99,
  "total_flight_time": 100.5,
  "total_flight_distance": 101.5,
  "battery": {
    "capacity_percent": 103,
    "remain_flight_time": 104,
    "return_home_power": 105,
    "landing_power": 106,
    "batteries": [
      {
        "capacity_percent": 109,
        "index": 110,
        "sn": "sn-111",
        "type": 112,
        "sub_type": 113,
        "firmware_version": "firmware_version-114",
        "loop_times": 115,
        "voltage": 116,
        "temperature": 117.5,
        "high_voltage_storage_days": 118
      }
    ]
  },
  "storage": {
    "total": 1700000120,
    "used": 1700000121
  },
  "position_state": {
    "is_fixed": 123,
    "quality": 124,
    "gps_number": 125,
    "rtk_number": 126
  },
  "track_id": "2f1d8a30-7c52-4f0e-9b0a-6d1c5f1e2a77",
  "total_flight_sorties": 168,
  "maintain_status": {
    "maintain_status_array": [
      {
        "state": 132,
        "last_maintain_type": 133,
        "last_maintain_time": 1700000134,
        "last_maintain_flight_time": 135,
        "last_maintain_flight_sorties": 176
      }
    ]
  },
  "activation_time": 1700000137,
  "night_lights_state": 138,
  "height_limit": 139,
  "is_near_height_limit": 140,
  "is_near_area_limit": 141,
  "obstacle_avoidance": {
    "horizon": 143,
    "upside": 144,
    "downside": 145
  },
  "current_rth_mode": 146,
  "psdk_ui_resource": [
    {
      "psdk_index": 149,
      "psdk_ready": 150,
      "object_key": "object_key-151"
    }
  ],
  "psdk_widget_values": [
    {
      "psdk_index": 154,
      "psdk_name": "psdk_name-155",
      "psdk_sn": "psdk_sn-156",
      "psdk_version": "psdk_version-157",
      "psdk_lib_version": "psdk_lib_version-158",
      "speaker": {
        "work_mode": 160,
        "play_mode": 161,
        "play_volume": 162,
        "system_state": 163,
        "play_file_name": "play_file_name-164",
        "play_file_md5": "play_file_md5-165"
      },
      "values": [
        {
          "index": 0,
          "value": 1
        },
        {
          "index": 1,
          "value": {
            "text": "on",
            "levels": [
              1,
              2.5,
              null
            ]
          }
        }
      ]
    }
  ],
  "70-1-0": {
    "gimbal_pitch": 1.0,
    "gimbal_roll": 172.5,
    "gimbal_yaw": 173.5,
    "measure_target_longitude": 174.5,
    "measure_target_latitude": 175.5,
    "measure_target_altitude": 176.5,
    "measure_target_distance": 177.5,
    "measure_target_error_state": 178,
    "payload_index": "70-1-0",
    "zoom_factor": 180.5,
    "thermal_current_palette_style": 181,
    "thermal_supported_palette_styles": [
      183,
      184
    ],
    "thermal_gain_mode": 185,
    "thermal_isotherm_state": 186,
    "thermal_isotherm_upper_limit": 187,
    "thermal_isotherm_lower_limit": 188,
    "thermal_global_temperature_min": 189.5,
    "thermal_global_temperature_max": 190.5
  }
}"#;

fn sample() -> serde_json::Value {
    serde_json::from_str(SAMPLE).unwrap()
}

fn without(key: &str) -> String {
    let mut value = sample();
    value.as_object_mut().unwrap().remove(key);
    value.to_string()
}

fn with(key: &str, member_text: &str) -> String {
    let mut value = sample();
    let inner: serde_json::Value = serde_json::from_str(member_text).unwrap();
    value.as_object_mut().unwrap().insert(key.to_string(), inner);
    value.to_string()
}

fn float(x: f64) -> Number {
    Number::Float(x.to_bits())
}

fn record() -> DroneStatus {
    decode(SAMPLE.as_bytes()).unwrap()
}

#[test]
fn complete_payload_decodes() {
    let status = record();
    assert_eq!(status.mode_code, 7);
    assert_eq!(status.country, "CN");
    assert_eq!(status.rid_state, true);
    assert_eq!(status.exit_wayline_when_rc_lost_deprecated, Some(1));
    assert_eq!(status.horizontal_speed, float(83.5));
    assert_eq!(status.longitude, float(113.943));
    assert_eq!(status.total_flight_sorties, 168);
    assert_eq!(status.activation_time, 1700000137);
    assert_eq!(status.storage, StorageInfo { total: 1700000120, used: 1700000121 });
    assert_eq!(status.battery.capacity_percent, 103);
    assert_eq!(status.battery.batteries.len(), 1);
    assert_eq!(status.battery.batteries[0].type_info, 112);
    assert_eq!(status.payloads.len(), 1);
    assert_eq!(status.payloads[0].payload_index, "70-1-0");
    assert_eq!(status.cameras[0].zoom_factor, float(26.5));
    assert_eq!(status.cameras[0].photo_storage_settings, vec!["current", "wide"]);
    assert_eq!(status.maintain_status.maintain_status_array[0].last_maintain_flight_sorties, 176);
    assert_eq!(status.psdk_ui_resource[0].object_key, "object_key-151");
    assert_eq!(status.psdk_widget_values[0].values.len(), 2);
    assert_eq!(status.psdk_widget_values[0].values[0].value, Json::Number(Number::PosInt(1)));
}

#[test]
fn number_written_as_integer_is_kept_as_written() {
    // `height` is a measure, and the payload writes it without a fraction.
    assert_eq!(record().height, Number::PosInt(120));
}

#[test]
fn extension_key_is_captured() {
    let status = record();
    assert_eq!(status.payload_specific_data.len(), 1);
    assert!(status.payload_specific_data.contains_key("70-1-0"));
    let block = status.payload_specific_data.get("70-1-0").unwrap();
    assert_eq!(block.gimbal_pitch, float(1.0));
    assert_eq!(block.gimbal_roll, float(172.5));
    assert_eq!(block.payload_index, "70-1-0");
    assert_eq!(block.measure_target_error_state, 178);
    assert_eq!(block.thermal_supported_palette_styles, vec![183, 184]);
    assert!(status.payload_specific_data.get("payloads").is_none());
}

#[test]
fn extension_key_is_encoded_at_top_level() {
    let json = record().to_json();
    let block = member(&json, "70-1-0").expect("the key stands beside the fixed fields");
    assert_eq!(
        PayloadGimbalInfo::from_json(block).unwrap().gimbal_pitch,
        float(1.0)
    );
    assert!(member(&json, "payload_specific_data").is_none());
    assert!(member(&json, "mode_code").is_some());
}

#[test]
fn encoding_then_decoding_gives_the_record_back() {
    let status = record();
    let again = DroneStatus::from_json(&status.to_json()).unwrap();
    assert_eq!(format!("{:?}", again), format!("{:?}", status));
    assert_eq!(again.to_json(), status.to_json());
}

#[test]
fn several_extension_keys_are_captured() {
    let block = sample()["70-1-0"].to_string();
    let status = decode(with("53-0-0", &block).as_bytes()).unwrap();
    assert_eq!(status.payload_specific_data.len(), 2);
    assert_eq!(
        status.payload_specific_data.get("53-0-0"),
        status.payload_specific_data.get("70-1-0")
    );
}

#[test]
fn payload_without_extension_has_an_empty_map() {
    let status = decode(without("70-1-0").as_bytes()).unwrap();
    assert!(status.payload_specific_data.is_empty());
    assert_eq!(status.payload_specific_data.len(), 0);
}

#[test]
fn text_that_is_no_json_is_malformed() {
    assert_eq!(decode(b"{").unwrap_err(), DecodeError::Malformed);
    assert_eq!(decode(b"").unwrap_err(), DecodeError::Malformed);
    assert_eq!(decode(b"not json at all").unwrap_err(), DecodeError::Malformed);
    assert_eq!(decode(b"{\"mode_code\": 1} trailing").unwrap_err(), DecodeError::Malformed);
    assert_eq!(decode_text("[1, 2").unwrap_err(), DecodeError::Malformed);
    assert_eq!(decode_document(None).unwrap_err(), DecodeError::Malformed);
}

#[test]
fn missing_battery_is_rejected() {
    assert_eq!(
        decode(without("battery").as_bytes()).unwrap_err(),
        DecodeError::FixedField
    );
}

#[test]
fn each_required_field_is_required() {
    let value = sample();
    for key in value.as_object().unwrap().keys() {
        let outcome = decode(without(key).as_bytes());
        if key == "exit_wayline_when_rc_lost" || key == "70-1-0" {
            assert!(outcome.is_ok(), "{key} is not required");
        } else {
            assert_eq!(outcome.unwrap_err(), DecodeError::FixedField, "{key}");
        }
    }
}

#[test]
fn document_that_is_no_object_is_rejected() {
    assert_eq!(decode(b"[]").unwrap_err(), DecodeError::FixedField);
    assert_eq!(decode(b"null").unwrap_err(), DecodeError::FixedField);
    assert_eq!(decode(b"7").unwrap_err(), DecodeError::FixedField);
    assert_eq!(decode(b"{}").unwrap_err(), DecodeError::FixedField);
}

#[test]
fn field_of_the_wrong_type_is_rejected() {
    for (key, text) in [
        ("mode_code", "\"7\""),
        ("mode_code", "7.0"),
        ("mode_code", "2147483648"),
        ("mode_code", "null"),
        ("total_flight_sorties", "-1"),
        ("total_flight_sorties", "4294967296"),
        ("activation_time", "9223372036854775808"),
        ("rid_state", "1"),
        ("country", "86"),
        ("longitude", "\"113.9\""),
        ("payloads", "{}"),
        ("cameras", "[1]"),
        ("battery", "true"),
        ("exit_wayline_when_rc_lost", "\"yes\""),
    ] {
        assert_eq!(
            decode(with(key, text).as_bytes()).unwrap_err(),
            DecodeError::FixedField,
            "{key}: {text}"
        );
    }
}

#[test]
fn integers_at_the_bounds_are_accepted() {
    let status = decode(with("mode_code", "2147483647").as_bytes()).unwrap();
    assert_eq!(status.mode_code, i32::MAX);
    let status = decode(with("mode_code", "-2147483648").as_bytes()).unwrap();
    assert_eq!(status.mode_code, i32::MIN);
    let status = decode(with("total_flight_sorties", "4294967295").as_bytes()).unwrap();
    assert_eq!(status.total_flight_sorties, u32::MAX);
    let status = decode(with("activation_time", "-9223372036854775808").as_bytes()).unwrap();
    assert_eq!(status.activation_time, i64::MIN);
}

#[test]
fn deprecated_flag_may_be_present_null_or_missing() {
    let status = decode(with("exit_wayline_when_rc_lost", "0").as_bytes()).unwrap();
    assert_eq!(status.exit_wayline_when_rc_lost_deprecated, Some(0));
    let status = decode(with("exit_wayline_when_rc_lost", "null").as_bytes()).unwrap();
    assert_eq!(status.exit_wayline_when_rc_lost_deprecated, None);
    let status = decode(without("exit_wayline_when_rc_lost").as_bytes()).unwrap();
    assert_eq!(status.exit_wayline_when_rc_lost_deprecated, None);
    let json = status.to_json();
    assert_eq!(member(&json, "exit_wayline_when_rc_lost"), Some(&Json::Null));
    assert!(DroneStatus::from_json(&json).is_ok());
}

#[test]
fn extension_that_is_no_block_is_rejected() {
    for text in ["5", "null", "\"70-1-0\"", "{}", "{\"gimbal_pitch\": 1.0}", "[]"] {
        assert_eq!(
            decode(with("53-0-0", text).as_bytes()).unwrap_err(),
            DecodeError::Extension,
            "{text}"
        );
    }
}

#[test]
fn member_with_the_name_of_a_fixed_field_is_that_field() {
    // A measurement block under the name of a fixed field is read as the
    // field, and fails as such.
    let block = sample()["70-1-0"].to_string();
    assert_eq!(
        decode(with("battery", &block).as_bytes()).unwrap_err(),
        DecodeError::FixedField
    );
    let status = record();
    assert!(!status.payload_specific_data.contains_key("battery"));
    assert!(!status.payload_specific_data.contains_key("mode_code"));
}

#[test]
fn fixed_fields_are_checked_before_extensions() {
    let mut value = sample();
    let object = value.as_object_mut().unwrap();
    object.remove("battery");
    object.insert("53-0-0".to_string(), serde_json::Value::Null);
    assert_eq!(
        decode(value.to_string().as_bytes()).unwrap_err(),
        DecodeError::FixedField
    );
}

#[test]
fn ranges_are_not_enforced() {
    let status = decode(with("low_battery_warning_threshold", "250").as_bytes()).unwrap();
    assert_eq!(status.low_battery_warning_threshold, 250);
    let status = decode(with("latitude", "1234.5").as_bytes()).unwrap();
    assert_eq!(status.latitude, float(1234.5));
}

#[test]
fn nested_record_may_be_written_as_a_list_of_its_fields() {
    let status = decode(with("storage", "[2048, 1024]").as_bytes()).unwrap();
    assert_eq!(status.storage, StorageInfo { total: 2048, used: 1024 });
    assert_eq!(
        decode(with("storage", "[2048]").as_bytes()).unwrap_err(),
        DecodeError::FixedField
    );
    assert_eq!(
        decode(with("storage", "[2048, 1024, 0]").as_bytes()).unwrap_err(),
        DecodeError::FixedField
    );
}

#[test]
fn unknown_member_of_a_nested_record_is_ignored() {
    let status = decode(with("storage", "{\"total\": 1, \"used\": 2, \"free\": 3}").as_bytes());
    assert_eq!(status.unwrap().storage, StorageInfo { total: 1, used: 2 });
}

#[test]
fn bytes_that_are_no_utf8_are_replaced() {
    let mut body = with("country", "\"C?N\"").into_bytes();
    let at = body.windows(3).position(|w| w == b"C?N").unwrap() + 1;
    body[at] = 0xff;
    assert!(std::str::from_utf8(&body).is_err());
    assert_eq!(decode(&body).unwrap().country, "C\u{fffd}N");
}

#[test]
fn decode_text_agrees_with_decode() {
    let from_text = decode_text(SAMPLE).unwrap();
    assert_eq!(format!("{:?}", from_text), format!("{:?}", record()));
    let from_document = decode_document(parse(SAMPLE)).unwrap();
    assert_eq!(format!("{:?}", from_document), format!("{:?}", record()));
}

#[test]
fn fixed_field_names_are_told_from_payload_keys() {
    assert!(is_fixed_field_name("battery"));
    assert!(is_fixed_field_name("exit_wayline_when_rc_lost"));
    assert!(is_fixed_field_name("psdk_widget_values"));
    assert!(!is_fixed_field_name("exit_wayline_when_rc_lost_deprecated"));
    assert!(!is_fixed_field_name("payload_specific_data"));
    assert!(!is_fixed_field_name("70-1-0"));
    assert!(!is_fixed_field_name(""));
    let value = sample();
    for key in value.as_object().unwrap().keys() {
        assert_eq!(is_fixed_field_name(key), key != "70-1-0", "{key}");
    }
}

#[test]
fn copy_of_a_record_equals_the_record() {
    let status = record();
    let copy = status.clone();
    assert_eq!(format!("{:?}", copy), format!("{:?}", status));
    assert_eq!(copy.to_json(), status.to_json());
}

#[test]
fn camera_round_trips_by_itself() {
    let camera = record().cameras[0].clone();
    assert_eq!(Camera::from_json(&camera.to_json()), Some(camera));
}

#[test]
fn undecodable_body_is_dropped() {
    let step = receive(b"{ not json");
    assert!(matches!(step, Step::Reject(DecodeError::Malformed)));
    assert_eq!(step.disposition(), Some(Disposition::NackDrop));
    let step = receive(without("battery").as_bytes());
    assert!(matches!(step, Step::Reject(DecodeError::FixedField)));
    assert_eq!(step.disposition(), Some(Disposition::NackDrop));
    assert!(!Disposition::NackDrop.requeue());
    assert!(!Disposition::NackDrop.is_ack());
}

#[test]
fn decodable_body_is_written_then_acknowledged() {
    let step = receive(SAMPLE.as_bytes());
    assert_eq!(step.disposition(), None);
    match step {
        Step::Write(status) => assert_eq!(status.mode_code, 7),
        Step::Reject(cause) => panic!("rejected: {cause:?}"),
    }
    let answer = written(true);
    assert_eq!(answer, Disposition::Ack);
    assert!(answer.is_ack());
    assert!(!answer.requeue());
}

#[test]
fn failed_write_is_requeued() {
    assert!(matches!(receive(SAMPLE.as_bytes()), Step::Write(_)));
    let answer = written(false);
    assert_eq!(answer, Disposition::NackRequeue);
    assert!(answer.requeue());
    assert!(!answer.is_ack());
}

#[test]
fn delivery_follows_the_table() {
    assert_eq!(advance(DeliveryState::Received, Event::DecodeSucceeded), DeliveryState::Decoded);
    assert_eq!(advance(DeliveryState::Received, Event::DecodeFailed), DeliveryState::Resolved(Disposition::NackDrop));
    assert_eq!(advance(DeliveryState::Decoded, Event::WriteSucceeded), DeliveryState::Resolved(Disposition::Ack));
    assert_eq!(advance(DeliveryState::Decoded, Event::WriteFailed), DeliveryState::Resolved(Disposition::NackRequeue));
}

#[test]
fn events_out_of_turn_change_nothing() {
    assert_eq!(advance(DeliveryState::Received, Event::WriteSucceeded), DeliveryState::Received);
    assert_eq!(advance(DeliveryState::Received, Event::WriteFailed), DeliveryState::Received);
    assert_eq!(advance(DeliveryState::Decoded, Event::DecodeSucceeded), DeliveryState::Decoded);
    assert_eq!(advance(DeliveryState::Decoded, Event::DecodeFailed), DeliveryState::Decoded);
    for answer in [Disposition::Ack, Disposition::NackDrop, Disposition::NackRequeue] {
        for event in [
            Event::DecodeSucceeded,
            Event::DecodeFailed,
            Event::WriteSucceeded,
            Event::WriteFailed,
        ] {
            assert_eq!(advance(DeliveryState::Resolved(answer), event), DeliveryState::Resolved(answer));
        }
    }
}

#[test]
fn errors_describe_themselves() {
    assert_eq!(DecodeError::Malformed.describe(), "the message body is not valid JSON");
    assert_eq!(
        DecodeError::FixedField.describe(),
        "a fixed field is missing or has the wrong type"
    );
    assert_eq!(
        DecodeError::Extension.describe(),
        "a payload key does not hold a measurement block"
    );
}
