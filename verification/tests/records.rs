use drone_telemetry::json::object::member;
use drone_telemetry::json::parse::parse;
use drone_telemetry::json::wire::Wire;
use drone_telemetry::json::{Json, Member, Number};
use drone_telemetry::models::drone_status::{
    BatteryDetail, BatteryInfo, DistanceLimitStatus, IrMeteringArea, IrMeteringPoint,
    MaintainStatus, MaintainStatusDetail, ObstacleAvoidance, Payload, PositionState,
    PsdkUiResource, PsdkWidgetValue, PsdkWidgetValueItem, Speaker,
};

fn json(text: &str) -> Json {
    parse(text).expect("the text is JSON")
}

fn float(x: f64) -> Number {
    Number::Float(x.to_bits())
}

const PACK: &str = "{\"capacity_percent\": 91, \"index\": 0, \"sn\": \"4ERPL6RBA3\",
    \"type\": 2, \"sub_type\": 0, \"firmware_version\": \"02.00.20.51\", \"loop_times\": 14,
    \"voltage\": 25800, \"temperature\": 31.4, \"high_voltage_storage_days\": 3}";

fn pack() -> BatteryDetail {
    BatteryDetail {
        capacity_percent: 91,
        index: 0,
        sn: "4ERPL6RBA3".to_string(),
        type_info: 2,
        sub_type: 0,
        firmware_version: "02.00.20.51".to_string(),
        loop_times: 14,
        voltage: 25800,
        temperature: float(31.4),
        high_voltage_storage_days: 3,
    }
}

#[test]
fn payload_is_read_from_an_object_or_a_list() {
    let expected = Payload {
        control_source: "A".to_string(),
        payload_index: "70-1-0".to_string(),
        firmware_version: "01.02".to_string(),
        sn: "4TADL2M001".to_string(),
    };
    let object = json(
        "{\"sn\": \"4TADL2M001\", \"control_source\": \"A\", \"payload_index\": \"70-1-0\",
          \"firmware_version\": \"01.02\", \"mounted\": true}",
    );
    assert_eq!(Payload::from_json(&object), Some(expected.clone()));
    let list = json("[\"A\", \"70-1-0\", \"01.02\", \"4TADL2M001\"]");
    assert_eq!(Payload::from_json(&list), Some(expected.clone()));
    assert_eq!(Payload::from_json(&json("[\"A\", \"70-1-0\", \"01.02\"]")), None);
    assert_eq!(Payload::from_json(&json("\"70-1-0\"")), None);
    assert_eq!(Payload::from_json(&expected.to_json()), Some(expected));
}

#[test]
fn battery_pack_type_is_written_as_type() {
    assert_eq!(BatteryDetail::from_json(&json(PACK)), Some(pack()));
    let encoded = pack().to_json();
    assert_eq!(member(&encoded, "type"), Some(&Json::Number(Number::PosInt(2))));
    assert_eq!(member(&encoded, "type_info"), None);
    assert_eq!(BatteryDetail::from_json(&encoded), Some(pack()));
    let renamed = PACK.replace("\"type\"", "\"type_info\"");
    assert_eq!(BatteryDetail::from_json(&json(&renamed)), None);
}

#[test]
fn battery_info_round_trips_with_its_packs() {
    let text = format!(
        "{{\"capacity_percent\": 90, \"remain_flight_time\": 1500, \"return_home_power\": 25,
           \"landing_power\": 10, \"batteries\": [{PACK}, {PACK}]}}"
    );
    let info = BatteryInfo::from_json(&json(&text)).unwrap();
    assert_eq!(info.capacity_percent, 90);
    assert_eq!(info.remain_flight_time, 1500);
    assert_eq!(info.batteries, vec![pack(), pack()]);
    assert_eq!(BatteryInfo::from_json(&info.to_json()), Some(info.clone()));
    assert_eq!(info.clone(), info);
    let broken = text.replace("31.4", "\"warm\"");
    assert_eq!(BatteryInfo::from_json(&json(&broken)), None);
}

#[test]
fn small_records_round_trip() {
    let limit = DistanceLimitStatus { state: 1, distance_limit: 8000, is_near_distance_limit: 0 };
    let number = |n: u64| Json::Number(Number::PosInt(n));
    assert_eq!(
        limit.to_json(),
        Json::Object(vec![
            Member { key: "state".to_string(), value: number(1) },
            Member { key: "distance_limit".to_string(), value: number(8000) },
            Member { key: "is_near_distance_limit".to_string(), value: number(0) },
        ])
    );
    assert_eq!(DistanceLimitStatus::from_json(&limit.to_json()), Some(limit));
    let fix = PositionState { is_fixed: 2, quality: 10, gps_number: 21, rtk_number: 18 };
    assert_eq!(PositionState::from_json(&fix.to_json()), Some(fix));
    let sensing = ObstacleAvoidance { horizon: 1, upside: 0, downside: 1 };
    assert_eq!(ObstacleAvoidance::from_json(&sensing.to_json()), Some(sensing));
    let ready = PsdkUiResource {
        psdk_index: 2,
        psdk_ready: 1,
        object_key: "b4cfaae6/ui.zip".to_string(),
    };
    assert_eq!(PsdkUiResource::from_json(&ready.to_json()), Some(ready));
}

#[test]
fn maintenance_history_round_trips() {
    let history = MaintainStatus {
        maintain_status_array: vec![
            MaintainStatusDetail {
                state: 1,
                last_maintain_type: 2,
                last_maintain_time: 1_700_000_000,
                last_maintain_flight_time: 120,
                last_maintain_flight_sorties: 4_000_000_000,
            },
            MaintainStatusDetail {
                state: 0,
                last_maintain_type: 1,
                last_maintain_time: -1,
                last_maintain_flight_time: 0,
                last_maintain_flight_sorties: 0,
            },
        ],
    };
    let encoded = history.to_json();
    assert_eq!(MaintainStatus::from_json(&encoded), Some(history.clone()));
    let empty = MaintainStatus { maintain_status_array: vec![] };
    assert_eq!(empty.to_json(), json("{\"maintain_status_array\": []}"));
    assert_eq!(MaintainStatus::from_json(&json("{}")), None);
}

#[test]
fn metering_area_holds_its_points() {
    let point = |t: f64| IrMeteringPoint { x: float(0.25), y: float(0.75), temperature: float(t) };
    let area = IrMeteringArea {
        x: float(0.1),
        y: float(0.2),
        width: float(0.5),
        height: Number::PosInt(1),
        aver_temperature: float(36.6),
        min_temperature_point: point(-4.5),
        max_temperature_point: point(80.0),
    };
    let encoded = area.to_json();
    assert_eq!(member(&encoded, "height"), Some(&Json::Number(Number::PosInt(1))));
    assert_eq!(IrMeteringArea::from_json(&encoded), Some(area));
}

#[test]
fn widget_value_keeps_any_document() {
    let text = "{\"psdk_index\": 1, \"psdk_name\": \"speaker\", \"psdk_sn\": \"sn-1\",
        \"psdk_version\": \"1.0\", \"psdk_lib_version\": \"3.5\",
        \"speaker\": {\"work_mode\": 0, \"play_mode\": 1, \"play_volume\": 60,
            \"system_state\": 2, \"play_file_name\": \"alarm.opus\", \"play_file_md5\": \"9e107d\"},
        \"values\": [{\"index\": 0, \"value\": 1}, {\"index\": 1, \"value\": null},
            {\"index\": 2, \"value\": {\"on\": [true, \"x\", 2.5]}}]}";
    let widgets = PsdkWidgetValue::from_json(&json(text)).unwrap();
    assert_eq!(
        widgets.speaker,
        Speaker {
            work_mode: 0,
            play_mode: 1,
            play_volume: 60,
            system_state: 2,
            play_file_name: "alarm.opus".to_string(),
            play_file_md5: "9e107d".to_string(),
        }
    );
    assert_eq!(
        widgets.values,
        vec![
            PsdkWidgetValueItem { index: 0, value: Json::Number(Number::PosInt(1)) },
            PsdkWidgetValueItem { index: 1, value: Json::Null },
            PsdkWidgetValueItem { index: 2, value: json("{\"on\": [true, \"x\", 2.5]}") },
        ]
    );
    assert_eq!(PsdkWidgetValue::from_json(&widgets.to_json()), Some(widgets));
    assert_eq!(PsdkWidgetValueItem::from_json(&json("{\"index\": 0}")), None);
}
