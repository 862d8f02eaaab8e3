use drone_telemetry::json::parse::parse;
use drone_telemetry::json::wire::Wire;
use drone_telemetry::models::drone_status::PayloadGimbalInfo;
use drone_telemetry::models::payload_map::PayloadMap;

fn block(index: &str, state: i32) -> PayloadGimbalInfo {
    let text = format!(
        "{{\"gimbal_pitch\": 1.0, \"gimbal_roll\": 0, \"gimbal_yaw\": -90.5,
          \"measure_target_longitude\": 113.9, \"measure_target_latitude\": 22.5,
          \"measure_target_altitude\": 40, \"measure_target_distance\": 12.25,
          \"measure_target_error_state\": {state}, \"payload_index\": \"{index}\",
          \"zoom_factor\": 2, \"thermal_current_palette_style\": 0,
          \"thermal_supported_palette_styles\": [0, 1], \"thermal_gain_mode\": 2,
          \"thermal_isotherm_state\": 0, \"thermal_isotherm_upper_limit\": 150,
          \"thermal_isotherm_lower_limit\": -20, \"thermal_global_temperature_min\": 18.5,
          \"thermal_global_temperature_max\": 41}}"
    );
    PayloadGimbalInfo::from_json(&parse(&text).unwrap()).unwrap()
}

#[test]
fn new_map_is_empty() {
    let map = PayloadMap::new();
    assert!(map.is_empty());
    assert_eq!(map.len(), 0);
    assert!(!map.contains_key("70-1-0"));
    assert!(map.get("70-1-0").is_none());
    assert!(map.entries().is_empty());
}

#[test]
fn inserted_block_is_found_under_its_key() {
    let mut map = PayloadMap::new();
    map.insert("70-1-0".to_string(), block("70-1-0", 0));
    map.insert("53-0-0".to_string(), block("53-0-0", 3));
    assert_eq!(map.len(), 2);
    assert!(!map.is_empty());
    assert_eq!(map.get("70-1-0"), Some(&block("70-1-0", 0)));
    assert_eq!(map.get("53-0-0"), Some(&block("53-0-0", 3)));
    assert!(map.get("70-1-1").is_none());
    assert!(map.contains_key("53-0-0"));
}

#[test]
fn second_insert_under_a_key_replaces_the_first() {
    let mut map = PayloadMap::new();
    map.insert("70-1-0".to_string(), block("70-1-0", 0));
    map.insert("53-0-0".to_string(), block("53-0-0", 0));
    map.insert("70-1-0".to_string(), block("70-1-0", 2));
    assert_eq!(map.len(), 2);
    assert_eq!(map.get("70-1-0").unwrap().measure_target_error_state, 2);
    assert_eq!(map.get("53-0-0").unwrap().measure_target_error_state, 0);
    let keys: Vec<&str> = map.entries().iter().map(|e| e.key.as_str()).collect();
    assert_eq!(keys.iter().filter(|k| **k == "70-1-0").count(), 1);
}

#[test]
fn copy_holds_the_same_entries() {
    let mut map = PayloadMap::new();
    map.insert("70-1-0".to_string(), block("70-1-0", 1));
    let copy = map.clone();
    assert_eq!(copy.len(), 1);
    assert_eq!(copy.get("70-1-0"), map.get("70-1-0"));
}
