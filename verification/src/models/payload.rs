//! Payloads mounted on the aircraft and their measurement blocks.

use crate::json::object::{field_as, finish_object, put_field, read_field, start_object};
use crate::json::wire::{models, Wire};
use crate::json::{Json, JsonView, Number};
use vstd::prelude::*;

verus! {

/// One payload mounted on the aircraft.
#[derive(Debug, PartialEq)]
pub struct Payload {
    /// Who controls the payload.
    pub control_source: String,
    /// Payload identifier, written `{type}-{subtype}-{gimbal index}`.
    pub payload_index: String,
    pub firmware_version: String,
    /// Serial number.
    pub sn: String,
}

/// The mathematical model of a [`Payload`].
pub struct PayloadView {
    pub control_source: Seq<char>,
    pub payload_index: Seq<char>,
    pub firmware_version: Seq<char>,
    pub sn: Seq<char>,
}

impl View for Payload {
    type V = PayloadView;

    open spec fn view(&self) -> PayloadView {
        PayloadView {
            control_source: self.control_source@,
            payload_index: self.payload_index@,
            firmware_version: self.firmware_version@,
            sn: self.sn@,
        }
    }
}

impl Clone for Payload {
    fn clone(&self) -> (copy: Payload)
        ensures
            copy@ == self@,
    {
        self.duplicate()
    }
}

/// Written as an object with one member for each field; read from such an
/// object, in which other members are passed over, or from an array of the
/// fields in their order.
impl Wire for Payload {
    type Model = PayloadView;

    open spec fn model(&self) -> PayloadView {
        self@
    }

    open spec fn decoded(json: JsonView) -> Option<PayloadView> {
        let control_source = field_as::<String>(json, "control_source"@, 0, 4);
        let payload_index = field_as::<String>(json, "payload_index"@, 1, 4);
        let firmware_version = field_as::<String>(json, "firmware_version"@, 2, 4);
        let sn = field_as::<String>(json, "sn"@, 3, 4);
        if control_source is Some && payload_index is Some && firmware_version is Some
            && sn is Some {
            Some(
                PayloadView {
                    control_source: control_source->0,
                    payload_index: payload_index->0,
                    firmware_version: firmware_version->0,
                    sn: sn->0,
                },
            )
        } else {
            None
        }
    }

    open spec fn encoded(value: PayloadView) -> JsonView {
        JsonView::Object(
            Map::empty()
                .insert("control_source"@, <String as Wire>::encoded(value.control_source))
                .insert("payload_index"@, <String as Wire>::encoded(value.payload_index))
                .insert("firmware_version"@, <String as Wire>::encoded(value.firmware_version))
                .insert("sn"@, <String as Wire>::encoded(value.sn)),
        )
    }

    fn from_json(json: &Json) -> (value: Option<Payload>) {
        let control_source = read_field::<String>(json, "control_source", 0, 4)?;
        let payload_index = read_field::<String>(json, "payload_index", 1, 4)?;
        let firmware_version = read_field::<String>(json, "firmware_version", 2, 4)?;
        let sn = read_field::<String>(json, "sn", 3, 4)?;
        Some(
            Payload {
                control_source,
                payload_index,
                firmware_version,
                sn,
            },
        )
    }

    fn to_json(&self) -> (json: Json) {
        let mut members = start_object();
        put_field(&mut members, "control_source", &self.control_source);
        put_field(&mut members, "payload_index", &self.payload_index);
        put_field(&mut members, "firmware_version", &self.firmware_version);
        put_field(&mut members, "sn", &self.sn);
        finish_object(members)
    }

    fn duplicate(&self) -> (copy: Payload) {
        Payload {
            control_source: self.control_source.duplicate(),
            payload_index: self.payload_index.duplicate(),
            firmware_version: self.firmware_version.duplicate(),
            sn: self.sn.duplicate(),
        }
    }

    proof fn round_trip(value: PayloadView) {
        reveal_strlit("control_source");
        reveal_strlit("payload_index");
        reveal_strlit("firmware_version");
        reveal_strlit("sn");
        assert("control_source"@.len() == 14);
        assert("payload_index"@.len() == 13);
        assert("firmware_version"@.len() == 16);
        assert("sn"@.len() == 2);
        <String as Wire>::round_trip(value.control_source);
        <String as Wire>::round_trip(value.payload_index);
        <String as Wire>::round_trip(value.firmware_version);
        <String as Wire>::round_trip(value.sn);
    }
}

/// The measurement block of one payload: gimbal orientation, the measured
/// target and the thermal imaging parameters.
#[derive(Debug, PartialEq)]
pub struct PayloadGimbalInfo {
    /// Degrees, -180 to 180.
    pub gimbal_pitch: Number,
    /// Degrees, -180 to 180.
    pub gimbal_roll: Number,
    /// Degrees, -180 to 180.
    pub gimbal_yaw: Number,
    /// Degrees, -180 to 180.
    pub measure_target_longitude: Number,
    /// Degrees, -90 to 90.
    pub measure_target_latitude: Number,
    /// Meters.
    pub measure_target_altitude: Number,
    /// Meters.
    pub measure_target_distance: Number,
    /// 0: normal, 1: too close, 2: too far, 3: no signal.
    pub measure_target_error_state: i32,
    /// Payload identifier, written `{type}-{subtype}-{gimbal index}`.
    pub payload_index: String,
    pub zoom_factor: Number,
    /// 0: white hot, 1: black hot, and so on.
    pub thermal_current_palette_style: i32,
    /// Codes of the palette styles the payload supports.
    pub thermal_supported_palette_styles: Vec<i32>,
    /// 0: auto, 1: low gain (0 to 500 C), 2: high gain (-20 to 150 C).
    pub thermal_gain_mode: i32,
    /// 0: disabled, 1: enabled.
    pub thermal_isotherm_state: i32,
    /// Celsius.
    pub thermal_isotherm_upper_limit: i32,
    /// Celsius.
    pub thermal_isotherm_lower_limit: i32,
    /// Celsius.
    pub thermal_global_temperature_min: Number,
    /// Celsius.
    pub thermal_global_temperature_max: Number,
}

/// The mathematical model of a [`PayloadGimbalInfo`].
pub struct PayloadGimbalInfoView {
    pub gimbal_pitch: Number,
    pub gimbal_roll: Number,
    pub gimbal_yaw: Number,
    pub measure_target_longitude: Number,
    pub measure_target_latitude: Number,
    pub measure_target_altitude: Number,
    pub measure_target_distance: Number,
    pub measure_target_error_state: i32,
    pub payload_index: Seq<char>,
    pub zoom_factor: Number,
    pub thermal_current_palette_style: i32,
    pub thermal_supported_palette_styles: Seq<i32>,
    pub thermal_gain_mode: i32,
    pub thermal_isotherm_state: i32,
    pub thermal_isotherm_upper_limit: i32,
    pub thermal_isotherm_lower_limit: i32,
    pub thermal_global_temperature_min: Number,
    pub thermal_global_temperature_max: Number,
}

impl View for PayloadGimbalInfo {
    type V = PayloadGimbalInfoView;

    open spec fn view(&self) -> PayloadGimbalInfoView {
        PayloadGimbalInfoView {
            gimbal_pitch: self.gimbal_pitch,
            gimbal_roll: self.gimbal_roll,
            gimbal_yaw: self.gimbal_yaw,
            measure_target_longitude: self.measure_target_longitude,
            measure_target_latitude: self.measure_target_latitude,
            measure_target_altitude: self.measure_target_altitude,
            measure_target_distance: self.measure_target_distance,
            measure_target_error_state: self.measure_target_error_state,
            payload_index: self.payload_index@,
            zoom_factor: self.zoom_factor,
            thermal_current_palette_style: self.thermal_current_palette_style,
            thermal_supported_palette_styles: models(self.thermal_supported_palette_styles@),
            thermal_gain_mode: self.thermal_gain_mode,
            thermal_isotherm_state: self.thermal_isotherm_state,
            thermal_isotherm_upper_limit: self.thermal_isotherm_upper_limit,
            thermal_isotherm_lower_limit: self.thermal_isotherm_lower_limit,
            thermal_global_temperature_min: self.thermal_global_temperature_min,
            thermal_global_temperature_max: self.thermal_global_temperature_max,
        }
    }
}

impl Clone for PayloadGimbalInfo {
    fn clone(&self) -> (copy: PayloadGimbalInfo)
        ensures
            copy@ == self@,
    {
        self.duplicate()
    }
}

/// Written as an object with one member for each field; read from such an
/// object, in which other members are passed over, or from an array of the
/// fields in their order.
impl Wire for PayloadGimbalInfo {
    type Model = PayloadGimbalInfoView;

    open spec fn model(&self) -> PayloadGimbalInfoView {
        self@
    }

    open spec fn decoded(json: JsonView) -> Option<PayloadGimbalInfoView> {
        let gimbal_pitch = field_as::<Number>(json, "gimbal_pitch"@, 0, 18);
        let gimbal_roll = field_as::<Number>(json, "gimbal_roll"@, 1, 18);
        let gimbal_yaw = field_as::<Number>(json, "gimbal_yaw"@, 2, 18);
        let measure_target_longitude = field_as::<Number>(json, "measure_target_longitude"@, 3, 18);
        let measure_target_latitude = field_as::<Number>(json, "measure_target_latitude"@, 4, 18);
        let measure_target_altitude = field_as::<Number>(json, "measure_target_altitude"@, 5, 18);
        let measure_target_distance = field_as::<Number>(json, "measure_target_distance"@, 6, 18);
        let measure_target_error_state = field_as::<i32>(
            json,
            "measure_target_error_state"@,
            7,
            18,
        );
        let payload_index = field_as::<String>(json, "payload_index"@, 8, 18);
        let zoom_factor = field_as::<Number>(json, "zoom_factor"@, 9, 18);
        let thermal_current_palette_style = field_as::<i32>(
            json,
            "thermal_current_palette_style"@,
            10,
            18,
        );
        let thermal_supported_palette_styles = field_as::<Vec<i32>>(
            json,
            "thermal_supported_palette_styles"@,
            11,
            18,
        );
        let thermal_gain_mode = field_as::<i32>(json, "thermal_gain_mode"@, 12, 18);
        let thermal_isotherm_state = field_as::<i32>(json, "thermal_isotherm_state"@, 13, 18);
        let thermal_isotherm_upper_limit = field_as::<i32>(
            json,
            "thermal_isotherm_upper_limit"@,
            14,
            18,
        );
        let thermal_isotherm_lower_limit = field_as::<i32>(
            json,
            "thermal_isotherm_lower_limit"@,
            15,
            18,
        );
        let thermal_global_temperature_min = field_as::<Number>(
            json,
            "thermal_global_temperature_min"@,
            16,
            18,
        );
        let thermal_global_temperature_max = field_as::<Number>(
            json,
            "thermal_global_temperature_max"@,
            17,
            18,
        );
        if gimbal_pitch is Some && gimbal_roll is Some && gimbal_yaw is Some
            && measure_target_longitude is Some && measure_target_latitude is Some
            && measure_target_altitude is Some && measure_target_distance is Some
            && measure_target_error_state is Some && payload_index is Some
            && zoom_factor is Some && thermal_current_palette_style is Some
            && thermal_supported_palette_styles is Some && thermal_gain_mode is Some
            && thermal_isotherm_state is Some && thermal_isotherm_upper_limit is Some
            && thermal_isotherm_lower_limit is Some && thermal_global_temperature_min is Some
            && thermal_global_temperature_max is Some {
            Some(
                PayloadGimbalInfoView {
                    gimbal_pitch: gimbal_pitch->0,
                    gimbal_roll: gimbal_roll->0,
                    gimbal_yaw: gimbal_yaw->0,
                    measure_target_longitude: measure_target_longitude->0,
                    measure_target_latitude: measure_target_latitude->0,
                    measure_target_altitude: measure_target_altitude->0,
                    measure_target_distance: measure_target_distance->0,
                    measure_target_error_state: measure_target_error_state->0,
                    payload_index: payload_index->0,
                    zoom_factor: zoom_factor->0,
                    thermal_current_palette_style: thermal_current_palette_style->0,
                    thermal_supported_palette_styles: thermal_supported_palette_styles->0,
                    thermal_gain_mode: thermal_gain_mode->0,
                    thermal_isotherm_state: thermal_isotherm_state->0,
                    thermal_isotherm_upper_limit: thermal_isotherm_upper_limit->0,
                    thermal_isotherm_lower_limit: thermal_isotherm_lower_limit->0,
                    thermal_global_temperature_min: thermal_global_temperature_min->0,
                    thermal_global_temperature_max: thermal_global_temperature_max->0,
                },
            )
        } else {
            None
        }
    }

    open spec fn encoded(value: PayloadGimbalInfoView) -> JsonView {
        JsonView::Object(
            Map::empty()
                .insert("gimbal_pitch"@, <Number as Wire>::encoded(value.gimbal_pitch))
                .insert("gimbal_roll"@, <Number as Wire>::encoded(value.gimbal_roll))
                .insert("gimbal_yaw"@, <Number as Wire>::encoded(value.gimbal_yaw))
                .insert(
                    "measure_target_longitude"@,
                    <Number as Wire>::encoded(value.measure_target_longitude),
                )
                .insert(
                    "measure_target_latitude"@,
                    <Number as Wire>::encoded(value.measure_target_latitude),
                )
                .insert(
                    "measure_target_altitude"@,
                    <Number as Wire>::encoded(value.measure_target_altitude),
                )
                .insert(
                    "measure_target_distance"@,
                    <Number as Wire>::encoded(value.measure_target_distance),
                )
                .insert(
                    "measure_target_error_state"@,
                    <i32 as Wire>::encoded(value.measure_target_error_state),
                )
                .insert("payload_index"@, <String as Wire>::encoded(value.payload_index))
                .insert("zoom_factor"@, <Number as Wire>::encoded(value.zoom_factor))
                .insert(
                    "thermal_current_palette_style"@,
                    <i32 as Wire>::encoded(value.thermal_current_palette_style),
                )
                .insert(
                    "thermal_supported_palette_styles"@,
                    <Vec<i32> as Wire>::encoded(value.thermal_supported_palette_styles),
                )
                .insert("thermal_gain_mode"@, <i32 as Wire>::encoded(value.thermal_gain_mode))
                .insert(
                    "thermal_isotherm_state"@,
                    <i32 as Wire>::encoded(value.thermal_isotherm_state),
                )
                .insert(
                    "thermal_isotherm_upper_limit"@,
                    <i32 as Wire>::encoded(value.thermal_isotherm_upper_limit),
                )
                .insert(
                    "thermal_isotherm_lower_limit"@,
                    <i32 as Wire>::encoded(value.thermal_isotherm_lower_limit),
                )
                .insert(
                    "thermal_global_temperature_min"@,
                    <Number as Wire>::encoded(value.thermal_global_temperature_min),
                )
                .insert(
                    "thermal_global_temperature_max"@,
                    <Number as Wire>::encoded(value.thermal_global_temperature_max),
                ),
        )
    }

    fn from_json(json: &Json) -> (value: Option<PayloadGimbalInfo>) {
        let gimbal_pitch = read_field::<Number>(json, "gimbal_pitch", 0, 18)?;
        let gimbal_roll = read_field::<Number>(json, "gimbal_roll", 1, 18)?;
        let gimbal_yaw = read_field::<Number>(json, "gimbal_yaw", 2, 18)?;
        let measure_target_longitude = read_field::<Number>(
            json,
            "measure_target_longitude",
            3,
            18,
        )?;
        let measure_target_latitude = read_field::<Number>(json, "measure_target_latitude", 4, 18)?;
        let measure_target_altitude = read_field::<Number>(json, "measure_target_altitude", 5, 18)?;
        let measure_target_distance = read_field::<Number>(json, "measure_target_distance", 6, 18)?;
        let measure_target_error_state = read_field::<i32>(
            json,
            "measure_target_error_state",
            7,
            18,
        )?;
        let payload_index = read_field::<String>(json, "payload_index", 8, 18)?;
        let zoom_factor = read_field::<Number>(json, "zoom_factor", 9, 18)?;
        let thermal_current_palette_style = read_field::<i32>(
            json,
            "thermal_current_palette_style",
            10,
            18,
        )?;
        let thermal_supported_palette_styles = read_field::<Vec<i32>>(
            json,
            "thermal_supported_palette_styles",
            11,
            18,
        )?;
        let thermal_gain_mode = read_field::<i32>(json, "thermal_gain_mode", 12, 18)?;
        let thermal_isotherm_state = read_field::<i32>(json, "thermal_isotherm_state", 13, 18)?;
        let thermal_isotherm_upper_limit = read_field::<i32>(
            json,
            "thermal_isotherm_upper_limit",
            14,
            18,
        )?;
        let thermal_isotherm_lower_limit = read_field::<i32>(
            json,
            "thermal_isotherm_lower_limit",
            15,
            18,
        )?;
        let thermal_global_temperature_min = read_field::<Number>(
            json,
            "thermal_global_temperature_min",
            16,
            18,
        )?;
        let thermal_global_temperature_max = read_field::<Number>(
            json,
            "thermal_global_temperature_max",
            17,
            18,
        )?;
        Some(
            PayloadGimbalInfo {
                gimbal_pitch,
                gimbal_roll,
                gimbal_yaw,
                measure_target_longitude,
                measure_target_latitude,
                measure_target_altitude,
                measure_target_distance,
                measure_target_error_state,
                payload_index,
                zoom_factor,
                thermal_current_palette_style,
                thermal_supported_palette_styles,
                thermal_gain_mode,
                thermal_isotherm_state,
                thermal_isotherm_upper_limit,
                thermal_isotherm_lower_limit,
                thermal_global_temperature_min,
                thermal_global_temperature_max,
            },
        )
    }

    fn to_json(&self) -> (json: Json) {
        let mut members = start_object();
        put_field(&mut members, "gimbal_pitch", &self.gimbal_pitch);
        put_field(&mut members, "gimbal_roll", &self.gimbal_roll);
        put_field(&mut members, "gimbal_yaw", &self.gimbal_yaw);
        put_field(&mut members, "measure_target_longitude", &self.measure_target_longitude);
        put_field(&mut members, "measure_target_latitude", &self.measure_target_latitude);
        put_field(&mut members, "measure_target_altitude", &self.measure_target_altitude);
        put_field(&mut members, "measure_target_distance", &self.measure_target_distance);
        put_field(&mut members, "measure_target_error_state", &self.measure_target_error_state);
        put_field(&mut members, "payload_index", &self.payload_index);
        put_field(&mut members, "zoom_factor", &self.zoom_factor);
        put_field(
            &mut members,
            "thermal_current_palette_style",
            &self.thermal_current_palette_style,
        );
        put_field(
            &mut members,
            "thermal_supported_palette_styles",
            &self.thermal_supported_palette_styles,
        );
        put_field(&mut members, "thermal_gain_mode", &self.thermal_gain_mode);
        put_field(&mut members, "thermal_isotherm_state", &self.thermal_isotherm_state);
        put_field(&mut members, "thermal_isotherm_upper_limit", &self.thermal_isotherm_upper_limit);
        put_field(&mut members, "thermal_isotherm_lower_limit", &self.thermal_isotherm_lower_limit);
        put_field(
            &mut members,
            "thermal_global_temperature_min",
            &self.thermal_global_temperature_min,
        );
        put_field(
            &mut members,
            "thermal_global_temperature_max",
            &self.thermal_global_temperature_max,
        );
        finish_object(members)
    }

    fn duplicate(&self) -> (copy: PayloadGimbalInfo) {
        PayloadGimbalInfo {
            gimbal_pitch: self.gimbal_pitch,
            gimbal_roll: self.gimbal_roll,
            gimbal_yaw: self.gimbal_yaw,
            measure_target_longitude: self.measure_target_longitude,
            measure_target_latitude: self.measure_target_latitude,
            measure_target_altitude: self.measure_target_altitude,
            measure_target_distance: self.measure_target_distance,
            measure_target_error_state: self.measure_target_error_state,
            payload_index: self.payload_index.duplicate(),
            zoom_factor: self.zoom_factor,
            thermal_current_palette_style: self.thermal_current_palette_style,
            thermal_supported_palette_styles: self.thermal_supported_palette_styles.duplicate(),
            thermal_gain_mode: self.thermal_gain_mode,
            thermal_isotherm_state: self.thermal_isotherm_state,
            thermal_isotherm_upper_limit: self.thermal_isotherm_upper_limit,
            thermal_isotherm_lower_limit: self.thermal_isotherm_lower_limit,
            thermal_global_temperature_min: self.thermal_global_temperature_min,
            thermal_global_temperature_max: self.thermal_global_temperature_max,
        }
    }

    proof fn round_trip(value: PayloadGimbalInfoView) {
        reveal_strlit("gimbal_pitch");
        reveal_strlit("gimbal_roll");
        reveal_strlit("gimbal_yaw");
        reveal_strlit("measure_target_longitude");
        reveal_strlit("measure_target_latitude");
        reveal_strlit("measure_target_altitude");
        reveal_strlit("measure_target_distance");
        reveal_strlit("measure_target_error_state");
        reveal_strlit("payload_index");
        reveal_strlit("zoom_factor");
        reveal_strlit("thermal_current_palette_style");
        reveal_strlit("thermal_supported_palette_styles");
        reveal_strlit("thermal_gain_mode");
        reveal_strlit("thermal_isotherm_state");
        reveal_strlit("thermal_isotherm_upper_limit");
        reveal_strlit("thermal_isotherm_lower_limit");
        reveal_strlit("thermal_global_temperature_min");
        reveal_strlit("thermal_global_temperature_max");
        assert("gimbal_pitch"@.len() == 12);
        assert("gimbal_roll"@.len() == 11 && "gimbal_roll"@[0] == 'g');
        assert("gimbal_yaw"@.len() == 10);
        assert("measure_target_longitude"@.len() == 24);
        assert("measure_target_latitude"@.len() == 23 && "measure_target_latitude"@[15] == 'l');
        assert("measure_target_altitude"@.len() == 23 && "measure_target_altitude"@[15] == 'a');
        assert("measure_target_distance"@.len() == 23 && "measure_target_distance"@[15] == 'd');
        assert("measure_target_error_state"@.len() == 26);
        assert("payload_index"@.len() == 13);
        assert("zoom_factor"@.len() == 11 && "zoom_factor"@[0] == 'z');
        assert("thermal_current_palette_style"@.len() == 29);
        assert("thermal_supported_palette_styles"@.len() == 32);
        assert("thermal_gain_mode"@.len() == 17);
        assert("thermal_isotherm_state"@.len() == 22);
        assert("thermal_isotherm_upper_limit"@.len() == 28
            && "thermal_isotherm_upper_limit"@[17] == 'u');
        assert("thermal_isotherm_lower_limit"@.len() == 28
            && "thermal_isotherm_lower_limit"@[17] == 'l');
        assert("thermal_global_temperature_min"@.len() == 30
            && "thermal_global_temperature_min"@[28] == 'i');
        assert("thermal_global_temperature_max"@.len() == 30
            && "thermal_global_temperature_max"@[28] == 'a');
        <Number as Wire>::round_trip(value.gimbal_pitch);
        <Number as Wire>::round_trip(value.gimbal_roll);
        <Number as Wire>::round_trip(value.gimbal_yaw);
        <Number as Wire>::round_trip(value.measure_target_longitude);
        <Number as Wire>::round_trip(value.measure_target_latitude);
        <Number as Wire>::round_trip(value.measure_target_altitude);
        <Number as Wire>::round_trip(value.measure_target_distance);
        <i32 as Wire>::round_trip(value.measure_target_error_state);
        <String as Wire>::round_trip(value.payload_index);
        <Number as Wire>::round_trip(value.zoom_factor);
        <i32 as Wire>::round_trip(value.thermal_current_palette_style);
        <Vec<i32> as Wire>::round_trip(value.thermal_supported_palette_styles);
        <i32 as Wire>::round_trip(value.thermal_gain_mode);
        <i32 as Wire>::round_trip(value.thermal_isotherm_state);
        <i32 as Wire>::round_trip(value.thermal_isotherm_upper_limit);
        <i32 as Wire>::round_trip(value.thermal_isotherm_lower_limit);
        <Number as Wire>::round_trip(value.thermal_global_temperature_min);
        <Number as Wire>::round_trip(value.thermal_global_temperature_max);
    }
}

} // verus!
