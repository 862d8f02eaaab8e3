//! The telemetry record: the status of one aircraft at one moment, with its
//! JSON form.
//!
//! The record has a closed set of fixed fields. Every other member of the
//! JSON object is taken for the measurement block of one payload and is kept
//! in the extension map under its own name; on the way back the blocks are
//! written at the top level again, beside the fixed fields.
//!
//! The nested records are [`Wire`] types: what they encode to always decodes
//! to them again. The record itself is none, as its extension map may be
//! given a key that is the name of a fixed field; such a key is shadowed by
//! the field when the record is encoded, and [`round_trip`] leaves it out.

use super::battery::BatteryInfoView;
use super::camera::CameraView;
use super::maintain::MaintainStatusView;
use super::payload::{PayloadGimbalInfoView, PayloadView};
use super::payload_map::{distinct_keys, entries_view, lemma_entries_view_push, PayloadMap};
use super::psdk::{PsdkUiResourceView, PsdkWidgetValueView};
use crate::error::DecodeError;
use crate::json::object::{
    encoded_optional, finish_object, member, member_as, member_of, optional_member_as, put_field,
    put_optional_field, read_member, read_optional_member, start_object,
};
use crate::json::wire::{models, Wire};
use crate::json::{members_view, Json, JsonView, Member, Number};
use crate::text::same_text;
use vstd::prelude::*;

pub use super::battery::{BatteryDetail, BatteryInfo};
pub use super::camera::{Camera, IrMeteringArea, IrMeteringPoint, LiveviewWorldRegion};
pub use super::flight::{DistanceLimitStatus, ObstacleAvoidance, PositionState, StorageInfo};
pub use super::maintain::{MaintainStatus, MaintainStatusDetail};
pub use super::payload::{Payload, PayloadGimbalInfo};
pub use super::psdk::{PsdkUiResource, PsdkWidgetValue, PsdkWidgetValueItem, Speaker};

verus! {

/// Whether `name` is the name of one of the fixed fields of the record.
pub open spec fn is_fixed_field(name: Seq<char>) -> bool {
    ||| name == "payloads"@
    ||| name == "mode_code"@
    ||| name == "distance_limit_status"@
    ||| name == "wpmz_version"@
    ||| name == "rth_altitude"@
    ||| name == "rc_lost_action"@
    ||| name == "exit_wayline_when_rc_lost"@
    ||| name == "cameras"@
    ||| name == "country"@
    ||| name == "rid_state"@
    ||| name == "commander_mode_lost_action"@
    ||| name == "current_commander_flight_mode"@
    ||| name == "commander_flight_height"@
    ||| name == "mode_code_reason"@
    ||| name == "gear"@
    ||| name == "firmware_version"@
    ||| name == "compatible_status"@
    ||| name == "firmware_upgrade_status"@
    ||| name == "horizontal_speed"@
    ||| name == "vertical_speed"@
    ||| name == "longitude"@
    ||| name == "latitude"@
    ||| name == "height"@
    ||| name == "elevation"@
    ||| name == "attitude_pitch"@
    ||| name == "attitude_roll"@
    ||| name == "attitude_head"@
    ||| name == "home_longitude"@
    ||| name == "home_latitude"@
    ||| name == "home_distance"@
    ||| name == "wind_speed"@
    ||| name == "wind_direction"@
    ||| name == "control_source"@
    ||| name == "low_battery_warning_threshold"@
    ||| name == "serious_low_battery_warning_threshold"@
    ||| name == "total_flight_time"@
    ||| name == "total_flight_distance"@
    ||| name == "battery"@
    ||| name == "storage"@
    ||| name == "position_state"@
    ||| name == "track_id"@
    ||| name == "total_flight_sorties"@
    ||| name == "maintain_status"@
    ||| name == "activation_time"@
    ||| name == "night_lights_state"@
    ||| name == "height_limit"@
    ||| name == "is_near_height_limit"@
    ||| name == "is_near_area_limit"@
    ||| name == "obstacle_avoidance"@
    ||| name == "current_rth_mode"@
    ||| name == "psdk_ui_resource"@
    ||| name == "psdk_widget_values"@
}

/// Whether `name` is the name of one of the fixed fields of the record.
pub fn is_fixed_field_name(name: &str) -> (fixed: bool)
    ensures
        fixed == is_fixed_field(name@),
{
    same_text(name, "payloads")
    || same_text(name, "mode_code")
    || same_text(name, "distance_limit_status")
    || same_text(name, "wpmz_version")
    || same_text(name, "rth_altitude")
    || same_text(name, "rc_lost_action")
    || same_text(name, "exit_wayline_when_rc_lost")
    || same_text(name, "cameras")
    || same_text(name, "country")
    || same_text(name, "rid_state")
    || same_text(name, "commander_mode_lost_action")
    || same_text(name, "current_commander_flight_mode")
    || same_text(name, "commander_flight_height")
    || same_text(name, "mode_code_reason")
    || same_text(name, "gear")
    || same_text(name, "firmware_version")
    || same_text(name, "compatible_status")
    || same_text(name, "firmware_upgrade_status")
    || same_text(name, "horizontal_speed")
    || same_text(name, "vertical_speed")
    || same_text(name, "longitude")
    || same_text(name, "latitude")
    || same_text(name, "height")
    || same_text(name, "elevation")
    || same_text(name, "attitude_pitch")
    || same_text(name, "attitude_roll")
    || same_text(name, "attitude_head")
    || same_text(name, "home_longitude")
    || same_text(name, "home_latitude")
    || same_text(name, "home_distance")
    || same_text(name, "wind_speed")
    || same_text(name, "wind_direction")
    || same_text(name, "control_source")
    || same_text(name, "low_battery_warning_threshold")
    || same_text(name, "serious_low_battery_warning_threshold")
    || same_text(name, "total_flight_time")
    || same_text(name, "total_flight_distance")
    || same_text(name, "battery")
    || same_text(name, "storage")
    || same_text(name, "position_state")
    || same_text(name, "track_id")
    || same_text(name, "total_flight_sorties")
    || same_text(name, "maintain_status")
    || same_text(name, "activation_time")
    || same_text(name, "night_lights_state")
    || same_text(name, "height_limit")
    || same_text(name, "is_near_height_limit")
    || same_text(name, "is_near_area_limit")
    || same_text(name, "obstacle_avoidance")
    || same_text(name, "current_rth_mode")
    || same_text(name, "psdk_ui_resource")
    || same_text(name, "psdk_widget_values")
}

/// The status of one aircraft at one moment.
#[derive(Debug)]
pub struct DroneStatus {
    pub payloads: Vec<Payload>,
    /// Flight mode: 0 standby, 1 takeoff preparation, 2 ready for takeoff,
    /// 3 manual flight, 4 automatic takeoff, and so on.
    pub mode_code: i32,
    pub distance_limit_status: DistanceLimitStatus,
    pub wpmz_version: String,
    /// Return-to-home altitude, meters.
    pub rth_altitude: i32,
    /// What to do when the remote controller is lost: 0 hover, 1 land,
    /// 2 return home.
    pub rc_lost_action: i32,
    /// Deprecated and optional: 0 continue the wayline when the remote
    /// controller is lost, 1 leave it and follow `rc_lost_action`.
    pub exit_wayline_when_rc_lost_deprecated: Option<i32>,
    pub cameras: Vec<Camera>,
    pub country: String,
    /// Remote identification: true normal, false abnormal.
    pub rid_state: bool,
    /// 0: continue the fly-to-point task, 1: leave it and follow
    /// `rc_lost_action`.
    pub commander_mode_lost_action: i32,
    /// 0: optimal height, 1: preset height.
    pub current_commander_flight_mode: String,
    /// Height above the takeoff point, meters.
    pub commander_flight_height: Number,
    /// Why the aircraft is in its flight mode.
    pub mode_code_reason: i32,
    /// 0: A, 1: P, 2: NAV, and so on.
    pub gear: i32,
    pub firmware_version: String,
    /// 0: no consistency upgrade needed, 1: needed.
    pub compatible_status: i32,
    /// 0: not upgrading, 1: upgrading.
    pub firmware_upgrade_status: i32,
    /// Meters per second.
    pub horizontal_speed: Number,
    /// Meters per second.
    pub vertical_speed: Number,
    pub longitude: Number,
    pub latitude: Number,
    /// Height above the Earth ellipsoid.
    pub height: Number,
    /// Altitude above the takeoff point.
    pub elevation: Number,
    /// Degrees.
    pub attitude_pitch: Number,
    /// Degrees.
    pub attitude_roll: Number,
    /// Yaw from true north, degrees.
    pub attitude_head: i32,
    pub home_longitude: Number,
    pub home_latitude: Number,
    /// Meters.
    pub home_distance: Number,
    /// In 0.1 meters per second.
    pub wind_speed: Number,
    /// 1: N, 2: NE, 3: E, 4: SE, 5: S, 6: SW, 7: W, 8: NW.
    pub wind_direction: i32,
    /// The controlling device, or A or B for a remote controller.
    pub control_source: String,
    /// Percent.
    pub low_battery_warning_threshold: i32,
    /// Percent.
    pub serious_low_battery_warning_threshold: i32,
    /// Seconds.
    pub total_flight_time: Number,
    /// Meters.
    pub total_flight_distance: Number,
    pub battery: BatteryInfo,
    pub storage: StorageInfo,
    pub position_state: PositionState,
    pub track_id: String,
    pub total_flight_sorties: u32,
    pub maintain_status: MaintainStatus,
    /// Unix time in seconds.
    pub activation_time: i64,
    /// 0: off, 1: on.
    pub night_lights_state: i32,
    /// Meters.
    pub height_limit: i32,
    /// 0: not reaching the limit, 1: approaching it.
    pub is_near_height_limit: i32,
    /// 0: not reaching the limit, 1: approaching it.
    pub is_near_area_limit: i32,
    pub obstacle_avoidance: ObstacleAvoidance,
    /// 0: intelligent altitude, 1: preset altitude.
    pub current_rth_mode: i32,
    pub psdk_ui_resource: Vec<PsdkUiResource>,
    pub psdk_widget_values: Vec<PsdkWidgetValue>,
    /// The measurement blocks of the payloads, keyed by payload identifier.
    /// In the JSON form each block is a member of the record itself.
    pub payload_specific_data: PayloadMap,
}

/// The mathematical model of a [`DroneStatus`].
pub struct DroneStatusView {
    pub payloads: Seq<PayloadView>,
    pub mode_code: i32,
    pub distance_limit_status: DistanceLimitStatus,
    pub wpmz_version: Seq<char>,
    pub rth_altitude: i32,
    pub rc_lost_action: i32,
    pub exit_wayline_when_rc_lost_deprecated: Option<i32>,
    pub cameras: Seq<CameraView>,
    pub country: Seq<char>,
    pub rid_state: bool,
    pub commander_mode_lost_action: i32,
    pub current_commander_flight_mode: Seq<char>,
    pub commander_flight_height: Number,
    pub mode_code_reason: i32,
    pub gear: i32,
    pub firmware_version: Seq<char>,
    pub compatible_status: i32,
    pub firmware_upgrade_status: i32,
    pub horizontal_speed: Number,
    pub vertical_speed: Number,
    pub longitude: Number,
    pub latitude: Number,
    pub height: Number,
    pub elevation: Number,
    pub attitude_pitch: Number,
    pub attitude_roll: Number,
    pub attitude_head: i32,
    pub home_longitude: Number,
    pub home_latitude: Number,
    pub home_distance: Number,
    pub wind_speed: Number,
    pub wind_direction: i32,
    pub control_source: Seq<char>,
    pub low_battery_warning_threshold: i32,
    pub serious_low_battery_warning_threshold: i32,
    pub total_flight_time: Number,
    pub total_flight_distance: Number,
    pub battery: BatteryInfoView,
    pub storage: StorageInfo,
    pub position_state: PositionState,
    pub track_id: Seq<char>,
    pub total_flight_sorties: u32,
    pub maintain_status: MaintainStatusView,
    pub activation_time: i64,
    pub night_lights_state: i32,
    pub height_limit: i32,
    pub is_near_height_limit: i32,
    pub is_near_area_limit: i32,
    pub obstacle_avoidance: ObstacleAvoidance,
    pub current_rth_mode: i32,
    pub psdk_ui_resource: Seq<PsdkUiResourceView>,
    pub psdk_widget_values: Seq<PsdkWidgetValueView>,
    pub payload_specific_data: Map<Seq<char>, PayloadGimbalInfoView>,
}

impl View for DroneStatus {
    type V = DroneStatusView;

    open spec fn view(&self) -> DroneStatusView {
        DroneStatusView {
            payloads: models(self.payloads@),
            mode_code: self.mode_code,
            distance_limit_status: self.distance_limit_status,
            wpmz_version: self.wpmz_version@,
            rth_altitude: self.rth_altitude,
            rc_lost_action: self.rc_lost_action,
            exit_wayline_when_rc_lost_deprecated: self.exit_wayline_when_rc_lost_deprecated,
            cameras: models(self.cameras@),
            country: self.country@,
            rid_state: self.rid_state,
            commander_mode_lost_action: self.commander_mode_lost_action,
            current_commander_flight_mode: self.current_commander_flight_mode@,
            commander_flight_height: self.commander_flight_height,
            mode_code_reason: self.mode_code_reason,
            gear: self.gear,
            firmware_version: self.firmware_version@,
            compatible_status: self.compatible_status,
            firmware_upgrade_status: self.firmware_upgrade_status,
            horizontal_speed: self.horizontal_speed,
            vertical_speed: self.vertical_speed,
            longitude: self.longitude,
            latitude: self.latitude,
            height: self.height,
            elevation: self.elevation,
            attitude_pitch: self.attitude_pitch,
            attitude_roll: self.attitude_roll,
            attitude_head: self.attitude_head,
            home_longitude: self.home_longitude,
            home_latitude: self.home_latitude,
            home_distance: self.home_distance,
            wind_speed: self.wind_speed,
            wind_direction: self.wind_direction,
            control_source: self.control_source@,
            low_battery_warning_threshold: self.low_battery_warning_threshold,
            serious_low_battery_warning_threshold: self.serious_low_battery_warning_threshold,
            total_flight_time: self.total_flight_time,
            total_flight_distance: self.total_flight_distance,
            battery: self.battery@,
            storage: self.storage,
            position_state: self.position_state,
            track_id: self.track_id@,
            total_flight_sorties: self.total_flight_sorties,
            maintain_status: self.maintain_status@,
            activation_time: self.activation_time,
            night_lights_state: self.night_lights_state,
            height_limit: self.height_limit,
            is_near_height_limit: self.is_near_height_limit,
            is_near_area_limit: self.is_near_area_limit,
            obstacle_avoidance: self.obstacle_avoidance,
            current_rth_mode: self.current_rth_mode,
            psdk_ui_resource: models(self.psdk_ui_resource@),
            psdk_widget_values: models(self.psdk_widget_values@),
            payload_specific_data: self.payload_specific_data@,
        }
    }
}

impl Clone for DroneStatus {
    fn clone(&self) -> (copy: DroneStatus)
        ensures
            copy@ == self@,
    {
        DroneStatus {
            payloads: self.payloads.duplicate(),
            mode_code: self.mode_code,
            distance_limit_status: self.distance_limit_status,
            wpmz_version: self.wpmz_version.duplicate(),
            rth_altitude: self.rth_altitude,
            rc_lost_action: self.rc_lost_action,
            exit_wayline_when_rc_lost_deprecated: self.exit_wayline_when_rc_lost_deprecated,
            cameras: self.cameras.duplicate(),
            country: self.country.duplicate(),
            rid_state: self.rid_state,
            commander_mode_lost_action: self.commander_mode_lost_action,
            current_commander_flight_mode: self.current_commander_flight_mode.duplicate(),
            commander_flight_height: self.commander_flight_height,
            mode_code_reason: self.mode_code_reason,
            gear: self.gear,
            firmware_version: self.firmware_version.duplicate(),
            compatible_status: self.compatible_status,
            firmware_upgrade_status: self.firmware_upgrade_status,
            horizontal_speed: self.horizontal_speed,
            vertical_speed: self.vertical_speed,
            longitude: self.longitude,
            latitude: self.latitude,
            height: self.height,
            elevation: self.elevation,
            attitude_pitch: self.attitude_pitch,
            attitude_roll: self.attitude_roll,
            attitude_head: self.attitude_head,
            home_longitude: self.home_longitude,
            home_latitude: self.home_latitude,
            home_distance: self.home_distance,
            wind_speed: self.wind_speed,
            wind_direction: self.wind_direction,
            control_source: self.control_source.duplicate(),
            low_battery_warning_threshold: self.low_battery_warning_threshold,
            serious_low_battery_warning_threshold: self.serious_low_battery_warning_threshold,
            total_flight_time: self.total_flight_time,
            total_flight_distance: self.total_flight_distance,
            battery: self.battery.duplicate(),
            storage: self.storage,
            position_state: self.position_state,
            track_id: self.track_id.duplicate(),
            total_flight_sorties: self.total_flight_sorties,
            maintain_status: self.maintain_status.duplicate(),
            activation_time: self.activation_time,
            night_lights_state: self.night_lights_state,
            height_limit: self.height_limit,
            is_near_height_limit: self.is_near_height_limit,
            is_near_area_limit: self.is_near_area_limit,
            obstacle_avoidance: self.obstacle_avoidance,
            current_rth_mode: self.current_rth_mode,
            psdk_ui_resource: self.psdk_ui_resource.duplicate(),
            psdk_widget_values: self.psdk_widget_values.duplicate(),
            payload_specific_data: self.payload_specific_data.clone(),
        }
    }
}

impl DroneStatusView {
    /// Whether no key of the extension map is the name of a fixed field. A
    /// decoded record is always so: a member with the name of a fixed field is
    /// read as that field.
    pub open spec fn well_formed(self) -> bool {
        forall|k: Seq<char>| #[trigger]
            self.payload_specific_data.contains_key(k) ==> !is_fixed_field(k)
    }
}

/// Whether `name` is a member of the object `json` that names no fixed field.
pub open spec fn is_extension(json: JsonView, name: Seq<char>) -> bool {
    &&& json is Object
    &&& json->Object_0.contains_key(name)
    &&& !is_fixed_field(name)
}

/// Whether every fixed field of the record can be read from `json`: the
/// document is an object, each required field is a member with the shape of
/// its type, and the optional one is missing, null or an integer.
pub open spec fn fixed_fields_decodable(json: JsonView) -> bool {
    &&& json is Object
    &&& member_as::<Vec<Payload>>(json, "payloads"@) is Some
    &&& member_as::<i32>(json, "mode_code"@) is Some
    &&& member_as::<DistanceLimitStatus>(json, "distance_limit_status"@) is Some
    &&& member_as::<String>(json, "wpmz_version"@) is Some
    &&& member_as::<i32>(json, "rth_altitude"@) is Some
    &&& member_as::<i32>(json, "rc_lost_action"@) is Some
    &&& optional_member_as::<i32>(json, "exit_wayline_when_rc_lost"@) is Some
    &&& member_as::<Vec<Camera>>(json, "cameras"@) is Some
    &&& member_as::<String>(json, "country"@) is Some
    &&& member_as::<bool>(json, "rid_state"@) is Some
    &&& member_as::<i32>(json, "commander_mode_lost_action"@) is Some
    &&& member_as::<String>(json, "current_commander_flight_mode"@) is Some
    &&& member_as::<Number>(json, "commander_flight_height"@) is Some
    &&& member_as::<i32>(json, "mode_code_reason"@) is Some
    &&& member_as::<i32>(json, "gear"@) is Some
    &&& member_as::<String>(json, "firmware_version"@) is Some
    &&& member_as::<i32>(json, "compatible_status"@) is Some
    &&& member_as::<i32>(json, "firmware_upgrade_status"@) is Some
    &&& member_as::<Number>(json, "horizontal_speed"@) is Some
    &&& member_as::<Number>(json, "vertical_speed"@) is Some
    &&& member_as::<Number>(json, "longitude"@) is Some
    &&& member_as::<Number>(json, "latitude"@) is Some
    &&& member_as::<Number>(json, "height"@) is Some
    &&& member_as::<Number>(json, "elevation"@) is Some
    &&& member_as::<Number>(json, "attitude_pitch"@) is Some
    &&& member_as::<Number>(json, "attitude_roll"@) is Some
    &&& member_as::<i32>(json, "attitude_head"@) is Some
    &&& member_as::<Number>(json, "home_longitude"@) is Some
    &&& member_as::<Number>(json, "home_latitude"@) is Some
    &&& member_as::<Number>(json, "home_distance"@) is Some
    &&& member_as::<Number>(json, "wind_speed"@) is Some
    &&& member_as::<i32>(json, "wind_direction"@) is Some
    &&& member_as::<String>(json, "control_source"@) is Some
    &&& member_as::<i32>(json, "low_battery_warning_threshold"@) is Some
    &&& member_as::<i32>(json, "serious_low_battery_warning_threshold"@) is Some
    &&& member_as::<Number>(json, "total_flight_time"@) is Some
    &&& member_as::<Number>(json, "total_flight_distance"@) is Some
    &&& member_as::<BatteryInfo>(json, "battery"@) is Some
    &&& member_as::<StorageInfo>(json, "storage"@) is Some
    &&& member_as::<PositionState>(json, "position_state"@) is Some
    &&& member_as::<String>(json, "track_id"@) is Some
    &&& member_as::<u32>(json, "total_flight_sorties"@) is Some
    &&& member_as::<MaintainStatus>(json, "maintain_status"@) is Some
    &&& member_as::<i64>(json, "activation_time"@) is Some
    &&& member_as::<i32>(json, "night_lights_state"@) is Some
    &&& member_as::<i32>(json, "height_limit"@) is Some
    &&& member_as::<i32>(json, "is_near_height_limit"@) is Some
    &&& member_as::<i32>(json, "is_near_area_limit"@) is Some
    &&& member_as::<ObstacleAvoidance>(json, "obstacle_avoidance"@) is Some
    &&& member_as::<i32>(json, "current_rth_mode"@) is Some
    &&& member_as::<Vec<PsdkUiResource>>(json, "psdk_ui_resource"@) is Some
    &&& member_as::<Vec<PsdkWidgetValue>>(json, "psdk_widget_values"@) is Some
}

/// Whether every member that names no fixed field holds a payload
/// measurement block.
pub open spec fn extensions_decodable(json: JsonView) -> bool {
    forall|k: Seq<char>| #[trigger]
        is_extension(json, k) ==> PayloadGimbalInfo::decoded(json->Object_0[k]) is Some
}

/// The extension map read from `json`: each member that names no fixed
/// field, with the measurement block that its value decodes to.
pub open spec fn decoded_extensions(json: JsonView) -> Map<Seq<char>, PayloadGimbalInfoView> {
    Map::new(
        |k: Seq<char>| is_extension(json, k),
        |k: Seq<char>| PayloadGimbalInfo::decoded(json->Object_0[k])->0,
    )
}

/// The members that an extension map is written as.
pub open spec fn encoded_extensions(extensions: Map<Seq<char>, PayloadGimbalInfoView>) -> Map<
    Seq<char>,
    JsonView,
> {
    Map::new(
        |k: Seq<char>| extensions.contains_key(k),
        |k: Seq<char>| PayloadGimbalInfo::encoded(extensions[k]),
    )
}

/// The record that a document decodes to, or the reason why it is none.
pub open spec fn decoded(json: JsonView) -> Result<DroneStatusView, DecodeError> {
    if !fixed_fields_decodable(json) {
        Err(DecodeError::FixedField)
    } else if !extensions_decodable(json) {
        Err(DecodeError::Extension)
    } else {
        Ok(
            DroneStatusView {
                payloads: member_as::<Vec<Payload>>(json, "payloads"@)->0,
                mode_code: member_as::<i32>(json, "mode_code"@)->0,
                distance_limit_status: member_as::<DistanceLimitStatus>(
                    json,
                    "distance_limit_status"@,
                )->0,
                wpmz_version: member_as::<String>(json, "wpmz_version"@)->0,
                rth_altitude: member_as::<i32>(json, "rth_altitude"@)->0,
                rc_lost_action: member_as::<i32>(json, "rc_lost_action"@)->0,
                exit_wayline_when_rc_lost_deprecated: optional_member_as::<i32>(
                    json,
                    "exit_wayline_when_rc_lost"@,
                )->0,
                cameras: member_as::<Vec<Camera>>(json, "cameras"@)->0,
                country: member_as::<String>(json, "country"@)->0,
                rid_state: member_as::<bool>(json, "rid_state"@)->0,
                commander_mode_lost_action: member_as::<i32>(
                    json,
                    "commander_mode_lost_action"@,
                )->0,
                current_commander_flight_mode: member_as::<String>(
                    json,
                    "current_commander_flight_mode"@,
                )->0,
                commander_flight_height: member_as::<Number>(json, "commander_flight_height"@)->0,
                mode_code_reason: member_as::<i32>(json, "mode_code_reason"@)->0,
                gear: member_as::<i32>(json, "gear"@)->0,
                firmware_version: member_as::<String>(json, "firmware_version"@)->0,
                compatible_status: member_as::<i32>(json, "compatible_status"@)->0,
                firmware_upgrade_status: member_as::<i32>(json, "firmware_upgrade_status"@)->0,
                horizontal_speed: member_as::<Number>(json, "horizontal_speed"@)->0,
                vertical_speed: member_as::<Number>(json, "vertical_speed"@)->0,
                longitude: member_as::<Number>(json, "longitude"@)->0,
                latitude: member_as::<Number>(json, "latitude"@)->0,
                height: member_as::<Number>(json, "height"@)->0,
                elevation: member_as::<Number>(json, "elevation"@)->0,
                attitude_pitch: member_as::<Number>(json, "attitude_pitch"@)->0,
                attitude_roll: member_as::<Number>(json, "attitude_roll"@)->0,
                attitude_head: member_as::<i32>(json, "attitude_head"@)->0,
                home_longitude: member_as::<Number>(json, "home_longitude"@)->0,
                home_latitude: member_as::<Number>(json, "home_latitude"@)->0,
                home_distance: member_as::<Number>(json, "home_distance"@)->0,
                wind_speed: member_as::<Number>(json, "wind_speed"@)->0,
                wind_direction: member_as::<i32>(json, "wind_direction"@)->0,
                control_source: member_as::<String>(json, "control_source"@)->0,
                low_battery_warning_threshold: member_as::<i32>(
                    json,
                    "low_battery_warning_threshold"@,
                )->0,
                serious_low_battery_warning_threshold: member_as::<i32>(
                    json,
                    "serious_low_battery_warning_threshold"@,
                )->0,
                total_flight_time: member_as::<Number>(json, "total_flight_time"@)->0,
                total_flight_distance: member_as::<Number>(json, "total_flight_distance"@)->0,
                battery: member_as::<BatteryInfo>(json, "battery"@)->0,
                storage: member_as::<StorageInfo>(json, "storage"@)->0,
                position_state: member_as::<PositionState>(json, "position_state"@)->0,
                track_id: member_as::<String>(json, "track_id"@)->0,
                total_flight_sorties: member_as::<u32>(json, "total_flight_sorties"@)->0,
                maintain_status: member_as::<MaintainStatus>(json, "maintain_status"@)->0,
                activation_time: member_as::<i64>(json, "activation_time"@)->0,
                night_lights_state: member_as::<i32>(json, "night_lights_state"@)->0,
                height_limit: member_as::<i32>(json, "height_limit"@)->0,
                is_near_height_limit: member_as::<i32>(json, "is_near_height_limit"@)->0,
                is_near_area_limit: member_as::<i32>(json, "is_near_area_limit"@)->0,
                obstacle_avoidance: member_as::<ObstacleAvoidance>(json, "obstacle_avoidance"@)->0,
                current_rth_mode: member_as::<i32>(json, "current_rth_mode"@)->0,
                psdk_ui_resource: member_as::<Vec<PsdkUiResource>>(json, "psdk_ui_resource"@)->0,
                psdk_widget_values: member_as::<Vec<PsdkWidgetValue>>(
                    json,
                    "psdk_widget_values"@,
                )->0,
                payload_specific_data: decoded_extensions(json),
            },
        )
    }
}

/// The document that a record encodes to: an object with one member for
/// each fixed field and, beside them, one for each key of the extension map.
pub open spec fn encoded(value: DroneStatusView) -> JsonView {
    JsonView::Object(
        encoded_extensions(value.payload_specific_data)
            .insert("payloads"@, <Vec<Payload> as Wire>::encoded(value.payloads))
            .insert("mode_code"@, <i32 as Wire>::encoded(value.mode_code))
            .insert(
                "distance_limit_status"@,
                <DistanceLimitStatus as Wire>::encoded(value.distance_limit_status),
            )
            .insert("wpmz_version"@, <String as Wire>::encoded(value.wpmz_version))
            .insert("rth_altitude"@, <i32 as Wire>::encoded(value.rth_altitude))
            .insert("rc_lost_action"@, <i32 as Wire>::encoded(value.rc_lost_action))
            .insert(
                "exit_wayline_when_rc_lost"@,
                encoded_optional::<i32>(value.exit_wayline_when_rc_lost_deprecated),
            )
            .insert("cameras"@, <Vec<Camera> as Wire>::encoded(value.cameras))
            .insert("country"@, <String as Wire>::encoded(value.country))
            .insert("rid_state"@, <bool as Wire>::encoded(value.rid_state))
            .insert(
                "commander_mode_lost_action"@,
                <i32 as Wire>::encoded(value.commander_mode_lost_action),
            )
            .insert(
                "current_commander_flight_mode"@,
                <String as Wire>::encoded(value.current_commander_flight_mode),
            )
            .insert(
                "commander_flight_height"@,
                <Number as Wire>::encoded(value.commander_flight_height),
            )
            .insert("mode_code_reason"@, <i32 as Wire>::encoded(value.mode_code_reason))
            .insert("gear"@, <i32 as Wire>::encoded(value.gear))
            .insert("firmware_version"@, <String as Wire>::encoded(value.firmware_version))
            .insert("compatible_status"@, <i32 as Wire>::encoded(value.compatible_status))
            .insert(
                "firmware_upgrade_status"@,
                <i32 as Wire>::encoded(value.firmware_upgrade_status),
            )
            .insert("horizontal_speed"@, <Number as Wire>::encoded(value.horizontal_speed))
            .insert("vertical_speed"@, <Number as Wire>::encoded(value.vertical_speed))
            .insert("longitude"@, <Number as Wire>::encoded(value.longitude))
            .insert("latitude"@, <Number as Wire>::encoded(value.latitude))
            .insert("height"@, <Number as Wire>::encoded(value.height))
            .insert("elevation"@, <Number as Wire>::encoded(value.elevation))
            .insert("attitude_pitch"@, <Number as Wire>::encoded(value.attitude_pitch))
            .insert("attitude_roll"@, <Number as Wire>::encoded(value.attitude_roll))
            .insert("attitude_head"@, <i32 as Wire>::encoded(value.attitude_head))
            .insert("home_longitude"@, <Number as Wire>::encoded(value.home_longitude))
            .insert("home_latitude"@, <Number as Wire>::encoded(value.home_latitude))
            .insert("home_distance"@, <Number as Wire>::encoded(value.home_distance))
            .insert("wind_speed"@, <Number as Wire>::encoded(value.wind_speed))
            .insert("wind_direction"@, <i32 as Wire>::encoded(value.wind_direction))
            .insert("control_source"@, <String as Wire>::encoded(value.control_source))
            .insert(
                "low_battery_warning_threshold"@,
                <i32 as Wire>::encoded(value.low_battery_warning_threshold),
            )
            .insert(
                "serious_low_battery_warning_threshold"@,
                <i32 as Wire>::encoded(value.serious_low_battery_warning_threshold),
            )
            .insert("total_flight_time"@, <Number as Wire>::encoded(value.total_flight_time))
            .insert(
                "total_flight_distance"@,
                <Number as Wire>::encoded(value.total_flight_distance),
            )
            .insert("battery"@, <BatteryInfo as Wire>::encoded(value.battery))
            .insert("storage"@, <StorageInfo as Wire>::encoded(value.storage))
            .insert("position_state"@, <PositionState as Wire>::encoded(value.position_state))
            .insert("track_id"@, <String as Wire>::encoded(value.track_id))
            .insert("total_flight_sorties"@, <u32 as Wire>::encoded(value.total_flight_sorties))
            .insert("maintain_status"@, <MaintainStatus as Wire>::encoded(value.maintain_status))
            .insert("activation_time"@, <i64 as Wire>::encoded(value.activation_time))
            .insert("night_lights_state"@, <i32 as Wire>::encoded(value.night_lights_state))
            .insert("height_limit"@, <i32 as Wire>::encoded(value.height_limit))
            .insert("is_near_height_limit"@, <i32 as Wire>::encoded(value.is_near_height_limit))
            .insert("is_near_area_limit"@, <i32 as Wire>::encoded(value.is_near_area_limit))
            .insert(
                "obstacle_avoidance"@,
                <ObstacleAvoidance as Wire>::encoded(value.obstacle_avoidance),
            )
            .insert("current_rth_mode"@, <i32 as Wire>::encoded(value.current_rth_mode))
            .insert(
                "psdk_ui_resource"@,
                <Vec<PsdkUiResource> as Wire>::encoded(value.psdk_ui_resource),
            )
            .insert(
                "psdk_widget_values"@,
                <Vec<PsdkWidgetValue> as Wire>::encoded(value.psdk_widget_values),
            ),
    )
}

/// Whether a document is an object.
fn is_object(json: &Json) -> (object: bool)
    ensures
        object == (json@ is Object),
{
    match json {
        Json::Object(_) => true,
        _ => false,
    }
}

/// Decodes a required fixed field.
fn required<T: Wire>(json: &Json, name: &str) -> (value: Result<T, DecodeError>)
    ensures
        match value {
            Ok(v) => member_as::<T>(json@, name@) == Some(v.model()),
            Err(e) => e == DecodeError::FixedField && member_as::<T>(json@, name@) is None,
        },
{
    match read_member::<T>(json, name) {
        Some(v) => Ok(v),
        None => Err(DecodeError::FixedField),
    }
}

/// Decodes the optional fixed field.
fn optional<T: Wire>(json: &Json, name: &str) -> (value: Result<Option<T>, DecodeError>)
    ensures
        match value {
            Ok(Some(v)) => optional_member_as::<T>(json@, name@) == Some(Some(v.model())),
            Ok(None) => optional_member_as::<T>(json@, name@) == Some(None::<T::Model>),
            Err(e) => e == DecodeError::FixedField && optional_member_as::<T>(json@, name@) is None,
        },
{
    match read_optional_member::<T>(json, name) {
        Some(v) => Ok(v),
        None => Err(DecodeError::FixedField),
    }
}

/// Reads the extension map: every member that names no fixed field.
fn read_extensions(json: &Json) -> (extensions: Result<PayloadMap, DecodeError>)
    ensures
        match extensions {
            Ok(map) => extensions_decodable(json@) && map@ == decoded_extensions(json@),
            Err(e) => e == DecodeError::Extension && !extensions_decodable(json@),
        },
{
    let mut map = PayloadMap::new();
    let members = match json {
        Json::Object(members) => members,
        _ => {
            assert(map@ =~= decoded_extensions(json@));
            return Ok(map);
        },
    };
    proof {
        crate::json::lemma_object_view(*members);
    }
    let ghost object = members_view(members@);
    let mut i: usize = 0;
    while i < members.len()
        invariant
            i <= members.len(),
            json@ == JsonView::Object(object),
            object == members_view(members@),
            forall|k: Seq<char>| #[trigger]
                map@.contains_key(k) <==> is_extension(json@, k) && exists|j: int|
                    0 <= j < i && members@[j].key@ == k,
            forall|k: Seq<char>| #[trigger]
                map@.contains_key(k) ==> PayloadGimbalInfo::decoded(object[k]) == Some(map@[k]),
        decreases members.len() - i,
    {
        let name = members[i].key.as_str();
        if !is_fixed_field_name(name) {
            assert(object.contains_key(name@));
            // Of several members with one name the last one counts.
            let inner = match member(json, name) {
                Some(inner) => inner,
                None => {
                    assert(false);
                    return Err(DecodeError::Extension);
                },
            };
            match PayloadGimbalInfo::from_json(inner) {
                Some(info) => {
                    map.insert(name.to_owned(), info);
                },
                None => {
                    assert(is_extension(json@, name@));
                    return Err(DecodeError::Extension);
                },
            }
        }
        proof {
            let done = i + 1;
            assert forall|k: Seq<char>| #[trigger]
                map@.contains_key(k) <==> is_extension(json@, k) && exists|j: int|
                    0 <= j < done && members@[j].key@ == k by {
                if is_extension(json@, k) && exists|j: int|
                    0 <= j < done && members@[j].key@ == k {
                    let j = choose|j: int| 0 <= j < done && members@[j].key@ == k;
                    if j < i {
                        assert(is_extension(json@, k) && exists|j: int|
                            0 <= j < i && members@[j].key@ == k);
                    }
                }
            }
        }
        i += 1;
    }
    proof {
        assert forall|k: Seq<char>| is_extension(json@, k) implies map@.contains_key(k) by {
            let j = choose|j: int| 0 <= j < members@.len() && members@[j].key@ == k;
            assert(0 <= j < i && members@[j].key@ == k);
        }
        assert(map@ =~= decoded_extensions(json@));
    }
    Ok(map)
}

/// Writes the extension map: one member for each of its keys.
fn write_extensions(extensions: &PayloadMap) -> (members: Vec<Member>)
    ensures
        members_view(members@) == encoded_extensions(extensions@),
{
    let entries = extensions.entries();
    let mut members = start_object();
    let mut i: usize = 0;
    assert(members_view(members@) =~= encoded_extensions(entries_view(entries@.take(0))));
    while i < entries.len()
        invariant
            i <= entries.len(),
            distinct_keys(entries@),
            members_view(members@) == encoded_extensions(entries_view(entries@.take(i as int))),
        decreases entries.len() - i,
    {
        let entry = &entries[i];
        proof {
            let before = entries@.take(i as int);
            assert(distinct_keys(before));
            assert(!entries_view(before).contains_key(entry.key@)) by {
                if entries_view(before).contains_key(entry.key@) {
                    let j = choose|j: int| 0 <= j < before.len() && before[j].key@ == entry.key@;
                    assert(entries@[j].key@ != entries@[i as int].key@);
                }
            }
            lemma_entries_view_push(before, *entry);
            assert(before.push(*entry) =~= entries@.take(i + 1));
            assert(encoded_extensions(entries_view(before).insert(entry.key@, entry.info@))
                =~= encoded_extensions(entries_view(before)).insert(
                entry.key@,
                PayloadGimbalInfo::encoded(entry.info@),
            ));
        }
        put_field(&mut members, entry.key.as_str(), &entry.info);
        i += 1;
    }
    assert(entries@.take(i as int) =~= entries@);
    members
}

impl DroneStatus {
    /// Decodes a record. The result is the one that [`decoded`] gives for the
    /// document: success is owed exactly where every fixed field and every
    /// extension can be read.
    pub fn from_json(json: &Json) -> (record: Result<DroneStatus, DecodeError>)
        ensures
            match record {
                Ok(r) => decoded(json@) == Ok::<DroneStatusView, DecodeError>(r@),
                Err(e) => decoded(json@) == Err::<DroneStatusView, DecodeError>(e),
            },
    {
        if !is_object(json) {
            return Err(DecodeError::FixedField);
        }
        let payloads = required::<Vec<Payload>>(json, "payloads")?;
        let mode_code = required::<i32>(json, "mode_code")?;
        let distance_limit_status = required::<DistanceLimitStatus>(json, "distance_limit_status")?;
        let wpmz_version = required::<String>(json, "wpmz_version")?;
        let rth_altitude = required::<i32>(json, "rth_altitude")?;
        let rc_lost_action = required::<i32>(json, "rc_lost_action")?;
        let exit_wayline_when_rc_lost_deprecated = optional::<i32>(
            json,
            "exit_wayline_when_rc_lost",
        )?;
        let cameras = required::<Vec<Camera>>(json, "cameras")?;
        let country = required::<String>(json, "country")?;
        let rid_state = required::<bool>(json, "rid_state")?;
        let commander_mode_lost_action = required::<i32>(json, "commander_mode_lost_action")?;
        let current_commander_flight_mode = required::<String>(
            json,
            "current_commander_flight_mode",
        )?;
        let commander_flight_height = required::<Number>(json, "commander_flight_height")?;
        let mode_code_reason = required::<i32>(json, "mode_code_reason")?;
        let gear = required::<i32>(json, "gear")?;
        let firmware_version = required::<String>(json, "firmware_version")?;
        let compatible_status = required::<i32>(json, "compatible_status")?;
        let firmware_upgrade_status = required::<i32>(json, "firmware_upgrade_status")?;
        let horizontal_speed = required::<Number>(json, "horizontal_speed")?;
        let vertical_speed = required::<Number>(json, "vertical_speed")?;
        let longitude = required::<Number>(json, "longitude")?;
        let latitude = required::<Number>(json, "latitude")?;
        let height = required::<Number>(json, "height")?;
        let elevation = required::<Number>(json, "elevation")?;
        let attitude_pitch = required::<Number>(json, "attitude_pitch")?;
        let attitude_roll = required::<Number>(json, "attitude_roll")?;
        let attitude_head = required::<i32>(json, "attitude_head")?;
        let home_longitude = required::<Number>(json, "home_longitude")?;
        let home_latitude = required::<Number>(json, "home_latitude")?;
        let home_distance = required::<Number>(json, "home_distance")?;
        let wind_speed = required::<Number>(json, "wind_speed")?;
        let wind_direction = required::<i32>(json, "wind_direction")?;
        let control_source = required::<String>(json, "control_source")?;
        let low_battery_warning_threshold = required::<i32>(json, "low_battery_warning_threshold")?;
        let serious_low_battery_warning_threshold = required::<i32>(
            json,
            "serious_low_battery_warning_threshold",
        )?;
        let total_flight_time = required::<Number>(json, "total_flight_time")?;
        let total_flight_distance = required::<Number>(json, "total_flight_distance")?;
        let battery = required::<BatteryInfo>(json, "battery")?;
        let storage = required::<StorageInfo>(json, "storage")?;
        let position_state = required::<PositionState>(json, "position_state")?;
        let track_id = required::<String>(json, "track_id")?;
        let total_flight_sorties = required::<u32>(json, "total_flight_sorties")?;
        let maintain_status = required::<MaintainStatus>(json, "maintain_status")?;
        let activation_time = required::<i64>(json, "activation_time")?;
        let night_lights_state = required::<i32>(json, "night_lights_state")?;
        let height_limit = required::<i32>(json, "height_limit")?;
        let is_near_height_limit = required::<i32>(json, "is_near_height_limit")?;
        let is_near_area_limit = required::<i32>(json, "is_near_area_limit")?;
        let obstacle_avoidance = required::<ObstacleAvoidance>(json, "obstacle_avoidance")?;
        let current_rth_mode = required::<i32>(json, "current_rth_mode")?;
        let psdk_ui_resource = required::<Vec<PsdkUiResource>>(json, "psdk_ui_resource")?;
        let psdk_widget_values = required::<Vec<PsdkWidgetValue>>(json, "psdk_widget_values")?;
        let payload_specific_data = read_extensions(json)?;
        Ok(
            DroneStatus {
                payloads,
                mode_code,
                distance_limit_status,
                wpmz_version,
                rth_altitude,
                rc_lost_action,
                exit_wayline_when_rc_lost_deprecated,
                cameras,
                country,
                rid_state,
                commander_mode_lost_action,
                current_commander_flight_mode,
                commander_flight_height,
                mode_code_reason,
                gear,
                firmware_version,
                compatible_status,
                firmware_upgrade_status,
                horizontal_speed,
                vertical_speed,
                longitude,
                latitude,
                height,
                elevation,
                attitude_pitch,
                attitude_roll,
                attitude_head,
                home_longitude,
                home_latitude,
                home_distance,
                wind_speed,
                wind_direction,
                control_source,
                low_battery_warning_threshold,
                serious_low_battery_warning_threshold,
                total_flight_time,
                total_flight_distance,
                battery,
                storage,
                position_state,
                track_id,
                total_flight_sorties,
                maintain_status,
                activation_time,
                night_lights_state,
                height_limit,
                is_near_height_limit,
                is_near_area_limit,
                obstacle_avoidance,
                current_rth_mode,
                psdk_ui_resource,
                psdk_widget_values,
                payload_specific_data,
            },
        )
    }

    /// Encodes a record. Where a key of the extension map is the name of a
    /// fixed field, the member of that name holds the fixed field.
    pub fn to_json(&self) -> (json: Json)
        ensures
            json@ == encoded(self@),
    {
        let mut members = write_extensions(&self.payload_specific_data);
        put_field(&mut members, "payloads", &self.payloads);
        put_field(&mut members, "mode_code", &self.mode_code);
        put_field(&mut members, "distance_limit_status", &self.distance_limit_status);
        put_field(&mut members, "wpmz_version", &self.wpmz_version);
        put_field(&mut members, "rth_altitude", &self.rth_altitude);
        put_field(&mut members, "rc_lost_action", &self.rc_lost_action);
        put_optional_field(
            &mut members,
            "exit_wayline_when_rc_lost",
            &self.exit_wayline_when_rc_lost_deprecated,
        );
        put_field(&mut members, "cameras", &self.cameras);
        put_field(&mut members, "country", &self.country);
        put_field(&mut members, "rid_state", &self.rid_state);
        put_field(&mut members, "commander_mode_lost_action", &self.commander_mode_lost_action);
        put_field(
            &mut members,
            "current_commander_flight_mode",
            &self.current_commander_flight_mode,
        );
        put_field(&mut members, "commander_flight_height", &self.commander_flight_height);
        put_field(&mut members, "mode_code_reason", &self.mode_code_reason);
        put_field(&mut members, "gear", &self.gear);
        put_field(&mut members, "firmware_version", &self.firmware_version);
        put_field(&mut members, "compatible_status", &self.compatible_status);
        put_field(&mut members, "firmware_upgrade_status", &self.firmware_upgrade_status);
        put_field(&mut members, "horizontal_speed", &self.horizontal_speed);
        put_field(&mut members, "vertical_speed", &self.vertical_speed);
        put_field(&mut members, "longitude", &self.longitude);
        put_field(&mut members, "latitude", &self.latitude);
        put_field(&mut members, "height", &self.height);
        put_field(&mut members, "elevation", &self.elevation);
        put_field(&mut members, "attitude_pitch", &self.attitude_pitch);
        put_field(&mut members, "attitude_roll", &self.attitude_roll);
        put_field(&mut members, "attitude_head", &self.attitude_head);
        put_field(&mut members, "home_longitude", &self.home_longitude);
        put_field(&mut members, "home_latitude", &self.home_latitude);
        put_field(&mut members, "home_distance", &self.home_distance);
        put_field(&mut members, "wind_speed", &self.wind_speed);
        put_field(&mut members, "wind_direction", &self.wind_direction);
        put_field(&mut members, "control_source", &self.control_source);
        put_field(
            &mut members,
            "low_battery_warning_threshold",
            &self.low_battery_warning_threshold,
        );
        put_field(
            &mut members,
            "serious_low_battery_warning_threshold",
            &self.serious_low_battery_warning_threshold,
        );
        put_field(&mut members, "total_flight_time", &self.total_flight_time);
        put_field(&mut members, "total_flight_distance", &self.total_flight_distance);
        put_field(&mut members, "battery", &self.battery);
        put_field(&mut members, "storage", &self.storage);
        put_field(&mut members, "position_state", &self.position_state);
        put_field(&mut members, "track_id", &self.track_id);
        put_field(&mut members, "total_flight_sorties", &self.total_flight_sorties);
        put_field(&mut members, "maintain_status", &self.maintain_status);
        put_field(&mut members, "activation_time", &self.activation_time);
        put_field(&mut members, "night_lights_state", &self.night_lights_state);
        put_field(&mut members, "height_limit", &self.height_limit);
        put_field(&mut members, "is_near_height_limit", &self.is_near_height_limit);
        put_field(&mut members, "is_near_area_limit", &self.is_near_area_limit);
        put_field(&mut members, "obstacle_avoidance", &self.obstacle_avoidance);
        put_field(&mut members, "current_rth_mode", &self.current_rth_mode);
        put_field(&mut members, "psdk_ui_resource", &self.psdk_ui_resource);
        put_field(&mut members, "psdk_widget_values", &self.psdk_widget_values);
        finish_object(members)
    }
}

/// What a record encodes to holds each fixed field under its name.
proof fn lemma_encoded_fixed_fields(value: DroneStatusView)
    ensures
        member_of(encoded(value), "payloads"@) == Some(
            <Vec<Payload> as Wire>::encoded(value.payloads),
        ),
        member_of(encoded(value), "mode_code"@) == Some(<i32 as Wire>::encoded(value.mode_code)),
        member_of(encoded(value), "distance_limit_status"@) == Some(
            <DistanceLimitStatus as Wire>::encoded(value.distance_limit_status),
        ),
        member_of(encoded(value), "wpmz_version"@) == Some(
            <String as Wire>::encoded(value.wpmz_version),
        ),
        member_of(encoded(value), "rth_altitude"@) == Some(
            <i32 as Wire>::encoded(value.rth_altitude),
        ),
        member_of(encoded(value), "rc_lost_action"@) == Some(
            <i32 as Wire>::encoded(value.rc_lost_action),
        ),
        member_of(encoded(value), "exit_wayline_when_rc_lost"@) == Some(
            encoded_optional::<i32>(value.exit_wayline_when_rc_lost_deprecated),
        ),
        member_of(encoded(value), "cameras"@) == Some(
            <Vec<Camera> as Wire>::encoded(value.cameras),
        ),
        member_of(encoded(value), "country"@) == Some(<String as Wire>::encoded(value.country)),
        member_of(encoded(value), "rid_state"@) == Some(<bool as Wire>::encoded(value.rid_state)),
        member_of(encoded(value), "commander_mode_lost_action"@) == Some(
            <i32 as Wire>::encoded(value.commander_mode_lost_action),
        ),
        member_of(encoded(value), "current_commander_flight_mode"@) == Some(
            <String as Wire>::encoded(value.current_commander_flight_mode),
        ),
        member_of(encoded(value), "commander_flight_height"@) == Some(
            <Number as Wire>::encoded(value.commander_flight_height),
        ),
        member_of(encoded(value), "mode_code_reason"@) == Some(
            <i32 as Wire>::encoded(value.mode_code_reason),
        ),
        member_of(encoded(value), "gear"@) == Some(<i32 as Wire>::encoded(value.gear)),
        member_of(encoded(value), "firmware_version"@) == Some(
            <String as Wire>::encoded(value.firmware_version),
        ),
        member_of(encoded(value), "compatible_status"@) == Some(
            <i32 as Wire>::encoded(value.compatible_status),
        ),
        member_of(encoded(value), "firmware_upgrade_status"@) == Some(
            <i32 as Wire>::encoded(value.firmware_upgrade_status),
        ),
        member_of(encoded(value), "horizontal_speed"@) == Some(
            <Number as Wire>::encoded(value.horizontal_speed),
        ),
        member_of(encoded(value), "vertical_speed"@) == Some(
            <Number as Wire>::encoded(value.vertical_speed),
        ),
        member_of(encoded(value), "longitude"@) == Some(<Number as Wire>::encoded(value.longitude)),
        member_of(encoded(value), "latitude"@) == Some(<Number as Wire>::encoded(value.latitude)),
        member_of(encoded(value), "height"@) == Some(<Number as Wire>::encoded(value.height)),
        member_of(encoded(value), "elevation"@) == Some(<Number as Wire>::encoded(value.elevation)),
        member_of(encoded(value), "attitude_pitch"@) == Some(
            <Number as Wire>::encoded(value.attitude_pitch),
        ),
        member_of(encoded(value), "attitude_roll"@) == Some(
            <Number as Wire>::encoded(value.attitude_roll),
        ),
        member_of(encoded(value), "attitude_head"@) == Some(
            <i32 as Wire>::encoded(value.attitude_head),
        ),
        member_of(encoded(value), "home_longitude"@) == Some(
            <Number as Wire>::encoded(value.home_longitude),
        ),
        member_of(encoded(value), "home_latitude"@) == Some(
            <Number as Wire>::encoded(value.home_latitude),
        ),
        member_of(encoded(value), "home_distance"@) == Some(
            <Number as Wire>::encoded(value.home_distance),
        ),
        member_of(encoded(value), "wind_speed"@) == Some(
            <Number as Wire>::encoded(value.wind_speed),
        ),
        member_of(encoded(value), "wind_direction"@) == Some(
            <i32 as Wire>::encoded(value.wind_direction),
        ),
        member_of(encoded(value), "control_source"@) == Some(
            <String as Wire>::encoded(value.control_source),
        ),
        member_of(encoded(value), "low_battery_warning_threshold"@) == Some(
            <i32 as Wire>::encoded(value.low_battery_warning_threshold),
        ),
        member_of(encoded(value), "serious_low_battery_warning_threshold"@) == Some(
            <i32 as Wire>::encoded(value.serious_low_battery_warning_threshold),
        ),
        member_of(encoded(value), "total_flight_time"@) == Some(
            <Number as Wire>::encoded(value.total_flight_time),
        ),
        member_of(encoded(value), "total_flight_distance"@) == Some(
            <Number as Wire>::encoded(value.total_flight_distance),
        ),
        member_of(encoded(value), "battery"@) == Some(
            <BatteryInfo as Wire>::encoded(value.battery),
        ),
        member_of(encoded(value), "storage"@) == Some(
            <StorageInfo as Wire>::encoded(value.storage),
        ),
        member_of(encoded(value), "position_state"@) == Some(
            <PositionState as Wire>::encoded(value.position_state),
        ),
        member_of(encoded(value), "track_id"@) == Some(<String as Wire>::encoded(value.track_id)),
        member_of(encoded(value), "total_flight_sorties"@) == Some(
            <u32 as Wire>::encoded(value.total_flight_sorties),
        ),
        member_of(encoded(value), "maintain_status"@) == Some(
            <MaintainStatus as Wire>::encoded(value.maintain_status),
        ),
        member_of(encoded(value), "activation_time"@) == Some(
            <i64 as Wire>::encoded(value.activation_time),
        ),
        member_of(encoded(value), "night_lights_state"@) == Some(
            <i32 as Wire>::encoded(value.night_lights_state),
        ),
        member_of(encoded(value), "height_limit"@) == Some(
            <i32 as Wire>::encoded(value.height_limit),
        ),
        member_of(encoded(value), "is_near_height_limit"@) == Some(
            <i32 as Wire>::encoded(value.is_near_height_limit),
        ),
        member_of(encoded(value), "is_near_area_limit"@) == Some(
            <i32 as Wire>::encoded(value.is_near_area_limit),
        ),
        member_of(encoded(value), "obstacle_avoidance"@) == Some(
            <ObstacleAvoidance as Wire>::encoded(value.obstacle_avoidance),
        ),
        member_of(encoded(value), "current_rth_mode"@) == Some(
            <i32 as Wire>::encoded(value.current_rth_mode),
        ),
        member_of(encoded(value), "psdk_ui_resource"@) == Some(
            <Vec<PsdkUiResource> as Wire>::encoded(value.psdk_ui_resource),
        ),
        member_of(encoded(value), "psdk_widget_values"@) == Some(
            <Vec<PsdkWidgetValue> as Wire>::encoded(value.psdk_widget_values),
        ),
{
    reveal_strlit("payloads");
    reveal_strlit("mode_code");
    reveal_strlit("distance_limit_status");
    reveal_strlit("wpmz_version");
    reveal_strlit("rth_altitude");
    reveal_strlit("rc_lost_action");
    reveal_strlit("exit_wayline_when_rc_lost");
    reveal_strlit("cameras");
    reveal_strlit("country");
    reveal_strlit("rid_state");
    reveal_strlit("commander_mode_lost_action");
    reveal_strlit("current_commander_flight_mode");
    reveal_strlit("commander_flight_height");
    reveal_strlit("mode_code_reason");
    reveal_strlit("gear");
    reveal_strlit("firmware_version");
    reveal_strlit("compatible_status");
    reveal_strlit("firmware_upgrade_status");
    reveal_strlit("horizontal_speed");
    reveal_strlit("vertical_speed");
    reveal_strlit("longitude");
    reveal_strlit("latitude");
    reveal_strlit("height");
    reveal_strlit("elevation");
    reveal_strlit("attitude_pitch");
    reveal_strlit("attitude_roll");
    reveal_strlit("attitude_head");
    reveal_strlit("home_longitude");
    reveal_strlit("home_latitude");
    reveal_strlit("home_distance");
    reveal_strlit("wind_speed");
    reveal_strlit("wind_direction");
    reveal_strlit("control_source");
    reveal_strlit("low_battery_warning_threshold");
    reveal_strlit("serious_low_battery_warning_threshold");
    reveal_strlit("total_flight_time");
    reveal_strlit("total_flight_distance");
    reveal_strlit("battery");
    reveal_strlit("storage");
    reveal_strlit("position_state");
    reveal_strlit("track_id");
    reveal_strlit("total_flight_sorties");
    reveal_strlit("maintain_status");
    reveal_strlit("activation_time");
    reveal_strlit("night_lights_state");
    reveal_strlit("height_limit");
    reveal_strlit("is_near_height_limit");
    reveal_strlit("is_near_area_limit");
    reveal_strlit("obstacle_avoidance");
    reveal_strlit("current_rth_mode");
    reveal_strlit("psdk_ui_resource");
    reveal_strlit("psdk_widget_values");
    assert("payloads"@.len() == 8 && "payloads"@[0] == 'p');
    assert("mode_code"@.len() == 9 && "mode_code"@[0] == 'm');
    assert("distance_limit_status"@.len() == 21 && "distance_limit_status"@[0] == 'd');
    assert("wpmz_version"@.len() == 12 && "wpmz_version"@[0] == 'w');
    assert("rth_altitude"@.len() == 12 && "rth_altitude"@[0] == 'r');
    assert("rc_lost_action"@.len() == 14 && "rc_lost_action"@[0] == 'r');
    assert("exit_wayline_when_rc_lost"@.len() == 25);
    assert("cameras"@.len() == 7 && "cameras"@[2] == 'm');
    assert("country"@.len() == 7 && "country"@[2] == 'u');
    assert("rid_state"@.len() == 9 && "rid_state"@[0] == 'r');
    assert("commander_mode_lost_action"@.len() == 26);
    assert("current_commander_flight_mode"@.len() == 29
        && "current_commander_flight_mode"@[0] == 'c');
    assert("commander_flight_height"@.len() == 23 && "commander_flight_height"@[0] == 'c');
    assert("mode_code_reason"@.len() == 16 && "mode_code_reason"@[0] == 'm');
    assert("gear"@.len() == 4);
    assert("firmware_version"@.len() == 16 && "firmware_version"@[0] == 'f');
    assert("compatible_status"@.len() == 17 && "compatible_status"@[0] == 'c');
    assert("firmware_upgrade_status"@.len() == 23 && "firmware_upgrade_status"@[0] == 'f');
    assert("horizontal_speed"@.len() == 16 && "horizontal_speed"@[0] == 'h');
    assert("vertical_speed"@.len() == 14 && "vertical_speed"@[0] == 'v');
    assert("longitude"@.len() == 9 && "longitude"@[0] == 'l');
    assert("latitude"@.len() == 8 && "latitude"@[0] == 'l');
    assert("height"@.len() == 6);
    assert("elevation"@.len() == 9 && "elevation"@[0] == 'e');
    assert("attitude_pitch"@.len() == 14 && "attitude_pitch"@[0] == 'a');
    assert("attitude_roll"@.len() == 13 && "attitude_roll"@[9] == 'r');
    assert("attitude_head"@.len() == 13 && "attitude_head"@[9] == 'h');
    assert("home_longitude"@.len() == 14 && "home_longitude"@[0] == 'h');
    assert("home_latitude"@.len() == 13 && "home_latitude"@[9] == 't');
    assert("home_distance"@.len() == 13 && "home_distance"@[9] == 'a');
    assert("wind_speed"@.len() == 10);
    assert("wind_direction"@.len() == 14 && "wind_direction"@[0] == 'w');
    assert("control_source"@.len() == 14 && "control_source"@[0] == 'c');
    assert("low_battery_warning_threshold"@.len() == 29
        && "low_battery_warning_threshold"@[0] == 'l');
    assert("serious_low_battery_warning_threshold"@.len() == 37);
    assert("total_flight_time"@.len() == 17 && "total_flight_time"@[0] == 't');
    assert("total_flight_distance"@.len() == 21 && "total_flight_distance"@[0] == 't');
    assert("battery"@.len() == 7 && "battery"@[2] == 't');
    assert("storage"@.len() == 7 && "storage"@[2] == 'o');
    assert("position_state"@.len() == 14 && "position_state"@[0] == 'p');
    assert("track_id"@.len() == 8 && "track_id"@[0] == 't');
    assert("total_flight_sorties"@.len() == 20 && "total_flight_sorties"@[0] == 't');
    assert("maintain_status"@.len() == 15 && "maintain_status"@[0] == 'm');
    assert("activation_time"@.len() == 15 && "activation_time"@[0] == 'a');
    assert("night_lights_state"@.len() == 18 && "night_lights_state"@[0] == 'n');
    assert("height_limit"@.len() == 12 && "height_limit"@[0] == 'h');
    assert("is_near_height_limit"@.len() == 20 && "is_near_height_limit"@[0] == 'i');
    assert("is_near_area_limit"@.len() == 18 && "is_near_area_limit"@[0] == 'i');
    assert("obstacle_avoidance"@.len() == 18 && "obstacle_avoidance"@[0] == 'o');
    assert("current_rth_mode"@.len() == 16 && "current_rth_mode"@[0] == 'c');
    assert("psdk_ui_resource"@.len() == 16 && "psdk_ui_resource"@[0] == 'p');
    assert("psdk_widget_values"@.len() == 18 && "psdk_widget_values"@[0] == 'p');
}

/// What a record encodes to holds, beside the fixed fields, exactly the keys
/// of the extension map, each with its block.
proof fn lemma_encoded_extensions(value: DroneStatusView, key: Seq<char>)
    requires
        !is_fixed_field(key),
    ensures
        encoded(value)->Object_0.contains_key(key) == value.payload_specific_data.contains_key(key),
        value.payload_specific_data.contains_key(key) ==> encoded(value)->Object_0[key]
            == PayloadGimbalInfo::encoded(value.payload_specific_data[key]),
{
}

/// Every name of a fixed field is a member of what a record encodes to.
proof fn lemma_encoded_has_fixed_fields(value: DroneStatusView, key: Seq<char>)
    requires
        is_fixed_field(key),
    ensures
        encoded(value)->Object_0.contains_key(key),
{
}

/// Decoding what a record encodes to gives the record back, the fixed fields
/// and the extension map alike, provided that no key of the extension map is
/// the name of a fixed field.
pub proof fn round_trip(value: DroneStatusView)
    requires
        value.well_formed(),
    ensures
        decoded(encoded(value)) == Ok::<DroneStatusView, DecodeError>(value),
{
    let json = encoded(value);
    lemma_encoded_fixed_fields(value);
    <Vec<Payload> as Wire>::round_trip(value.payloads);
    <i32 as Wire>::round_trip(value.mode_code);
    <DistanceLimitStatus as Wire>::round_trip(value.distance_limit_status);
    <String as Wire>::round_trip(value.wpmz_version);
    <i32 as Wire>::round_trip(value.rth_altitude);
    <i32 as Wire>::round_trip(value.rc_lost_action);
    assert(optional_member_as::<i32>(json, "exit_wayline_when_rc_lost"@) == Some(
        value.exit_wayline_when_rc_lost_deprecated,
    ));
    <Vec<Camera> as Wire>::round_trip(value.cameras);
    <String as Wire>::round_trip(value.country);
    <bool as Wire>::round_trip(value.rid_state);
    <i32 as Wire>::round_trip(value.commander_mode_lost_action);
    <String as Wire>::round_trip(value.current_commander_flight_mode);
    <Number as Wire>::round_trip(value.commander_flight_height);
    <i32 as Wire>::round_trip(value.mode_code_reason);
    <i32 as Wire>::round_trip(value.gear);
    <String as Wire>::round_trip(value.firmware_version);
    <i32 as Wire>::round_trip(value.compatible_status);
    <i32 as Wire>::round_trip(value.firmware_upgrade_status);
    <Number as Wire>::round_trip(value.horizontal_speed);
    <Number as Wire>::round_trip(value.vertical_speed);
    <Number as Wire>::round_trip(value.longitude);
    <Number as Wire>::round_trip(value.latitude);
    <Number as Wire>::round_trip(value.height);
    <Number as Wire>::round_trip(value.elevation);
    <Number as Wire>::round_trip(value.attitude_pitch);
    <Number as Wire>::round_trip(value.attitude_roll);
    <i32 as Wire>::round_trip(value.attitude_head);
    <Number as Wire>::round_trip(value.home_longitude);
    <Number as Wire>::round_trip(value.home_latitude);
    <Number as Wire>::round_trip(value.home_distance);
    <Number as Wire>::round_trip(value.wind_speed);
    <i32 as Wire>::round_trip(value.wind_direction);
    <String as Wire>::round_trip(value.control_source);
    <i32 as Wire>::round_trip(value.low_battery_warning_threshold);
    <i32 as Wire>::round_trip(value.serious_low_battery_warning_threshold);
    <Number as Wire>::round_trip(value.total_flight_time);
    <Number as Wire>::round_trip(value.total_flight_distance);
    <BatteryInfo as Wire>::round_trip(value.battery);
    <StorageInfo as Wire>::round_trip(value.storage);
    <PositionState as Wire>::round_trip(value.position_state);
    <String as Wire>::round_trip(value.track_id);
    <u32 as Wire>::round_trip(value.total_flight_sorties);
    <MaintainStatus as Wire>::round_trip(value.maintain_status);
    <i64 as Wire>::round_trip(value.activation_time);
    <i32 as Wire>::round_trip(value.night_lights_state);
    <i32 as Wire>::round_trip(value.height_limit);
    <i32 as Wire>::round_trip(value.is_near_height_limit);
    <i32 as Wire>::round_trip(value.is_near_area_limit);
    <ObstacleAvoidance as Wire>::round_trip(value.obstacle_avoidance);
    <i32 as Wire>::round_trip(value.current_rth_mode);
    <Vec<PsdkUiResource> as Wire>::round_trip(value.psdk_ui_resource);
    <Vec<PsdkWidgetValue> as Wire>::round_trip(value.psdk_widget_values);
    assert(fixed_fields_decodable(json));
    assert forall|k: Seq<char>| is_extension(json, k) implies PayloadGimbalInfo::decoded(
        json->Object_0[k],
    ) == Some(value.payload_specific_data[k]) by {
        lemma_encoded_extensions(value, k);
        PayloadGimbalInfo::round_trip(value.payload_specific_data[k]);
    }
    assert forall|k: Seq<char>| is_extension(json, k) <==> value.payload_specific_data.contains_key(
        k,
    ) by {
        if is_fixed_field(k) {
            lemma_encoded_has_fixed_fields(value, k);
        } else {
            lemma_encoded_extensions(value, k);
        }
    }
    assert(decoded_extensions(json) =~= value.payload_specific_data);
}

/// A decoded record keeps no fixed field's name in its extension map.
pub proof fn decoded_is_well_formed(json: JsonView)
    ensures
        decoded(json) matches Ok(record) ==> record.well_formed(),
{
}

/// A record that was decoded from a document survives encoding and decoding
/// unchanged.
pub proof fn decode_encode_decode(json: JsonView)
    ensures
        decoded(json) matches Ok(record) ==> decoded(encoded(record)) == decoded(json),
{
    if let Ok(record) = decoded(json) {
        decoded_is_well_formed(json);
        round_trip(record);
    }
}

/// A member that names no fixed field is captured: where the document
/// decodes, the extension map holds the member's name with the block that its
/// value decodes to.
pub proof fn extension_is_captured(json: JsonView, key: Seq<char>)
    requires
        is_extension(json, key),
    ensures
        decoded(json) matches Ok(record) ==> record.payload_specific_data.contains_key(key)
            && PayloadGimbalInfo::decoded(json->Object_0[key]) == Some(
            record.payload_specific_data[key],
        ),
{
}

/// A member that names no fixed field and holds a measurement block causes
/// no failure: a document that decodes without the member decodes with it.
pub proof fn extension_is_harmless(json: JsonView, key: Seq<char>)
    requires
        is_extension(json, key),
        PayloadGimbalInfo::decoded(json->Object_0[key]) is Some,
    ensures
        decoded(JsonView::Object(json->Object_0.remove(key))) is Ok ==> decoded(json) is Ok,
{
    let rest = JsonView::Object(json->Object_0.remove(key));
    if decoded(rest) is Ok {
        assert forall|name: Seq<char>| is_fixed_field(name) implies member_of(json, name)
            == member_of(rest, name) by {}
        assert(fixed_fields_decodable(json));
        assert forall|k: Seq<char>| is_extension(json, k) implies PayloadGimbalInfo::decoded(
            json->Object_0[k],
        ) is Some by {
            if k != key {
                assert(is_extension(rest, k));
            }
        }
    }
}

/// Whether `name` is the name of a fixed field that a document must hold.
pub open spec fn is_required_field(name: Seq<char>) -> bool {
    is_fixed_field(name) && name != "exit_wayline_when_rc_lost"@
}

/// A document that is no object, or lacks a required field, is rejected for
/// its fixed fields.
pub proof fn incomplete_is_rejected(json: JsonView, name: Seq<char>)
    requires
        is_required_field(name),
        json is Object ==> !json->Object_0.contains_key(name),
    ensures
        decoded(json) == Err::<DroneStatusView, DecodeError>(DecodeError::FixedField),
{
}

} // verus!
