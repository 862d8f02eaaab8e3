//! Small records of the flight state: limits, storage, positioning, obstacle sensing.

use crate::json::object::{field_as, finish_object, put_field, read_field, start_object};
use crate::json::wire::Wire;
use crate::json::{Json, JsonView};
use vstd::prelude::*;

verus! {

/// The distance limit set for the aircraft.
#[derive(Clone, Copy, Debug, PartialEq)]
pub struct DistanceLimitStatus {
    /// 0: not set, 1: set.
    pub state: i32,
    /// Limit in meters, 15 to 8000.
    pub distance_limit: i32,
    /// 0: not reaching the limit, 1: approaching it.
    pub is_near_distance_limit: i32,
}

/// Written as an object with one member for each field; read from such an
/// object, in which other members are passed over, or from an array of the
/// fields in their order.
impl Wire for DistanceLimitStatus {
    type Model = DistanceLimitStatus;

    open spec fn model(&self) -> DistanceLimitStatus {
        *self
    }

    open spec fn decoded(json: JsonView) -> Option<DistanceLimitStatus> {
        let state = field_as::<i32>(json, "state"@, 0, 3);
        let distance_limit = field_as::<i32>(json, "distance_limit"@, 1, 3);
        let is_near_distance_limit = field_as::<i32>(json, "is_near_distance_limit"@, 2, 3);
        if state is Some && distance_limit is Some && is_near_distance_limit is Some {
            Some(
                DistanceLimitStatus {
                    state: state->0,
                    distance_limit: distance_limit->0,
                    is_near_distance_limit: is_near_distance_limit->0,
                },
            )
        } else {
            None
        }
    }

    open spec fn encoded(value: DistanceLimitStatus) -> JsonView {
        JsonView::Object(
            Map::empty()
                .insert("state"@, <i32 as Wire>::encoded(value.state))
                .insert("distance_limit"@, <i32 as Wire>::encoded(value.distance_limit))
                .insert(
                    "is_near_distance_limit"@,
                    <i32 as Wire>::encoded(value.is_near_distance_limit),
                ),
        )
    }

    fn from_json(json: &Json) -> (value: Option<DistanceLimitStatus>) {
        let state = read_field::<i32>(json, "state", 0, 3)?;
        let distance_limit = read_field::<i32>(json, "distance_limit", 1, 3)?;
        let is_near_distance_limit = read_field::<i32>(json, "is_near_distance_limit", 2, 3)?;
        Some(
            DistanceLimitStatus {
                state,
                distance_limit,
                is_near_distance_limit,
            },
        )
    }

    fn to_json(&self) -> (json: Json) {
        let mut members = start_object();
        put_field(&mut members, "state", &self.state);
        put_field(&mut members, "distance_limit", &self.distance_limit);
        put_field(&mut members, "is_near_distance_limit", &self.is_near_distance_limit);
        finish_object(members)
    }

    fn duplicate(&self) -> (copy: DistanceLimitStatus) {
        *self
    }

    proof fn round_trip(value: DistanceLimitStatus) {
        reveal_strlit("state");
        reveal_strlit("distance_limit");
        reveal_strlit("is_near_distance_limit");
        assert("state"@.len() == 5);
        assert("distance_limit"@.len() == 14);
        assert("is_near_distance_limit"@.len() == 22);
        <i32 as Wire>::round_trip(value.state);
        <i32 as Wire>::round_trip(value.distance_limit);
        <i32 as Wire>::round_trip(value.is_near_distance_limit);
    }
}

/// Storage of the aircraft, in kilobytes.
#[derive(Clone, Copy, Debug, PartialEq)]
pub struct StorageInfo {
    pub total: i64,
    pub used: i64,
}

/// Written as an object with one member for each field; read from such an
/// object, in which other members are passed over, or from an array of the
/// fields in their order.
impl Wire for StorageInfo {
    type Model = StorageInfo;

    open spec fn model(&self) -> StorageInfo {
        *self
    }

    open spec fn decoded(json: JsonView) -> Option<StorageInfo> {
        let total = field_as::<i64>(json, "total"@, 0, 2);
        let used = field_as::<i64>(json, "used"@, 1, 2);
        if total is Some && used is Some {
            Some(
                StorageInfo {
                    total: total->0,
                    used: used->0,
                },
            )
        } else {
            None
        }
    }

    open spec fn encoded(value: StorageInfo) -> JsonView {
        JsonView::Object(
            Map::empty()
                .insert("total"@, <i64 as Wire>::encoded(value.total))
                .insert("used"@, <i64 as Wire>::encoded(value.used)),
        )
    }

    fn from_json(json: &Json) -> (value: Option<StorageInfo>) {
        let total = read_field::<i64>(json, "total", 0, 2)?;
        let used = read_field::<i64>(json, "used", 1, 2)?;
        Some(
            StorageInfo {
                total,
                used,
            },
        )
    }

    fn to_json(&self) -> (json: Json) {
        let mut members = start_object();
        put_field(&mut members, "total", &self.total);
        put_field(&mut members, "used", &self.used);
        finish_object(members)
    }

    fn duplicate(&self) -> (copy: StorageInfo) {
        *self
    }

    proof fn round_trip(value: StorageInfo) {
        reveal_strlit("total");
        reveal_strlit("used");
        assert("total"@.len() == 5);
        assert("used"@.len() == 4);
        <i64 as Wire>::round_trip(value.total);
        <i64 as Wire>::round_trip(value.used);
    }
}

/// Quality of the satellite positioning fix.
#[derive(Clone, Copy, Debug, PartialEq)]
pub struct PositionState {
    /// 0: not started, 1: fixing, 2: fixed, 3: failed.
    pub is_fixed: i32,
    /// 1 to 5: GPS quality; 10: RTK fixed.
    pub quality: i32,
    /// Number of GPS satellites.
    pub gps_number: i32,
    /// Number of RTK satellites.
    pub rtk_number: i32,
}

/// Written as an object with one member for each field; read from such an
/// object, in which other members are passed over, or from an array of the
/// fields in their order.
impl Wire for PositionState {
    type Model = PositionState;

    open spec fn model(&self) -> PositionState {
        *self
    }

    open spec fn decoded(json: JsonView) -> Option<PositionState> {
        let is_fixed = field_as::<i32>(json, "is_fixed"@, 0, 4);
        let quality = field_as::<i32>(json, "quality"@, 1, 4);
        let gps_number = field_as::<i32>(json, "gps_number"@, 2, 4);
        let rtk_number = field_as::<i32>(json, "rtk_number"@, 3, 4);
        if is_fixed is Some && quality is Some && gps_number is Some && rtk_number is Some {
            Some(
                PositionState {
                    is_fixed: is_fixed->0,
                    quality: quality->0,
                    gps_number: gps_number->0,
                    rtk_number: rtk_number->0,
                },
            )
        } else {
            None
        }
    }

    open spec fn encoded(value: PositionState) -> JsonView {
        JsonView::Object(
            Map::empty()
                .insert("is_fixed"@, <i32 as Wire>::encoded(value.is_fixed))
                .insert("quality"@, <i32 as Wire>::encoded(value.quality))
                .insert("gps_number"@, <i32 as Wire>::encoded(value.gps_number))
                .insert("rtk_number"@, <i32 as Wire>::encoded(value.rtk_number)),
        )
    }

    fn from_json(json: &Json) -> (value: Option<PositionState>) {
        let is_fixed = read_field::<i32>(json, "is_fixed", 0, 4)?;
        let quality = read_field::<i32>(json, "quality", 1, 4)?;
        let gps_number = read_field::<i32>(json, "gps_number", 2, 4)?;
        let rtk_number = read_field::<i32>(json, "rtk_number", 3, 4)?;
        Some(
            PositionState {
                is_fixed,
                quality,
                gps_number,
                rtk_number,
            },
        )
    }

    fn to_json(&self) -> (json: Json) {
        let mut members = start_object();
        put_field(&mut members, "is_fixed", &self.is_fixed);
        put_field(&mut members, "quality", &self.quality);
        put_field(&mut members, "gps_number", &self.gps_number);
        put_field(&mut members, "rtk_number", &self.rtk_number);
        finish_object(members)
    }

    fn duplicate(&self) -> (copy: PositionState) {
        *self
    }

    proof fn round_trip(value: PositionState) {
        reveal_strlit("is_fixed");
        reveal_strlit("quality");
        reveal_strlit("gps_number");
        reveal_strlit("rtk_number");
        assert("is_fixed"@.len() == 8);
        assert("quality"@.len() == 7);
        assert("gps_number"@.len() == 10 && "gps_number"@[0] == 'g');
        assert("rtk_number"@.len() == 10 && "rtk_number"@[0] == 'r');
        <i32 as Wire>::round_trip(value.is_fixed);
        <i32 as Wire>::round_trip(value.quality);
        <i32 as Wire>::round_trip(value.gps_number);
        <i32 as Wire>::round_trip(value.rtk_number);
    }
}

/// Obstacle sensing, per direction: 0 disabled, 1 enabled.
#[derive(Clone, Copy, Debug, PartialEq)]
pub struct ObstacleAvoidance {
    pub horizon: i32,
    pub upside: i32,
    pub downside: i32,
}

/// Written as an object with one member for each field; read from such an
/// object, in which other members are passed over, or from an array of the
/// fields in their order.
impl Wire for ObstacleAvoidance {
    type Model = ObstacleAvoidance;

    open spec fn model(&self) -> ObstacleAvoidance {
        *self
    }

    open spec fn decoded(json: JsonView) -> Option<ObstacleAvoidance> {
        let horizon = field_as::<i32>(json, "horizon"@, 0, 3);
        let upside = field_as::<i32>(json, "upside"@, 1, 3);
        let downside = field_as::<i32>(json, "downside"@, 2, 3);
        if horizon is Some && upside is Some && downside is Some {
            Some(
                ObstacleAvoidance {
                    horizon: horizon->0,
                    upside: upside->0,
                    downside: downside->0,
                },
            )
        } else {
            None
        }
    }

    open spec fn encoded(value: ObstacleAvoidance) -> JsonView {
        JsonView::Object(
            Map::empty()
                .insert("horizon"@, <i32 as Wire>::encoded(value.horizon))
                .insert("upside"@, <i32 as Wire>::encoded(value.upside))
                .insert("downside"@, <i32 as Wire>::encoded(value.downside)),
        )
    }

    fn from_json(json: &Json) -> (value: Option<ObstacleAvoidance>) {
        let horizon = read_field::<i32>(json, "horizon", 0, 3)?;
        let upside = read_field::<i32>(json, "upside", 1, 3)?;
        let downside = read_field::<i32>(json, "downside", 2, 3)?;
        Some(
            ObstacleAvoidance {
                horizon,
                upside,
                downside,
            },
        )
    }

    fn to_json(&self) -> (json: Json) {
        let mut members = start_object();
        put_field(&mut members, "horizon", &self.horizon);
        put_field(&mut members, "upside", &self.upside);
        put_field(&mut members, "downside", &self.downside);
        finish_object(members)
    }

    fn duplicate(&self) -> (copy: ObstacleAvoidance) {
        *self
    }

    proof fn round_trip(value: ObstacleAvoidance) {
        reveal_strlit("horizon");
        reveal_strlit("upside");
        reveal_strlit("downside");
        assert("horizon"@.len() == 7);
        assert("upside"@.len() == 6);
        assert("downside"@.len() == 8);
        <i32 as Wire>::round_trip(value.horizon);
        <i32 as Wire>::round_trip(value.upside);
        <i32 as Wire>::round_trip(value.downside);
    }
}

} // verus!
