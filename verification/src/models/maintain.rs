//! The maintenance history.

use crate::json::object::{field_as, finish_object, put_field, read_field, start_object};
use crate::json::wire::{models, Wire};
use crate::json::{Json, JsonView};
use vstd::prelude::*;

verus! {

/// One entry of the maintenance history.
#[derive(Clone, Copy, Debug, PartialEq)]
pub struct MaintainStatusDetail {
    /// 0: no maintenance, 1: maintained.
    pub state: i32,
    /// 1: basic, 2: regular, 3: deep.
    pub last_maintain_type: i32,
    /// Unix time in seconds.
    pub last_maintain_time: i64,
    /// Flight hours at the last maintenance.
    pub last_maintain_flight_time: i32,
    /// Sorties flown at the last maintenance.
    pub last_maintain_flight_sorties: u32,
}

/// Written as an object with one member for each field; read from such an
/// object, in which other members are passed over, or from an array of the
/// fields in their order.
impl Wire for MaintainStatusDetail {
    type Model = MaintainStatusDetail;

    open spec fn model(&self) -> MaintainStatusDetail {
        *self
    }

    open spec fn decoded(json: JsonView) -> Option<MaintainStatusDetail> {
        let state = field_as::<i32>(json, "state"@, 0, 5);
        let last_maintain_type = field_as::<i32>(json, "last_maintain_type"@, 1, 5);
        let last_maintain_time = field_as::<i64>(json, "last_maintain_time"@, 2, 5);
        let last_maintain_flight_time = field_as::<i32>(json, "last_maintain_flight_time"@, 3, 5);
        let last_maintain_flight_sorties = field_as::<u32>(
            json,
            "last_maintain_flight_sorties"@,
            4,
            5,
        );
        if state is Some && last_maintain_type is Some && last_maintain_time is Some
            && last_maintain_flight_time is Some && last_maintain_flight_sorties is Some {
            Some(
                MaintainStatusDetail {
                    state: state->0,
                    last_maintain_type: last_maintain_type->0,
                    last_maintain_time: last_maintain_time->0,
                    last_maintain_flight_time: last_maintain_flight_time->0,
                    last_maintain_flight_sorties: last_maintain_flight_sorties->0,
                },
            )
        } else {
            None
        }
    }

    open spec fn encoded(value: MaintainStatusDetail) -> JsonView {
        JsonView::Object(
            Map::empty()
                .insert("state"@, <i32 as Wire>::encoded(value.state))
                .insert("last_maintain_type"@, <i32 as Wire>::encoded(value.last_maintain_type))
                .insert("last_maintain_time"@, <i64 as Wire>::encoded(value.last_maintain_time))
                .insert(
                    "last_maintain_flight_time"@,
                    <i32 as Wire>::encoded(value.last_maintain_flight_time),
                )
                .insert(
                    "last_maintain_flight_sorties"@,
                    <u32 as Wire>::encoded(value.last_maintain_flight_sorties),
                ),
        )
    }

    fn from_json(json: &Json) -> (value: Option<MaintainStatusDetail>) {
        let state = read_field::<i32>(json, "state", 0, 5)?;
        let last_maintain_type = read_field::<i32>(json, "last_maintain_type", 1, 5)?;
        let last_maintain_time = read_field::<i64>(json, "last_maintain_time", 2, 5)?;
        let last_maintain_flight_time = read_field::<i32>(json, "last_maintain_flight_time", 3, 5)?;
        let last_maintain_flight_sorties = read_field::<u32>(
            json,
            "last_maintain_flight_sorties",
            4,
            5,
        )?;
        Some(
            MaintainStatusDetail {
                state,
                last_maintain_type,
                last_maintain_time,
                last_maintain_flight_time,
                last_maintain_flight_sorties,
            },
        )
    }

    fn to_json(&self) -> (json: Json) {
        let mut members = start_object();
        put_field(&mut members, "state", &self.state);
        put_field(&mut members, "last_maintain_type", &self.last_maintain_type);
        put_field(&mut members, "last_maintain_time", &self.last_maintain_time);
        put_field(&mut members, "last_maintain_flight_time", &self.last_maintain_flight_time);
        put_field(&mut members, "last_maintain_flight_sorties", &self.last_maintain_flight_sorties);
        finish_object(members)
    }

    fn duplicate(&self) -> (copy: MaintainStatusDetail) {
        *self
    }

    proof fn round_trip(value: MaintainStatusDetail) {
        reveal_strlit("state");
        reveal_strlit("last_maintain_type");
        reveal_strlit("last_maintain_time");
        reveal_strlit("last_maintain_flight_time");
        reveal_strlit("last_maintain_flight_sorties");
        assert("state"@.len() == 5);
        assert("last_maintain_type"@.len() == 18 && "last_maintain_type"@[15] == 'y');
        assert("last_maintain_time"@.len() == 18 && "last_maintain_time"@[15] == 'i');
        assert("last_maintain_flight_time"@.len() == 25);
        assert("last_maintain_flight_sorties"@.len() == 28);
        <i32 as Wire>::round_trip(value.state);
        <i32 as Wire>::round_trip(value.last_maintain_type);
        <i64 as Wire>::round_trip(value.last_maintain_time);
        <i32 as Wire>::round_trip(value.last_maintain_flight_time);
        <u32 as Wire>::round_trip(value.last_maintain_flight_sorties);
    }
}

/// The maintenance history of the aircraft.
#[derive(Debug, PartialEq)]
pub struct MaintainStatus {
    pub maintain_status_array: Vec<MaintainStatusDetail>,
}

/// The mathematical model of a [`MaintainStatus`].
pub struct MaintainStatusView {
    pub maintain_status_array: Seq<MaintainStatusDetail>,
}

impl View for MaintainStatus {
    type V = MaintainStatusView;

    open spec fn view(&self) -> MaintainStatusView {
        MaintainStatusView {
            maintain_status_array: models(self.maintain_status_array@),
        }
    }
}

impl Clone for MaintainStatus {
    fn clone(&self) -> (copy: MaintainStatus)
        ensures
            copy@ == self@,
    {
        self.duplicate()
    }
}

/// Written as an object with one member for each field; read from such an
/// object, in which other members are passed over, or from an array of the
/// fields in their order.
impl Wire for MaintainStatus {
    type Model = MaintainStatusView;

    open spec fn model(&self) -> MaintainStatusView {
        self@
    }

    open spec fn decoded(json: JsonView) -> Option<MaintainStatusView> {
        let maintain_status_array = field_as::<Vec<MaintainStatusDetail>>(
            json,
            "maintain_status_array"@,
            0,
            1,
        );
        if maintain_status_array is Some {
            Some(
                MaintainStatusView {
                    maintain_status_array: maintain_status_array->0,
                },
            )
        } else {
            None
        }
    }

    open spec fn encoded(value: MaintainStatusView) -> JsonView {
        JsonView::Object(
            Map::empty()
                .insert(
                    "maintain_status_array"@,
                    <Vec<MaintainStatusDetail> as Wire>::encoded(value.maintain_status_array),
                ),
        )
    }

    fn from_json(json: &Json) -> (value: Option<MaintainStatus>) {
        let maintain_status_array = read_field::<Vec<MaintainStatusDetail>>(
            json,
            "maintain_status_array",
            0,
            1,
        )?;
        Some(
            MaintainStatus {
                maintain_status_array,
            },
        )
    }

    fn to_json(&self) -> (json: Json) {
        let mut members = start_object();
        put_field(&mut members, "maintain_status_array", &self.maintain_status_array);
        finish_object(members)
    }

    fn duplicate(&self) -> (copy: MaintainStatus) {
        MaintainStatus {
            maintain_status_array: self.maintain_status_array.duplicate(),
        }
    }

    proof fn round_trip(value: MaintainStatusView) {
        reveal_strlit("maintain_status_array");
        assert("maintain_status_array"@.len() == 21);
        <Vec<MaintainStatusDetail> as Wire>::round_trip(value.maintain_status_array);
    }
}

} // verus!
