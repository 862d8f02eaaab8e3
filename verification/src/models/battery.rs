//! The battery state.

use crate::json::object::{field_as, finish_object, put_field, read_field, start_object};
use crate::json::wire::{models, Wire};
use crate::json::{Json, JsonView, Number};
use vstd::prelude::*;

verus! {

/// One battery pack.
#[derive(Debug, PartialEq)]
pub struct BatteryDetail {
    /// Percent, 0 to 100.
    pub capacity_percent: i32,
    pub index: i32,
    /// Serial number.
    pub sn: String,
    /// Battery type; the codes depend on the device.
    pub type_info: i32,
    pub sub_type: i32,
    pub firmware_version: String,
    /// Charge cycles.
    pub loop_times: i32,
    /// Millivolts.
    pub voltage: i32,
    /// Celsius.
    pub temperature: Number,
    /// Days stored at high voltage.
    pub high_voltage_storage_days: i32,
}

/// The mathematical model of a [`BatteryDetail`].
pub struct BatteryDetailView {
    pub capacity_percent: i32,
    pub index: i32,
    pub sn: Seq<char>,
    pub type_info: i32,
    pub sub_type: i32,
    pub firmware_version: Seq<char>,
    pub loop_times: i32,
    pub voltage: i32,
    pub temperature: Number,
    pub high_voltage_storage_days: i32,
}

impl View for BatteryDetail {
    type V = BatteryDetailView;

    open spec fn view(&self) -> BatteryDetailView {
        BatteryDetailView {
            capacity_percent: self.capacity_percent,
            index: self.index,
            sn: self.sn@,
            type_info: self.type_info,
            sub_type: self.sub_type,
            firmware_version: self.firmware_version@,
            loop_times: self.loop_times,
            voltage: self.voltage,
            temperature: self.temperature,
            high_voltage_storage_days: self.high_voltage_storage_days,
        }
    }
}

impl Clone for BatteryDetail {
    fn clone(&self) -> (copy: BatteryDetail)
        ensures
            copy@ == self@,
    {
        self.duplicate()
    }
}

/// Written as an object with one member for each field; read from such an
/// object, in which other members are passed over, or from an array of the
/// fields in their order.
impl Wire for BatteryDetail {
    type Model = BatteryDetailView;

    open spec fn model(&self) -> BatteryDetailView {
        self@
    }

    open spec fn decoded(json: JsonView) -> Option<BatteryDetailView> {
        let capacity_percent = field_as::<i32>(json, "capacity_percent"@, 0, 10);
        let index = field_as::<i32>(json, "index"@, 1, 10);
        let sn = field_as::<String>(json, "sn"@, 2, 10);
        let type_info = field_as::<i32>(json, "type"@, 3, 10);
        let sub_type = field_as::<i32>(json, "sub_type"@, 4, 10);
        let firmware_version = field_as::<String>(json, "firmware_version"@, 5, 10);
        let loop_times = field_as::<i32>(json, "loop_times"@, 6, 10);
        let voltage = field_as::<i32>(json, "voltage"@, 7, 10);
        let temperature = field_as::<Number>(json, "temperature"@, 8, 10);
        let high_voltage_storage_days = field_as::<i32>(json, "high_voltage_storage_days"@, 9, 10);
        if capacity_percent is Some && index is Some && sn is Some && type_info is Some
            && sub_type is Some && firmware_version is Some && loop_times is Some
            && voltage is Some && temperature is Some && high_voltage_storage_days is Some {
            Some(
                BatteryDetailView {
                    capacity_percent: capacity_percent->0,
                    index: index->0,
                    sn: sn->0,
                    type_info: type_info->0,
                    sub_type: sub_type->0,
                    firmware_version: firmware_version->0,
                    loop_times: loop_times->0,
                    voltage: voltage->0,
                    temperature: temperature->0,
                    high_voltage_storage_days: high_voltage_storage_days->0,
                },
            )
        } else {
            None
        }
    }

    open spec fn encoded(value: BatteryDetailView) -> JsonView {
        JsonView::Object(
            Map::empty()
                .insert("capacity_percent"@, <i32 as Wire>::encoded(value.capacity_percent))
                .insert("index"@, <i32 as Wire>::encoded(value.index))
                .insert("sn"@, <String as Wire>::encoded(value.sn))
                .insert("type"@, <i32 as Wire>::encoded(value.type_info))
                .insert("sub_type"@, <i32 as Wire>::encoded(value.sub_type))
                .insert("firmware_version"@, <String as Wire>::encoded(value.firmware_version))
                .insert("loop_times"@, <i32 as Wire>::encoded(value.loop_times))
                .insert("voltage"@, <i32 as Wire>::encoded(value.voltage))
                .insert("temperature"@, <Number as Wire>::encoded(value.temperature))
                .insert(
                    "high_voltage_storage_days"@,
                    <i32 as Wire>::encoded(value.high_voltage_storage_days),
                ),
        )
    }

    fn from_json(json: &Json) -> (value: Option<BatteryDetail>) {
        let capacity_percent = read_field::<i32>(json, "capacity_percent", 0, 10)?;
        let index = read_field::<i32>(json, "index", 1, 10)?;
        let sn = read_field::<String>(json, "sn", 2, 10)?;
        let type_info = read_field::<i32>(json, "type", 3, 10)?;
        let sub_type = read_field::<i32>(json, "sub_type", 4, 10)?;
        let firmware_version = read_field::<String>(json, "firmware_version", 5, 10)?;
        let loop_times = read_field::<i32>(json, "loop_times", 6, 10)?;
        let voltage = read_field::<i32>(json, "voltage", 7, 10)?;
        let temperature = read_field::<Number>(json, "temperature", 8, 10)?;
        let high_voltage_storage_days = read_field::<i32>(
            json,
            "high_voltage_storage_days",
            9,
            10,
        )?;
        Some(
            BatteryDetail {
                capacity_percent,
                index,
                sn,
                type_info,
                sub_type,
                firmware_version,
                loop_times,
                voltage,
                temperature,
                high_voltage_storage_days,
            },
        )
    }

    fn to_json(&self) -> (json: Json) {
        let mut members = start_object();
        put_field(&mut members, "capacity_percent", &self.capacity_percent);
        put_field(&mut members, "index", &self.index);
        put_field(&mut members, "sn", &self.sn);
        put_field(&mut members, "type", &self.type_info);
        put_field(&mut members, "sub_type", &self.sub_type);
        put_field(&mut members, "firmware_version", &self.firmware_version);
        put_field(&mut members, "loop_times", &self.loop_times);
        put_field(&mut members, "voltage", &self.voltage);
        put_field(&mut members, "temperature", &self.temperature);
        put_field(&mut members, "high_voltage_storage_days", &self.high_voltage_storage_days);
        finish_object(members)
    }

    fn duplicate(&self) -> (copy: BatteryDetail) {
        BatteryDetail {
            capacity_percent: self.capacity_percent,
            index: self.index,
            sn: self.sn.duplicate(),
            type_info: self.type_info,
            sub_type: self.sub_type,
            firmware_version: self.firmware_version.duplicate(),
            loop_times: self.loop_times,
            voltage: self.voltage,
            temperature: self.temperature,
            high_voltage_storage_days: self.high_voltage_storage_days,
        }
    }

    proof fn round_trip(value: BatteryDetailView) {
        reveal_strlit("capacity_percent");
        reveal_strlit("index");
        reveal_strlit("sn");
        reveal_strlit("type");
        reveal_strlit("sub_type");
        reveal_strlit("firmware_version");
        reveal_strlit("loop_times");
        reveal_strlit("voltage");
        reveal_strlit("temperature");
        reveal_strlit("high_voltage_storage_days");
        assert("capacity_percent"@.len() == 16 && "capacity_percent"@[0] == 'c');
        assert("index"@.len() == 5);
        assert("sn"@.len() == 2);
        assert("type"@.len() == 4);
        assert("sub_type"@.len() == 8);
        assert("firmware_version"@.len() == 16 && "firmware_version"@[0] == 'f');
        assert("loop_times"@.len() == 10);
        assert("voltage"@.len() == 7);
        assert("temperature"@.len() == 11);
        assert("high_voltage_storage_days"@.len() == 25);
        <i32 as Wire>::round_trip(value.capacity_percent);
        <i32 as Wire>::round_trip(value.index);
        <String as Wire>::round_trip(value.sn);
        <i32 as Wire>::round_trip(value.type_info);
        <i32 as Wire>::round_trip(value.sub_type);
        <String as Wire>::round_trip(value.firmware_version);
        <i32 as Wire>::round_trip(value.loop_times);
        <i32 as Wire>::round_trip(value.voltage);
        <Number as Wire>::round_trip(value.temperature);
        <i32 as Wire>::round_trip(value.high_voltage_storage_days);
    }
}

/// The battery state of the aircraft.
#[derive(Debug, PartialEq)]
pub struct BatteryInfo {
    /// Percent, 0 to 100.
    pub capacity_percent: i32,
    /// Seconds.
    pub remain_flight_time: i32,
    /// Percent needed to return home, 0 to 100.
    pub return_home_power: i32,
    /// Percent at which landing is forced, 0 to 100.
    pub landing_power: i32,
    pub batteries: Vec<BatteryDetail>,
}

/// The mathematical model of a [`BatteryInfo`].
pub struct BatteryInfoView {
    pub capacity_percent: i32,
    pub remain_flight_time: i32,
    pub return_home_power: i32,
    pub landing_power: i32,
    pub batteries: Seq<BatteryDetailView>,
}

impl View for BatteryInfo {
    type V = BatteryInfoView;

    open spec fn view(&self) -> BatteryInfoView {
        BatteryInfoView {
            capacity_percent: self.capacity_percent,
            remain_flight_time: self.remain_flight_time,
            return_home_power: self.return_home_power,
            landing_power: self.landing_power,
            batteries: models(self.batteries@),
        }
    }
}

impl Clone for BatteryInfo {
    fn clone(&self) -> (copy: BatteryInfo)
        ensures
            copy@ == self@,
    {
        self.duplicate()
    }
}

/// Written as an object with one member for each field; read from such an
/// object, in which other members are passed over, or from an array of the
/// fields in their order.
impl Wire for BatteryInfo {
    type Model = BatteryInfoView;

    open spec fn model(&self) -> BatteryInfoView {
        self@
    }

    open spec fn decoded(json: JsonView) -> Option<BatteryInfoView> {
        let capacity_percent = field_as::<i32>(json, "capacity_percent"@, 0, 5);
        let remain_flight_time = field_as::<i32>(json, "remain_flight_time"@, 1, 5);
        let return_home_power = field_as::<i32>(json, "return_home_power"@, 2, 5);
        let landing_power = field_as::<i32>(json, "landing_power"@, 3, 5);
        let batteries = field_as::<Vec<BatteryDetail>>(json, "batteries"@, 4, 5);
        if capacity_percent is Some && remain_flight_time is Some && return_home_power is Some
            && landing_power is Some && batteries is Some {
            Some(
                BatteryInfoView {
                    capacity_percent: capacity_percent->0,
                    remain_flight_time: remain_flight_time->0,
                    return_home_power: return_home_power->0,
                    landing_power: landing_power->0,
                    batteries: batteries->0,
                },
            )
        } else {
            None
        }
    }

    open spec fn encoded(value: BatteryInfoView) -> JsonView {
        JsonView::Object(
            Map::empty()
                .insert("capacity_percent"@, <i32 as Wire>::encoded(value.capacity_percent))
                .insert("remain_flight_time"@, <i32 as Wire>::encoded(value.remain_flight_time))
                .insert("return_home_power"@, <i32 as Wire>::encoded(value.return_home_power))
                .insert("landing_power"@, <i32 as Wire>::encoded(value.landing_power))
                .insert("batteries"@, <Vec<BatteryDetail> as Wire>::encoded(value.batteries)),
        )
    }

    fn from_json(json: &Json) -> (value: Option<BatteryInfo>) {
        let capacity_percent = read_field::<i32>(json, "capacity_percent", 0, 5)?;
        let remain_flight_time = read_field::<i32>(json, "remain_flight_time", 1, 5)?;
        let return_home_power = read_field::<i32>(json, "return_home_power", 2, 5)?;
        let landing_power = read_field::<i32>(json, "landing_power", 3, 5)?;
        let batteries = read_field::<Vec<BatteryDetail>>(json, "batteries", 4, 5)?;
        Some(
            BatteryInfo {
                capacity_percent,
                remain_flight_time,
                return_home_power,
                landing_power,
                batteries,
            },
        )
    }

    fn to_json(&self) -> (json: Json) {
        let mut members = start_object();
        put_field(&mut members, "capacity_percent", &self.capacity_percent);
        put_field(&mut members, "remain_flight_time", &self.remain_flight_time);
        put_field(&mut members, "return_home_power", &self.return_home_power);
        put_field(&mut members, "landing_power", &self.landing_power);
        put_field(&mut members, "batteries", &self.batteries);
        finish_object(members)
    }

    fn duplicate(&self) -> (copy: BatteryInfo) {
        BatteryInfo {
            capacity_percent: self.capacity_percent,
            remain_flight_time: self.remain_flight_time,
            return_home_power: self.return_home_power,
            landing_power: self.landing_power,
            batteries: self.batteries.duplicate(),
        }
    }

    proof fn round_trip(value: BatteryInfoView) {
        reveal_strlit("capacity_percent");
        reveal_strlit("remain_flight_time");
        reveal_strlit("return_home_power");
        reveal_strlit("landing_power");
        reveal_strlit("batteries");
        assert("capacity_percent"@.len() == 16);
        assert("remain_flight_time"@.len() == 18);
        assert("return_home_power"@.len() == 17);
        assert("landing_power"@.len() == 13);
        assert("batteries"@.len() == 9);
        <i32 as Wire>::round_trip(value.capacity_percent);
        <i32 as Wire>::round_trip(value.remain_flight_time);
        <i32 as Wire>::round_trip(value.return_home_power);
        <i32 as Wire>::round_trip(value.landing_power);
        <Vec<BatteryDetail> as Wire>::round_trip(value.batteries);
    }
}

} // verus!
