//! Cameras and their thermal metering.

use crate::json::object::{field_as, finish_object, put_field, read_field, start_object};
use crate::json::wire::{models, Wire};
use crate::json::{Json, JsonView, Number};
use vstd::prelude::*;

verus! {

/// The region of the wide view that the zoom view shows, in coordinates from
/// 0.0 to 1.0 with the origin at the upper left corner.
#[derive(Clone, Copy, Debug, PartialEq)]
pub struct LiveviewWorldRegion {
    pub left: Number,
    pub top: Number,
    pub right: Number,
    pub bottom: Number,
}

/// Written as an object with one member for each field; read from such an
/// object, in which other members are passed over, or from an array of the
/// fields in their order.
impl Wire for LiveviewWorldRegion {
    type Model = LiveviewWorldRegion;

    open spec fn model(&self) -> LiveviewWorldRegion {
        *self
    }

    open spec fn decoded(json: JsonView) -> Option<LiveviewWorldRegion> {
        let left = field_as::<Number>(json, "left"@, 0, 4);
        let top = field_as::<Number>(json, "top"@, 1, 4);
        let right = field_as::<Number>(json, "right"@, 2, 4);
        let bottom = field_as::<Number>(json, "bottom"@, 3, 4);
        if left is Some && top is Some && right is Some && bottom is Some {
            Some(
                LiveviewWorldRegion {
                    left: left->0,
                    top: top->0,
                    right: right->0,
                    bottom: bottom->0,
                },
            )
        } else {
            None
        }
    }

    open spec fn encoded(value: LiveviewWorldRegion) -> JsonView {
        JsonView::Object(
            Map::empty()
                .insert("left"@, <Number as Wire>::encoded(value.left))
                .insert("top"@, <Number as Wire>::encoded(value.top))
                .insert("right"@, <Number as Wire>::encoded(value.right))
                .insert("bottom"@, <Number as Wire>::encoded(value.bottom)),
        )
    }

    fn from_json(json: &Json) -> (value: Option<LiveviewWorldRegion>) {
        let left = read_field::<Number>(json, "left", 0, 4)?;
        let top = read_field::<Number>(json, "top", 1, 4)?;
        let right = read_field::<Number>(json, "right", 2, 4)?;
        let bottom = read_field::<Number>(json, "bottom", 3, 4)?;
        Some(
            LiveviewWorldRegion {
                left,
                top,
                right,
                bottom,
            },
        )
    }

    fn to_json(&self) -> (json: Json) {
        let mut members = start_object();
        put_field(&mut members, "left", &self.left);
        put_field(&mut members, "top", &self.top);
        put_field(&mut members, "right", &self.right);
        put_field(&mut members, "bottom", &self.bottom);
        finish_object(members)
    }

    fn duplicate(&self) -> (copy: LiveviewWorldRegion) {
        *self
    }

    proof fn round_trip(value: LiveviewWorldRegion) {
        reveal_strlit("left");
        reveal_strlit("top");
        reveal_strlit("right");
        reveal_strlit("bottom");
        assert("left"@.len() == 4);
        assert("top"@.len() == 3);
        assert("right"@.len() == 5);
        assert("bottom"@.len() == 6);
        <Number as Wire>::round_trip(value.left);
        <Number as Wire>::round_trip(value.top);
        <Number as Wire>::round_trip(value.right);
        <Number as Wire>::round_trip(value.bottom);
    }
}

/// A spot temperature measurement.
#[derive(Clone, Copy, Debug, PartialEq)]
pub struct IrMeteringPoint {
    /// Coordinate, 0.0 to 1.0.
    pub x: Number,
    /// Coordinate, 0.0 to 1.0.
    pub y: Number,
    /// Celsius.
    pub temperature: Number,
}

/// Written as an object with one member for each field; read from such an
/// object, in which other members are passed over, or from an array of the
/// fields in their order.
impl Wire for IrMeteringPoint {
    type Model = IrMeteringPoint;

    open spec fn model(&self) -> IrMeteringPoint {
        *self
    }

    open spec fn decoded(json: JsonView) -> Option<IrMeteringPoint> {
        let x = field_as::<Number>(json, "x"@, 0, 3);
        let y = field_as::<Number>(json, "y"@, 1, 3);
        let temperature = field_as::<Number>(json, "temperature"@, 2, 3);
        if x is Some && y is Some && temperature is Some {
            Some(
                IrMeteringPoint {
                    x: x->0,
                    y: y->0,
                    temperature: temperature->0,
                },
            )
        } else {
            None
        }
    }

    open spec fn encoded(value: IrMeteringPoint) -> JsonView {
        JsonView::Object(
            Map::empty()
                .insert("x"@, <Number as Wire>::encoded(value.x))
                .insert("y"@, <Number as Wire>::encoded(value.y))
                .insert("temperature"@, <Number as Wire>::encoded(value.temperature)),
        )
    }

    fn from_json(json: &Json) -> (value: Option<IrMeteringPoint>) {
        let x = read_field::<Number>(json, "x", 0, 3)?;
        let y = read_field::<Number>(json, "y", 1, 3)?;
        let temperature = read_field::<Number>(json, "temperature", 2, 3)?;
        Some(
            IrMeteringPoint {
                x,
                y,
                temperature,
            },
        )
    }

    fn to_json(&self) -> (json: Json) {
        let mut members = start_object();
        put_field(&mut members, "x", &self.x);
        put_field(&mut members, "y", &self.y);
        put_field(&mut members, "temperature", &self.temperature);
        finish_object(members)
    }

    fn duplicate(&self) -> (copy: IrMeteringPoint) {
        *self
    }

    proof fn round_trip(value: IrMeteringPoint) {
        reveal_strlit("x");
        reveal_strlit("y");
        reveal_strlit("temperature");
        assert("x"@.len() == 1 && "x"@[0] == 'x');
        assert("y"@.len() == 1 && "y"@[0] == 'y');
        assert("temperature"@.len() == 11);
        <Number as Wire>::round_trip(value.x);
        <Number as Wire>::round_trip(value.y);
        <Number as Wire>::round_trip(value.temperature);
    }
}

/// An area temperature measurement.
#[derive(Clone, Copy, Debug, PartialEq)]
pub struct IrMeteringArea {
    /// Left edge, 0.0 to 1.0.
    pub x: Number,
    /// Top edge, 0.0 to 1.0.
    pub y: Number,
    /// Width, 0.0 to 1.0.
    pub width: Number,
    /// Height, 0.0 to 1.0.
    pub height: Number,
    /// Average temperature, Celsius.
    pub aver_temperature: Number,
    pub min_temperature_point: IrMeteringPoint,
    pub max_temperature_point: IrMeteringPoint,
}

/// Written as an object with one member for each field; read from such an
/// object, in which other members are passed over, or from an array of the
/// fields in their order.
impl Wire for IrMeteringArea {
    type Model = IrMeteringArea;

    open spec fn model(&self) -> IrMeteringArea {
        *self
    }

    open spec fn decoded(json: JsonView) -> Option<IrMeteringArea> {
        let x = field_as::<Number>(json, "x"@, 0, 7);
        let y = field_as::<Number>(json, "y"@, 1, 7);
        let width = field_as::<Number>(json, "width"@, 2, 7);
        let height = field_as::<Number>(json, "height"@, 3, 7);
        let aver_temperature = field_as::<Number>(json, "aver_temperature"@, 4, 7);
        let min_temperature_point = field_as::<IrMeteringPoint>(
            json,
            "min_temperature_point"@,
            5,
            7,
        );
        let max_temperature_point = field_as::<IrMeteringPoint>(
            json,
            "max_temperature_point"@,
            6,
            7,
        );
        if x is Some && y is Some && width is Some && height is Some && aver_temperature is Some
            && min_temperature_point is Some && max_temperature_point is Some {
            Some(
                IrMeteringArea {
                    x: x->0,
                    y: y->0,
                    width: width->0,
                    height: height->0,
                    aver_temperature: aver_temperature->0,
                    min_temperature_point: min_temperature_point->0,
                    max_temperature_point: max_temperature_point->0,
                },
            )
        } else {
            None
        }
    }

    open spec fn encoded(value: IrMeteringArea) -> JsonView {
        JsonView::Object(
            Map::empty()
                .insert("x"@, <Number as Wire>::encoded(value.x))
                .insert("y"@, <Number as Wire>::encoded(value.y))
                .insert("width"@, <Number as Wire>::encoded(value.width))
                .insert("height"@, <Number as Wire>::encoded(value.height))
                .insert("aver_temperature"@, <Number as Wire>::encoded(value.aver_temperature))
                .insert(
                    "min_temperature_point"@,
                    <IrMeteringPoint as Wire>::encoded(value.min_temperature_point),
                )
                .insert(
                    "max_temperature_point"@,
                    <IrMeteringPoint as Wire>::encoded(value.max_temperature_point),
                ),
        )
    }

    fn from_json(json: &Json) -> (value: Option<IrMeteringArea>) {
        let x = read_field::<Number>(json, "x", 0, 7)?;
        let y = read_field::<Number>(json, "y", 1, 7)?;
        let width = read_field::<Number>(json, "width", 2, 7)?;
        let height = read_field::<Number>(json, "height", 3, 7)?;
        let aver_temperature = read_field::<Number>(json, "aver_temperature", 4, 7)?;
        let min_temperature_point = read_field::<IrMeteringPoint>(
            json,
            "min_temperature_point",
            5,
            7,
        )?;
        let max_temperature_point = read_field::<IrMeteringPoint>(
            json,
            "max_temperature_point",
            6,
            7,
        )?;
        Some(
            IrMeteringArea {
                x,
                y,
                width,
                height,
                aver_temperature,
                min_temperature_point,
                max_temperature_point,
            },
        )
    }

    fn to_json(&self) -> (json: Json) {
        let mut members = start_object();
        put_field(&mut members, "x", &self.x);
        put_field(&mut members, "y", &self.y);
        put_field(&mut members, "width", &self.width);
        put_field(&mut members, "height", &self.height);
        put_field(&mut members, "aver_temperature", &self.aver_temperature);
        put_field(&mut members, "min_temperature_point", &self.min_temperature_point);
        put_field(&mut members, "max_temperature_point", &self.max_temperature_point);
        finish_object(members)
    }

    fn duplicate(&self) -> (copy: IrMeteringArea) {
        *self
    }

    proof fn round_trip(value: IrMeteringArea) {
        reveal_strlit("x");
        reveal_strlit("y");
        reveal_strlit("width");
        reveal_strlit("height");
        reveal_strlit("aver_temperature");
        reveal_strlit("min_temperature_point");
        reveal_strlit("max_temperature_point");
        assert("x"@.len() == 1 && "x"@[0] == 'x');
        assert("y"@.len() == 1 && "y"@[0] == 'y');
        assert("width"@.len() == 5);
        assert("height"@.len() == 6);
        assert("aver_temperature"@.len() == 16);
        assert("min_temperature_point"@.len() == 21 && "min_temperature_point"@[1] == 'i');
        assert("max_temperature_point"@.len() == 21 && "max_temperature_point"@[1] == 'a');
        <Number as Wire>::round_trip(value.x);
        <Number as Wire>::round_trip(value.y);
        <Number as Wire>::round_trip(value.width);
        <Number as Wire>::round_trip(value.height);
        <Number as Wire>::round_trip(value.aver_temperature);
        <IrMeteringPoint as Wire>::round_trip(value.min_temperature_point);
        <IrMeteringPoint as Wire>::round_trip(value.max_temperature_point);
    }
}

/// The state of one camera.
#[derive(Debug, PartialEq)]
pub struct Camera {
    pub remain_photo_num: i32,
    /// Seconds.
    pub remain_record_duration: i32,
    /// Seconds.
    pub record_time: i32,
    /// Payload identifier, written `{type}-{subtype}-{gimbal index}`.
    pub payload_index: String,
    /// 0: capturing, 1: recording, 2: smart low-light, 3: panorama, -1: unsupported.
    pub camera_mode: i32,
    /// 0: idle, 1: capturing a photo.
    pub photo_state: i32,
    pub screen_split_enable: bool,
    /// 0: idle, 1: recording.
    pub recording_state: i32,
    /// Zoom factor, 2.0 to 200.0.
    pub zoom_factor: Number,
    /// Infrared zoom factor, 2.0 to 20.0.
    pub ir_zoom_factor: Number,
    pub liveview_world_region: LiveviewWorldRegion,
    /// Lenses whose photos are stored: `current`, `wide`, `zoom`, `ir`.
    pub photo_storage_settings: Vec<String>,
    /// Lenses whose videos are stored: `current`, `wide`, `zoom`, `ir`.
    pub video_storage_settings: Vec<String>,
    /// 1: auto, 2: shutter priority, 3: aperture priority, 4: manual.
    pub wide_exposure_mode: i32,
    /// 0: auto, 1: auto (high sense), 2: 50, and so on; 255: fixed.
    pub wide_iso: i32,
    /// 0: 1/8000 s, and so on; 65534: auto.
    pub wide_shutter_speed: i32,
    /// 1: -5.0 EV, 16: 0 EV, 31: 5.0 EV; 255: fixed.
    pub wide_exposure_value: i32,
    pub zoom_exposure_mode: i32,
    pub zoom_iso: i32,
    pub zoom_shutter_speed: i32,
    pub zoom_exposure_value: i32,
    /// 0: MF, 1: AFS, 2: AFC.
    pub zoom_focus_mode: i32,
    pub zoom_focus_value: i32,
    pub zoom_max_focus_value: i32,
    pub zoom_min_focus_value: i32,
    pub zoom_calibrate_farthest_focus_value: i32,
    pub zoom_calibrate_nearest_focus_value: i32,
    /// 0: idle, 1: focusing, 2: focused, 3: failed.
    pub zoom_focus_state: i32,
    /// 0: off, 1: point, 2: area.
    pub ir_metering_mode: i32,
    pub ir_metering_point: IrMeteringPoint,
    pub ir_metering_area: IrMeteringArea,
}

/// The mathematical model of a [`Camera`].
pub struct CameraView {
    pub remain_photo_num: i32,
    pub remain_record_duration: i32,
    pub record_time: i32,
    pub payload_index: Seq<char>,
    pub camera_mode: i32,
    pub photo_state: i32,
    pub screen_split_enable: bool,
    pub recording_state: i32,
    pub zoom_factor: Number,
    pub ir_zoom_factor: Number,
    pub liveview_world_region: LiveviewWorldRegion,
    pub photo_storage_settings: Seq<Seq<char>>,
    pub video_storage_settings: Seq<Seq<char>>,
    pub wide_exposure_mode: i32,
    pub wide_iso: i32,
    pub wide_shutter_speed: i32,
    pub wide_exposure_value: i32,
    pub zoom_exposure_mode: i32,
    pub zoom_iso: i32,
    pub zoom_shutter_speed: i32,
    pub zoom_exposure_value: i32,
    pub zoom_focus_mode: i32,
    pub zoom_focus_value: i32,
    pub zoom_max_focus_value: i32,
    pub zoom_min_focus_value: i32,
    pub zoom_calibrate_farthest_focus_value: i32,
    pub zoom_calibrate_nearest_focus_value: i32,
    pub zoom_focus_state: i32,
    pub ir_metering_mode: i32,
    pub ir_metering_point: IrMeteringPoint,
    pub ir_metering_area: IrMeteringArea,
}

impl View for Camera {
    type V = CameraView;

    open spec fn view(&self) -> CameraView {
        CameraView {
            remain_photo_num: self.remain_photo_num,
            remain_record_duration: self.remain_record_duration,
            record_time: self.record_time,
            payload_index: self.payload_index@,
            camera_mode: self.camera_mode,
            photo_state: self.photo_state,
            screen_split_enable: self.screen_split_enable,
            recording_state: self.recording_state,
            zoom_factor: self.zoom_factor,
            ir_zoom_factor: self.ir_zoom_factor,
            liveview_world_region: self.liveview_world_region,
            photo_storage_settings: models(self.photo_storage_settings@),
            video_storage_settings: models(self.video_storage_settings@),
            wide_exposure_mode: self.wide_exposure_mode,
            wide_iso: self.wide_iso,
            wide_shutter_speed: self.wide_shutter_speed,
            wide_exposure_value: self.wide_exposure_value,
            zoom_exposure_mode: self.zoom_exposure_mode,
            zoom_iso: self.zoom_iso,
            zoom_shutter_speed: self.zoom_shutter_speed,
            zoom_exposure_value: self.zoom_exposure_value,
            zoom_focus_mode: self.zoom_focus_mode,
            zoom_focus_value: self.zoom_focus_value,
            zoom_max_focus_value: self.zoom_max_focus_value,
            zoom_min_focus_value: self.zoom_min_focus_value,
            zoom_calibrate_farthest_focus_value: self.zoom_calibrate_farthest_focus_value,
            zoom_calibrate_nearest_focus_value: self.zoom_calibrate_nearest_focus_value,
            zoom_focus_state: self.zoom_focus_state,
            ir_metering_mode: self.ir_metering_mode,
            ir_metering_point: self.ir_metering_point,
            ir_metering_area: self.ir_metering_area,
        }
    }
}

impl Clone for Camera {
    fn clone(&self) -> (copy: Camera)
        ensures
            copy@ == self@,
    {
        self.duplicate()
    }
}

/// Written as an object with one member for each field; read from such an
/// object, in which other members are passed over, or from an array of the
/// fields in their order.
impl Wire for Camera {
    type Model = CameraView;

    open spec fn model(&self) -> CameraView {
        self@
    }

    open spec fn decoded(json: JsonView) -> Option<CameraView> {
        let remain_photo_num = field_as::<i32>(json, "remain_photo_num"@, 0, 31);
        let remain_record_duration = field_as::<i32>(json, "remain_record_duration"@, 1, 31);
        let record_time = field_as::<i32>(json, "record_time"@, 2, 31);
        let payload_index = field_as::<String>(json, "payload_index"@, 3, 31);
        let camera_mode = field_as::<i32>(json, "camera_mode"@, 4, 31);
        let photo_state = field_as::<i32>(json, "photo_state"@, 5, 31);
        let screen_split_enable = field_as::<bool>(json, "screen_split_enable"@, 6, 31);
        let recording_state = field_as::<i32>(json, "recording_state"@, 7, 31);
        let zoom_factor = field_as::<Number>(json, "zoom_factor"@, 8, 31);
        let ir_zoom_factor = field_as::<Number>(json, "ir_zoom_factor"@, 9, 31);
        let liveview_world_region = field_as::<LiveviewWorldRegion>(
            json,
            "liveview_world_region"@,
            10,
            31,
        );
        let photo_storage_settings = field_as::<Vec<String>>(
            json,
            "photo_storage_settings"@,
            11,
            31,
        );
        let video_storage_settings = field_as::<Vec<String>>(
            json,
            "video_storage_settings"@,
            12,
            31,
        );
        let wide_exposure_mode = field_as::<i32>(json, "wide_exposure_mode"@, 13, 31);
        let wide_iso = field_as::<i32>(json, "wide_iso"@, 14, 31);
        let wide_shutter_speed = field_as::<i32>(json, "wide_shutter_speed"@, 15, 31);
        let wide_exposure_value = field_as::<i32>(json, "wide_exposure_value"@, 16, 31);
        let zoom_exposure_mode = field_as::<i32>(json, "zoom_exposure_mode"@, 17, 31);
        let zoom_iso = field_as::<i32>(json, "zoom_iso"@, 18, 31);
        let zoom_shutter_speed = field_as::<i32>(json, "zoom_shutter_speed"@, 19, 31);
        let zoom_exposure_value = field_as::<i32>(json, "zoom_exposure_value"@, 20, 31);
        let zoom_focus_mode = field_as::<i32>(json, "zoom_focus_mode"@, 21, 31);
        let zoom_focus_value = field_as::<i32>(json, "zoom_focus_value"@, 22, 31);
        let zoom_max_focus_value = field_as::<i32>(json, "zoom_max_focus_value"@, 23, 31);
        let zoom_min_focus_value = field_as::<i32>(json, "zoom_min_focus_value"@, 24, 31);
        let zoom_calibrate_farthest_focus_value = field_as::<i32>(
            json,
            "zoom_calibrate_farthest_focus_value"@,
            25,
            31,
        );
        let zoom_calibrate_nearest_focus_value = field_as::<i32>(
            json,
            "zoom_calibrate_nearest_focus_value"@,
            26,
            31,
        );
        let zoom_focus_state = field_as::<i32>(json, "zoom_focus_state"@, 27, 31);
        let ir_metering_mode = field_as::<i32>(json, "ir_metering_mode"@, 28, 31);
        let ir_metering_point = field_as::<IrMeteringPoint>(json, "ir_metering_point"@, 29, 31);
        let ir_metering_area = field_as::<IrMeteringArea>(json, "ir_metering_area"@, 30, 31);
        if remain_photo_num is Some && remain_record_duration is Some && record_time is Some
            && payload_index is Some && camera_mode is Some && photo_state is Some
            && screen_split_enable is Some && recording_state is Some && zoom_factor is Some
            && ir_zoom_factor is Some && liveview_world_region is Some
            && photo_storage_settings is Some && video_storage_settings is Some
            && wide_exposure_mode is Some && wide_iso is Some && wide_shutter_speed is Some
            && wide_exposure_value is Some && zoom_exposure_mode is Some && zoom_iso is Some
            && zoom_shutter_speed is Some && zoom_exposure_value is Some
            && zoom_focus_mode is Some && zoom_focus_value is Some
            && zoom_max_focus_value is Some && zoom_min_focus_value is Some
            && zoom_calibrate_farthest_focus_value is Some
            && zoom_calibrate_nearest_focus_value is Some && zoom_focus_state is Some
            && ir_metering_mode is Some && ir_metering_point is Some && ir_metering_area is Some {
            Some(
                CameraView {
                    remain_photo_num: remain_photo_num->0,
                    remain_record_duration: remain_record_duration->0,
                    record_time: record_time->0,
                    payload_index: payload_index->0,
                    camera_mode: camera_mode->0,
                    photo_state: photo_state->0,
                    screen_split_enable: screen_split_enable->0,
                    recording_state: recording_state->0,
                    zoom_factor: zoom_factor->0,
                    ir_zoom_factor: ir_zoom_factor->0,
                    liveview_world_region: liveview_world_region->0,
                    photo_storage_settings: photo_storage_settings->0,
                    video_storage_settings: video_storage_settings->0,
                    wide_exposure_mode: wide_exposure_mode->0,
                    wide_iso: wide_iso->0,
                    wide_shutter_speed: wide_shutter_speed->0,
                    wide_exposure_value: wide_exposure_value->0,
                    zoom_exposure_mode: zoom_exposure_mode->0,
                    zoom_iso: zoom_iso->0,
                    zoom_shutter_speed: zoom_shutter_speed->0,
                    zoom_exposure_value: zoom_exposure_value->0,
                    zoom_focus_mode: zoom_focus_mode->0,
                    zoom_focus_value: zoom_focus_value->0,
                    zoom_max_focus_value: zoom_max_focus_value->0,
                    zoom_min_focus_value: zoom_min_focus_value->0,
                    zoom_calibrate_farthest_focus_value: zoom_calibrate_farthest_focus_value->0,
                    zoom_calibrate_nearest_focus_value: zoom_calibrate_nearest_focus_value->0,
                    zoom_focus_state: zoom_focus_state->0,
                    ir_metering_mode: ir_metering_mode->0,
                    ir_metering_point: ir_metering_point->0,
                    ir_metering_area: ir_metering_area->0,
                },
            )
        } else {
            None
        }
    }

    open spec fn encoded(value: CameraView) -> JsonView {
        JsonView::Object(
            Map::empty()
                .insert("remain_photo_num"@, <i32 as Wire>::encoded(value.remain_photo_num))
                .insert(
                    "remain_record_duration"@,
                    <i32 as Wire>::encoded(value.remain_record_duration),
                )
                .insert("record_time"@, <i32 as Wire>::encoded(value.record_time))
                .insert("payload_index"@, <String as Wire>::encoded(value.payload_index))
                .insert("camera_mode"@, <i32 as Wire>::encoded(value.camera_mode))
                .insert("photo_state"@, <i32 as Wire>::encoded(value.photo_state))
                .insert("screen_split_enable"@, <bool as Wire>::encoded(value.screen_split_enable))
                .insert("recording_state"@, <i32 as Wire>::encoded(value.recording_state))
                .insert("zoom_factor"@, <Number as Wire>::encoded(value.zoom_factor))
                .insert("ir_zoom_factor"@, <Number as Wire>::encoded(value.ir_zoom_factor))
                .insert(
                    "liveview_world_region"@,
                    <LiveviewWorldRegion as Wire>::encoded(value.liveview_world_region),
                )
                .insert(
                    "photo_storage_settings"@,
                    <Vec<String> as Wire>::encoded(value.photo_storage_settings),
                )
                .insert(
                    "video_storage_settings"@,
                    <Vec<String> as Wire>::encoded(value.video_storage_settings),
                )
                .insert("wide_exposure_mode"@, <i32 as Wire>::encoded(value.wide_exposure_mode))
                .insert("wide_iso"@, <i32 as Wire>::encoded(value.wide_iso))
                .insert("wide_shutter_speed"@, <i32 as Wire>::encoded(value.wide_shutter_speed))
                .insert("wide_exposure_value"@, <i32 as Wire>::encoded(value.wide_exposure_value))
                .insert("zoom_exposure_mode"@, <i32 as Wire>::encoded(value.zoom_exposure_mode))
                .insert("zoom_iso"@, <i32 as Wire>::encoded(value.zoom_iso))
                .insert("zoom_shutter_speed"@, <i32 as Wire>::encoded(value.zoom_shutter_speed))
                .insert("zoom_exposure_value"@, <i32 as Wire>::encoded(value.zoom_exposure_value))
                .insert("zoom_focus_mode"@, <i32 as Wire>::encoded(value.zoom_focus_mode))
                .insert("zoom_focus_value"@, <i32 as Wire>::encoded(value.zoom_focus_value))
                .insert("zoom_max_focus_value"@, <i32 as Wire>::encoded(value.zoom_max_focus_value))
                .insert("zoom_min_focus_value"@, <i32 as Wire>::encoded(value.zoom_min_focus_value))
                .insert(
                    "zoom_calibrate_farthest_focus_value"@,
                    <i32 as Wire>::encoded(value.zoom_calibrate_farthest_focus_value),
                )
                .insert(
                    "zoom_calibrate_nearest_focus_value"@,
                    <i32 as Wire>::encoded(value.zoom_calibrate_nearest_focus_value),
                )
                .insert("zoom_focus_state"@, <i32 as Wire>::encoded(value.zoom_focus_state))
                .insert("ir_metering_mode"@, <i32 as Wire>::encoded(value.ir_metering_mode))
                .insert(
                    "ir_metering_point"@,
                    <IrMeteringPoint as Wire>::encoded(value.ir_metering_point),
                )
                .insert(
                    "ir_metering_area"@,
                    <IrMeteringArea as Wire>::encoded(value.ir_metering_area),
                ),
        )
    }

    fn from_json(json: &Json) -> (value: Option<Camera>) {
        let remain_photo_num = read_field::<i32>(json, "remain_photo_num", 0, 31)?;
        let remain_record_duration = read_field::<i32>(json, "remain_record_duration", 1, 31)?;
        let record_time = read_field::<i32>(json, "record_time", 2, 31)?;
        let payload_index = read_field::<String>(json, "payload_index", 3, 31)?;
        let camera_mode = read_field::<i32>(json, "camera_mode", 4, 31)?;
        let photo_state = read_field::<i32>(json, "photo_state", 5, 31)?;
        let screen_split_enable = read_field::<bool>(json, "screen_split_enable", 6, 31)?;
        let recording_state = read_field::<i32>(json, "recording_state", 7, 31)?;
        let zoom_factor = read_field::<Number>(json, "zoom_factor", 8, 31)?;
        let ir_zoom_factor = read_field::<Number>(json, "ir_zoom_factor", 9, 31)?;
        let liveview_world_region = read_field::<LiveviewWorldRegion>(
            json,
            "liveview_world_region",
            10,
            31,
        )?;
        let photo_storage_settings = read_field::<Vec<String>>(
            json,
            "photo_storage_settings",
            11,
            31,
        )?;
        let video_storage_settings = read_field::<Vec<String>>(
            json,
            "video_storage_settings",
            12,
            31,
        )?;
        let wide_exposure_mode = read_field::<i32>(json, "wide_exposure_mode", 13, 31)?;
        let wide_iso = read_field::<i32>(json, "wide_iso", 14, 31)?;
        let wide_shutter_speed = read_field::<i32>(json, "wide_shutter_speed", 15, 31)?;
        let wide_exposure_value = read_field::<i32>(json, "wide_exposure_value", 16, 31)?;
        let zoom_exposure_mode = read_field::<i32>(json, "zoom_exposure_mode", 17, 31)?;
        let zoom_iso = read_field::<i32>(json, "zoom_iso", 18, 31)?;
        let zoom_shutter_speed = read_field::<i32>(json, "zoom_shutter_speed", 19, 31)?;
        let zoom_exposure_value = read_field::<i32>(json, "zoom_exposure_value", 20, 31)?;
        let zoom_focus_mode = read_field::<i32>(json, "zoom_focus_mode", 21, 31)?;
        let zoom_focus_value = read_field::<i32>(json, "zoom_focus_value", 22, 31)?;
        let zoom_max_focus_value = read_field::<i32>(json, "zoom_max_focus_value", 23, 31)?;
        let zoom_min_focus_value = read_field::<i32>(json, "zoom_min_focus_value", 24, 31)?;
        let zoom_calibrate_farthest_focus_value = read_field::<i32>(
            json,
            "zoom_calibrate_farthest_focus_value",
            25,
            31,
        )?;
        let zoom_calibrate_nearest_focus_value = read_field::<i32>(
            json,
            "zoom_calibrate_nearest_focus_value",
            26,
            31,
        )?;
        let zoom_focus_state = read_field::<i32>(json, "zoom_focus_state", 27, 31)?;
        let ir_metering_mode = read_field::<i32>(json, "ir_metering_mode", 28, 31)?;
        let ir_metering_point = read_field::<IrMeteringPoint>(json, "ir_metering_point", 29, 31)?;
        let ir_metering_area = read_field::<IrMeteringArea>(json, "ir_metering_area", 30, 31)?;
        Some(
            Camera {
                remain_photo_num,
                remain_record_duration,
                record_time,
                payload_index,
                camera_mode,
                photo_state,
                screen_split_enable,
                recording_state,
                zoom_factor,
                ir_zoom_factor,
                liveview_world_region,
                photo_storage_settings,
                video_storage_settings,
                wide_exposure_mode,
                wide_iso,
                wide_shutter_speed,
                wide_exposure_value,
                zoom_exposure_mode,
                zoom_iso,
                zoom_shutter_speed,
                zoom_exposure_value,
                zoom_focus_mode,
                zoom_focus_value,
                zoom_max_focus_value,
                zoom_min_focus_value,
                zoom_calibrate_farthest_focus_value,
                zoom_calibrate_nearest_focus_value,
                zoom_focus_state,
                ir_metering_mode,
                ir_metering_point,
                ir_metering_area,
            },
        )
    }

    fn to_json(&self) -> (json: Json) {
        let mut members = start_object();
        put_field(&mut members, "remain_photo_num", &self.remain_photo_num);
        put_field(&mut members, "remain_record_duration", &self.remain_record_duration);
        put_field(&mut members, "record_time", &self.record_time);
        put_field(&mut members, "payload_index", &self.payload_index);
        put_field(&mut members, "camera_mode", &self.camera_mode);
        put_field(&mut members, "photo_state", &self.photo_state);
        put_field(&mut members, "screen_split_enable", &self.screen_split_enable);
        put_field(&mut members, "recording_state", &self.recording_state);
        put_field(&mut members, "zoom_factor", &self.zoom_factor);
        put_field(&mut members, "ir_zoom_factor", &self.ir_zoom_factor);
        put_field(&mut members, "liveview_world_region", &self.liveview_world_region);
        put_field(&mut members, "photo_storage_settings", &self.photo_storage_settings);
        put_field(&mut members, "video_storage_settings", &self.video_storage_settings);
        put_field(&mut members, "wide_exposure_mode", &self.wide_exposure_mode);
        put_field(&mut members, "wide_iso", &self.wide_iso);
        put_field(&mut members, "wide_shutter_speed", &self.wide_shutter_speed);
        put_field(&mut members, "wide_exposure_value", &self.wide_exposure_value);
        put_field(&mut members, "zoom_exposure_mode", &self.zoom_exposure_mode);
        put_field(&mut members, "zoom_iso", &self.zoom_iso);
        put_field(&mut members, "zoom_shutter_speed", &self.zoom_shutter_speed);
        put_field(&mut members, "zoom_exposure_value", &self.zoom_exposure_value);
        put_field(&mut members, "zoom_focus_mode", &self.zoom_focus_mode);
        put_field(&mut members, "zoom_focus_value", &self.zoom_focus_value);
        put_field(&mut members, "zoom_max_focus_value", &self.zoom_max_focus_value);
        put_field(&mut members, "zoom_min_focus_value", &self.zoom_min_focus_value);
        put_field(
            &mut members,
            "zoom_calibrate_farthest_focus_value",
            &self.zoom_calibrate_farthest_focus_value,
        );
        put_field(
            &mut members,
            "zoom_calibrate_nearest_focus_value",
            &self.zoom_calibrate_nearest_focus_value,
        );
        put_field(&mut members, "zoom_focus_state", &self.zoom_focus_state);
        put_field(&mut members, "ir_metering_mode", &self.ir_metering_mode);
        put_field(&mut members, "ir_metering_point", &self.ir_metering_point);
        put_field(&mut members, "ir_metering_area", &self.ir_metering_area);
        finish_object(members)
    }

    fn duplicate(&self) -> (copy: Camera) {
        Camera {
            remain_photo_num: self.remain_photo_num,
            remain_record_duration: self.remain_record_duration,
            record_time: self.record_time,
            payload_index: self.payload_index.duplicate(),
            camera_mode: self.camera_mode,
            photo_state: self.photo_state,
            screen_split_enable: self.screen_split_enable,
            recording_state: self.recording_state,
            zoom_factor: self.zoom_factor,
            ir_zoom_factor: self.ir_zoom_factor,
            liveview_world_region: self.liveview_world_region,
            photo_storage_settings: self.photo_storage_settings.duplicate(),
            video_storage_settings: self.video_storage_settings.duplicate(),
            wide_exposure_mode: self.wide_exposure_mode,
            wide_iso: self.wide_iso,
            wide_shutter_speed: self.wide_shutter_speed,
            wide_exposure_value: self.wide_exposure_value,
            zoom_exposure_mode: self.zoom_exposure_mode,
            zoom_iso: self.zoom_iso,
            zoom_shutter_speed: self.zoom_shutter_speed,
            zoom_exposure_value: self.zoom_exposure_value,
            zoom_focus_mode: self.zoom_focus_mode,
            zoom_focus_value: self.zoom_focus_value,
            zoom_max_focus_value: self.zoom_max_focus_value,
            zoom_min_focus_value: self.zoom_min_focus_value,
            zoom_calibrate_farthest_focus_value: self.zoom_calibrate_farthest_focus_value,
            zoom_calibrate_nearest_focus_value: self.zoom_calibrate_nearest_focus_value,
            zoom_focus_state: self.zoom_focus_state,
            ir_metering_mode: self.ir_metering_mode,
            ir_metering_point: self.ir_metering_point,
            ir_metering_area: self.ir_metering_area,
        }
    }

    proof fn round_trip(value: CameraView) {
        reveal_strlit("remain_photo_num");
        reveal_strlit("remain_record_duration");
        reveal_strlit("record_time");
        reveal_strlit("payload_index");
        reveal_strlit("camera_mode");
        reveal_strlit("photo_state");
        reveal_strlit("screen_split_enable");
        reveal_strlit("recording_state");
        reveal_strlit("zoom_factor");
        reveal_strlit("ir_zoom_factor");
        reveal_strlit("liveview_world_region");
        reveal_strlit("photo_storage_settings");
        reveal_strlit("video_storage_settings");
        reveal_strlit("wide_exposure_mode");
        reveal_strlit("wide_iso");
        reveal_strlit("wide_shutter_speed");
        reveal_strlit("wide_exposure_value");
        reveal_strlit("zoom_exposure_mode");
        reveal_strlit("zoom_iso");
        reveal_strlit("zoom_shutter_speed");
        reveal_strlit("zoom_exposure_value");
        reveal_strlit("zoom_focus_mode");
        reveal_strlit("zoom_focus_value");
        reveal_strlit("zoom_max_focus_value");
        reveal_strlit("zoom_min_focus_value");
        reveal_strlit("zoom_calibrate_farthest_focus_value");
        reveal_strlit("zoom_calibrate_nearest_focus_value");
        reveal_strlit("zoom_focus_state");
        reveal_strlit("ir_metering_mode");
        reveal_strlit("ir_metering_point");
        reveal_strlit("ir_metering_area");
        assert("remain_photo_num"@.len() == 16 && "remain_photo_num"@[13] == 'n');
        assert("remain_record_duration"@.len() == 22 && "remain_record_duration"@[0] == 'r');
        assert("record_time"@.len() == 11 && "record_time"@[0] == 'r');
        assert("payload_index"@.len() == 13);
        assert("camera_mode"@.len() == 11 && "camera_mode"@[0] == 'c');
        assert("photo_state"@.len() == 11 && "photo_state"@[0] == 'p');
        assert("screen_split_enable"@.len() == 19 && "screen_split_enable"@[0] == 's');
        assert("recording_state"@.len() == 15 && "recording_state"@[0] == 'r');
        assert("zoom_factor"@.len() == 11 && "zoom_factor"@[0] == 'z');
        assert("ir_zoom_factor"@.len() == 14);
        assert("liveview_world_region"@.len() == 21);
        assert("photo_storage_settings"@.len() == 22 && "photo_storage_settings"@[0] == 'p');
        assert("video_storage_settings"@.len() == 22 && "video_storage_settings"@[0] == 'v');
        assert("wide_exposure_mode"@.len() == 18
            && "wide_exposure_mode"@[0] == 'w'
            && "wide_exposure_mode"@[5] == 'e');
        assert("wide_iso"@.len() == 8 && "wide_iso"@[0] == 'w');
        assert("wide_shutter_speed"@.len() == 18
            && "wide_shutter_speed"@[0] == 'w'
            && "wide_shutter_speed"@[5] == 's');
        assert("wide_exposure_value"@.len() == 19 && "wide_exposure_value"@[0] == 'w');
        assert("zoom_exposure_mode"@.len() == 18
            && "zoom_exposure_mode"@[0] == 'z'
            && "zoom_exposure_mode"@[5] == 'e');
        assert("zoom_iso"@.len() == 8 && "zoom_iso"@[0] == 'z');
        assert("zoom_shutter_speed"@.len() == 18
            && "zoom_shutter_speed"@[0] == 'z'
            && "zoom_shutter_speed"@[5] == 's');
        assert("zoom_exposure_value"@.len() == 19 && "zoom_exposure_value"@[0] == 'z');
        assert("zoom_focus_mode"@.len() == 15 && "zoom_focus_mode"@[0] == 'z');
        assert("zoom_focus_value"@.len() == 16 && "zoom_focus_value"@[13] == 'l');
        assert("zoom_max_focus_value"@.len() == 20 && "zoom_max_focus_value"@[6] == 'a');
        assert("zoom_min_focus_value"@.len() == 20 && "zoom_min_focus_value"@[6] == 'i');
        assert("zoom_calibrate_farthest_focus_value"@.len() == 35);
        assert("zoom_calibrate_nearest_focus_value"@.len() == 34);
        assert("zoom_focus_state"@.len() == 16 && "zoom_focus_state"@[13] == 'a');
        assert("ir_metering_mode"@.len() == 16 && "ir_metering_mode"@[13] == 'o');
        assert("ir_metering_point"@.len() == 17);
        assert("ir_metering_area"@.len() == 16 && "ir_metering_area"@[13] == 'r');
        <i32 as Wire>::round_trip(value.remain_photo_num);
        <i32 as Wire>::round_trip(value.remain_record_duration);
        <i32 as Wire>::round_trip(value.record_time);
        <String as Wire>::round_trip(value.payload_index);
        <i32 as Wire>::round_trip(value.camera_mode);
        <i32 as Wire>::round_trip(value.photo_state);
        <bool as Wire>::round_trip(value.screen_split_enable);
        <i32 as Wire>::round_trip(value.recording_state);
        <Number as Wire>::round_trip(value.zoom_factor);
        <Number as Wire>::round_trip(value.ir_zoom_factor);
        <LiveviewWorldRegion as Wire>::round_trip(value.liveview_world_region);
        <Vec<String> as Wire>::round_trip(value.photo_storage_settings);
        <Vec<String> as Wire>::round_trip(value.video_storage_settings);
        <i32 as Wire>::round_trip(value.wide_exposure_mode);
        <i32 as Wire>::round_trip(value.wide_iso);
        <i32 as Wire>::round_trip(value.wide_shutter_speed);
        <i32 as Wire>::round_trip(value.wide_exposure_value);
        <i32 as Wire>::round_trip(value.zoom_exposure_mode);
        <i32 as Wire>::round_trip(value.zoom_iso);
        <i32 as Wire>::round_trip(value.zoom_shutter_speed);
        <i32 as Wire>::round_trip(value.zoom_exposure_value);
        <i32 as Wire>::round_trip(value.zoom_focus_mode);
        <i32 as Wire>::round_trip(value.zoom_focus_value);
        <i32 as Wire>::round_trip(value.zoom_max_focus_value);
        <i32 as Wire>::round_trip(value.zoom_min_focus_value);
        <i32 as Wire>::round_trip(value.zoom_calibrate_farthest_focus_value);
        <i32 as Wire>::round_trip(value.zoom_calibrate_nearest_focus_value);
        <i32 as Wire>::round_trip(value.zoom_focus_state);
        <i32 as Wire>::round_trip(value.ir_metering_mode);
        <IrMeteringPoint as Wire>::round_trip(value.ir_metering_point);
        <IrMeteringArea as Wire>::round_trip(value.ir_metering_area);
    }
}

} // verus!
