//! Payloads built with the payload SDK (PSDK): interface resources and widgets.

use crate::json::object::{field_as, finish_object, put_field, read_field, start_object};
use crate::json::wire::{models, Wire};
use crate::json::{Json, JsonView};
use vstd::prelude::*;

verus! {

/// The interface resource package of one PSDK payload.
#[derive(Debug, PartialEq)]
pub struct PsdkUiResource {
    pub psdk_index: i32,
    /// 0: not ready, 1: ready.
    pub psdk_ready: i32,
    /// Object key of the package in the object store.
    pub object_key: String,
}

/// The mathematical model of a [`PsdkUiResource`].
pub struct PsdkUiResourceView {
    pub psdk_index: i32,
    pub psdk_ready: i32,
    pub object_key: Seq<char>,
}

impl View for PsdkUiResource {
    type V = PsdkUiResourceView;

    open spec fn view(&self) -> PsdkUiResourceView {
        PsdkUiResourceView {
            psdk_index: self.psdk_index,
            psdk_ready: self.psdk_ready,
            object_key: self.object_key@,
        }
    }
}

impl Clone for PsdkUiResource {
    fn clone(&self) -> (copy: PsdkUiResource)
        ensures
            copy@ == self@,
    {
        self.duplicate()
    }
}

/// Written as an object with one member for each field; read from such an
/// object, in which other members are passed over, or from an array of the
/// fields in their order.
impl Wire for PsdkUiResource {
    type Model = PsdkUiResourceView;

    open spec fn model(&self) -> PsdkUiResourceView {
        self@
    }

    open spec fn decoded(json: JsonView) -> Option<PsdkUiResourceView> {
        let psdk_index = field_as::<i32>(json, "psdk_index"@, 0, 3);
        let psdk_ready = field_as::<i32>(json, "psdk_ready"@, 1, 3);
        let object_key = field_as::<String>(json, "object_key"@, 2, 3);
        if psdk_index is Some && psdk_ready is Some && object_key is Some {
            Some(
                PsdkUiResourceView {
                    psdk_index: psdk_index->0,
                    psdk_ready: psdk_ready->0,
                    object_key: object_key->0,
                },
            )
        } else {
            None
        }
    }

    open spec fn encoded(value: PsdkUiResourceView) -> JsonView {
        JsonView::Object(
            Map::empty()
                .insert("psdk_index"@, <i32 as Wire>::encoded(value.psdk_index))
                .insert("psdk_ready"@, <i32 as Wire>::encoded(value.psdk_ready))
                .insert("object_key"@, <String as Wire>::encoded(value.object_key)),
        )
    }

    fn from_json(json: &Json) -> (value: Option<PsdkUiResource>) {
        let psdk_index = read_field::<i32>(json, "psdk_index", 0, 3)?;
        let psdk_ready = read_field::<i32>(json, "psdk_ready", 1, 3)?;
        let object_key = read_field::<String>(json, "object_key", 2, 3)?;
        Some(
            PsdkUiResource {
                psdk_index,
                psdk_ready,
                object_key,
            },
        )
    }

    fn to_json(&self) -> (json: Json) {
        let mut members = start_object();
        put_field(&mut members, "psdk_index", &self.psdk_index);
        put_field(&mut members, "psdk_ready", &self.psdk_ready);
        put_field(&mut members, "object_key", &self.object_key);
        finish_object(members)
    }

    fn duplicate(&self) -> (copy: PsdkUiResource) {
        PsdkUiResource {
            psdk_index: self.psdk_index,
            psdk_ready: self.psdk_ready,
            object_key: self.object_key.duplicate(),
        }
    }

    proof fn round_trip(value: PsdkUiResourceView) {
        reveal_strlit("psdk_index");
        reveal_strlit("psdk_ready");
        reveal_strlit("object_key");
        assert("psdk_index"@.len() == 10 && "psdk_index"@[5] == 'i');
        assert("psdk_ready"@.len() == 10 && "psdk_ready"@[5] == 'r');
        assert("object_key"@.len() == 10 && "object_key"@[5] == 't');
        <i32 as Wire>::round_trip(value.psdk_index);
        <i32 as Wire>::round_trip(value.psdk_ready);
        <String as Wire>::round_trip(value.object_key);
    }
}

/// The speaker of a PSDK payload.
#[derive(Debug, PartialEq)]
pub struct Speaker {
    /// 0: text to speech, 1: recording.
    pub work_mode: i32,
    /// 0: single play, 1: loop.
    pub play_mode: i32,
    /// 0 to 100.
    pub play_volume: i32,
    /// 0: idle, 1: transmitting, 2: playing, 3: abnormal, 4: converting text,
    /// 99: downloading.
    pub system_state: i32,
    pub play_file_name: String,
    pub play_file_md5: String,
}

/// The mathematical model of a [`Speaker`].
pub struct SpeakerView {
    pub work_mode: i32,
    pub play_mode: i32,
    pub play_volume: i32,
    pub system_state: i32,
    pub play_file_name: Seq<char>,
    pub play_file_md5: Seq<char>,
}

impl View for Speaker {
    type V = SpeakerView;

    open spec fn view(&self) -> SpeakerView {
        SpeakerView {
            work_mode: self.work_mode,
            play_mode: self.play_mode,
            play_volume: self.play_volume,
            system_state: self.system_state,
            play_file_name: self.play_file_name@,
            play_file_md5: self.play_file_md5@,
        }
    }
}

impl Clone for Speaker {
    fn clone(&self) -> (copy: Speaker)
        ensures
            copy@ == self@,
    {
        self.duplicate()
    }
}

/// Written as an object with one member for each field; read from such an
/// object, in which other members are passed over, or from an array of the
/// fields in their order.
impl Wire for Speaker {
    type Model = SpeakerView;

    open spec fn model(&self) -> SpeakerView {
        self@
    }

    open spec fn decoded(json: JsonView) -> Option<SpeakerView> {
        let work_mode = field_as::<i32>(json, "work_mode"@, 0, 6);
        let play_mode = field_as::<i32>(json, "play_mode"@, 1, 6);
        let play_volume = field_as::<i32>(json, "play_volume"@, 2, 6);
        let system_state = field_as::<i32>(json, "system_state"@, 3, 6);
        let play_file_name = field_as::<String>(json, "play_file_name"@, 4, 6);
        let play_file_md5 = field_as::<String>(json, "play_file_md5"@, 5, 6);
        if work_mode is Some && play_mode is Some && play_volume is Some && system_state is Some
            && play_file_name is Some && play_file_md5 is Some {
            Some(
                SpeakerView {
                    work_mode: work_mode->0,
                    play_mode: play_mode->0,
                    play_volume: play_volume->0,
                    system_state: system_state->0,
                    play_file_name: play_file_name->0,
                    play_file_md5: play_file_md5->0,
                },
            )
        } else {
            None
        }
    }

    open spec fn encoded(value: SpeakerView) -> JsonView {
        JsonView::Object(
            Map::empty()
                .insert("work_mode"@, <i32 as Wire>::encoded(value.work_mode))
                .insert("play_mode"@, <i32 as Wire>::encoded(value.play_mode))
                .insert("play_volume"@, <i32 as Wire>::encoded(value.play_volume))
                .insert("system_state"@, <i32 as Wire>::encoded(value.system_state))
                .insert("play_file_name"@, <String as Wire>::encoded(value.play_file_name))
                .insert("play_file_md5"@, <String as Wire>::encoded(value.play_file_md5)),
        )
    }

    fn from_json(json: &Json) -> (value: Option<Speaker>) {
        let work_mode = read_field::<i32>(json, "work_mode", 0, 6)?;
        let play_mode = read_field::<i32>(json, "play_mode", 1, 6)?;
        let play_volume = read_field::<i32>(json, "play_volume", 2, 6)?;
        let system_state = read_field::<i32>(json, "system_state", 3, 6)?;
        let play_file_name = read_field::<String>(json, "play_file_name", 4, 6)?;
        let play_file_md5 = read_field::<String>(json, "play_file_md5", 5, 6)?;
        Some(
            Speaker {
                work_mode,
                play_mode,
                play_volume,
                system_state,
                play_file_name,
                play_file_md5,
            },
        )
    }

    fn to_json(&self) -> (json: Json) {
        let mut members = start_object();
        put_field(&mut members, "work_mode", &self.work_mode);
        put_field(&mut members, "play_mode", &self.play_mode);
        put_field(&mut members, "play_volume", &self.play_volume);
        put_field(&mut members, "system_state", &self.system_state);
        put_field(&mut members, "play_file_name", &self.play_file_name);
        put_field(&mut members, "play_file_md5", &self.play_file_md5);
        finish_object(members)
    }

    fn duplicate(&self) -> (copy: Speaker) {
        Speaker {
            work_mode: self.work_mode,
            play_mode: self.play_mode,
            play_volume: self.play_volume,
            system_state: self.system_state,
            play_file_name: self.play_file_name.duplicate(),
            play_file_md5: self.play_file_md5.duplicate(),
        }
    }

    proof fn round_trip(value: SpeakerView) {
        reveal_strlit("work_mode");
        reveal_strlit("play_mode");
        reveal_strlit("play_volume");
        reveal_strlit("system_state");
        reveal_strlit("play_file_name");
        reveal_strlit("play_file_md5");
        assert("work_mode"@.len() == 9 && "work_mode"@[0] == 'w');
        assert("play_mode"@.len() == 9 && "play_mode"@[0] == 'p');
        assert("play_volume"@.len() == 11);
        assert("system_state"@.len() == 12);
        assert("play_file_name"@.len() == 14);
        assert("play_file_md5"@.len() == 13);
        <i32 as Wire>::round_trip(value.work_mode);
        <i32 as Wire>::round_trip(value.play_mode);
        <i32 as Wire>::round_trip(value.play_volume);
        <i32 as Wire>::round_trip(value.system_state);
        <String as Wire>::round_trip(value.play_file_name);
        <String as Wire>::round_trip(value.play_file_md5);
    }
}

/// The value of one widget of a PSDK payload.
#[derive(Debug, PartialEq)]
pub struct PsdkWidgetValueItem {
    pub index: i32,
    /// The widget's value, of whatever shape the widget has.
    pub value: Json,
}

/// The mathematical model of a [`PsdkWidgetValueItem`].
pub struct PsdkWidgetValueItemView {
    pub index: i32,
    pub value: JsonView,
}

impl View for PsdkWidgetValueItem {
    type V = PsdkWidgetValueItemView;

    open spec fn view(&self) -> PsdkWidgetValueItemView {
        PsdkWidgetValueItemView {
            index: self.index,
            value: self.value@,
        }
    }
}

impl Clone for PsdkWidgetValueItem {
    fn clone(&self) -> (copy: PsdkWidgetValueItem)
        ensures
            copy@ == self@,
    {
        self.duplicate()
    }
}

/// Written as an object with one member for each field; read from such an
/// object, in which other members are passed over, or from an array of the
/// fields in their order.
impl Wire for PsdkWidgetValueItem {
    type Model = PsdkWidgetValueItemView;

    open spec fn model(&self) -> PsdkWidgetValueItemView {
        self@
    }

    open spec fn decoded(json: JsonView) -> Option<PsdkWidgetValueItemView> {
        let index = field_as::<i32>(json, "index"@, 0, 2);
        let value = field_as::<Json>(json, "value"@, 1, 2);
        if index is Some && value is Some {
            Some(
                PsdkWidgetValueItemView {
                    index: index->0,
                    value: value->0,
                },
            )
        } else {
            None
        }
    }

    open spec fn encoded(value: PsdkWidgetValueItemView) -> JsonView {
        JsonView::Object(
            Map::empty()
                .insert("index"@, <i32 as Wire>::encoded(value.index))
                .insert("value"@, <Json as Wire>::encoded(value.value)),
        )
    }

    fn from_json(json: &Json) -> (value: Option<PsdkWidgetValueItem>) {
        let index = read_field::<i32>(json, "index", 0, 2)?;
        let value = read_field::<Json>(json, "value", 1, 2)?;
        Some(
            PsdkWidgetValueItem {
                index,
                value,
            },
        )
    }

    fn to_json(&self) -> (json: Json) {
        let mut members = start_object();
        put_field(&mut members, "index", &self.index);
        put_field(&mut members, "value", &self.value);
        finish_object(members)
    }

    fn duplicate(&self) -> (copy: PsdkWidgetValueItem) {
        PsdkWidgetValueItem {
            index: self.index,
            value: self.value.duplicate(),
        }
    }

    proof fn round_trip(value: PsdkWidgetValueItemView) {
        reveal_strlit("index");
        reveal_strlit("value");
        assert("index"@.len() == 5 && "index"@[0] == 'i');
        assert("value"@.len() == 5 && "value"@[0] == 'v');
        <i32 as Wire>::round_trip(value.index);
        <Json as Wire>::round_trip(value.value);
    }
}

/// The widget values of one PSDK payload.
#[derive(Debug, PartialEq)]
pub struct PsdkWidgetValue {
    pub psdk_index: i32,
    pub psdk_name: String,
    pub psdk_sn: String,
    pub psdk_version: String,
    pub psdk_lib_version: String,
    pub speaker: Speaker,
    pub values: Vec<PsdkWidgetValueItem>,
}

/// The mathematical model of a [`PsdkWidgetValue`].
pub struct PsdkWidgetValueView {
    pub psdk_index: i32,
    pub psdk_name: Seq<char>,
    pub psdk_sn: Seq<char>,
    pub psdk_version: Seq<char>,
    pub psdk_lib_version: Seq<char>,
    pub speaker: SpeakerView,
    pub values: Seq<PsdkWidgetValueItemView>,
}

impl View for PsdkWidgetValue {
    type V = PsdkWidgetValueView;

    open spec fn view(&self) -> PsdkWidgetValueView {
        PsdkWidgetValueView {
            psdk_index: self.psdk_index,
            psdk_name: self.psdk_name@,
            psdk_sn: self.psdk_sn@,
            psdk_version: self.psdk_version@,
            psdk_lib_version: self.psdk_lib_version@,
            speaker: self.speaker@,
            values: models(self.values@),
        }
    }
}

impl Clone for PsdkWidgetValue {
    fn clone(&self) -> (copy: PsdkWidgetValue)
        ensures
            copy@ == self@,
    {
        self.duplicate()
    }
}

/// Written as an object with one member for each field; read from such an
/// object, in which other members are passed over, or from an array of the
/// fields in their order.
impl Wire for PsdkWidgetValue {
    type Model = PsdkWidgetValueView;

    open spec fn model(&self) -> PsdkWidgetValueView {
        self@
    }

    open spec fn decoded(json: JsonView) -> Option<PsdkWidgetValueView> {
        let psdk_index = field_as::<i32>(json, "psdk_index"@, 0, 7);
        let psdk_name = field_as::<String>(json, "psdk_name"@, 1, 7);
        let psdk_sn = field_as::<String>(json, "psdk_sn"@, 2, 7);
        let psdk_version = field_as::<String>(json, "psdk_version"@, 3, 7);
        let psdk_lib_version = field_as::<String>(json, "psdk_lib_version"@, 4, 7);
        let speaker = field_as::<Speaker>(json, "speaker"@, 5, 7);
        let values = field_as::<Vec<PsdkWidgetValueItem>>(json, "values"@, 6, 7);
        if psdk_index is Some && psdk_name is Some && psdk_sn is Some && psdk_version is Some
            && psdk_lib_version is Some && speaker is Some && values is Some {
            Some(
                PsdkWidgetValueView {
                    psdk_index: psdk_index->0,
                    psdk_name: psdk_name->0,
                    psdk_sn: psdk_sn->0,
                    psdk_version: psdk_version->0,
                    psdk_lib_version: psdk_lib_version->0,
                    speaker: speaker->0,
                    values: values->0,
                },
            )
        } else {
            None
        }
    }

    open spec fn encoded(value: PsdkWidgetValueView) -> JsonView {
        JsonView::Object(
            Map::empty()
                .insert("psdk_index"@, <i32 as Wire>::encoded(value.psdk_index))
                .insert("psdk_name"@, <String as Wire>::encoded(value.psdk_name))
                .insert("psdk_sn"@, <String as Wire>::encoded(value.psdk_sn))
                .insert("psdk_version"@, <String as Wire>::encoded(value.psdk_version))
                .insert("psdk_lib_version"@, <String as Wire>::encoded(value.psdk_lib_version))
                .insert("speaker"@, <Speaker as Wire>::encoded(value.speaker))
                .insert("values"@, <Vec<PsdkWidgetValueItem> as Wire>::encoded(value.values)),
        )
    }

    fn from_json(json: &Json) -> (value: Option<PsdkWidgetValue>) {
        let psdk_index = read_field::<i32>(json, "psdk_index", 0, 7)?;
        let psdk_name = read_field::<String>(json, "psdk_name", 1, 7)?;
        let psdk_sn = read_field::<String>(json, "psdk_sn", 2, 7)?;
        let psdk_version = read_field::<String>(json, "psdk_version", 3, 7)?;
        let psdk_lib_version = read_field::<String>(json, "psdk_lib_version", 4, 7)?;
        let speaker = read_field::<Speaker>(json, "speaker", 5, 7)?;
        let values = read_field::<Vec<PsdkWidgetValueItem>>(json, "values", 6, 7)?;
        Some(
            PsdkWidgetValue {
                psdk_index,
                psdk_name,
                psdk_sn,
                psdk_version,
                psdk_lib_version,
                speaker,
                values,
            },
        )
    }

    fn to_json(&self) -> (json: Json) {
        let mut members = start_object();
        put_field(&mut members, "psdk_index", &self.psdk_index);
        put_field(&mut members, "psdk_name", &self.psdk_name);
        put_field(&mut members, "psdk_sn", &self.psdk_sn);
        put_field(&mut members, "psdk_version", &self.psdk_version);
        put_field(&mut members, "psdk_lib_version", &self.psdk_lib_version);
        put_field(&mut members, "speaker", &self.speaker);
        put_field(&mut members, "values", &self.values);
        finish_object(members)
    }

    fn duplicate(&self) -> (copy: PsdkWidgetValue) {
        PsdkWidgetValue {
            psdk_index: self.psdk_index,
            psdk_name: self.psdk_name.duplicate(),
            psdk_sn: self.psdk_sn.duplicate(),
            psdk_version: self.psdk_version.duplicate(),
            psdk_lib_version: self.psdk_lib_version.duplicate(),
            speaker: self.speaker.duplicate(),
            values: self.values.duplicate(),
        }
    }

    proof fn round_trip(value: PsdkWidgetValueView) {
        reveal_strlit("psdk_index");
        reveal_strlit("psdk_name");
        reveal_strlit("psdk_sn");
        reveal_strlit("psdk_version");
        reveal_strlit("psdk_lib_version");
        reveal_strlit("speaker");
        reveal_strlit("values");
        assert("psdk_index"@.len() == 10);
        assert("psdk_name"@.len() == 9);
        assert("psdk_sn"@.len() == 7 && "psdk_sn"@[0] == 'p');
        assert("psdk_version"@.len() == 12);
        assert("psdk_lib_version"@.len() == 16);
        assert("speaker"@.len() == 7 && "speaker"@[0] == 's');
        assert("values"@.len() == 6);
        <i32 as Wire>::round_trip(value.psdk_index);
        <String as Wire>::round_trip(value.psdk_name);
        <String as Wire>::round_trip(value.psdk_sn);
        <String as Wire>::round_trip(value.psdk_version);
        <String as Wire>::round_trip(value.psdk_lib_version);
        <Speaker as Wire>::round_trip(value.speaker);
        <Vec<PsdkWidgetValueItem> as Wire>::round_trip(value.values);
    }
}

} // verus!
