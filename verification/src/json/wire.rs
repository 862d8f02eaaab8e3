//! Typed values and their JSON form: what a document decodes to, what a value
//! encodes to, and that the first undoes the second.

use super::{lemma_array_view, views, Json, JsonView, Number};
use vstd::prelude::*;

verus! {

/// A type with a JSON form.
pub trait Wire: Sized {
    /// The mathematical model of a value.
    type Model;

    /// The model of this value.
    spec fn model(&self) -> Self::Model;

    /// The value that a document decodes to, or `None` where the document has
    /// not the shape of one.
    spec fn decoded(json: JsonView) -> Option<Self::Model>;

    /// The document that a value encodes to.
    spec fn encoded(value: Self::Model) -> JsonView;

    /// Decodes a document.
    fn from_json(json: &Json) -> (value: Option<Self>)
        ensures
            match value {
                Some(v) => Self::decoded(json@) == Some(v.model()),
                None => Self::decoded(json@) is None,
            },
    ;

    /// Encodes a value.
    fn to_json(&self) -> (json: Json)
        ensures
            json@ == Self::encoded(self.model()),
    ;

    /// A copy of the value.
    fn duplicate(&self) -> (copy: Self)
        ensures
            copy.model() == self.model(),
    ;

    /// Decoding what a value encodes to gives the value back.
    proof fn round_trip(value: Self::Model)
        ensures
            Self::decoded(Self::encoded(value)) == Some(value),
    ;
}

impl Wire for bool {
    type Model = bool;

    open spec fn model(&self) -> bool {
        *self
    }

    open spec fn decoded(json: JsonView) -> Option<bool> {
        match json {
            JsonView::Bool(b) => Some(b),
            _ => None,
        }
    }

    open spec fn encoded(value: bool) -> JsonView {
        JsonView::Bool(value)
    }

    fn from_json(json: &Json) -> (value: Option<bool>) {
        match json {
            Json::Bool(b) => Some(*b),
            _ => None,
        }
    }

    fn to_json(&self) -> (json: Json) {
        Json::Bool(*self)
    }

    fn duplicate(&self) -> (copy: bool) {
        *self
    }

    proof fn round_trip(value: bool) {
    }
}

/// The integer that a number stands for, or `None` for one that was written
/// with a fraction or an exponent.
pub open spec fn integer_of(number: Number) -> Option<int> {
    match number {
        Number::PosInt(n) => Some(n as int),
        Number::NegInt(n) => Some(n as int),
        Number::Float(_) => None,
    }
}

/// The number that an integer is written as.
pub open spec fn number_of_integer(value: int) -> Number {
    if value >= 0 {
        Number::PosInt(value as u64)
    } else {
        Number::NegInt(value as i64)
    }
}

/// The integer of a document within the bounds `low` and `high`, or `None`
/// for a document that is no integer or lies outside them.
pub open spec fn decoded_integer(json: JsonView, low: int, high: int) -> Option<int> {
    match json {
        JsonView::Number(number) => match integer_of(number) {
            Some(value) => if low <= value <= high {
                Some(value)
            } else {
                None
            },
            None => None,
        },
        _ => None,
    }
}

impl Wire for i32 {
    type Model = i32;

    open spec fn model(&self) -> i32 {
        *self
    }

    open spec fn decoded(json: JsonView) -> Option<i32> {
        match decoded_integer(json, i32::MIN as int, i32::MAX as int) {
            Some(value) => Some(value as i32),
            None => None,
        }
    }

    open spec fn encoded(value: i32) -> JsonView {
        JsonView::Number(number_of_integer(value as int))
    }

    fn from_json(json: &Json) -> (value: Option<i32>) {
        match json {
            Json::Number(Number::PosInt(n)) => if *n <= 0x7fff_ffff {
                Some(*n as i32)
            } else {
                None
            },
            Json::Number(Number::NegInt(n)) => if -0x8000_0000 <= *n && *n <= 0x7fff_ffff {
                Some(*n as i32)
            } else {
                None
            },
            _ => None,
        }
    }

    fn to_json(&self) -> (json: Json) {
        if *self >= 0 {
            Json::Number(Number::PosInt(*self as u64))
        } else {
            Json::Number(Number::NegInt(*self as i64))
        }
    }

    fn duplicate(&self) -> (copy: i32) {
        *self
    }

    proof fn round_trip(value: i32) {
    }
}

impl Wire for i64 {
    type Model = i64;

    open spec fn model(&self) -> i64 {
        *self
    }

    open spec fn decoded(json: JsonView) -> Option<i64> {
        match decoded_integer(json, i64::MIN as int, i64::MAX as int) {
            Some(value) => Some(value as i64),
            None => None,
        }
    }

    open spec fn encoded(value: i64) -> JsonView {
        JsonView::Number(number_of_integer(value as int))
    }

    fn from_json(json: &Json) -> (value: Option<i64>) {
        match json {
            Json::Number(Number::PosInt(n)) => if *n <= 0x7fff_ffff_ffff_ffff {
                Some(*n as i64)
            } else {
                None
            },
            Json::Number(Number::NegInt(n)) => Some(*n),
            _ => None,
        }
    }

    fn to_json(&self) -> (json: Json) {
        if *self >= 0 {
            Json::Number(Number::PosInt(*self as u64))
        } else {
            Json::Number(Number::NegInt(*self))
        }
    }

    fn duplicate(&self) -> (copy: i64) {
        *self
    }

    proof fn round_trip(value: i64) {
    }
}

impl Wire for u32 {
    type Model = u32;

    open spec fn model(&self) -> u32 {
        *self
    }

    open spec fn decoded(json: JsonView) -> Option<u32> {
        match decoded_integer(json, 0, u32::MAX as int) {
            Some(value) => Some(value as u32),
            None => None,
        }
    }

    open spec fn encoded(value: u32) -> JsonView {
        JsonView::Number(number_of_integer(value as int))
    }

    fn from_json(json: &Json) -> (value: Option<u32>) {
        match json {
            Json::Number(Number::PosInt(n)) => if *n <= 0xffff_ffff {
                Some(*n as u32)
            } else {
                None
            },
            Json::Number(Number::NegInt(n)) => if 0 <= *n && *n <= 0xffff_ffff {
                Some(*n as u32)
            } else {
                None
            },
            _ => None,
        }
    }

    fn to_json(&self) -> (json: Json) {
        Json::Number(Number::PosInt(*self as u64))
    }

    fn duplicate(&self) -> (copy: u32) {
        *self
    }

    proof fn round_trip(value: u32) {
    }
}

impl Wire for Number {
    type Model = Number;

    open spec fn model(&self) -> Number {
        *self
    }

    open spec fn decoded(json: JsonView) -> Option<Number> {
        match json {
            JsonView::Number(number) => Some(number),
            _ => None,
        }
    }

    open spec fn encoded(value: Number) -> JsonView {
        JsonView::Number(value)
    }

    fn from_json(json: &Json) -> (value: Option<Number>) {
        match json {
            Json::Number(number) => Some(*number),
            _ => None,
        }
    }

    fn to_json(&self) -> (json: Json) {
        Json::Number(*self)
    }

    fn duplicate(&self) -> (copy: Number) {
        *self
    }

    proof fn round_trip(value: Number) {
    }
}

impl Wire for String {
    type Model = Seq<char>;

    open spec fn model(&self) -> Seq<char> {
        self@
    }

    open spec fn decoded(json: JsonView) -> Option<Seq<char>> {
        match json {
            JsonView::Text(text) => Some(text),
            _ => None,
        }
    }

    open spec fn encoded(value: Seq<char>) -> JsonView {
        JsonView::Text(value)
    }

    fn from_json(json: &Json) -> (value: Option<String>) {
        match json {
            Json::Text(text) => Some(text.clone()),
            _ => None,
        }
    }

    fn to_json(&self) -> (json: Json) {
        Json::Text(self.clone())
    }

    fn duplicate(&self) -> (copy: String) {
        self.clone()
    }

    proof fn round_trip(value: Seq<char>) {
    }
}

impl Wire for Json {
    type Model = JsonView;

    open spec fn model(&self) -> JsonView {
        self@
    }

    open spec fn decoded(json: JsonView) -> Option<JsonView> {
        Some(json)
    }

    open spec fn encoded(value: JsonView) -> JsonView {
        value
    }

    fn from_json(json: &Json) -> (value: Option<Json>) {
        Some(json.clone())
    }

    fn to_json(&self) -> (json: Json) {
        self.clone()
    }

    fn duplicate(&self) -> (copy: Json) {
        self.clone()
    }

    proof fn round_trip(value: JsonView) {
    }
}

/// The models of a sequence of values, element by element.
pub open spec fn models<T: Wire>(items: Seq<T>) -> Seq<T::Model> {
    Seq::new(items.len(), |i: int| items[i].model())
}

impl<T: Wire> Wire for Vec<T> {
    type Model = Seq<T::Model>;

    open spec fn model(&self) -> Seq<T::Model> {
        models(self@)
    }

    open spec fn decoded(json: JsonView) -> Option<Seq<T::Model>> {
        match json {
            JsonView::Array(items) => if forall|i: int|
                0 <= i < items.len() ==> (#[trigger] T::decoded(items[i])) is Some {
                Some(Seq::new(items.len(), |i: int| T::decoded(items[i])->0))
            } else {
                None
            },
            _ => None,
        }
    }

    open spec fn encoded(value: Seq<T::Model>) -> JsonView {
        JsonView::Array(Seq::new(value.len(), |i: int| T::encoded(value[i])))
    }

    fn from_json(json: &Json) -> (value: Option<Vec<T>>) {
        match json {
            Json::Array(items) => {
                proof {
                    lemma_array_view(*items);
                }
                let mut out: Vec<T> = Vec::new();
                let mut i: usize = 0;
                while i < items.len()
                    invariant
                        i <= items.len(),
                        json@ == JsonView::Array(views(items@)),
                        out@.len() == i,
                        forall|k: int|
                            0 <= k < i ==> T::decoded(views(items@)[k]) == Some(
                                (#[trigger] out@[k]).model(),
                            ),
                    decreases items.len() - i,
                {
                    match T::from_json(&items[i]) {
                        Some(item) => {
                            out.push(item);
                        },
                        None => {
                            assert(T::decoded(views(items@)[i as int]) is None);
                            return None;
                        },
                    }
                    i += 1;
                }
                proof {
                    let source = views(items@);
                    assert forall|k: int| 0 <= k < source.len() implies (#[trigger] T::decoded(
                        source[k],
                    )) == Some(out@[k].model()) by {}
                    assert(Self::decoded(json@)->0 =~= models(out@));
                }
                Some(out)
            },
            _ => None,
        }
    }

    fn to_json(&self) -> (json: Json) {
        let mut out: Vec<Json> = Vec::new();
        let mut i: usize = 0;
        while i < self.len()
            invariant
                i <= self.len(),
                out@.len() == i,
                forall|k: int| 0 <= k < i ==> (#[trigger] out@[k])@ == T::encoded(self@[k].model()),
            decreases self.len() - i,
        {
            out.push(self[i].to_json());
            i += 1;
        }
        proof {
            lemma_array_view(out);
            assert(views(out@) =~= Self::encoded(self.model())->Array_0);
        }
        Json::Array(out)
    }

    fn duplicate(&self) -> (copy: Vec<T>) {
        let mut out: Vec<T> = Vec::new();
        let mut i: usize = 0;
        while i < self.len()
            invariant
                i <= self.len(),
                out@.len() == i,
                forall|k: int| 0 <= k < i ==> (#[trigger] out@[k]).model() == self@[k].model(),
            decreases self.len() - i,
        {
            out.push(self[i].duplicate());
            i += 1;
        }
        proof {
            assert(models(out@) =~= models(self@));
        }
        out
    }

    proof fn round_trip(value: Seq<T::Model>) {
        let items = Self::encoded(value)->Array_0;
        assert forall|i: int| 0 <= i < items.len() implies (#[trigger] T::decoded(items[i]))
            == Some(value[i]) by {
            T::round_trip(value[i]);
        }
        assert(Self::decoded(Self::encoded(value))->0 =~= value);
    }
}

} // verus!
