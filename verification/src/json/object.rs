//! The fields of a record in its JSON form: looking them up by name or by
//! position, decoding them, and writing them as the members of an object.

use super::wire::Wire;
use super::{
    is_last_named, last_named, lemma_array_view, lemma_last_named, lemma_members_view_empty,
    lemma_members_view_push, lemma_object_view, members_view, Json, JsonView, Member,
};
use crate::text::same_text;
use vstd::prelude::*;

verus! {

/// The value of the member `name` of an object, or `None` where the document
/// is no object or has no such member.
pub open spec fn member_of(json: JsonView, name: Seq<char>) -> Option<JsonView> {
    match json {
        JsonView::Object(object) => if object.contains_key(name) {
            Some(object[name])
        } else {
            None
        },
        _ => None,
    }
}

/// The document of one field of a record with `width` fields: in an object
/// the member `name`, in an array of exactly `width` elements the element at
/// `index`.
pub open spec fn field_of(json: JsonView, name: Seq<char>, index: int, width: int) -> Option<
    JsonView,
> {
    match json {
        JsonView::Array(items) => if items.len() == width && 0 <= index < width {
            Some(items[index])
        } else {
            None
        },
        _ => member_of(json, name),
    }
}

/// What one field of a record decodes to, or `None` where the field is
/// missing or has not the shape of a `T`.
pub open spec fn field_as<T: Wire>(json: JsonView, name: Seq<char>, index: int, width: int)
    -> Option<T::Model> {
    match field_of(json, name, index, width) {
        Some(inner) => T::decoded(inner),
        None => None,
    }
}

/// What the member `name` of an object decodes to, or `None` where the
/// document is no object, the member is missing or has not the shape of a `T`.
pub open spec fn member_as<T: Wire>(json: JsonView, name: Seq<char>) -> Option<T::Model> {
    match member_of(json, name) {
        Some(inner) => T::decoded(inner),
        None => None,
    }
}

/// What an optional member of an object decodes to: nothing where the member
/// is missing or null, else what its value decodes to. `None` where the value
/// has not the shape of a `T`.
pub open spec fn optional_member_as<T: Wire>(json: JsonView, name: Seq<char>) -> Option<
    Option<T::Model>,
> {
    match member_of(json, name) {
        None => Some(None),
        Some(JsonView::Null) => Some(None),
        Some(inner) => match T::decoded(inner) {
            Some(value) => Some(Some(value)),
            None => None,
        },
    }
}

/// The document that an optional value encodes to: null for nothing.
pub open spec fn encoded_optional<T: Wire>(value: Option<T::Model>) -> JsonView {
    match value {
        Some(inner) => T::encoded(inner),
        None => JsonView::Null,
    }
}

/// Looks up the member `name` of an object.
pub fn member<'a>(json: &'a Json, name: &str) -> (found: Option<&'a Json>)
    ensures
        match found {
            Some(inner) => member_of(json@, name@) == Some(inner@),
            None => member_of(json@, name@) is None,
        },
{
    match json {
        Json::Object(members) => {
            proof {
                lemma_object_view(*members);
            }
            let mut i: usize = members.len();
            while i > 0
                invariant
                    i <= members.len(),
                    json@ == JsonView::Object(members_view(members@)),
                    forall|j: int| i <= j < members.len() ==> members@[j].key@ != name@,
                decreases i,
            {
                i -= 1;
                if same_text(members[i].key.as_str(), name) {
                    proof {
                        assert(is_last_named(members@, name@, i as int));
                        lemma_last_named(members@, name@);
                        assert(last_named(members@, name@) == i);
                    }
                    return Some(&members[i].value);
                }
            }
            None
        },
        _ => None,
    }
}

/// Looks up one field of a record with `width` fields, by name in an object
/// and by position in an array.
pub fn field<'a>(json: &'a Json, name: &str, index: usize, width: usize) -> (found: Option<
    &'a Json,
>)
    ensures
        match found {
            Some(inner) => field_of(json@, name@, index as int, width as int) == Some(inner@),
            None => field_of(json@, name@, index as int, width as int) is None,
        },
{
    match json {
        Json::Array(items) => {
            proof {
                lemma_array_view(*items);
            }
            if items.len() == width && index < width {
                Some(&items[index])
            } else {
                None
            }
        },
        _ => member(json, name),
    }
}

/// Decodes one field of a record with `width` fields.
pub fn read_field<T: Wire>(json: &Json, name: &str, index: usize, width: usize) -> (value: Option<
    T,
>)
    ensures
        match value {
            Some(v) => field_as::<T>(json@, name@, index as int, width as int) == Some(v.model()),
            None => field_as::<T>(json@, name@, index as int, width as int) is None,
        },
{
    match field(json, name, index, width) {
        Some(inner) => T::from_json(inner),
        None => None,
    }
}

/// Decodes the member `name` of an object.
pub fn read_member<T: Wire>(json: &Json, name: &str) -> (value: Option<T>)
    ensures
        match value {
            Some(v) => member_as::<T>(json@, name@) == Some(v.model()),
            None => member_as::<T>(json@, name@) is None,
        },
{
    match member(json, name) {
        Some(inner) => T::from_json(inner),
        None => None,
    }
}

/// Decodes an optional member of an object.
pub fn read_optional_member<T: Wire>(json: &Json, name: &str) -> (value: Option<Option<T>>)
    ensures
        match value {
            Some(Some(v)) => optional_member_as::<T>(json@, name@) == Some(Some(v.model())),
            Some(None) => optional_member_as::<T>(json@, name@) == Some(None::<T::Model>),
            None => optional_member_as::<T>(json@, name@) is None,
        },
{
    match member(json, name) {
        None => Some(None),
        Some(Json::Null) => Some(None),
        Some(inner) => match T::from_json(inner) {
            Some(value) => Some(Some(value)),
            None => None,
        },
    }
}

/// Starts an object with no members.
pub fn start_object() -> (members: Vec<Member>)
    ensures
        members_view(members@) == Map::<Seq<char>, JsonView>::empty(),
{
    let members: Vec<Member> = Vec::new();
    proof {
        lemma_members_view_empty(members@);
    }
    members
}

/// Adds the member `name` with the encoding of `value`. A member of that
/// name added before is overridden.
pub fn put_field<T: Wire>(members: &mut Vec<Member>, name: &str, value: &T)
    ensures
        members_view(final(members)@) == members_view(old(members)@).insert(
            name@,
            T::encoded(value.model()),
        ),
{
    let member = Member { key: name.to_owned(), value: value.to_json() };
    proof {
        lemma_members_view_push(members@, member);
    }
    members.push(member);
}

/// Adds the member `name` with the encoding of an optional value.
pub fn put_optional_field<T: Wire>(members: &mut Vec<Member>, name: &str, value: &Option<T>)
    ensures
        members_view(final(members)@) == members_view(old(members)@).insert(
            name@,
            encoded_optional::<T>(
                match *value {
                    Some(v) => Some(v.model()),
                    None => None,
                },
            ),
        ),
{
    let inner = match value {
        Some(v) => v.to_json(),
        None => Json::Null,
    };
    let member = Member { key: name.to_owned(), value: inner };
    proof {
        lemma_members_view_push(members@, member);
    }
    members.push(member);
}

/// Closes an object.
pub fn finish_object(members: Vec<Member>) -> (json: Json)
    ensures
        json@ == JsonView::Object(members_view(members@)),
{
    proof {
        lemma_object_view(members);
    }
    Json::Object(members)
}

} // verus!
