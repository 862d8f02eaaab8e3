//! Reading JSON text. The text is parsed by `serde_json`; the value it hands
//! back is then copied, level by level, into a [`Json`] tree.

use super::{
    lemma_array_view, lemma_members_view_empty, lemma_members_view_push, lemma_object_view,
    members_view, views, Json, JsonView, Member, Number,
};
use vstd::prelude::*;

verus! {

/// `serde_json::Value`, carried as an opaque value: what it holds is known
/// through [`document`] alone.
#[verifier::external_type_specification]
#[verifier::external_body]
pub struct ExValue(serde_json::Value);

/// `serde_json::Map`, carried as an opaque value: what it holds is known
/// through [`object_members`] alone.
#[verifier::external_type_specification]
#[verifier::external_body]
#[verifier::reject_recursive_types(K)]
#[verifier::reject_recursive_types(V)]
pub struct ExMap<K, V>(serde_json::Map<K, V>);

/// `serde_json::Error`, carried as an opaque value and never looked into.
#[verifier::external_type_specification]
#[verifier::external_body]
pub struct ExError(serde_json::Error);

/// The document that a `serde_json::Value` holds.
pub uninterp spec fn document(value: serde_json::Value) -> JsonView;

/// The members that the map of a JSON object holds.
pub uninterp spec fn object_members(map: serde_json::Map<String, serde_json::Value>) -> Map<
    Seq<char>,
    JsonView,
>;

/// The document that `serde_json` reads from a text, or `None` where it
/// rejects the text.
pub uninterp spec fn parsed(text: Seq<char>) -> Option<JsonView>;

/// Whether `entries` lists the members of the object `object`: each entry is a
/// member with its value, and no member is left out.
pub open spec fn lists_members(
    entries: Seq<(&String, &serde_json::Value)>,
    object: Map<Seq<char>, JsonView>,
) -> bool {
    &&& forall|i: int|
        0 <= i < entries.len() ==> object.contains_key(#[trigger] entries[i].0@) && document(
            *entries[i].1,
        ) == object[entries[i].0@]
    &&& forall|k: Seq<char>| #[trigger]
        object.contains_key(k) ==> exists|i: int| 0 <= i < entries.len() && entries[i].0@ == k
}

/// Calls `serde_json::from_str` for a `serde_json::Value`. Its result depends
/// on the text alone: the value's document is the one named by [`parsed`], and
/// an error comes exactly where `parsed` is `None`.
#[verifier::external_body]
fn value_from_text(text: &str) -> (r: Result<serde_json::Value, serde_json::Error>)
    ensures
        match r {
            Ok(value) => parsed(text@) == Some(document(value)),
            Err(_) => parsed(text@) is None,
        },
{
    serde_json::from_str::<serde_json::Value>(text)
}

/// Calls `serde_json::Value::is_null`: true exactly for the null document.
#[verifier::external_body]
fn value_is_null(value: &serde_json::Value) -> (r: bool)
    ensures
        r == (document(*value) is Null),
{
    value.is_null()
}

/// Calls `serde_json::Value::as_bool`: the boolean of a boolean document,
/// `None` for any other.
#[verifier::external_body]
fn value_as_bool(value: &serde_json::Value) -> (r: Option<bool>)
    ensures
        r == match document(*value) {
            JsonView::Bool(b) => Some(b),
            _ => None,
        },
{
    value.as_bool()
}

/// Calls `serde_json::Value::as_u64`: the integer of a number that was read
/// as a non-negative integer, `None` for any other document.
#[verifier::external_body]
fn value_as_u64(value: &serde_json::Value) -> (r: Option<u64>)
    ensures
        r == match document(*value) {
            JsonView::Number(Number::PosInt(n)) => Some(n),
            _ => None,
        },
{
    value.as_u64()
}

/// Calls `serde_json::Value::as_i64`: the integer of a number that was read
/// as an integer and fits `i64`, `None` for any other document.
#[verifier::external_body]
fn value_as_i64(value: &serde_json::Value) -> (r: Option<i64>)
    ensures
        r == match document(*value) {
            JsonView::Number(Number::PosInt(n)) => if n <= i64::MAX {
                Some(n as i64)
            } else {
                None
            },
            JsonView::Number(Number::NegInt(n)) => Some(n),
            _ => None,
        },
{
    value.as_i64()
}

/// Calls `serde_json::Value::as_f64` and hands the result out by its bit
/// pattern: `Some` exactly for a number, and for a number that was read as a
/// binary64 value the bits of that value.
#[verifier::external_body]
fn value_as_float_bits(value: &serde_json::Value) -> (r: Option<u64>)
    ensures
        r is Some <==> document(*value) is Number,
        document(*value) matches JsonView::Number(Number::Float(bits)) ==> r == Some(bits),
{
    value.as_f64().map(|x| x.to_bits())
}

/// Calls `serde_json::Value::as_str`: the text of a string document, `None`
/// for any other.
#[verifier::external_body]
fn value_as_str(value: &serde_json::Value) -> (r: Option<&str>)
    ensures
        match document(*value) {
            JsonView::Text(s) => r is Some && r->0@ == s,
            _ => r is None,
        },
{
    value.as_str()
}

/// Calls `serde_json::Value::as_array`: the elements of an array document, in
/// order, `None` for any other.
#[verifier::external_body]
fn value_as_array(value: &serde_json::Value) -> (r: Option<&Vec<serde_json::Value>>)
    ensures
        match document(*value) {
            JsonView::Array(items) => {
                &&& r is Some
                &&& r->0@.len() == items.len()
                &&& forall|i: int|
                    0 <= i < items.len() ==> document(#[trigger] r->0@[i]) == items[i]
            },
            _ => r is None,
        },
{
    value.as_array()
}

/// Calls `serde_json::Value::as_object`: the map of an object document,
/// `None` for any other.
#[verifier::external_body]
fn value_as_object(value: &serde_json::Value) -> (r: Option<
    &serde_json::Map<String, serde_json::Value>,
>)
    ensures
        match document(*value) {
            JsonView::Object(object) => r is Some && object_members(*r->0) == object,
            _ => r is None,
        },
{
    value.as_object()
}

/// Calls `serde_json::Map::iter` and collects what it yields: every member of
/// the map, each name with its value.
#[verifier::external_body]
fn map_entries<'a>(map: &'a serde_json::Map<String, serde_json::Value>) -> (entries: Vec<
    (&'a String, &'a serde_json::Value),
>)
    ensures
        lists_members(entries@, object_members(*map)),
{
    map.iter().collect()
}

/// The object listed by `entries` has finitely many names.
proof fn lemma_listed_object_finite(
    entries: Seq<(&String, &serde_json::Value)>,
    object: Map<Seq<char>, JsonView>,
)
    requires
        lists_members(entries, object),
    ensures
        object.dom().finite(),
{
    let names = Seq::new(entries.len(), |i: int| entries[i].0@);
    vstd::seq_lib::seq_to_set_is_finite(names);
    assert forall|k: Seq<char>| object.dom().contains(k) implies names.to_set().contains(k) by {
        let i = choose|i: int| 0 <= i < entries.len() && entries[i].0@ == k;
        assert(names[i] == k);
    }
    vstd::set_lib::lemma_len_subset(object.dom(), names.to_set());
}

/// Copies the document of a `serde_json::Value` into a tree of the library's
/// own.
fn lift(value: &serde_json::Value) -> (json: Json)
    ensures
        json@ == document(*value),
    decreases document(*value),
{
    if value_is_null(value) {
        return Json::Null;
    }
    if let Some(b) = value_as_bool(value) {
        return Json::Bool(b);
    }
    if let Some(text) = value_as_str(value) {
        return Json::Text(text.to_owned());
    }
    if let Some(n) = value_as_u64(value) {
        return Json::Number(Number::PosInt(n));
    }
    if let Some(n) = value_as_i64(value) {
        return Json::Number(Number::NegInt(n));
    }
    if let Some(bits) = value_as_float_bits(value) {
        return Json::Number(Number::Float(bits));
    }
    if let Some(items) = value_as_array(value) {
        let ghost source = document(*value)->Array_0;
        let mut out: Vec<Json> = Vec::new();
        let mut i: usize = 0;
        while i < items.len()
            invariant
                i <= items.len(),
                document(*value) == JsonView::Array(source),
                items@.len() == source.len(),
                forall|k: int|
                    0 <= k < source.len() ==> document(#[trigger] items@[k]) == source[k],
                out@.len() == i,
                forall|k: int| 0 <= k < i ==> (#[trigger] out@[k])@ == source[k],
            decreases items.len() - i,
        {
            proof {
                assert(document(items@[i as int]) == source[i as int]);
                assert(decreases_to!(document(*value) => document(*value)->Array_0[i as int]));
            }
            let item = lift(&items[i]);
            out.push(item);
            i += 1;
        }
        proof {
            lemma_array_view(out);
            assert(views(out@) =~= source);
        }
        return Json::Array(out);
    }
    match value_as_object(value) {
        Some(map) => {
            let entries = map_entries(map);
            let ghost source = document(*value)->Object_0;
            proof {
                lemma_listed_object_finite(entries@, source);
            }
            let mut out: Vec<Member> = Vec::new();
            let mut i: usize = 0;
            proof {
                lemma_members_view_empty(out@);
            }
            while i < entries.len()
                invariant
                    i <= entries.len(),
                    document(*value) == JsonView::Object(source),
                    source.dom().finite(),
                    lists_members(entries@, source),
                    forall|k: Seq<char>| #[trigger]
                        members_view(out@).contains_key(k) <==> exists|j: int|
                            0 <= j < i && entries@[j].0@ == k,
                    forall|k: Seq<char>| #[trigger]
                        members_view(out@).contains_key(k) ==> members_view(out@)[k] == source[k],
                decreases entries.len() - i,
            {
                let (name, inner) = entries[i];
                let ghost before = out@;
                proof {
                    assert(source.contains_key(entries@[i as int].0@));
                    assert(document(*inner) == source[name@]);
                    vstd::map::axiom_map_index_decreases_finite(source, name@);
                    assert(decreases_to!(document(*value) => document(*value)->Object_0[name@]));
                }
                let member = Member { key: name.clone(), value: lift(inner) };
                out.push(member);
                proof {
                    lemma_members_view_push(before, member);
                    let after = members_view(out@);
                    assert forall|k: Seq<char>| #[trigger]
                        after.contains_key(k) <==> exists|j: int|
                            0 <= j < i + 1 && entries@[j].0@ == k by {
                        if after.contains_key(k) && k != name@ {
                            assert(members_view(before).contains_key(k));
                        }
                        if exists|j: int| 0 <= j < i + 1 && entries@[j].0@ == k {
                            let j = choose|j: int| 0 <= j < i + 1 && entries@[j].0@ == k;
                            if j < i {
                                assert(members_view(before).contains_key(k));
                            }
                        }
                    }
                }
                i += 1;
            }
            proof {
                lemma_object_view(out);
                assert(members_view(out@) =~= source);
            }
            Json::Object(out)
        },
        None => {
            // Every document is a null, a boolean, a number, a text, an
            // array or an object, and each of them has returned above.
            proof {
                assert(false);
            }
            Json::Null
        },
    }
}

/// Parses a JSON text. The result is the document that `serde_json` reads
/// from the text, and `None` exactly where it rejects the text.
pub fn parse(text: &str) -> (json: Option<Json>)
    ensures
        match json {
            Some(j) => parsed(text@) == Some(j@),
            None => parsed(text@) is None,
        },
{
    match value_from_text(text) {
        Ok(value) => Some(lift(&value)),
        Err(_) => None,
    }
}

} // verus!
