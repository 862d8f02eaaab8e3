//! A JSON document as a tree of plain values, with its mathematical model.

pub mod object;
pub mod parse;
pub mod wire;

use vstd::prelude::*;

verus! {

/// A JSON number, kept in the form in which it was written: a non-negative
/// integer, a negative integer, or a binary64 value held by its bit pattern.
#[derive(Clone, Copy, Debug, PartialEq, Eq, Structural)]
pub enum Number {
    PosInt(u64),
    NegInt(i64),
    Float(u64),
}

/// One member of a JSON object.
#[derive(Debug, PartialEq)]
pub struct Member {
    pub key: String,
    pub value: Json,
}

/// A JSON document.
#[derive(Debug, PartialEq)]
pub enum Json {
    Null,
    Bool(bool),
    Number(Number),
    Text(String),
    Array(Vec<Json>),
    Object(Vec<Member>),
}

/// The mathematical model of a JSON document. An object is a map from member
/// names to values: the order of its members carries no meaning.
pub enum JsonView {
    Null,
    Bool(bool),
    Number(Number),
    Text(Seq<char>),
    Array(Seq<JsonView>),
    Object(Map<Seq<char>, JsonView>),
}

/// The position of the last member of `members` named `key`, if there is one.
pub open spec fn last_named(members: Seq<Member>, key: Seq<char>) -> int {
    choose|i: int| is_last_named(members, key, i)
}

/// Whether the member at position `i` is named `key` and no member after it
/// is.
pub open spec fn is_last_named(members: Seq<Member>, key: Seq<char>, i: int) -> bool {
    &&& 0 <= i < members.len()
    &&& members[i].key@ == key
    &&& forall|j: int| i < j < members.len() ==> members[j].key@ != key
}

/// The model of a document. Of several members of an object with one name
/// the last one counts.
pub open spec fn model(json: Json) -> JsonView
    decreases json,
{
    match json {
        Json::Null => JsonView::Null,
        Json::Bool(b) => JsonView::Bool(b),
        Json::Number(n) => JsonView::Number(n),
        Json::Text(s) => JsonView::Text(s@),
        Json::Array(items) => JsonView::Array(
            Seq::new(
                items.len() as nat,
                |i: int|
                    if 0 <= i < items.len() {
                        model(items[i])
                    } else {
                        JsonView::Null
                    },
            ),
        ),
        Json::Object(members) => JsonView::Object(
            Map::new(
                |k: Seq<char>| exists|i: int| 0 <= i < members@.len() && members@[i].key@ == k,
                |k: Seq<char>|
                    {
                        let i = last_named(members@, k);
                        if 0 <= i < members.len() {
                            model(members[i].value)
                        } else {
                            JsonView::Null
                        }
                    },
            ),
        ),
    }
}

impl View for Json {
    type V = JsonView;

    open spec fn view(&self) -> JsonView {
        model(*self)
    }
}

impl Clone for Json {
    /// A copy of the document, equal to it member by member.
    fn clone(&self) -> (copy: Json)
        ensures
            copy@ == self@,
        decreases self,
    {
        match self {
            Json::Null => Json::Null,
            Json::Bool(b) => Json::Bool(*b),
            Json::Number(n) => Json::Number(*n),
            Json::Text(s) => Json::Text(s.clone()),
            Json::Array(items) => {
                let mut out: Vec<Json> = Vec::new();
                let mut i: usize = 0;
                while i < items.len()
                    invariant
                        i <= items.len(),
                        out@.len() == i,
                        forall|k: int| 0 <= k < i ==> (#[trigger] out@[k])@ == items@[k]@,
                        *self == Json::Array(*items),
                    decreases items.len() - i,
                {
                    assert(decreases_to!(*self => (*self)->Array_0[i as int]));
                    out.push(items[i].clone());
                    i += 1;
                }
                proof {
                    lemma_array_view(out);
                    lemma_array_view(*items);
                    assert(views(out@) =~= views(items@));
                }
                Json::Array(out)
            },
            Json::Object(members) => {
                let mut out: Vec<Member> = Vec::new();
                let mut i: usize = 0;
                while i < members.len()
                    invariant
                        i <= members.len(),
                        out@.len() == i,
                        forall|k: int|
                            0 <= k < i ==> (#[trigger] out@[k]).key@ == members@[k].key@
                                && out@[k].value@ == members@[k].value@,
                        *self == Json::Object(*members),
                    decreases members.len() - i,
                {
                    assert(decreases_to!(*self => (*self)->Object_0[i as int].value));
                    out.push(
                        Member { key: members[i].key.clone(), value: members[i].value.clone() },
                    );
                    i += 1;
                }
                proof {
                    lemma_object_view(out);
                    lemma_object_view(*members);
                    lemma_members_view_same(out@, members@);
                }
                Json::Object(out)
            },
        }
    }
}

impl Clone for Member {
    fn clone(&self) -> (copy: Member)
        ensures
            copy.key@ == self.key@,
            copy.value@ == self.value@,
    {
        Member { key: self.key.clone(), value: self.value.clone() }
    }
}

/// The models of a sequence of documents, element by element.
pub open spec fn views(items: Seq<Json>) -> Seq<JsonView> {
    Seq::new(items.len(), |i: int| items[i]@)
}

/// The object that a sequence of members stands for. Where a name occurs
/// more than once, its last member counts.
pub open spec fn members_view(members: Seq<Member>) -> Map<Seq<char>, JsonView> {
    Map::new(
        |k: Seq<char>| exists|i: int| 0 <= i < members.len() && members[i].key@ == k,
        |k: Seq<char>| members[last_named(members, k)].value@,
    )
}

/// A name that occurs among the members has a last occurrence.
pub proof fn lemma_last_named(members: Seq<Member>, key: Seq<char>)
    requires
        exists|i: int| 0 <= i < members.len() && members[i].key@ == key,
    ensures
        is_last_named(members, key, last_named(members, key)),
    decreases members.len(),
{
    let n = members.len() - 1;
    if members[n].key@ == key {
        assert(is_last_named(members, key, n));
    } else {
        let front = members.drop_last();
        let w = choose|i: int| 0 <= i < members.len() && members[i].key@ == key;
        assert(front[w].key@ == key);
        lemma_last_named(front, key);
        let l = last_named(front, key);
        assert(is_last_named(members, key, l)) by {
            assert(members[l] == front[l]);
            assert forall|j: int| l < j < members.len() implies members[j].key@ != key by {
                if j < n {
                    assert(front[j] == members[j]);
                }
            }
        }
    }
}

/// The model of an array is the sequence of its elements' models.
pub proof fn lemma_array_view(items: Vec<Json>)
    ensures
        Json::Array(items)@ == JsonView::Array(views(items@)),
{
    assert(Json::Array(items)@->Array_0 =~= views(items@));
}

/// The model of an object is the map that its members stand for.
pub proof fn lemma_object_view(members: Vec<Member>)
    ensures
        Json::Object(members)@ == JsonView::Object(members_view(members@)),
{
    let a = Json::Object(members)@->Object_0;
    let b = members_view(members@);
    assert forall|k: Seq<char>| a.contains_key(k) implies a[k] == b[k] by {
        lemma_last_named(members@, k);
    }
    assert(a =~= b);
}

/// Members that agree name by name and value by value stand for the same
/// object.
pub proof fn lemma_members_view_same(left: Seq<Member>, right: Seq<Member>)
    requires
        left.len() == right.len(),
        forall|i: int|
            0 <= i < left.len() ==> (#[trigger] left[i]).key@ == right[i].key@ && left[i].value@
                == right[i].value@,
    ensures
        members_view(left) == members_view(right),
{
    let a = members_view(left);
    let b = members_view(right);
    assert forall|k: Seq<char>| a.contains_key(k) <==> b.contains_key(k) by {
        if a.contains_key(k) {
            let i = choose|i: int| 0 <= i < left.len() && left[i].key@ == k;
            assert(right[i].key@ == k);
        }
        if b.contains_key(k) {
            let i = choose|i: int| 0 <= i < right.len() && right[i].key@ == k;
            assert(left[i].key@ == k);
        }
    }
    assert forall|k: Seq<char>| a.contains_key(k) implies a[k] == b[k] by {
        lemma_last_named(left, k);
        lemma_last_named(right, k);
        let l = last_named(left, k);
        let r = last_named(right, k);
        assert(left[r].key@ == k);
        assert(right[l].key@ == k);
        assert(l == r);
    }
    assert(a =~= b);
}

/// No members, no names.
pub proof fn lemma_members_view_empty(members: Seq<Member>)
    requires
        members.len() == 0,
    ensures
        members_view(members) == Map::<Seq<char>, JsonView>::empty(),
{
    assert(members_view(members) =~= Map::<Seq<char>, JsonView>::empty());
}

/// A member added at the end sets its name to its value and leaves the other
/// names as they were.
pub proof fn lemma_members_view_push(members: Seq<Member>, member: Member)
    ensures
        members_view(members.push(member)) == members_view(members).insert(
            member.key@,
            member.value@,
        ),
{
    let longer = members.push(member);
    let a = members_view(longer);
    let b = members_view(members).insert(member.key@, member.value@);
    let n = members.len() as int;
    assert forall|k: Seq<char>| a.contains_key(k) <==> b.contains_key(k) by {
        if a.contains_key(k) {
            let i = choose|i: int| 0 <= i < longer.len() && longer[i].key@ == k;
            if i < n {
                assert(members[i].key@ == k);
            }
        }
        if b.contains_key(k) {
            if k == member.key@ {
                assert(longer[n].key@ == k);
            } else {
                let i = choose|i: int| 0 <= i < members.len() && members[i].key@ == k;
                assert(longer[i].key@ == k);
            }
        }
    }
    assert forall|k: Seq<char>| a.contains_key(k) implies a[k] == b[k] by {
        lemma_last_named(longer, k);
        let l = last_named(longer, k);
        if k == member.key@ {
            assert(longer[n].key@ == k);
            assert(l == n);
        } else {
            assert(l < n);
            assert(members[l] == longer[l]);
            lemma_last_named(members, k);
            let m = last_named(members, k);
            assert(longer[m] == members[m]);
            assert(forall|j: int| l < j < members.len() ==> members[j] == longer[j]);
            assert(m == l);
        }
    }
    assert(a =~= b);
}

} // verus!
