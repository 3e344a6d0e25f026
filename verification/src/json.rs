//! JSON documents as values: what a request carries as parameters and what a
//! response carries as its result.

use crate::text::same_text;
use vstd::prelude::*;

verus! {

/// A JSON number: a non-negative integer, a negative integer, or any other
/// number, held by the bits of its double-precision form.
#[derive(Clone, Copy, Debug, PartialEq, Eq)]
pub enum Number {
    PosInt(u64),
    NegInt(i64),
    Real(u64),
}

impl Number {
    /// The number as a `u64`, for a non-negative integer.
    pub open spec fn to_u64(self) -> Option<u64> {
        match self {
            Number::PosInt(n) => Some(n),
            _ => None,
        }
    }

    /// The number as a `u64`, for a non-negative integer.
    pub fn as_u64(&self) -> (r: Option<u64>)
        ensures
            r == self.to_u64(),
    {
        match self {
            Number::PosInt(n) => Some(*n),
            _ => None,
        }
    }

    /// The integer `n` as a JSON number.
    pub open spec fn of_int(n: int) -> Number {
        if n >= 0 {
            Number::PosInt(n as u64)
        } else {
            Number::NegInt(n as i64)
        }
    }

    /// The integer `n` as a JSON number.
    pub fn from_i32(n: i32) -> (r: Number)
        ensures
            r == Number::of_int(n as int),
    {
        if n >= 0 {
            Number::PosInt(n as u64)
        } else {
            Number::NegInt(n as i64)
        }
    }
}

/// A JSON document. The members of an object stand in the order in which they
/// were written; where a name occurs twice, the later member is the one that
/// counts.
#[derive(Debug, PartialEq, Eq)]
pub enum Json {
    Null,
    Bool(bool),
    Number(Number),
    Text(String),
    Array(Vec<Json>),
    Object(Vec<(String, Json)>),
}

/// What a `Json` holds: the mathematical document.
pub enum JsonValue {
    Null,
    Bool(bool),
    Number(Number),
    Text(Seq<char>),
    Array(Seq<JsonValue>),
    Object(Seq<(Seq<char>, JsonValue)>),
}

/// The member of `members` that is named `key`: the last one of that name.
pub open spec fn member(members: Seq<(Seq<char>, JsonValue)>, key: Seq<char>) -> Option<JsonValue>
    decreases members.len(),
{
    if members.len() == 0 {
        None
    } else if members.last().0 == key {
        Some(members.last().1)
    } else {
        member(members.drop_last(), key)
    }
}

impl JsonValue {
    /// The member named `key` of an object; nothing for any other document.
    pub open spec fn get(self, key: Seq<char>) -> Option<JsonValue> {
        match self {
            JsonValue::Object(members) => member(members, key),
            _ => None,
        }
    }

    /// The text of a string.
    pub open spec fn text(self) -> Option<Seq<char>> {
        match self {
            JsonValue::Text(t) => Some(t),
            _ => None,
        }
    }

    /// The value of a non-negative integer.
    pub open spec fn to_u64(self) -> Option<u64> {
        match self {
            JsonValue::Number(n) => n.to_u64(),
            _ => None,
        }
    }

    /// The items of an array.
    pub open spec fn items(self) -> Option<Seq<JsonValue>> {
        match self {
            JsonValue::Array(items) => Some(items),
            _ => None,
        }
    }
}

/// What a list of documents holds.
pub open spec fn items_view(items: Seq<Json>) -> Seq<JsonValue> {
    Seq::new(items.len(), |i: int| items[i]@)
}

/// What a list of members holds.
pub open spec fn members_view(members: Seq<(String, Json)>) -> Seq<(Seq<char>, JsonValue)> {
    Seq::new(members.len(), |i: int| (members[i].0@, members[i].1@))
}

impl Json {
    /// The document that `self` holds.
    pub open spec fn value(self) -> JsonValue
        decreases self,
    {
        match self {
            Json::Null => JsonValue::Null,
            Json::Bool(b) => JsonValue::Bool(b),
            Json::Number(n) => JsonValue::Number(n),
            Json::Text(t) => JsonValue::Text(t@),
            Json::Array(items) => JsonValue::Array(
                Seq::new(
                    items@.len(),
                    |i: int|
                        if 0 <= i < items@.len() {
                            items@[i].value()
                        } else {
                            JsonValue::Null
                        },
                ),
            ),
            Json::Object(members) => JsonValue::Object(
                Seq::new(
                    members@.len(),
                    |i: int|
                        if 0 <= i < members@.len() {
                            (members@[i].0@, members@[i].1.value())
                        } else {
                            (Seq::empty(), JsonValue::Null)
                        },
                ),
            ),
        }
    }
}

impl View for Json {
    type V = JsonValue;

    open spec fn view(&self) -> JsonValue {
        self.value()
    }
}

/// An array holds the documents of its items, and an object those of its
/// members, each under its name.
pub proof fn lemma_view_of_parts(j: Json)
    ensures
        j matches Json::Array(items) ==> j@ == JsonValue::Array(items_view(items@)),
        j matches Json::Object(members) ==> j@ == JsonValue::Object(members_view(members@)),
{
    reveal_with_fuel(Json::value, 2);
    match j {
        Json::Array(items) => {
            assert(j@->Array_0 =~= items_view(items@));
        },
        Json::Object(members) => {
            assert(j@->Object_0 =~= members_view(members@));
        },
        _ => {},
    }
}

/// Taking a member of another name out of a list leaves the member named
/// `key` what it was.
pub proof fn lemma_member_after_remove(members: Seq<(Seq<char>, JsonValue)>, i: int, key: Seq<char>)
    requires
        0 <= i < members.len(),
        members[i].0 != key,
    ensures
        member(members.remove(i), key) == member(members, key),
    decreases members.len(),
{
    if i == members.len() - 1 {
        assert(members.remove(i) =~= members.drop_last());
    } else {
        let rest = members.remove(i);
        assert(rest.last() == members.last());
        assert(rest.drop_last() =~= members.drop_last().remove(i));
        lemma_member_after_remove(members.drop_last(), i, key);
    }
}

/// Where the member named `key` stands in `members`.
pub fn last_named(members: &Vec<(String, Json)>, key: &str) -> (r: Option<usize>)
    ensures
        match r {
            Some(i) => i < members.len() && members@[i as int].0@ == key@ && member(
                members_view(members@),
                key@,
            ) == Some(members@[i as int].1@),
            None => member(members_view(members@), key@) is None,
        },
{
    let ghost all = members_view(members@);
    assert(all.subrange(0, all.len() as int) =~= all);
    let mut i: usize = members.len();
    while i > 0
        invariant
            i <= members.len(),
            all == members_view(members@),
            member(all, key@) == member(all.subrange(0, i as int), key@),
        decreases i,
    {
        i -= 1;
        proof {
            let upto = all.subrange(0, i + 1);
            assert(upto.last() == all[i as int]);
            assert(upto.drop_last() =~= all.subrange(0, i as int));
        }
        if same_text(members[i].0.as_str(), key) {
            return Some(i);
        }
    }
    None
}

/// Takes the member named `key` out of `members`; the members of every other
/// name stay what they were.
pub fn take_member(members: &mut Vec<(String, Json)>, key: &str) -> (r: Option<Json>)
    ensures
        match r {
            Some(found) => member(members_view(old(members)@), key@) == Some(found@),
            None => member(members_view(old(members)@), key@) is None,
        },
        forall|other: Seq<char>|
            other != key@ ==> member(members_view(final(members)@), other) == #[trigger] member(
                members_view(old(members)@),
                other,
            ),
{
    match last_named(members, key) {
        Some(i) => {
            let taken = members.remove(i);
            proof {
                let before = members_view(old(members)@);
                assert(members_view(members@) =~= before.remove(i as int));
                assert forall|other: Seq<char>| other != key@ implies member(
                    members_view(members@),
                    other,
                ) == #[trigger] member(before, other) by {
                    lemma_member_after_remove(before, i as int, other);
                }
            }
            Some(taken.1)
        },
        None => None,
    }
}

impl Json {
    /// The member named `key`, where `self` is an object that has one.
    pub fn get(&self, key: &str) -> (r: Option<&Json>)
        ensures
            match r {
                Some(found) => self@.get(key@) == Some(found@),
                None => self@.get(key@) is None,
            },
    {
        proof {
            lemma_view_of_parts(*self);
        }
        match self {
            Json::Object(members) => match last_named(members, key) {
                Some(i) => Some(&members[i].1),
                None => None,
            },
            _ => None,
        }
    }

    /// The text, where `self` is a string.
    pub fn as_str(&self) -> (r: Option<&str>)
        ensures
            match r {
                Some(t) => self@.text() == Some(t@),
                None => self@.text() is None,
            },
    {
        match self {
            Json::Text(t) => Some(t.as_str()),
            _ => None,
        }
    }

    /// The value, where `self` is a non-negative integer.
    pub fn as_u64(&self) -> (r: Option<u64>)
        ensures
            r == self@.to_u64(),
    {
        match self {
            Json::Number(n) => n.as_u64(),
            _ => None,
        }
    }

    /// The items, where `self` is an array.
    pub fn as_array(&self) -> (r: Option<&Vec<Json>>)
        ensures
            match r {
                Some(items) => self@.items() == Some(items_view(items@)),
                None => self@.items() is None,
            },
    {
        proof {
            lemma_view_of_parts(*self);
        }
        match self {
            Json::Array(items) => Some(items),
            _ => None,
        }
    }

    /// The members, where `self` is an object.
    pub fn as_object(&self) -> (r: Option<&Vec<(String, Json)>>)
        ensures
            match r {
                Some(members) => self@ == JsonValue::Object(members_view(members@)),
                None => !(self@ is Object),
            },
    {
        proof {
            lemma_view_of_parts(*self);
        }
        match self {
            Json::Object(members) => Some(members),
            _ => None,
        }
    }

    /// A string document that holds `text`.
    pub fn text(text: &str) -> (r: Json)
        ensures
            r@ == JsonValue::Text(text@),
    {
        Json::Text(text.to_owned())
    }
}

impl Clone for Json {
    /// A copy that holds the same document.
    fn clone(&self) -> (r: Json)
        ensures
            r@ == self@,
        decreases self,
    {
        proof {
            lemma_view_of_parts(*self);
        }
        match self {
            Json::Null => Json::Null,
            Json::Bool(b) => Json::Bool(*b),
            Json::Number(n) => Json::Number(*n),
            Json::Text(t) => Json::Text(t.clone()),
            Json::Array(items) => {
                let mut copy: Vec<Json> = Vec::new();
                let mut i: usize = 0;
                while i < items.len()
                    invariant
                        i <= items.len(),
                        *self is Array,
                        self->Array_0 == *items,
                        copy.len() == i,
                        forall|k: int| 0 <= k < i ==> (#[trigger] copy@[k])@ == items@[k]@,
                    decreases items.len() - i,
                {
                    proof {
                        vstd::std_specs::vec::axiom_vec_index_decreases(*items, i as int);
                        assert(decreases_to!(*self => self->Array_0));
                    }
                    let item = items[i].clone();
                    copy.push(item);
                    i += 1;
                }
                let r = Json::Array(copy);
                proof {
                    lemma_view_of_parts(r);
                    assert(items_view(copy@) =~= items_view(items@));
                }
                r
            },
            Json::Object(members) => {
                let mut copy: Vec<(String, Json)> = Vec::new();
                let mut i: usize = 0;
                while i < members.len()
                    invariant
                        i <= members.len(),
                        *self is Object,
                        self->Object_0 == *members,
                        copy.len() == i,
                        forall|k: int|
                            0 <= k < i ==> (#[trigger] copy@[k]).0@ == members@[k].0@ && copy@[k].1@
                                == members@[k].1@,
                    decreases members.len() - i,
                {
                    proof {
                        vstd::std_specs::vec::axiom_vec_index_decreases(*members, i as int);
                        assert(decreases_to!(*self => self->Object_0));
                        assert(decreases_to!(members@[i as int] => members@[i as int].1));
                    }
                    let name = members[i].0.clone();
                    let value = members[i].1.clone();
                    copy.push((name, value));
                    i += 1;
                }
                let r = Json::Object(copy);
                proof {
                    lemma_view_of_parts(r);
                    assert(members_view(copy@) =~= members_view(members@));
                }
                r
            },
        }
    }
}

} // verus!
