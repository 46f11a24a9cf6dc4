//! A JSON document as the decoders read it.
use vstd::prelude::*;

verus! {

/// A JSON document in memory.
///
/// An object keeps its members in the order of the text, repeated keys
/// included. A number with a fraction or an exponent, or one too large for
/// 64 bits, is `Decimal`: no model field holds one, so its digits are not kept.
pub enum Json {
    Null,
    Bool(bool),
    Integer(i128),
    Decimal,
    Text(String),
    Array(Vec<Json>),
    Object(Vec<Member>),
}

/// One `key: value` pair of a JSON object.
pub struct Member {
    pub key: String,
    pub value: Json,
}

/// The mathematical value of a [`Json`] document.
pub ghost enum JsonValue {
    Null,
    Bool(bool),
    Integer(int),
    Decimal,
    Text(Seq<char>),
    Array(Seq<JsonValue>),
    Object(Seq<MemberValue>),
}

/// The mathematical value of a [`Member`].
pub ghost struct MemberValue {
    pub key: Seq<char>,
    pub value: JsonValue,
}

impl DeepView for Json {
    type V = JsonValue;

    open spec fn deep_view(&self) -> JsonValue
        decreases self,
    {
        match self {
            Json::Null => JsonValue::Null,
            Json::Bool(b) => JsonValue::Bool(*b),
            Json::Integer(n) => JsonValue::Integer(*n as int),
            Json::Decimal => JsonValue::Decimal,
            Json::Text(s) => JsonValue::Text(s@),
            Json::Array(items) => JsonValue::Array(
                Seq::new(
                    items@.len(),
                    |i: int|
                        if 0 <= i < items@.len() {
                            items@[i].deep_view()
                        } else {
                            JsonValue::Null
                        },
                ),
            ),
            Json::Object(members) => JsonValue::Object(
                Seq::new(
                    members@.len(),
                    |i: int|
                        if 0 <= i < members@.len() {
                            MemberValue {
                                key: members@[i].key@,
                                value: members@[i].value.deep_view(),
                            }
                        } else {
                            MemberValue { key: Seq::empty(), value: JsonValue::Null }
                        },
                ),
            ),
        }
    }
}

/// The members of an object by their values, in the order of the text.
pub open spec fn pairs(members: Seq<Member>) -> Seq<MemberValue> {
    Seq::new(
        members.len(),
        |i: int| MemberValue { key: members[i].key@, value: members[i].value.deep_view() },
    )
}

/// The values of the elements of an array, in order.
pub open spec fn values(items: Seq<Json>) -> Seq<JsonValue> {
    Seq::new(items.len(), |i: int| items[i].deep_view())
}

/// The values that the members named `key` hold, in the order of the text.
pub open spec fn bound(members: Seq<MemberValue>, key: Seq<char>) -> Seq<JsonValue>
    decreases members.len(),
{
    if members.len() == 0 {
        Seq::empty()
    } else if members.last().key == key {
        bound(members.drop_last(), key).push(members.last().value)
    } else {
        bound(members.drop_last(), key)
    }
}

/// A member of another name does not change what is bound to `key`, and a
/// member of that name is bound after those before it.
pub proof fn law_bound_by_last_member(
    members: Seq<MemberValue>,
    last: MemberValue,
    key: Seq<char>,
)
    ensures
        last.key != key ==> bound(members.push(last), key) == bound(members, key),
        last.key == key ==> bound(members.push(last), key) == bound(members, key).push(last.value),
{
    assert(members.push(last).drop_last() =~= members);
}

/// An object's value is the sequence of its members' values.
pub proof fn lemma_object_value(members: Vec<Member>)
    ensures
        Json::Object(members).deep_view() == JsonValue::Object(pairs(members@)),
{
    let seen = Json::Object(members).deep_view()->Object_0;
    assert(seen =~= pairs(members@));
}

/// An array's value is the sequence of its elements' values.
pub proof fn lemma_array_value(items: Vec<Json>)
    ensures
        Json::Array(items).deep_view() == JsonValue::Array(values(items@)),
{
    assert(Json::Array(items).deep_view()->Array_0 =~= values(items@));
}

/// What a search for a key in an object comes to.
pub enum Found<'a> {
    /// no member has the key
    Absent,
    /// exactly one member has it, with this value
    Once(&'a Json),
    /// two members or more have it
    Repeated,
}

/// Looks `key` up among the members of an object.
pub fn find<'a>(members: &'a Vec<Member>, key: &str) -> (found: Found<'a>)
    ensures
        match found {
            Found::Absent => bound(pairs(members@), key@).len() == 0,
            Found::Once(value) => bound(pairs(members@), key@) == seq![value.deep_view()],
            Found::Repeated => bound(pairs(members@), key@).len() >= 2,
        },
{
    let wanted = String::from_str(key);
    let mut found = Found::Absent;
    let mut i: usize = 0;
    assert(pairs(members@).take(0) =~= Seq::empty());
    while i < members.len()
        invariant
            i <= members.len(),
            wanted@ == key@,
            match found {
                Found::Absent => bound(pairs(members@).take(i as int), key@).len() == 0,
                Found::Once(value) => bound(pairs(members@).take(i as int), key@)
                    == seq![value.deep_view()],
                Found::Repeated => bound(pairs(members@).take(i as int), key@).len() >= 2,
            },
        decreases members.len() - i,
    {
        proof {
            let ghost next = pairs(members@).take(i + 1);
            assert(next.drop_last() =~= pairs(members@).take(i as int));
            assert(next.last() == pairs(members@)[i as int]);
        }
        if members[i].key == wanted {
            found = match found {
                Found::Absent => Found::Once(&members[i].value),
                _ => Found::Repeated,
            };
        }
        i += 1;
    }
    assert(pairs(members@).take(i as int) =~= pairs(members@));
    found
}

} // verus!
