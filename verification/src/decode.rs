//! Reading typed values out of a JSON document.
use crate::error::Error;
use crate::json::{bound, find, pairs, Found, Json, JsonValue, Member, MemberValue};
use vstd::prelude::*;

verus! {

/// A type that can be read out of a JSON document.
pub trait Decode: DeepView + Sized {
    /// What a document stands for as a value of this type; `None` where it
    /// does not have the type's shape.
    spec fn parse(value: JsonValue) -> Option<Self::V>;

    /// Reads a value of this type out of `json`.
    fn decode(json: &Json) -> (decoded: Result<Self, Error>)
        ensures
            decoded_as(decoded, Self::parse(json.deep_view())),
    ;
}

/// `decoded` is what a decoder owes for a document that parses to `parsed`:
/// a value with that model, or [`Error::Decode`] where there is none.
pub open spec fn decoded_as<T: DeepView>(decoded: Result<T, Error>, parsed: Option<T::V>) -> bool {
    match parsed {
        Some(model) => decoded is Ok && decoded->Ok_0.deep_view() == model,
        None => decoded == Err::<T, Error>(Error::Decode),
    }
}

impl Decode for bool {
    open spec fn parse(value: JsonValue) -> Option<bool> {
        match value {
            JsonValue::Bool(b) => Some(b),
            _ => None,
        }
    }

    fn decode(json: &Json) -> (decoded: Result<bool, Error>) {
        match json {
            Json::Bool(b) => Ok(*b),
            _ => Err(Error::Decode),
        }
    }
}

impl Decode for u32 {
    open spec fn parse(value: JsonValue) -> Option<u32> {
        match value {
            JsonValue::Integer(n) if 0 <= n <= u32::MAX => Some(n as u32),
            _ => None,
        }
    }

    fn decode(json: &Json) -> (decoded: Result<u32, Error>) {
        match json {
            Json::Integer(n) => {
                if 0 <= *n && *n <= 0xffff_ffff {
                    Ok(*n as u32)
                } else {
                    Err(Error::Decode)
                }
            },
            _ => Err(Error::Decode),
        }
    }
}

impl Decode for i64 {
    open spec fn parse(value: JsonValue) -> Option<i64> {
        match value {
            JsonValue::Integer(n) if i64::MIN <= n <= i64::MAX => Some(n as i64),
            _ => None,
        }
    }

    fn decode(json: &Json) -> (decoded: Result<i64, Error>) {
        match json {
            Json::Integer(n) => {
                if -0x8000_0000_0000_0000 <= *n && *n <= 0x7fff_ffff_ffff_ffff {
                    Ok(*n as i64)
                } else {
                    Err(Error::Decode)
                }
            },
            _ => Err(Error::Decode),
        }
    }
}

impl Decode for String {
    open spec fn parse(value: JsonValue) -> Option<Seq<char>> {
        match value {
            JsonValue::Text(s) => Some(s),
            _ => None,
        }
    }

    fn decode(json: &Json) -> (decoded: Result<String, Error>) {
        match json {
            Json::Text(s) => Ok(s.clone()),
            _ => Err(Error::Decode),
        }
    }
}

/// What an object holds under `key` as a `T`: the one member of that name,
/// parsed. A missing member, a repeated one and one of another shape give `None`.
pub open spec fn field<T: Decode>(members: Seq<MemberValue>, key: Seq<char>) -> Option<T::V> {
    let found = bound(members, key);
    if found.len() == 1 {
        T::parse(found[0])
    } else {
        None
    }
}

/// What an object holds under `key` as an optional `T`: nothing where the
/// member is missing or `null`, else the one member of that name, parsed. The
/// outer `None` stands for a repeated member and for one of another shape.
pub open spec fn optional_field<T: Decode>(members: Seq<MemberValue>, key: Seq<char>) -> Option<
    Option<T::V>,
> {
    let found = bound(members, key);
    if found.len() == 0 {
        Some(None)
    } else if found.len() == 1 {
        if found[0] is Null {
            Some(None)
        } else {
            match T::parse(found[0]) {
                Some(model) => Some(Some(model)),
                None => None,
            }
        }
    } else {
        None
    }
}

/// What an object holds under `key` as a flag: `false` where the member is
/// missing, else the one member of that name, which must be a boolean.
pub open spec fn flag_field(members: Seq<MemberValue>, key: Seq<char>) -> Option<bool> {
    let found = bound(members, key);
    if found.len() == 0 {
        Some(false)
    } else {
        field::<bool>(members, key)
    }
}

/// Reads the member `key`, which must be there once, as a `T`.
pub fn read<T: Decode>(members: &Vec<Member>, key: &str) -> (decoded: Result<T, Error>)
    ensures
        decoded_as(decoded, field::<T>(pairs(members@), key@)),
{
    match find(members, key) {
        Found::Once(json) => T::decode(json),
        _ => Err(Error::Decode),
    }
}

/// Reads the member `key` as a `T` where it is there and not `null`.
pub fn read_optional<T: Decode>(members: &Vec<Member>, key: &str) -> (decoded: Result<
    Option<T>,
    Error,
>)
    ensures
        decoded_as(decoded, optional_field::<T>(pairs(members@), key@)),
{
    match find(members, key) {
        Found::Absent => Ok(None),
        Found::Once(json) => match json {
            Json::Null => Ok(None),
            _ => match T::decode(json) {
                Ok(value) => Ok(Some(value)),
                Err(e) => Err(e),
            },
        },
        Found::Repeated => Err(Error::Decode),
    }
}

/// Reads the flag `key`, which is `false` where the object leaves it out.
pub fn read_flag(members: &Vec<Member>, key: &str) -> (decoded: Result<bool, Error>)
    ensures
        decoded_as(decoded, flag_field(pairs(members@), key@)),
{
    match find(members, key) {
        Found::Absent => Ok(crate::default_false()),
        Found::Once(json) => bool::decode(json),
        Found::Repeated => Err(Error::Decode),
    }
}

/// A plain value parses to the very value that the document holds: a text
/// to its characters, a boolean to itself, a whole number to itself where it
/// fits the type.
pub proof fn law_plain_values_are_literal(value: JsonValue)
    ensures
        forall|s: Seq<char>| String::parse(value) == Some(s) <==> value == JsonValue::Text(s),
        forall|b: bool| bool::parse(value) == Some(b) <==> value == JsonValue::Bool(b),
        forall|n: u32| u32::parse(value) == Some(n) <==> value == JsonValue::Integer(n as int),
        forall|n: i64| i64::parse(value) == Some(n) <==> value == JsonValue::Integer(n as int),
{
}

/// A member that is read is the one member of its name, and what is read is
/// what that member parses to.
pub proof fn law_field_is_the_member<T: Decode>(members: Seq<MemberValue>, key: Seq<char>)
    requires
        field::<T>(members, key) is Some,
    ensures
        bound(members, key).len() == 1,
        field::<T>(members, key) == T::parse(bound(members, key)[0]),
        optional_field::<T>(members, key) == if bound(members, key)[0] is Null {
            Some(None::<T::V>)
        } else {
            Some(field::<T>(members, key))
        },
{
}

} // verus!
