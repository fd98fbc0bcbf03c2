//! JSON documents as the Spotify Web API sends and takes them, with the
//! lookups its answers are read with.

use vstd::prelude::*;
use crate::text::same_text;

verus! {

/// A JSON value. Numbers that fit an `i64` are kept as such; any other
/// number is kept as its text.
#[derive(Debug, PartialEq, Eq)]
pub enum Json {
    Null,
    Bool(bool),
    Int(i64),
    OtherNumber(String),
    Str(String),
    Array(Vec<Json>),
    Object(Vec<(String, Json)>),
}

/// The value of the first member named `key`.
pub open spec fn lookup(fields: Seq<(String, Json)>, key: Seq<char>) -> Option<Json>
    decreases fields.len(),
{
    if fields.len() == 0 {
        None
    } else if fields[0].0@ == key {
        Some(fields[0].1)
    } else {
        lookup(fields.drop_first(), key)
    }
}

/// The member `key` of an object, as `Value::get(key)` gives it; `None` for
/// anything but an object.
pub open spec fn field(j: Json, key: Seq<char>) -> Option<Json> {
    match j {
        Json::Object(fs) => lookup(fs@, key),
        _ => None,
    }
}

/// The member `key` of an optional value.
pub open spec fn field_of(j: Option<Json>, key: Seq<char>) -> Option<Json> {
    match j {
        Some(v) => field(v, key),
        None => None,
    }
}

/// The element `n` of an array, as `Value::get(n)` gives it.
pub open spec fn item_of(j: Option<Json>, n: nat) -> Option<Json> {
    match j {
        Some(Json::Array(v)) => if n < v@.len() {
            Some(v@[n as int])
        } else {
            None
        },
        _ => None,
    }
}

/// The text of a string value, as `Value::as_str` gives it.
pub open spec fn str_of(j: Option<Json>) -> Option<Seq<char>> {
    match j {
        Some(Json::Str(s)) => Some(s@),
        _ => None,
    }
}

/// The truth value of a boolean value, as `Value::as_bool` gives it.
pub open spec fn bool_of(j: Option<Json>) -> Option<bool> {
    match j {
        Some(Json::Bool(b)) => Some(b),
        _ => None,
    }
}

/// The integer of a number that fits an `i64`, as `Value::as_i64` gives it.
pub open spec fn i64_of(j: Option<Json>) -> Option<i64> {
    match j {
        Some(Json::Int(i)) => Some(i),
        _ => None,
    }
}

/// The elements of an array value, as `Value::as_array` gives them.
pub open spec fn array_of(j: Option<Json>) -> Option<Seq<Json>> {
    match j {
        Some(Json::Array(v)) => Some(v@),
        _ => None,
    }
}

/// A reference read as an optional value.
pub open spec fn deref_opt(r: Option<&Json>) -> Option<Json> {
    match r {
        Some(v) => Some(*v),
        None => None,
    }
}

impl Json {
    /// The member `key` of this value, if it is an object that has one.
    pub fn get(&self, key: &str) -> (r: Option<&Json>)
        ensures
            deref_opt(r) == field(*self, key@),
    {
        match self {
            Json::Object(fields) => {
                let mut i: usize = 0;
                assert(fields@.subrange(0, fields.len() as int) =~= fields@);
                while i < fields.len()
                    invariant
                        i <= fields.len(),
                        field(*self, key@) == lookup(fields@, key@),
                        lookup(fields@, key@) == lookup(fields@.subrange(i as int, fields.len() as int), key@),
                    decreases fields.len() - i,
                {
                    let ghost rest = fields@.subrange(i as int, fields.len() as int);
                    assert(rest.drop_first() =~= fields@.subrange(i + 1, fields.len() as int));
                    assert(rest[0] == fields@[i as int]);
                    if same_text(fields[i].0.as_str(), key) {
                        return Some(&fields[i].1);
                    }
                    i = i + 1;
                }
                None
            },
            _ => None,
        }
    }

    /// The element `n` of this value, if it is an array that long.
    pub fn at(&self, n: usize) -> (r: Option<&Json>)
        ensures
            deref_opt(r) == item_of(Some(*self), n as nat),
    {
        match self {
            Json::Array(v) => if n < v.len() {
                Some(&v[n])
            } else {
                None
            },
            _ => None,
        }
    }

    /// The text of this value, if it is a string.
    pub fn as_str(&self) -> (r: Option<&String>)
        ensures
            match r {
                Some(s) => str_of(Some(*self)) == Some(s@),
                None => str_of(Some(*self)) is None,
            },
    {
        match self {
            Json::Str(s) => Some(s),
            _ => None,
        }
    }

    /// The truth value of this value, if it is a boolean.
    pub fn as_bool(&self) -> (r: Option<bool>)
        ensures
            r == bool_of(Some(*self)),
    {
        match self {
            Json::Bool(b) => Some(*b),
            _ => None,
        }
    }

    /// The integer of this value, if it is a number that fits an `i64`.
    pub fn as_i64(&self) -> (r: Option<i64>)
        ensures
            r == i64_of(Some(*self)),
    {
        match self {
            Json::Int(i) => Some(*i),
            _ => None,
        }
    }

    /// The elements of this value, if it is an array.
    pub fn as_array(&self) -> (r: Option<&Vec<Json>>)
        ensures
            match r {
                Some(v) => array_of(Some(*self)) == Some(v@),
                None => array_of(Some(*self)) is None,
            },
    {
        match self {
            Json::Array(v) => Some(v),
            _ => None,
        }
    }
}

} // verus!
