//! JSON documents as plain values, and the lookups the scan reader makes in
//! them.

use vstd::prelude::*;
use crate::text::str_equal;

verus! {

/// A JSON value. Numbers are kept as far as the library reads them: unsigned
/// integers exactly, negative integers exactly, other numbers only as such.
#[derive(Debug)]
pub enum JsonValue {
    Null,
    Bool(bool),
    UInt(u64),
    NegInt(i64),
    Float,
    Str(String),
    Array(Vec<JsonValue>),
    Object(Vec<(String, JsonValue)>),
}

/// The value stored under `key` among the first entries of an object.
pub open spec fn entry_value(entries: Seq<(String, JsonValue)>, key: Seq<char>) -> Option<JsonValue>
    decreases entries.len(),
{
    if entries.len() == 0 {
        None
    } else if entries[0].0@ == key {
        Some(entries[0].1)
    } else {
        entry_value(entries.drop_first(), key)
    }
}

/// `Value::get` with a key: the member of an object, none for anything else.
pub open spec fn member(v: JsonValue, key: Seq<char>) -> Option<JsonValue> {
    match v {
        JsonValue::Object(entries) => entry_value(entries@, key),
        _ => None,
    }
}

/// `Value::as_u64`.
pub open spec fn u64_of(v: Option<JsonValue>) -> Option<u64> {
    match v {
        Some(JsonValue::UInt(n)) => Some(n),
        _ => None,
    }
}

/// `Value::get` followed by `Value::get` on the result.
pub open spec fn member2(v: JsonValue, k1: Seq<char>, k2: Seq<char>) -> Option<JsonValue> {
    match member(v, k1) {
        Some(a) => member(a, k2),
        None => None,
    }
}

impl JsonValue {
    /// The member stored under `key`, if this is an object that has one.
    pub fn get(&self, key: &str) -> (r: Option<&JsonValue>)
        ensures
            r matches Some(x) ==> member(*self, key@) == Some(*x),
            r is None ==> member(*self, key@) is None,
    {
        match self {
            JsonValue::Object(entries) => {
                assert(entries@.skip(0) =~= entries@);
                let mut i: usize = 0;
                while i < entries.len()
                    invariant
                        i <= entries@.len(),
                        *self == JsonValue::Object(*entries),
                        entry_value(entries@, key@) == entry_value(entries@.skip(i as int), key@),
                    decreases entries@.len() - i,
                {
                    assert(entries@.skip(i as int)[0] == entries@[i as int]);
                    assert(entries@.skip(i as int).drop_first() =~= entries@.skip(i + 1));
                    if str_equal(entries[i].0.as_str(), key) {
                        assert(entry_value(entries@.skip(i as int), key@) == Some(entries@[i as int].1));
                        return Some(&entries[i].1);
                    }
                    i = i + 1;
                }
                None
            },
            _ => None,
        }
    }

    /// The number, if this is an unsigned integer.
    pub fn as_u64(&self) -> (r: Option<u64>)
        ensures
            r == u64_of(Some(*self)),
    {
        match self {
            JsonValue::UInt(n) => Some(*n),
            _ => None,
        }
    }

    /// The elements, if this is an array.
    pub fn as_array(&self) -> (r: Option<&Vec<JsonValue>>)
        ensures
            r matches Some(a) ==> *self == JsonValue::Array(*a),
            r is None ==> !(self is Array),
    {
        match self {
            JsonValue::Array(a) => Some(a),
            _ => None,
        }
    }

    /// The text, if this is a string.
    pub fn as_str(&self) -> (r: Option<&String>)
        ensures
            r matches Some(s) ==> *self == JsonValue::Str(*s),
            r is None ==> !(self is Str),
    {
        match self {
            JsonValue::Str(s) => Some(s),
            _ => None,
        }
    }
}

/// The unsigned number at `v[k1][k2]`, if there is one.
pub fn u64_at(v: &JsonValue, k1: &str, k2: &str) -> (r: Option<u64>)
    ensures
        r == u64_of(member2(*v, k1@, k2@)),
{
    match v.get(k1) {
        Some(a) => match a.get(k2) {
            Some(b) => b.as_u64(),
            None => None,
        },
        None => None,
    }
}

} // verus!
