//! A JSON value held as plain data: the payload of evidence and the
//! parameters of intents and tool calls.

use vstd::prelude::*;
use vstd::string::*;

verus! {

/// A JSON value. Numbers are kept as JSON keeps them apart: non-negative
/// integers, negative integers, and other numbers (by their decimal text).
#[derive(Debug, PartialEq, Eq)]
pub enum JsonValue {
    Null,
    Bool(bool),
    /// A non-negative integer.
    UInt(u64),
    /// A negative integer.
    NegInt(i64),
    /// A number that is not an integer, by its decimal text.
    Float(String),
    Str(String),
    Array(Vec<JsonValue>),
    /// An object's fields in order; a key names the first field that has it.
    Object(Vec<(String, JsonValue)>),
}

/// The value of the first field named `key`, if any.
pub open spec fn field_of(fields: Seq<(String, JsonValue)>, key: Seq<char>) -> Option<JsonValue>
    decreases fields.len(),
{
    if fields.len() == 0 {
        None
    } else if fields[0].0@ == key {
        Some(fields[0].1)
    } else {
        field_of(fields.drop_first(), key)
    }
}

impl JsonValue {
    /// The value of field `key` when this is an object that has it.
    pub open spec fn spec_get(self, key: Seq<char>) -> Option<JsonValue> {
        match self {
            JsonValue::Object(fields) => field_of(fields@, key),
            _ => None,
        }
    }

    /// The text, when this is a string.
    pub open spec fn spec_as_str(self) -> Option<Seq<char>> {
        match self {
            JsonValue::Str(s) => Some(s@),
            _ => None,
        }
    }

    /// The number, when this is a non-negative integer.
    pub open spec fn spec_as_u64(self) -> Option<u64> {
        match self {
            JsonValue::UInt(n) => Some(n),
            _ => None,
        }
    }

    /// `value.get(key)`: the field `key` of an object, `None` for anything else.
    pub fn get(&self, key: &str) -> (r: Option<&JsonValue>)
        ensures
            match r {
                Some(v) => self.spec_get(key@) == Some(*v),
                None => self.spec_get(key@) is None,
            },
    {
        match self {
            JsonValue::Object(fields) => {
                let wanted = String::from_str(key);
                let mut i: usize = 0;
                assert(fields@.subrange(0, fields@.len() as int) =~= fields@);
                while i < fields.len()
                    invariant
                        i <= fields@.len(),
                        wanted@ == key@,
                        self.spec_get(key@) == field_of(fields@, key@),
                        field_of(fields@, key@) == field_of(fields@.subrange(i as int, fields@.len() as int), key@),
                    decreases fields@.len() - i,
                {
                    let ghost rest = fields@.subrange(i as int, fields@.len() as int);
                    assert(rest.drop_first() =~= fields@.subrange(i + 1, fields@.len() as int));
                    assert(rest[0] == fields@[i as int]);
                    if fields[i].0 == wanted {
                        assert(field_of(rest, key@) == Some(fields@[i as int].1));
                        return Some(&fields[i].1);
                    }
                    i += 1;
                }
                None
            }
            _ => None,
        }
    }

    /// `value.as_str()`.
    pub fn as_str(&self) -> (r: Option<&str>)
        ensures
            match r {
                Some(t) => self.spec_as_str() == Some(t@),
                None => self.spec_as_str() is None,
            },
    {
        match self {
            JsonValue::Str(s) => Some(s.as_str()),
            _ => None,
        }
    }

    /// `value.as_u64()`.
    pub fn as_u64(&self) -> (r: Option<u64>)
        ensures
            r == self.spec_as_u64(),
    {
        match self {
            JsonValue::UInt(n) => Some(*n),
            _ => None,
        }
    }

    /// Whether this value is an object.
    pub fn is_object(&self) -> (b: bool)
        ensures
            b == (self is Object),
    {
        match self {
            JsonValue::Object(_) => true,
            _ => false,
        }
    }

    /// A string value, or null for `None`.
    pub open spec fn spec_opt_str(s: Option<String>) -> JsonValue {
        match s {
            Some(t) => JsonValue::Str(t),
            None => JsonValue::Null,
        }
    }

    /// A string value, or null for `None`, as `json!` renders an `Option<String>`.
    pub fn opt_str(s: Option<String>) -> (r: JsonValue)
        ensures
            r == Self::spec_opt_str(s),
    {
        match s {
            Some(t) => JsonValue::Str(t),
            None => JsonValue::Null,
        }
    }
}

} // verus!

verus! {

/// The values equal to `w`.
pub open spec fn equal_to(w: JsonValue) -> spec_fn(JsonValue) -> bool {
    |x: JsonValue| x == w
}

/// The string values with text `t`.
pub open spec fn text_value(t: Seq<char>) -> spec_fn(JsonValue) -> bool {
    |x: JsonValue| x.spec_as_str() == Some(t)
}

/// Whether `v` is an object with exactly two fields: `k1` with a value that
/// satisfies `p1`, then `k2` with a value that satisfies `p2`.
pub open spec fn is_object2(v: JsonValue, k1: Seq<char>, p1: spec_fn(JsonValue) -> bool, k2: Seq<char>, p2: spec_fn(JsonValue) -> bool) -> bool {
    match v {
        JsonValue::Object(fs) => {
            &&& fs@.len() == 2
            &&& fs@[0].0@ == k1
            &&& p1(fs@[0].1)
            &&& fs@[1].0@ == k2
            &&& p2(fs@[1].1)
        },
        _ => false,
    }
}

/// Whether `v` is an object with exactly one field, `k1`, whose value
/// satisfies `p1`.
pub open spec fn is_object1(v: JsonValue, k1: Seq<char>, p1: spec_fn(JsonValue) -> bool) -> bool {
    match v {
        JsonValue::Object(fs) => {
            &&& fs@.len() == 1
            &&& fs@[0].0@ == k1
            &&& p1(fs@[0].1)
        },
        _ => false,
    }
}

/// The object `{k1: v1}`.
pub fn object1(k1: &str, v1: JsonValue) -> (r: JsonValue)
    ensures
        is_object1(r, k1@, equal_to(v1)),
{
    let mut fs: Vec<(String, JsonValue)> = Vec::new();
    fs.push((String::from_str(k1), v1));
    JsonValue::Object(fs)
}

/// The object `{k1: v1, k2: v2}`.
pub fn object2(k1: &str, v1: JsonValue, k2: &str, v2: JsonValue) -> (r: JsonValue)
    ensures
        is_object2(r, k1@, equal_to(v1), k2@, equal_to(v2)),
{
    let mut fs: Vec<(String, JsonValue)> = Vec::new();
    fs.push((String::from_str(k1), v1));
    fs.push((String::from_str(k2), v2));
    JsonValue::Object(fs)
}

/// The string value `s`.
pub fn text(s: &str) -> (r: JsonValue)
    ensures
        r.spec_as_str() == Some(s@),
{
    JsonValue::Str(String::from_str(s))
}

} // verus!

verus! {

impl JsonValue {
    /// The items, when this is an array.
    pub open spec fn spec_as_array(self) -> Option<Seq<JsonValue>> {
        match self {
            JsonValue::Array(items) => Some(items@),
            _ => None,
        }
    }

    /// `value.as_array()`.
    pub fn as_array(&self) -> (r: Option<&Vec<JsonValue>>)
        ensures
            match r {
                Some(items) => self.spec_as_array() == Some(items@),
                None => self.spec_as_array() is None,
            },
    {
        match self {
            JsonValue::Array(items) => Some(items),
            _ => None,
        }
    }
}

} // verus!
