//! A model of JSON values as the client sends them and the settings store keeps them,
//! with the lookups that the rest of the library reads them by.
use crate::text;
use vstd::prelude::*;

verus! {

/// A JSON value. Numbers are kept as the integers they hold; a number with a fraction
/// or an exponent is kept only as such, since nothing here reads its value.
#[derive(Debug, PartialEq)]
pub enum JsonValue {
    Null,
    Bool(bool),
    /// A non-negative integer.
    PosInt(u64),
    /// A negative integer.
    NegInt(i64),
    /// A number that is not an integer.
    Float,
    Str(String),
    Array(Vec<JsonValue>),
    /// The members of an object, each key once.
    Object(Vec<(String, JsonValue)>),
}

/// The value of the first member of `entries` whose key is `key`.
pub open spec fn field_of(entries: Seq<(String, JsonValue)>, key: Seq<char>) -> Option<JsonValue>
    decreases entries.len(),
{
    if entries.len() == 0 {
        None
    } else if entries[0].0@ == key {
        Some(entries[0].1)
    } else {
        field_of(entries.drop_first(), key)
    }
}

/// An optional reference read as an optional value.
pub open spec fn deref_opt<T>(o: Option<&T>) -> Option<T> {
    match o {
        Some(x) => Some(*x),
        None => None,
    }
}

/// The value of the first member of `entries` whose key is `key`.
pub fn field<'a>(entries: &'a [(String, JsonValue)], key: &str) -> (r: Option<&'a JsonValue>)
    ensures
        deref_opt(r) == field_of(entries@, key@),
{
    let n = entries.len();
    let mut i: usize = 0;
    assert(entries@.skip(0) =~= entries@);
    while i < n
        invariant
            n == entries@.len(),
            i <= n,
            field_of(entries@, key@) == field_of(entries@.skip(i as int), key@),
        decreases n - i,
    {
        assert(entries@.skip(i as int)[0] == entries@[i as int]);
        if text::str_eq(entries[i].0.as_str(), key) {
            return Some(&entries[i].1);
        }
        assert(entries@.skip(i as int).drop_first() =~= entries@.skip(i + 1));
        i = i + 1;
    }
    None
}

impl JsonValue {
    /// The member `key` of an object; nothing for any other value.
    pub open spec fn get_spec(self, key: Seq<char>) -> Option<JsonValue> {
        match self {
            JsonValue::Object(entries) => field_of(entries@, key),
            _ => None,
        }
    }

    /// The text of a string.
    pub open spec fn str_spec(self) -> Option<Seq<char>> {
        match self {
            JsonValue::Str(s) => Some(s@),
            _ => None,
        }
    }

    /// A number as `i64`, when it is an integer that fits.
    pub open spec fn i64_spec(self) -> Option<i64> {
        match self {
            JsonValue::PosInt(n) => if n <= i64::MAX {
                Some(n as i64)
            } else {
                None
            },
            JsonValue::NegInt(n) => Some(n),
            _ => None,
        }
    }

    /// A number as `u64`, when it is a non-negative integer.
    pub open spec fn u64_spec(self) -> Option<u64> {
        match self {
            JsonValue::PosInt(n) => Some(n),
            _ => None,
        }
    }

    /// A boolean.
    pub open spec fn bool_spec(self) -> Option<bool> {
        match self {
            JsonValue::Bool(b) => Some(b),
            _ => None,
        }
    }

    /// The member `key` of an object, as `serde_json::Value::get` gives it.
    pub fn get(&self, key: &str) -> (r: Option<&JsonValue>)
        ensures
            deref_opt(r) == self.get_spec(key@),
    {
        match self {
            JsonValue::Object(entries) => field(entries.as_slice(), key),
            _ => None,
        }
    }

    /// The text of a string, as `serde_json::Value::as_str` gives it.
    pub fn as_str(&self) -> (r: Option<&str>)
        ensures
            match r {
                Some(s) => self.str_spec() == Some(s@),
                None => self.str_spec() is None,
            },
    {
        match self {
            JsonValue::Str(s) => Some(s.as_str()),
            _ => None,
        }
    }

    /// As `serde_json::Value::as_i64`.
    pub fn as_i64(&self) -> (r: Option<i64>)
        ensures
            r == self.i64_spec(),
    {
        match self {
            JsonValue::PosInt(n) => if *n <= 9223372036854775807u64 {
                Some(*n as i64)
            } else {
                None
            },
            JsonValue::NegInt(n) => Some(*n),
            _ => None,
        }
    }

    /// As `serde_json::Value::as_u64`.
    pub fn as_u64(&self) -> (r: Option<u64>)
        ensures
            r == self.u64_spec(),
    {
        match self {
            JsonValue::PosInt(n) => Some(*n),
            _ => None,
        }
    }

    /// As `serde_json::Value::as_bool`.
    pub fn as_bool(&self) -> (r: Option<bool>)
        ensures
            r == self.bool_spec(),
    {
        match self {
            JsonValue::Bool(b) => Some(*b),
            _ => None,
        }
    }
}

/// Declares `serde_json::Value`, which the parser below hands back before it is read
/// into a [`JsonValue`].
#[verifier::external_type_specification]
#[verifier::external_body]
pub struct ExSerdeJsonValue(serde_json::Value);

/// The JSON value that a text holds, when it is one JSON document.
pub uninterp spec fn json_of_text(text: Seq<char>) -> Option<JsonValue>;

/// Calls `serde_json::from_str::<serde_json::Value>`. Claimed: its result is a function
/// of the text alone, named `json_of_text`; `None` where serde_json reports an error.
#[verifier::external_body]
pub(crate) fn parse_json(text: &str) -> (r: Option<JsonValue>)
    ensures
        r == json_of_text(text@),
{
    serde_json::from_str::<serde_json::Value>(text).ok().map(|v| from_serde(&v))
}

/// Reads a `serde_json::Value` into the model, one arm per variant; a number goes by the
/// integer that `as_u64` or else `as_i64` gives. Nothing is claimed of the result.
#[verifier::external_body]
fn from_serde(v: &serde_json::Value) -> JsonValue {
    match v {
        serde_json::Value::Null => JsonValue::Null,
        serde_json::Value::Bool(b) => JsonValue::Bool(*b),
        serde_json::Value::Number(n) => match (n.as_u64(), n.as_i64()) {
            (Some(u), _) => JsonValue::PosInt(u),
            (None, Some(i)) => JsonValue::NegInt(i),
            (None, None) => JsonValue::Float,
        },
        serde_json::Value::String(s) => JsonValue::Str(s.clone()),
        serde_json::Value::Array(a) => JsonValue::Array(a.iter().map(from_serde).collect()),
        serde_json::Value::Object(m) => JsonValue::Object(m.iter().map(|(k, x)| (k.clone(), from_serde(x))).collect()),
    }
}

} // verus!
