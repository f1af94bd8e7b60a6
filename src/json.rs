use vstd::prelude::*;

verus! {

/// A JSON number, kept in the form the parser produced it.
#[derive(Clone, Copy, Debug, PartialEq, Eq, Structural)]
pub enum JsonNumber {
    /// A non-negative integer.
    PosInt(u64),
    /// A negative integer.
    NegInt(i64),
    /// A number written with a fraction or an exponent, held as the bit
    /// pattern of its binary64 value.
    Float(u64),
}

/// A parsed JSON document. Object members keep the order in which the
/// parser handed them over.
#[derive(Debug)]
pub enum JsonValue {
    Null,
    Bool(bool),
    Number(JsonNumber),
    Str(String),
    Array(Vec<JsonValue>),
    Object(Vec<(String, JsonValue)>),
}

/// The value of the first member named `key`, if any.
pub open spec fn member(fields: Seq<(String, JsonValue)>, key: Seq<char>) -> Option<JsonValue>
    decreases fields.len(),
{
    if fields.len() == 0 {
        None
    } else if fields[0].0@ == key {
        Some(fields[0].1)
    } else {
        member(fields.skip(1), key)
    }
}

/// A JSON string, as text.
pub open spec fn text_of(v: JsonValue) -> Option<Seq<char>> {
    match v {
        JsonValue::Str(s) => Some(s@),
        _ => None,
    }
}

/// A JSON integer that fits an unsigned 64-bit field.
pub open spec fn u64_of(v: JsonValue) -> Option<u64> {
    match v {
        JsonValue::Number(JsonNumber::PosInt(u)) => Some(u),
        JsonValue::Number(JsonNumber::NegInt(i)) => if i >= 0 {
            Some(i as u64)
        } else {
            None
        },
        _ => None,
    }
}

/// A JSON integer that fits an unsigned 32-bit field.
pub open spec fn u32_of(v: JsonValue) -> Option<u32> {
    match u64_of(v) {
        Some(u) => if u <= u32::MAX {
            Some(u as u32)
        } else {
            None
        },
        None => None,
    }
}

/// A JSON integer that fits a signed 64-bit field.
pub open spec fn i64_of(v: JsonValue) -> Option<i64> {
    match v {
        JsonValue::Number(JsonNumber::PosInt(u)) => if u <= i64::MAX {
            Some(u as i64)
        } else {
            None
        },
        JsonValue::Number(JsonNumber::NegInt(i)) => Some(i),
        _ => None,
    }
}

/// A JSON integer that fits a signed 32-bit field.
pub open spec fn i32_of(v: JsonValue) -> Option<i32> {
    match i64_of(v) {
        Some(i) => if i32::MIN <= i <= i32::MAX {
            Some(i as i32)
        } else {
            None
        },
        None => None,
    }
}

/// Any JSON number, for a floating-point field.
pub open spec fn number_of(v: JsonValue) -> Option<JsonNumber> {
    match v {
        JsonValue::Number(n) => Some(n),
        _ => None,
    }
}

/// The members of a JSON object.
pub open spec fn members_of(v: JsonValue) -> Option<Seq<(String, JsonValue)>> {
    match v {
        JsonValue::Object(fields) => Some(fields@),
        _ => None,
    }
}

/// The text of member `key`, if it is a string.
pub open spec fn text_at(fields: Seq<(String, JsonValue)>, key: Seq<char>) -> Option<Seq<char>> {
    match member(fields, key) {
        Some(v) => text_of(v),
        None => None,
    }
}

/// Member `key` as an unsigned 64-bit integer.
pub open spec fn u64_at(fields: Seq<(String, JsonValue)>, key: Seq<char>) -> Option<u64> {
    match member(fields, key) {
        Some(v) => u64_of(v),
        None => None,
    }
}

/// Member `key` as a non-negative integer that a signed 64-bit column holds
/// unchanged: at most `i64::MAX`.
pub open spec fn count_at(fields: Seq<(String, JsonValue)>, key: Seq<char>) -> Option<u64> {
    match u64_at(fields, key) {
        Some(u) => if u <= i64::MAX {
            Some(u)
        } else {
            None
        },
        None => None,
    }
}

/// Member `key` as an unsigned 32-bit integer.
pub open spec fn u32_at(fields: Seq<(String, JsonValue)>, key: Seq<char>) -> Option<u32> {
    match member(fields, key) {
        Some(v) => u32_of(v),
        None => None,
    }
}

/// Member `key` as a signed 64-bit integer.
pub open spec fn i64_at(fields: Seq<(String, JsonValue)>, key: Seq<char>) -> Option<i64> {
    match member(fields, key) {
        Some(v) => i64_of(v),
        None => None,
    }
}

/// Member `key` as a signed 32-bit integer.
pub open spec fn i32_at(fields: Seq<(String, JsonValue)>, key: Seq<char>) -> Option<i32> {
    match member(fields, key) {
        Some(v) => i32_of(v),
        None => None,
    }
}

/// Member `key` as any number.
pub open spec fn number_at(fields: Seq<(String, JsonValue)>, key: Seq<char>) -> Option<JsonNumber> {
    match member(fields, key) {
        Some(v) => number_of(v),
        None => None,
    }
}

/// The members of member `key`, if it is an object.
pub open spec fn object_at(fields: Seq<(String, JsonValue)>, key: Seq<char>) -> Option<
    Seq<(String, JsonValue)>,
> {
    match member(fields, key) {
        Some(v) => members_of(v),
        None => None,
    }
}

/// Looks up the first member named `key`.
pub fn find_member<'a>(fields: &'a Vec<(String, JsonValue)>, key: &str) -> (r: Option<
    &'a JsonValue,
>)
    ensures
        match r {
            Some(v) => member(fields@, key@) == Some(*v),
            None => member(fields@, key@) is None,
        },
{
    let mut i: usize = 0;
    assert(fields@.skip(0) =~= fields@);
    while i < fields.len()
        invariant
            i <= fields@.len(),
            member(fields@, key@) == member(fields@.skip(i as int), key@),
        decreases fields@.len() - i,
    {
        let name: &str = fields[i].0.as_str();
        if string_eq(name, key) {
            return Some(&fields[i].1);
        }
        assert(fields@.skip(i as int).skip(1) =~= fields@.skip(i + 1));
        i = i + 1;
    }
    None
}

/// Compares two strings character by character.
pub fn string_eq(a: &str, b: &str) -> (r: bool)
    ensures
        r == (a@ == b@),
{
    let n = a.unicode_len();
    if n != b.unicode_len() {
        return false;
    }
    let mut i: usize = 0;
    while i < n
        invariant
            n == a@.len(),
            n == b@.len(),
            i <= n,
            forall|k: int| 0 <= k < i ==> a@[k] == b@[k],
        decreases n - i,
    {
        if a.get_char(i) != b.get_char(i) {
            return false;
        }
        i = i + 1;
    }
    assert(a@ =~= b@);
    true
}

/// Reads a string member.
pub fn take_text(v: &JsonValue) -> (r: Option<String>)
    ensures
        match r {
            Some(s) => text_of(*v) == Some(s@),
            None => text_of(*v) is None,
        },
{
    match v {
        JsonValue::Str(s) => Some(s.clone()),
        _ => None,
    }
}

/// Reads an unsigned 64-bit member.
pub fn take_u64(v: &JsonValue) -> (r: Option<u64>)
    ensures
        r == u64_of(*v),
{
    match v {
        JsonValue::Number(JsonNumber::PosInt(u)) => Some(*u),
        JsonValue::Number(JsonNumber::NegInt(i)) => if *i >= 0 {
            Some(*i as u64)
        } else {
            None
        },
        _ => None,
    }
}

/// Reads a non-negative member of at most `i64::MAX`.
pub fn take_count(v: &JsonValue) -> (r: Option<u64>)
    ensures
        r == (match u64_of(*v) {
            Some(u) => if u <= i64::MAX {
                Some(u)
            } else {
                None
            },
            None => None,
        }),
{
    match take_u64(v) {
        Some(u) => if u <= i64::MAX as u64 {
            Some(u)
        } else {
            None
        },
        None => None,
    }
}

/// Reads an unsigned 32-bit member.
pub fn take_u32(v: &JsonValue) -> (r: Option<u32>)
    ensures
        r == u32_of(*v),
{
    match take_u64(v) {
        Some(u) => if u <= u32::MAX as u64 {
            Some(u as u32)
        } else {
            None
        },
        None => None,
    }
}

/// Reads a signed 64-bit member.
pub fn take_i64(v: &JsonValue) -> (r: Option<i64>)
    ensures
        r == i64_of(*v),
{
    match v {
        JsonValue::Number(JsonNumber::PosInt(u)) => if *u <= i64::MAX as u64 {
            Some(*u as i64)
        } else {
            None
        },
        JsonValue::Number(JsonNumber::NegInt(i)) => Some(*i),
        _ => None,
    }
}

/// Reads a signed 32-bit member.
pub fn take_i32(v: &JsonValue) -> (r: Option<i32>)
    ensures
        r == i32_of(*v),
{
    match take_i64(v) {
        Some(i) => if i32::MIN as i64 <= i && i <= i32::MAX as i64 {
            Some(i as i32)
        } else {
            None
        },
        None => None,
    }
}

/// Reads any number member.
pub fn take_number(v: &JsonValue) -> (r: Option<JsonNumber>)
    ensures
        r == number_of(*v),
{
    match v {
        JsonValue::Number(n) => Some(*n),
        _ => None,
    }
}

} // verus!
