//! The JSON values that the library encodes and decodes, held as plain data.

use vstd::prelude::*;
use vstd::string::*;

verus! {

/// A JSON number as the decoder reads it.
#[derive(Debug, Clone, PartialEq)]
pub struct JsonNumber {
    /// The value, where the number is a non-negative integer that fits in `u64`.
    pub unsigned: Option<u64>,
    /// The number written in compact JSON notation.
    pub literal: String,
}

/// A JSON document. An object keeps its members in order.
#[derive(Debug, PartialEq)]
pub enum JsonValue {
    Null,
    Bool(bool),
    Number(JsonNumber),
    Str(String),
    Array(Vec<JsonValue>),
    Object(Vec<(String, JsonValue)>),
}

/// The value of the first member at or after position `i` whose name is `key`.
pub open spec fn member_from(members: Seq<(String, JsonValue)>, key: Seq<char>, i: int) -> Option<JsonValue>
    decreases members.len() - i,
{
    if i < 0 || i >= members.len() {
        None
    } else if members[i].0@ == key {
        Some(members[i].1)
    } else {
        member_from(members, key, i + 1)
    }
}

/// The value of the first member of an object whose name is `key`.
pub open spec fn member(members: Seq<(String, JsonValue)>, key: Seq<char>) -> Option<JsonValue> {
    member_from(members, key, 0)
}

/// Copies a number field by field.
pub fn copy_number(n: &JsonNumber) -> (r: JsonNumber)
    ensures
        r == *n,
{
    JsonNumber { unsigned: n.unsigned, literal: n.literal.clone() }
}

/// The position of the first member of an object whose name is `key`.
pub fn find_member(members: &Vec<(String, JsonValue)>, key: &str) -> (r: Option<usize>)
    ensures
        match r {
            Some(i) => i < members@.len() && member(members@, key@) == Some(members@[i as int].1),
            None => member(members@, key@) is None,
        },
{
    let wanted = String::from_str(key);
    let mut i: usize = 0;
    while i < members.len()
        invariant
            i <= members@.len(),
            wanted@ == key@,
            member(members@, key@) == member_from(members@, key@, i as int),
        decreases members@.len() - i,
    {
        if members[i].0 == wanted {
            return Some(i);
        }
        i = i + 1;
    }
    None
}

} // verus!
