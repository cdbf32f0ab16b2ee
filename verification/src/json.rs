//! JSON values as the gateway reads them from request bodies. Parsing and
//! printing JSON is done with `serde_json` outside this library; a parsed
//! value is handed in as a `JsonValue`.
use vstd::prelude::*;

verus! {

/// A JSON value. A number keeps its value when it is a whole number that
/// fits in `u64`, which is all the gateway reads of numbers; an object keeps
/// its members in order.
#[derive(Debug)]
pub enum JsonValue {
    Null,
    Bool(bool),
    Number(Option<u64>),
    String(String),
    Array(Vec<JsonValue>),
    Object(Vec<(String, JsonValue)>),
}

/// The first member named `key` among `members`.
pub open spec fn member(members: Seq<(String, JsonValue)>, key: Seq<char>) -> Option<JsonValue>
    decreases members.len(),
{
    if members.len() == 0 {
        None
    } else if members[0].0@ == key {
        Some(members[0].1)
    } else {
        member(members.drop_first(), key)
    }
}

/// The member `key` of an object; nothing for other values (`Value::get`).
pub open spec fn json_get(v: JsonValue, key: Seq<char>) -> Option<JsonValue> {
    match v {
        JsonValue::Object(members) => member(members@, key),
        _ => None,
    }
}

/// The text of a string value (`Value::as_str`).
pub open spec fn json_str(v: JsonValue) -> Option<Seq<char>> {
    match v {
        JsonValue::String(s) => Some(s@),
        _ => None,
    }
}

/// The member `key` of `v`, as text when it is a string.
pub open spec fn str_member(v: JsonValue, key: Seq<char>) -> Option<Seq<char>> {
    match json_get(v, key) {
        Some(x) => json_str(x),
        None => None,
    }
}

/// The member `key` of `v`, if `v` is an object that has it.
pub fn get<'a>(v: &'a JsonValue, key: &str) -> (r: Option<&'a JsonValue>)
    ensures
        match r {
            Some(x) => json_get(*v, key@) == Some(*x),
            None => json_get(*v, key@) is None,
        },
{
    match v {
        JsonValue::Object(members) => {
            let mut i: usize = 0;
            let k = String::from_str(key);
            assert(members@.skip(0) == members@);
            while i < members.len() && !(members[i].0 == k)
                invariant
                    k@ == key@,
                    i <= members@.len(),
                    member(members@, key@) == member(members@.skip(i as int), key@),
                decreases members@.len() - i,
            {
                proof {
                    assert(members@.skip(i as int).drop_first() == members@.skip(i + 1));
                    assert(members@.skip(i as int)[0] == members@[i as int]);
                }
                i = i + 1;
            }
            proof {
                if i < members@.len() {
                    assert(members@.skip(i as int)[0] == members@[i as int]);
                } else {
                    assert(members@.skip(i as int).len() == 0);
                }
            }
            if i < members.len() {
                Some(&members[i].1)
            } else {
                None
            }
        },
        _ => None,
    }
}

/// The text of `v`, if it is a string.
pub fn as_str(v: &JsonValue) -> (r: Option<&String>)
    ensures
        match r {
            Some(s) => json_str(*v) == Some(s@),
            None => json_str(*v) is None,
        },
{
    match v {
        JsonValue::String(s) => Some(s),
        _ => None,
    }
}

/// The text of member `key` of `v`, if it is a string.
pub fn get_str(v: &JsonValue, key: &str) -> (r: Option<String>)
    ensures
        match r {
            Some(s) => str_member(*v, key@) == Some(s@),
            None => str_member(*v, key@) is None,
        },
{
    match get(v, key) {
        Some(x) => match as_str(x) {
            Some(s) => Some(s.clone()),
            None => None,
        },
        None => None,
    }
}

} // verus!
