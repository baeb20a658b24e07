//! The JSON value tree that the reply decoder walks.
//!
//! Numbers are kept only as the non-negative integers the wire protocol
//! uses (status codes and body bytes); any other number is carried as
//! `Num(None)`, present but unreadable, which the decoder's shape checks
//! reject where an integer is required.  Object fields keep their order;
//! lookup takes the first binding of a key.

use vstd::prelude::*;

use crate::messages::strings_rep;
use crate::text::{clone_string, str_eq};

verus! {

/// A parsed JSON value.
#[derive(Debug)]
pub enum JsonValue {
    Null,
    Bool(bool),
    Num(Option<u64>),
    Str(String),
    Arr(Vec<JsonValue>),
    Obj(Vec<(String, JsonValue)>),
}

/// The first binding of `key` among `fields[i..]`, if any.
pub open spec fn spec_lookup_from(
    fields: Seq<(String, JsonValue)>,
    key: Seq<char>,
    i: int,
) -> Option<JsonValue>
    decreases fields.len() - i,
{
    if i < 0 || i >= fields.len() {
        None
    } else if fields[i].0@ == key {
        Some(fields[i].1)
    } else {
        spec_lookup_from(fields, key, i + 1)
    }
}

/// The first binding of `key` in an object's field list, if any.
pub open spec fn spec_lookup(fields: Seq<(String, JsonValue)>, key: Seq<char>) -> Option<
    JsonValue,
> {
    spec_lookup_from(fields, key, 0)
}

/// Looks `key` up in an object's field list, first binding wins.
pub fn obj_get<'a>(fields: &'a Vec<(String, JsonValue)>, key: &str) -> (r: Option<&'a JsonValue>)
    ensures
        match spec_lookup(fields@, key@) {
            Some(v) => r matches Some(rv) && *rv == v,
            None => r is None,
        },
{
    let n = fields.len();
    let mut i: usize = 0;
    while i < n
        invariant
            n == fields@.len(),
            i <= n,
            spec_lookup(fields@, key@) == spec_lookup_from(fields@, key@, i as int),
        decreases n - i,
    {
        if str_eq(fields[i].0.as_str(), key) {
            return Some(&fields[i].1);
        }
        i = i + 1;
    }
    None
}

/// Whether this value is a JSON string.
pub open spec fn is_str(x: JsonValue) -> bool {
    match x {
        JsonValue::Str(_) => true,
        _ => false,
    }
}

/// The characters of a JSON string value (empty for any other value).
pub open spec fn str_of(x: JsonValue) -> Seq<char> {
    match x {
        JsonValue::Str(s) => s@,
        _ => Seq::empty(),
    }
}

/// The contents of an array of strings, or `None` if some element is not a
/// string.
pub open spec fn spec_strings_of(items: Seq<JsonValue>) -> Option<Seq<Seq<char>>> {
    if forall|k: int| 0 <= k < items.len() ==> is_str(items[k]) {
        Some(items.map_values(|x: JsonValue| str_of(x)))
    } else {
        None
    }
}

/// Extracts an array of strings, or reports that some element is not one.
pub fn strings_of_array(items: &Vec<JsonValue>) -> (r: Option<Vec<String>>)
    ensures
        match r {
            Some(v) => spec_strings_of(items@) == Some(strings_rep(v@)),
            None => spec_strings_of(items@) is None,
        },
{
    let n = items.len();
    let mut out: Vec<String> = Vec::new();
    let mut i: usize = 0;
    while i < n
        invariant
            n == items@.len(),
            i <= n,
            out@.len() == i,
            forall|k: int| 0 <= k < i ==> is_str(items@[k]),
            forall|k: int| 0 <= k < i ==> out@[k]@ == str_of(items@[k]),
        decreases n - i,
    {
        match &items[i] {
            JsonValue::Str(s) => {
                out.push(clone_string(s));
            },
            _ => {
                proof {
                    assert(!is_str(items@[i as int]));
                }
                return None;
            },
        }
        i = i + 1;
    }
    proof {
        assert(strings_rep(out@) =~= items@.map_values(|x: JsonValue| str_of(x)));
    }
    Some(out)
}

/// Whether this value is an integer a body byte can hold.
pub open spec fn is_byte(x: JsonValue) -> bool {
    match x {
        JsonValue::Num(n) => n matches Some(v) && v <= 255,
        _ => false,
    }
}

/// The byte held by a body element (zero for any other value).
pub open spec fn byte_of(x: JsonValue) -> u8 {
    match x {
        JsonValue::Num(n) => match n {
            Some(v) => if v <= 255 {
                v as u8
            } else {
                0
            },
            None => 0,
        },
        _ => 0,
    }
}

/// The contents of an array of body bytes, or `None` if some element is not
/// an integer in `0..=255`.
pub open spec fn spec_bytes_of(items: Seq<JsonValue>) -> Option<Seq<u8>> {
    if forall|k: int| 0 <= k < items.len() ==> is_byte(items[k]) {
        Some(items.map_values(|x: JsonValue| byte_of(x)))
    } else {
        None
    }
}

/// Extracts a raw byte array, or reports that some element is not a byte.
pub fn bytes_of_array(items: &Vec<JsonValue>) -> (r: Option<Vec<u8>>)
    ensures
        match r {
            Some(v) => spec_bytes_of(items@) == Some(v@),
            None => spec_bytes_of(items@) is None,
        },
{
    let n = items.len();
    let mut out: Vec<u8> = Vec::new();
    let mut i: usize = 0;
    while i < n
        invariant
            n == items@.len(),
            i <= n,
            out@.len() == i,
            forall|k: int| 0 <= k < i ==> is_byte(items@[k]),
            forall|k: int| 0 <= k < i ==> out@[k] == byte_of(items@[k]),
        decreases n - i,
    {
        match &items[i] {
            JsonValue::Num(opt) => match opt {
                Some(v) => {
                    if *v <= 255 {
                        out.push(*v as u8);
                    } else {
                        proof {
                            assert(!is_byte(items@[i as int]));
                        }
                        return None;
                    }
                },
                None => {
                    proof {
                        assert(!is_byte(items@[i as int]));
                    }
                    return None;
                },
            },
            _ => {
                proof {
                    assert(!is_byte(items@[i as int]));
                }
                return None;
            },
        }
        i = i + 1;
    }
    proof {
        assert(out@ =~= items@.map_values(|x: JsonValue| byte_of(x)));
    }
    Some(out)
}

} // verus!
