//! The part of a JSON document that the notice logic reads: the library's
//! own model of a decoded value, with the lookups the logic performs.

use vstd::prelude::*;
use crate::text::texts;

verus! {

/// A JSON number as the decoder classifies it.
#[derive(Debug, Clone, Copy, PartialEq, Eq)]
pub enum JsonNumber {
    /// A non-negative integer.
    PosInt(u64),
    /// A negative integer.
    NegInt(i64),
    /// Any other number; its value is never read.
    Float,
}

/// A decoded JSON value. Object members keep the decoder's order; a key
/// looked up is the first member with that key.
#[derive(Debug)]
pub enum JsonValue {
    Null,
    Bool(bool),
    Number(JsonNumber),
    Str(String),
    Array(Vec<JsonValue>),
    Object(Vec<(String, JsonValue)>),
}

/// The value of the first member named `key`, if any.
pub open spec fn member(entries: Seq<(String, JsonValue)>, key: Seq<char>) -> Option<JsonValue>
    decreases entries.len(),
{
    if entries.len() == 0 {
        None
    } else if entries[0].0@ == key {
        Some(entries[0].1)
    } else {
        member(entries.drop_first(), key)
    }
}

/// The members of an object; empty for any other value.
pub open spec fn members(v: JsonValue) -> Seq<(String, JsonValue)> {
    match v {
        JsonValue::Object(entries) => entries@,
        _ => Seq::empty(),
    }
}

/// Member lookup: `None` unless the value is an object holding `key`.
pub open spec fn get(v: JsonValue, key: Seq<char>) -> Option<JsonValue> {
    match v {
        JsonValue::Object(entries) => member(entries@, key),
        _ => None,
    }
}

/// The text of a string value.
pub open spec fn as_str(v: JsonValue) -> Option<Seq<char>> {
    match v {
        JsonValue::Str(s) => Some(s@),
        _ => None,
    }
}

/// An integer value that fits in `i64`.
pub open spec fn as_i64(v: JsonValue) -> Option<i64> {
    match v {
        JsonValue::Number(JsonNumber::PosInt(u)) => if u <= i64::MAX { Some(u as i64) } else { None },
        JsonValue::Number(JsonNumber::NegInt(i)) => Some(i),
        _ => None,
    }
}

/// A non-negative integer value.
pub open spec fn as_u64(v: JsonValue) -> Option<u64> {
    match v {
        JsonValue::Number(JsonNumber::PosInt(u)) => Some(u),
        _ => None,
    }
}

/// The texts of the string elements of an array value, in order; the
/// other elements are skipped. `None` unless the value is an array.
pub open spec fn string_elements(v: JsonValue) -> Option<Seq<Seq<char>>> {
    match v {
        JsonValue::Array(items) => Some(strings_of(items@)),
        _ => None,
    }
}

/// The texts of the string values in `items`, in order.
pub open spec fn strings_of(items: Seq<JsonValue>) -> Seq<Seq<char>>
    decreases items.len(),
{
    if items.len() == 0 {
        Seq::empty()
    } else {
        let rest = strings_of(items.drop_last());
        match as_str(items.last()) {
            Some(s) => rest.push(s),
            None => rest,
        }
    }
}

/// `get(v, key)` followed by `as_str`.
pub open spec fn str_member(v: JsonValue, key: Seq<char>) -> Option<Seq<char>> {
    match get(v, key) {
        Some(m) => as_str(m),
        None => None,
    }
}

/// `get(v, key)` followed by `as_i64`.
pub open spec fn i64_member(v: JsonValue, key: Seq<char>) -> Option<i64> {
    match get(v, key) {
        Some(m) => as_i64(m),
        None => None,
    }
}

/// `get(v, key)` followed by `as_u64`.
pub open spec fn u64_member(v: JsonValue, key: Seq<char>) -> Option<u64> {
    match get(v, key) {
        Some(m) => as_u64(m),
        None => None,
    }
}

/// `get(v, key)` followed by `string_elements`.
pub open spec fn strings_member(v: JsonValue, key: Seq<char>) -> Option<Seq<Seq<char>>> {
    match get(v, key) {
        Some(m) => string_elements(m),
        None => None,
    }
}

/// Looking up `key` finds nothing exactly when no member has that name,
/// and otherwise finds the value of the first member that has it.
pub proof fn member_is_first_match(entries: Seq<(String, JsonValue)>, key: Seq<char>)
    ensures
        member(entries, key) is None <==> (forall|i: int| 0 <= i < entries.len() ==> #[trigger] entries[i].0@
            != key),
        member(entries, key) is Some ==> exists|i: int| 0 <= i < entries.len() && #[trigger] entries[i].0@ == key
            && member(entries, key) == Some(entries[i].1)
            && forall|j: int| 0 <= j < i ==> #[trigger] entries[j].0@ != key,
    decreases entries.len(),
{
    if entries.len() > 0 {
        let rest = entries.drop_first();
        member_is_first_match(rest, key);
        assert forall|i: int| 0 <= i < rest.len() implies #[trigger] rest[i] == entries[i + 1] by {}
        if entries[0].0@ == key {
            assert(entries[0].0@ == key);
        } else if member(rest, key) is Some {
            let i = choose|i: int| 0 <= i < rest.len() && #[trigger] rest[i].0@ == key
                && member(rest, key) == Some(rest[i].1)
                && forall|j: int| 0 <= j < i ==> #[trigger] rest[j].0@ != key;
            assert(entries[i + 1].0@ == key);
            assert forall|j: int| 0 <= j < i + 1 implies #[trigger] entries[j].0@ != key by {
                if j > 0 {
                    assert(entries[j] == rest[j - 1]);
                }
            }
        } else {
            assert forall|i: int| 0 <= i < entries.len() implies #[trigger] entries[i].0@ != key by {
                if i > 0 {
                    assert(entries[i] == rest[i - 1]);
                }
            }
        }
    }
}

/// Whether the value is `null` or an object without members.
pub open spec fn is_blank(v: JsonValue) -> bool {
    match v {
        JsonValue::Null => true,
        JsonValue::Object(entries) => entries@.len() == 0,
        _ => false,
    }
}

impl JsonValue {
    /// The position of the first member named `key`, for an object.
    fn member_index(&self, key: &str) -> (r: Option<usize>)
        ensures
            match r {
                Some(i) => (*self) is Object && i < members(*self).len()
                    && get(*self, key@) == Some(members(*self)[i as int].1),
                None => get(*self, key@) is None,
            },
    {
        match self {
            JsonValue::Object(entries) => {
                let wanted = String::from_str(key);
                let mut i: usize = 0;
                assert(entries@.skip(0) =~= entries@);
                while i < entries.len()
                    invariant
                        i <= entries@.len(),
                        wanted@ == key@,
                        (*self) is Object,
                        members(*self) == entries@,
                        member(entries@, key@) == member(entries@.skip(i as int), key@),
                    decreases entries@.len() - i,
                {
                    assert(entries@.skip(i as int).drop_first() =~= entries@.skip(i + 1));
                    assert(entries@.skip(i as int)[0] == entries@[i as int]);
                    if entries[i].0 == wanted {
                        assert(entries@[i as int].0@ == key@);
                        assert(member(entries@.skip(i as int), key@) == Some(entries@[i as int].1));
                        return Some(i);
                    }
                    i = i + 1;
                }
                None
            },
            _ => None,
        }
    }

    /// The member `key` when it is a string.
    pub fn str_member(&self, key: &str) -> (r: Option<String>)
        ensures
            match r {
                Some(s) => str_member(*self, key@) == Some(s@),
                None => str_member(*self, key@) is None,
            },
    {
        match self.member_index(key) {
            Some(i) => match self {
                JsonValue::Object(entries) => match &entries[i].1 {
                    JsonValue::Str(s) => Some(s.clone()),
                    _ => None,
                },
                _ => None,
            },
            None => None,
        }
    }

    /// The member `key` when it is an integer that fits in `i64`.
    pub fn i64_member(&self, key: &str) -> (r: Option<i64>)
        ensures
            r == i64_member(*self, key@),
    {
        match self.member_index(key) {
            Some(i) => match self {
                JsonValue::Object(entries) => match &entries[i].1 {
                    JsonValue::Number(JsonNumber::PosInt(u)) => if *u <= i64::MAX as u64 {
                        Some(*u as i64)
                    } else {
                        None
                    },
                    JsonValue::Number(JsonNumber::NegInt(n)) => Some(*n),
                    _ => None,
                },
                _ => None,
            },
            None => None,
        }
    }

    /// The member `key` when it is a non-negative integer.
    pub fn u64_member(&self, key: &str) -> (r: Option<u64>)
        ensures
            r == u64_member(*self, key@),
    {
        match self.member_index(key) {
            Some(i) => match self {
                JsonValue::Object(entries) => match &entries[i].1 {
                    JsonValue::Number(JsonNumber::PosInt(u)) => Some(*u),
                    _ => None,
                },
                _ => None,
            },
            None => None,
        }
    }

    /// The string elements of the member `key` when it is an array.
    pub fn strings_member(&self, key: &str) -> (r: Option<Vec<String>>)
        ensures
            match r {
                Some(v) => strings_member(*self, key@) == Some(texts(v@)),
                None => strings_member(*self, key@) is None,
            },
    {
        match self.member_index(key) {
            Some(i) => match self {
                JsonValue::Object(entries) => match &entries[i].1 {
                    JsonValue::Array(items) => Some(string_items(items)),
                    _ => None,
                },
                _ => None,
            },
            None => None,
        }
    }

    /// Whether the value is `null` or an object without members.
    pub fn is_blank(&self) -> (b: bool)
        ensures
            b == is_blank(*self),
    {
        match self {
            JsonValue::Null => true,
            JsonValue::Object(entries) => entries.len() == 0,
            _ => false,
        }
    }
}

fn string_items(items: &Vec<JsonValue>) -> (r: Vec<String>)
    ensures
        texts(r@) == strings_of(items@),
{
    let mut r: Vec<String> = Vec::new();
    let mut i: usize = 0;
    while i < items.len()
        invariant
            i <= items@.len(),
            texts(r@) == strings_of(items@.take(i as int)),
        decreases items@.len() - i,
    {
        assert(items@.take(i + 1).drop_last() =~= items@.take(i as int));
        match &items[i] {
            JsonValue::Str(s) => {
                r.push(s.clone());
            },
            _ => {},
        }
        assert(texts(r@) =~= strings_of(items@.take(i + 1)));
        i = i + 1;
    }
    assert(items@.take(items@.len() as int) =~= items@);
    r
}

} // verus!
