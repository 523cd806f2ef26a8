//! A JSON document held as plain values, and typed reads of an object's members.
use vstd::prelude::*;

verus! {

/// A parsed JSON value.
///
/// Numbers are kept only as far as the wire entities read them: `Int` holds
/// an integer that fits `i64`, `OtherNumber` stands for any other number.
#[derive(Debug)]
pub enum JsonValue {
    Null,
    Bool(bool),
    Int(i64),
    OtherNumber,
    Str(String),
    Array(Vec<JsonValue>),
    Object(Vec<(String, JsonValue)>),
}

/// The value of the first entry named `key`, if any.
pub open spec fn lookup(entries: Seq<(String, JsonValue)>, key: Seq<char>) -> Option<JsonValue>
    decreases entries.len(),
{
    if entries.len() == 0 {
        None
    } else if entries[0].0@ == key {
        Some(entries[0].1)
    } else {
        lookup(entries.drop_first(), key)
    }
}

/// The member `key` of an object; `None` for a missing member or a non-object.
pub open spec fn member(v: JsonValue, key: Seq<char>) -> Option<JsonValue> {
    match v {
        JsonValue::Object(entries) => lookup(entries@, key),
        _ => None,
    }
}

/// A required boolean member.
pub open spec fn bool_at(v: JsonValue, key: Seq<char>) -> Option<bool> {
    match member(v, key) {
        Some(JsonValue::Bool(b)) => Some(b),
        _ => None,
    }
}

/// A required integer member.
pub open spec fn int_at(v: JsonValue, key: Seq<char>) -> Option<i64> {
    match member(v, key) {
        Some(JsonValue::Int(i)) => Some(i),
        _ => None,
    }
}

/// A required integer member that fits `i32`.
pub open spec fn int32_at(v: JsonValue, key: Seq<char>) -> Option<i32> {
    match member(v, key) {
        Some(JsonValue::Int(i)) => if i32::MIN <= i <= i32::MAX {
            Some(i as i32)
        } else {
            None
        },
        _ => None,
    }
}

/// A required string member.
pub open spec fn text_at(v: JsonValue, key: Seq<char>) -> Option<String> {
    match member(v, key) {
        Some(JsonValue::Str(s)) => Some(s),
        _ => None,
    }
}

/// Whether an optional member is absent: missing or `null`.
pub open spec fn absent_at(v: JsonValue, key: Seq<char>) -> bool {
    match member(v, key) {
        None => true,
        Some(JsonValue::Null) => true,
        _ => false,
    }
}

/// An optional boolean member: `Some(None)` when absent, `None` when mistyped.
pub open spec fn opt_bool_at(v: JsonValue, key: Seq<char>) -> Option<Option<bool>> {
    if absent_at(v, key) {
        Some(None)
    } else {
        match bool_at(v, key) {
            Some(b) => Some(Some(b)),
            None => None,
        }
    }
}

/// An optional string member: `Some(None)` when absent, `None` when mistyped.
pub open spec fn opt_text_at(v: JsonValue, key: Seq<char>) -> Option<Option<String>> {
    if absent_at(v, key) {
        Some(None)
    } else {
        match text_at(v, key) {
            Some(s) => Some(Some(s)),
            None => None,
        }
    }
}

proof fn lemma_lookup_skip(entries: Seq<(String, JsonValue)>, i: int, key: Seq<char>)
    requires
        0 <= i < entries.len(),
        entries[i].0@ != key,
    ensures
        lookup(entries.subrange(i, entries.len() as int), key) == lookup(
            entries.subrange(i + 1, entries.len() as int),
            key,
        ),
{
    let rest = entries.subrange(i, entries.len() as int);
    assert(rest.drop_first() =~= entries.subrange(i + 1, entries.len() as int));
}

impl JsonValue {
    /// The member `key` of this value, when it is an object that has one.
    pub fn get(&self, key: &str) -> (r: Option<&JsonValue>)
        ensures
            match r {
                Some(x) => member(*self, key@) == Some(*x),
                None => member(*self, key@) is None,
            },
    {
        match self {
            JsonValue::Object(entries) => {
                let target = String::from_str(key);
                let mut i: usize = 0;
                proof {
                    assert(entries@.subrange(0, entries@.len() as int) =~= entries@);
                }
                while i < entries.len()
                    invariant
                        0 <= i <= entries@.len(),
                        target@ == key@,
                        member(*self, key@) == lookup(entries@, key@),
                        lookup(entries@, key@) == lookup(
                            entries@.subrange(i as int, entries@.len() as int),
                            key@,
                        ),
                    decreases entries.len() - i,
                {
                    if entries[i].0 == target {
                        proof {
                            let rest = entries@.subrange(i as int, entries@.len() as int);
                            assert(rest[0] == entries@[i as int]);
                        }
                        return Some(&entries[i].1);
                    }
                    proof {
                        lemma_lookup_skip(entries@, i as int, key@);
                    }
                    i = i + 1;
                }
                None
            },
            _ => None,
        }
    }

    /// A required boolean member.
    pub fn bool_member(&self, key: &str) -> (r: Option<bool>)
        ensures
            r == bool_at(*self, key@),
    {
        match self.get(key) {
            Some(JsonValue::Bool(b)) => Some(*b),
            _ => None,
        }
    }

    /// A required integer member.
    pub fn int_member(&self, key: &str) -> (r: Option<i64>)
        ensures
            r == int_at(*self, key@),
    {
        match self.get(key) {
            Some(JsonValue::Int(i)) => Some(*i),
            _ => None,
        }
    }

    /// A required integer member that fits `i32`.
    pub fn int32_member(&self, key: &str) -> (r: Option<i32>)
        ensures
            r == int32_at(*self, key@),
    {
        match self.get(key) {
            Some(JsonValue::Int(i)) => if i32::MIN as i64 <= *i && *i <= i32::MAX as i64 {
                Some(*i as i32)
            } else {
                None
            },
            _ => None,
        }
    }

    /// A required string member.
    pub fn text_member(&self, key: &str) -> (r: Option<String>)
        ensures
            r == text_at(*self, key@),
    {
        match self.get(key) {
            Some(JsonValue::Str(s)) => Some(s.clone()),
            _ => None,
        }
    }

    /// Whether an optional member is missing or `null`.
    pub fn is_absent(&self, key: &str) -> (r: bool)
        ensures
            r == absent_at(*self, key@),
    {
        match self.get(key) {
            None => true,
            Some(JsonValue::Null) => true,
            _ => false,
        }
    }

    /// An optional boolean member.
    pub fn opt_bool_member(&self, key: &str) -> (r: Option<Option<bool>>)
        ensures
            r == opt_bool_at(*self, key@),
    {
        if self.is_absent(key) {
            Some(None)
        } else {
            match self.bool_member(key) {
                Some(b) => Some(Some(b)),
                None => None,
            }
        }
    }

    /// An optional string member.
    pub fn opt_text_member(&self, key: &str) -> (r: Option<Option<String>>)
        ensures
            r == opt_text_at(*self, key@),
    {
        if self.is_absent(key) {
            Some(None)
        } else {
            match self.text_member(key) {
                Some(s) => Some(Some(s)),
                None => None,
            }
        }
    }
}

} // verus!
