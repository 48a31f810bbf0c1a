//! A JSON value as the library reads and builds it: the same shape as a
//! `serde_json::Value`, with object entries in the order the map yields them.

use vstd::prelude::*;

use crate::text::{opt_view, str_eq};

verus! {

/// A JSON number: a non-negative integer, a negative integer, or a float,
/// which is carried by its IEEE-754 bit pattern.
#[derive(Debug, Clone, Copy, PartialEq, Eq, Structural)]
pub enum JsonNumber {
    PosInt(u64),
    NegInt(i64),
    Float(u64),
}

/// A JSON document.
#[derive(Debug)]
pub enum JsonValue {
    Null,
    Bool(bool),
    Number(JsonNumber),
    String(String),
    Array(Vec<JsonValue>),
    Object(Vec<(String, JsonValue)>),
}

/// The value of the first entry whose key is `key`.
pub open spec fn entries_lookup(entries: Seq<(String, JsonValue)>, key: Seq<char>) -> Option<
    JsonValue,
>
    decreases entries.len(),
{
    if entries.len() == 0 {
        None
    } else if entries[0].0@ == key {
        Some(entries[0].1)
    } else {
        entries_lookup(entries.drop_first(), key)
    }
}

/// No key occurs twice among the entries, as in a `serde_json` map.
pub open spec fn object_keys_unique(entries: Seq<(String, JsonValue)>) -> bool {
    forall|i: int, j: int|
        0 <= i < entries.len() && 0 <= j < entries.len() && i != j ==> #[trigger] entries[i].0@
            != #[trigger] entries[j].0@
}

/// `Value::get(key)`: the member `key` of an object; `None` for any other value.
pub open spec fn json_get(v: JsonValue, key: Seq<char>) -> Option<JsonValue> {
    match v {
        JsonValue::Object(entries) => entries_lookup(entries@, key),
        _ => None,
    }
}

/// `Value::as_str`.
pub open spec fn json_as_str(v: JsonValue) -> Option<Seq<char>> {
    match v {
        JsonValue::String(s) => Some(s@),
        _ => None,
    }
}

/// `Value::as_u64`: only non-negative integers.
pub open spec fn json_as_u64(v: JsonValue) -> Option<u64> {
    match v {
        JsonValue::Number(JsonNumber::PosInt(n)) => Some(n),
        _ => None,
    }
}

/// The string member `key` of `v`, if `v` is an object with such a member.
pub open spec fn json_str_field(v: JsonValue, key: Seq<char>) -> Option<Seq<char>> {
    match json_get(v, key) {
        Some(x) => json_as_str(x),
        None => None,
    }
}

/// The non-negative integer member `key` of `v`, if there is one.
pub open spec fn json_u64_field(v: JsonValue, key: Seq<char>) -> Option<u64> {
    match json_get(v, key) {
        Some(x) => json_as_u64(x),
        None => None,
    }
}

/// The string elements of an array, in order, other elements skipped.
pub open spec fn strings_of(items: Seq<JsonValue>) -> Seq<Seq<char>>
    decreases items.len(),
{
    if items.len() == 0 {
        Seq::<Seq<char>>::empty()
    } else {
        let rest = strings_of(items.drop_last());
        match json_as_str(items.last()) {
            Some(s) => rest.push(s),
            None => rest,
        }
    }
}

/// The string elements of the array member `key`, if `v` has an array there.
pub open spec fn json_string_list_field(v: JsonValue, key: Seq<char>) -> Option<Seq<Seq<char>>> {
    match json_get(v, key) {
        Some(JsonValue::Array(items)) => Some(strings_of(items@)),
        _ => None,
    }
}

impl JsonValue {
    /// `Value::get` with a string key.
    pub fn get(&self, key: &str) -> (r: Option<&JsonValue>)
        ensures
            match r {
                Some(x) => json_get(*self, key@) == Some(*x),
                None => json_get(*self, key@) is None,
            },
    {
        match self {
            JsonValue::Object(entries) => {
                let n = entries.len();
                let mut i: usize = 0;
                assert(entries@.skip(0) =~= entries@);
                assert(json_get(*self, key@) == entries_lookup(entries@, key@));
                while i < n
                    invariant
                        n == entries@.len(),
                        i <= n,
                        json_get(*self, key@) == entries_lookup(entries@, key@),
                        entries_lookup(entries@, key@) == entries_lookup(
                            entries@.skip(i as int),
                            key@,
                        ),
                    decreases n - i,
                {
                    assert(entries@.skip(i as int).drop_first() =~= entries@.skip(i + 1));
                    assert(entries@.skip(i as int)[0] == entries@[i as int]);
                    if str_eq(entries[i].0.as_str(), key) {
                        assert(entries_lookup(entries@.skip(i as int), key@) == Some(
                            entries@[i as int].1,
                        ));
                        return Some(&entries[i].1);
                    }
                    i = i + 1;
                }
                None
            },
            _ => None,
        }
    }

    pub fn as_str(&self) -> (r: Option<&str>)
        ensures
            match r {
                Some(s) => json_as_str(*self) == Some(s@),
                None => json_as_str(*self) is None,
            },
    {
        match self {
            JsonValue::String(s) => Some(s.as_str()),
            _ => None,
        }
    }

    pub fn as_u64(&self) -> (r: Option<u64>)
        ensures
            r == json_as_u64(*self),
    {
        match self {
            JsonValue::Number(JsonNumber::PosInt(n)) => Some(*n),
            _ => None,
        }
    }

    /// `Value::get(key)` that takes the member out of the value it consumes.
    pub fn take_member(self, key: &str) -> (r: Option<JsonValue>)
        ensures
            r == json_get(self, key@),
    {
        let ghost orig = self;
        match self {
            JsonValue::Object(entries) => {
                let ghost all = entries@;
                assert(json_get(orig, key@) == entries_lookup(all, key@));
                let mut rest = entries;
                while rest.len() > 0
                    invariant
                        orig == self,
                        json_get(orig, key@) == entries_lookup(rest@, key@),
                    decreases rest@.len(),
                {
                    let ghost before = rest@;
                    let entry = rest.remove(0);
                    assert(entry == before[0]);
                    assert(rest@ =~= before.drop_first());
                    let (k, v) = entry;
                    if str_eq(k.as_str(), key) {
                        assert(entries_lookup(before, key@) == Some(before[0].1));
                        return Some(v);
                    }
                }
                None
            },
            _ => None,
        }
    }

    /// `args.get(key).and_then(Value::as_str).map(String::from)`.
    pub fn str_field(&self, key: &str) -> (r: Option<String>)
        ensures
            match r {
                Some(s) => json_str_field(*self, key@) == Some(s@),
                None => json_str_field(*self, key@) is None,
            },
    {
        match self.get(key) {
            Some(v) => match v.as_str() {
                Some(s) => Some(s.to_owned()),
                None => None,
            },
            None => None,
        }
    }

    /// `args.get(key).and_then(Value::as_u64)`.
    pub fn u64_field(&self, key: &str) -> (r: Option<u64>)
        ensures
            r == json_u64_field(*self, key@),
    {
        match self.get(key) {
            Some(v) => v.as_u64(),
            None => None,
        }
    }

    /// `args.get(key).and_then(Value::as_array)` with the string elements
    /// collected and the others skipped.
    pub fn string_list_field(&self, key: &str) -> (r: Option<Vec<String>>)
        ensures
            match r {
                Some(v) => json_string_list_field(*self, key@) == Some(crate::text::views(v@)),
                None => json_string_list_field(*self, key@) is None,
            },
    {
        match self.get(key) {
            Some(JsonValue::Array(items)) => {
                let n = items.len();
                let mut out: Vec<String> = Vec::new();
                let mut i: usize = 0;
                while i < n
                    invariant
                        n == items@.len(),
                        i <= n,
                        crate::text::views(out@) == strings_of(items@.take(i as int)),
                    decreases n - i,
                {
                    assert(items@.take(i + 1).drop_last() =~= items@.take(i as int));
                    assert(items@.take(i + 1).last() == items@[i as int]);
                    match items[i].as_str() {
                        Some(s) => {
                            let ghost before = out@;
                            out.push(s.to_owned());
                            assert(crate::text::views(out@) =~= crate::text::views(before).push(
                                s@,
                            ));
                        },
                        None => {},
                    }
                    i = i + 1;
                }
                assert(items@.take(n as int) =~= items@);
                Some(out)
            },
            _ => None,
        }
    }
}

impl JsonValue {
    /// `json!(o)` for an optional string: the string, or `null`.
    pub fn from_opt_str(o: Option<String>) -> (r: JsonValue)
        ensures
            json_as_str(r) == opt_view(o),
            o is None ==> r is Null,
    {
        match o {
            Some(s) => JsonValue::String(s),
            None => JsonValue::Null,
        }
    }

    /// `json!(o)` for an optional unsigned number: the number, or `null`.
    pub fn from_opt_u64(o: Option<u64>) -> (r: JsonValue)
        ensures
            json_as_str(r) is None,
            match o {
                Some(n) => r == JsonValue::Number(JsonNumber::PosInt(n)),
                None => r is Null,
            },
    {
        match o {
            Some(n) => JsonValue::Number(JsonNumber::PosInt(n)),
            None => JsonValue::Null,
        }
    }

    /// `json!(o)` for an optional signed number: non-negative values as
    /// `PosInt`, negative ones as `NegInt`, or `null`.
    pub fn from_opt_i64(o: Option<i64>) -> (r: JsonValue)
        ensures
            json_as_str(r) is None,
            match o {
                Some(n) => if n >= 0 {
                    r == JsonValue::Number(JsonNumber::PosInt(n as u64))
                } else {
                    r == JsonValue::Number(JsonNumber::NegInt(n))
                },
                None => r is Null,
            },
    {
        match o {
            Some(n) => if n >= 0 {
                JsonValue::Number(JsonNumber::PosInt(n as u64))
            } else {
                JsonValue::Number(JsonNumber::NegInt(n))
            },
            None => JsonValue::Null,
        }
    }
}

} // verus!
