//! JSON documents as plain values, and the boundary to the JSON parser.
//!
//! The parser is `serde_json`. What it reads is copied, node for node, into
//! [`Json`], a tree of plain values that the rest of the library can inspect.

use vstd::prelude::*;
use serde_json::Value;
use crate::text::text_eq;

verus! {

/// A JSON number, in the three forms the parser keeps: an integer from zero
/// up, an integer below zero, or a finite real held by the bits of its
/// double-precision encoding.
#[derive(Clone, Copy, Debug, PartialEq, Eq, Structural)]
pub enum JsonNumber {
    PosInt(u64),
    NegInt(i64),
    Real(u64),
}

impl JsonNumber {
    /// The number as a signed 64-bit integer, where it is an integer in that
    /// range.
    pub open spec fn int_value(self) -> Option<i64> {
        match self {
            JsonNumber::PosInt(u) => if u <= i64::MAX as u64 {
                Some(u as i64)
            } else {
                None
            },
            JsonNumber::NegInt(i) => Some(i),
            JsonNumber::Real(_) => None,
        }
    }

    /// The number as a signed 64-bit integer, where it is one.
    pub fn as_i64(&self) -> (value: Option<i64>)
        ensures
            value == self.int_value(),
    {
        match *self {
            JsonNumber::PosInt(u) => if u <= i64::MAX as u64 {
                Some(u as i64)
            } else {
                None
            },
            JsonNumber::NegInt(i) => Some(i),
            JsonNumber::Real(_) => None,
        }
    }
}

/// A JSON document. The entries of an object are kept as a list of key and
/// value, in the order the parser hands them out.
#[derive(Debug, PartialEq, Eq)]
pub enum Json {
    Null,
    Bool(bool),
    Number(JsonNumber),
    Str(String),
    Array(Vec<Json>),
    Object(Vec<(String, Json)>),
}

/// The mathematical value of a [`Json`] document.
pub enum JsonValue {
    Null,
    Bool(bool),
    Number(JsonNumber),
    Str(Seq<char>),
    Array(Seq<JsonValue>),
    Object(Seq<(Seq<char>, JsonValue)>),
}

/// The mathematical value of a document: strings and lists by their views,
/// node for node.
pub open spec fn value_of(json: Json) -> JsonValue
    decreases json,
{
    match json {
        Json::Null => JsonValue::Null,
        Json::Bool(b) => JsonValue::Bool(b),
        Json::Number(n) => JsonValue::Number(n),
        Json::Str(s) => JsonValue::Str(s@),
        Json::Array(items) => JsonValue::Array(
            Seq::new(
                items@.len(),
                |i: int|
                    if 0 <= i < items@.len() {
                        value_of(items@[i])
                    } else {
                        JsonValue::Null
                    },
            ),
        ),
        Json::Object(entries) => JsonValue::Object(
            Seq::new(
                entries@.len(),
                |i: int|
                    if 0 <= i < entries@.len() {
                        (entries@[i].0@, value_of(entries@[i].1))
                    } else {
                        (Seq::empty(), JsonValue::Null)
                    },
            ),
        ),
    }
}

impl View for Json {
    type V = JsonValue;

    open spec fn view(&self) -> JsonValue {
        value_of(*self)
    }
}

/// The mathematical value of a list of object entries.
pub open spec fn entries_view(entries: Seq<(String, Json)>) -> Seq<(Seq<char>, JsonValue)> {
    Seq::new(entries.len(), |i: int| (entries[i].0@, entries[i].1@))
}

/// The mathematical value of a list of array items.
pub open spec fn items_view(items: Seq<Json>) -> Seq<JsonValue> {
    Seq::new(items.len(), |i: int| items[i]@)
}

/// An object's value is the value of its entries.
pub proof fn lemma_object_view(entries: Vec<(String, Json)>)
    ensures
        Json::Object(entries)@ == JsonValue::Object(entries_view(entries@)),
{
    assert(Json::Object(entries)@->Object_0 =~= entries_view(entries@));
}

/// An array's value is the value of its items.
pub proof fn lemma_array_view(items: Vec<Json>)
    ensures
        Json::Array(items)@ == JsonValue::Array(items_view(items@)),
{
    assert(Json::Array(items)@->Array_0 =~= items_view(items@));
}

/// `i` is the place of the first entry under `key`.
pub open spec fn is_first_at(entries: Seq<(Seq<char>, JsonValue)>, key: Seq<char>, i: int) -> bool {
    &&& 0 <= i < entries.len()
    &&& entries[i].0 == key
    &&& forall|j: int| 0 <= j < i ==> (#[trigger] entries[j]).0 != key
}

/// No entry stands under `key`.
pub open spec fn lacks(entries: Seq<(Seq<char>, JsonValue)>, key: Seq<char>) -> bool {
    forall|j: int| 0 <= j < entries.len() ==> (#[trigger] entries[j]).0 != key
}

/// The value of the first entry under `key`, if there is one.
pub open spec fn lookup(entries: Seq<(Seq<char>, JsonValue)>, key: Seq<char>) -> Option<JsonValue> {
    if exists|i: int| is_first_at(entries, key, i) {
        Some(entries[choose|i: int| is_first_at(entries, key, i)].1)
    } else {
        None
    }
}

/// The first entry under a key is found at one place only.
pub proof fn lemma_lookup_at(entries: Seq<(Seq<char>, JsonValue)>, key: Seq<char>, i: int)
    requires
        is_first_at(entries, key, i),
    ensures
        lookup(entries, key) == Some(entries[i].1),
{
}

/// Where no entry stands under a key, nothing is found under it.
pub proof fn lemma_lookup_absent(entries: Seq<(Seq<char>, JsonValue)>, key: Seq<char>)
    requires
        lacks(entries, key),
    ensures
        lookup(entries, key) is None,
{
}

impl JsonValue {
    /// The member of an object under `key`: the first entry with that key.
    /// A value that is no object has no members.
    pub open spec fn member(self, key: Seq<char>) -> Option<JsonValue> {
        match self {
            JsonValue::Object(entries) => lookup(entries, key),
            _ => None,
        }
    }

    /// The text of a string value.
    pub open spec fn text(self) -> Option<Seq<char>> {
        match self {
            JsonValue::Str(s) => Some(s),
            _ => None,
        }
    }

    /// The integer of a number value that fits 64 signed bits.
    pub open spec fn integer(self) -> Option<i64> {
        match self {
            JsonValue::Number(n) => n.int_value(),
            _ => None,
        }
    }

    /// The truth value of a boolean value.
    pub open spec fn flag(self) -> Option<bool> {
        match self {
            JsonValue::Bool(b) => Some(b),
            _ => None,
        }
    }
}

/// Finds the place of the first entry under `key`.
pub fn find_entry(entries: &Vec<(String, Json)>, key: &str) -> (place: Option<usize>)
    ensures
        match place {
            Some(i) => is_first_at(entries_view(entries@), key@, i as int),
            None => lacks(entries_view(entries@), key@),
        },
{
    let mut i: usize = 0;
    while i < entries.len()
        invariant
            i <= entries.len(),
            forall|j: int| 0 <= j < i ==> (#[trigger] entries_view(entries@)[j]).0 != key@,
        decreases entries.len() - i,
    {
        if text_eq(entries[i].0.as_str(), key) {
            return Some(i);
        }
        i += 1;
    }
    None
}

impl Json {
    /// The member of an object under `key`.
    pub fn get(&self, key: &str) -> (found: Option<&Json>)
        ensures
            match found {
                Some(v) => self@.member(key@) == Some(v@),
                None => self@.member(key@) is None,
            },
    {
        match self {
            Json::Object(entries) => {
                proof {
                    lemma_object_view(*entries);
                }
                match find_entry(entries, key) {
                    Some(i) => {
                        proof {
                            lemma_lookup_at(entries_view(entries@), key@, i as int);
                        }
                        Some(&entries[i].1)
                    },
                    None => {
                        proof {
                            lemma_lookup_absent(entries_view(entries@), key@);
                        }
                        None
                    },
                }
            },
            _ => None,
        }
    }

    /// The member of an object under `key`, taken out of the document.
    pub fn into_member(self, key: &str) -> (found: Option<Json>)
        ensures
            match found {
                Some(v) => self@.member(key@) == Some(v@),
                None => self@.member(key@) is None,
            },
    {
        match self {
            Json::Object(entries) => {
                proof {
                    lemma_object_view(entries);
                }
                let mut entries = entries;
                match find_entry(&entries, key) {
                    Some(i) => {
                        proof {
                            lemma_lookup_at(entries_view(entries@), key@, i as int);
                        }
                        let entry = entries.swap_remove(i);
                        Some(entry.1)
                    },
                    None => {
                        proof {
                            lemma_lookup_absent(entries_view(entries@), key@);
                        }
                        None
                    },
                }
            },
            _ => None,
        }
    }

    /// The text of a string value.
    pub fn as_str(&self) -> (text: Option<&str>)
        ensures
            match text {
                Some(t) => self@.text() == Some(t@),
                None => self@.text() is None,
            },
    {
        match self {
            Json::Str(s) => Some(s.as_str()),
            _ => None,
        }
    }

    /// The integer of a number value that fits 64 signed bits.
    pub fn as_i64(&self) -> (value: Option<i64>)
        ensures
            value == self@.integer(),
    {
        match self {
            Json::Number(n) => n.as_i64(),
            _ => None,
        }
    }

    /// The truth value of a boolean value.
    pub fn as_bool(&self) -> (flag: Option<bool>)
        ensures
            flag == self@.flag(),
    {
        match self {
            Json::Bool(b) => Some(*b),
            _ => None,
        }
    }

    /// Tells whether the value is `null`.
    pub fn is_null(&self) -> (null: bool)
        ensures
            null == (self@ == JsonValue::Null),
    {
        match self {
            Json::Null => true,
            _ => false,
        }
    }
}

impl Clone for Json {
    /// A deep copy: the same document in fresh storage.
    fn clone(&self) -> (copy: Json)
        ensures
            copy@ == self@,
        decreases self,
    {
        match self {
            Json::Null => Json::Null,
            Json::Bool(b) => Json::Bool(*b),
            Json::Number(n) => Json::Number(*n),
            Json::Str(s) => Json::Str(s.clone()),
            Json::Array(items) => {
                let mut copies: Vec<Json> = Vec::new();
                let mut i: usize = 0;
                while i < items.len()
                    invariant
                        i <= items.len(),
                        copies@.len() == i,
                        *self is Array,
                        self->Array_0 == *items,
                        forall|j: int| 0 <= j < i ==> copies@[j]@ == items@[j]@,
                    decreases items.len() - i,
                {
                    proof {
                        vstd::std_specs::vec::axiom_vec_index_decreases(*items, i as int);
                    }
                    let copy = items[i].clone();
                    copies.push(copy);
                    i += 1;
                }
                proof {
                    lemma_array_view(copies);
                    lemma_array_view(*items);
                    assert(items_view(copies@) =~= items_view(items@));
                }
                Json::Array(copies)
            },
            Json::Object(entries) => {
                let mut copies: Vec<(String, Json)> = Vec::new();
                let mut i: usize = 0;
                while i < entries.len()
                    invariant
                        i <= entries.len(),
                        copies@.len() == i,
                        *self is Object,
                        self->Object_0 == *entries,
                        forall|j: int|
                            0 <= j < i ==> copies@[j].0@ == entries@[j].0@ && copies@[j].1@
                                == entries@[j].1@,
                    decreases entries.len() - i,
                {
                    let key = entries[i].0.clone();
                    proof {
                        vstd::std_specs::vec::axiom_vec_index_decreases(*entries, i as int);
                    }
                    let value = entries[i].1.clone();
                    copies.push((key, value));
                    i += 1;
                }
                proof {
                    lemma_object_view(copies);
                    lemma_object_view(*entries);
                    assert(entries_view(copies@) =~= entries_view(entries@));
                }
                Json::Object(copies)
            },
        }
    }
}

/// The document that `serde_json` reads from a text: `None` where the text
/// is not exactly one JSON document.
pub uninterp spec fn json_document(text: Seq<char>) -> Option<JsonValue>;

/// `serde_json::Value`, the parser's own document type. It is opaque here:
/// the library reads a document only after it was copied into a [`Json`].
#[verifier::external_type_specification]
#[verifier::external_body]
pub struct ExValue(serde_json::Value);

/// `serde_json::Number`, the parser's own number type, opaque as well.
#[verifier::external_type_specification]
#[verifier::external_body]
pub struct ExNumber(serde_json::Number);

/// Copies a `serde_json::Number` into a [`JsonNumber`]: by `Number::as_u64`
/// where that answers, else by `as_i64`, else by the bits of `as_f64`.
/// Nothing is claimed of the result here: [`parse_document`] names the whole
/// document.
#[verifier::external_body]
fn number_of(n: &serde_json::Number) -> Option<JsonNumber> {
    match (n.as_u64(), n.as_i64()) {
        (Some(u), _) => Some(JsonNumber::PosInt(u)),
        (None, Some(i)) => Some(JsonNumber::NegInt(i)),
        (None, None) => Some(JsonNumber::Real(n.as_f64()?.to_bits())),
    }
}

/// Copies a `serde_json::Value` into a [`Json`], variant by variant. The
/// entries of an object come in the order its map hands them out, which is
/// the order of their keys. Nothing is claimed of the result here:
/// [`parse_document`] names it.
#[verifier::external_body]
fn json_of_value(value: Value) -> Option<Json> {
    Some(match value {
        Value::Null => Json::Null,
        Value::Bool(b) => Json::Bool(b),
        Value::Number(n) => Json::Number(number_of(&n)?),
        Value::String(s) => Json::Str(s),
        Value::Array(a) => Json::Array(a.into_iter().map(json_of_value).collect::<Option<_>>()?),
        Value::Object(m) => Json::Object(
            m.into_iter().map(|(k, v)| Some((k, json_of_value(v)?))).collect::<Option<_>>()?,
        ),
    })
}

/// Parses a text as one JSON document with `serde_json::from_str`.
///
/// Trusted: the result is a function of the text alone, named
/// [`json_document`]. It is `None` where `serde_json` reports an error, which
/// it does for anything but one complete JSON value with nothing but
/// whitespace around it.
#[verifier::external_body]
pub(crate) fn parse_document(text: &str) -> (doc: Option<Json>)
    ensures
        match doc {
            Some(d) => json_document(text@) == Some(d@),
            None => json_document(text@) is None,
        },
{
    match serde_json::from_str::<Value>(text) {
        Ok(value) => json_of_value(value),
        Err(_) => None,
    }
}

} // verus!
