//! The generic structured-data tree that a decoded YAML or JSON document
//! is handed to the library as: scalars, ordered sequences, and
//! order-preserving string-keyed mappings.

use vstd::prelude::*;
use vstd::string::StrSliceExecFns;

verus! {

/// A node of the generic input tree. A `Mapping` keeps its entries in
/// document order; a key is looked up by its first occurrence.
#[derive(Debug, PartialEq, Eq)]
pub enum Value {
    Null,
    Bool(bool),
    Int(i64),
    Text(String),
    List(Vec<Value>),
    Mapping(Vec<(String, Value)>),
}

/// The name of a value's shape, as it appears in a `TypeMismatch` error.
pub open spec fn kind_of(v: Value) -> Seq<char> {
    match v {
        Value::Null => "null"@,
        Value::Bool(_) => "boolean"@,
        Value::Int(_) => "integer"@,
        Value::Text(_) => "string"@,
        Value::List(_) => "sequence"@,
        Value::Mapping(_) => "mapping"@,
    }
}

/// Returns the name of `v`'s shape.
pub fn kind_name(v: &Value) -> (r: String)
    ensures
        r@ == kind_of(*v),
{
    match v {
        Value::Null => String::from_str("null"),
        Value::Bool(_) => String::from_str("boolean"),
        Value::Int(_) => String::from_str("integer"),
        Value::Text(_) => String::from_str("string"),
        Value::List(_) => String::from_str("sequence"),
        Value::Mapping(_) => String::from_str("mapping"),
    }
}

/// The value at `key` among mapping entries: the first entry whose key
/// matches, or `None` when no entry matches.
pub open spec fn lookup(entries: Seq<(String, Value)>, key: Seq<char>) -> Option<Value>
    decreases entries.len(),
{
    if entries.len() == 0 {
        None
    } else if entries[0].0@ == key {
        Some(entries[0].1)
    } else {
        lookup(entries.subrange(1, entries.len() as int), key)
    }
}

/// The looked-up value itself, for contexts where `lookup` is known to
/// succeed; `Null` otherwise.
pub open spec fn value_at(entries: Seq<(String, Value)>, key: Seq<char>) -> Value {
    match lookup(entries, key) {
        Some(v) => v,
        None => Value::Null,
    }
}

/// The characters of the string stored at `key`, where the lookup is known
/// to find a string; empty otherwise.
pub open spec fn str_at(entries: Seq<(String, Value)>, key: Seq<char>) -> Seq<char> {
    match lookup(entries, key) {
        Some(Value::Text(t)) => t@,
        _ => Seq::empty(),
    }
}

/// The characters of the string at `key`, or `None` where the key is
/// absent or its value is not a string.
pub open spec fn opt_str_of(entries: Seq<(String, Value)>, key: Seq<char>) -> Option<Seq<char>> {
    match lookup(entries, key) {
        Some(Value::Text(t)) => Some(t@),
        _ => None,
    }
}

proof fn lemma_lookup_found(entries: Seq<(String, Value)>, key: Seq<char>, i: int)
    requires
        0 <= i < entries.len(),
        forall|j: int| 0 <= j < i ==> entries[j].0@ != key,
        entries[i].0@ == key,
    ensures
        lookup(entries, key) == Some(entries[i].1),
    decreases i,
{
    if i > 0 {
        lemma_lookup_found(entries.subrange(1, entries.len() as int), key, i - 1);
    }
}

proof fn lemma_lookup_absent(entries: Seq<(String, Value)>, key: Seq<char>)
    requires
        forall|j: int| 0 <= j < entries.len() ==> entries[j].0@ != key,
    ensures
        lookup(entries, key) is None,
    decreases entries.len(),
{
    if entries.len() > 0 {
        lemma_lookup_absent(entries.subrange(1, entries.len() as int), key);
    }
}

/// When a lookup succeeds, the value found is one of the entries' values.
pub proof fn lemma_lookup_is_entry(entries: Seq<(String, Value)>, key: Seq<char>) -> (i: int)
    requires
        lookup(entries, key) is Some,
    ensures
        0 <= i < entries.len(),
        entries[i].1 == lookup(entries, key)->Some_0,
    decreases entries.len(),
{
    if entries[0].0@ == key {
        0
    } else {
        1 + lemma_lookup_is_entry(entries.subrange(1, entries.len() as int), key)
    }
}

/// Character-for-character string equality.
pub fn str_eq(a: &str, b: &str) -> (r: bool)
    ensures
        r == (a@ == b@),
{
    let alen = a.unicode_len();
    let blen = b.unicode_len();
    if alen != blen {
        return false;
    }
    let mut i: usize = 0;
    while i < alen
        invariant
            alen == a@.len(),
            blen == b@.len(),
            alen == blen,
            i <= alen,
            forall|j: int| 0 <= j < i ==> a@[j] == b@[j],
        decreases alen - i,
    {
        if a.get_char(i) != b.get_char(i) {
            return false;
        }
        i += 1;
    }
    proof {
        assert(a@ =~= b@);
    }
    true
}

/// Finds `key` among the entries of a mapping: the first entry whose key
/// equals `key`, exactly as `lookup` states.
pub fn get<'a>(entries: &'a Vec<(String, Value)>, key: &str) -> (r: Option<&'a Value>)
    ensures
        match r {
            Some(v) => lookup(entries@, key@) == Some(*v),
            None => lookup(entries@, key@) is None,
        },
{
    let mut i: usize = 0;
    while i < entries.len()
        invariant
            i <= entries@.len(),
            forall|j: int| 0 <= j < i ==> entries@[j].0@ != key@,
        decreases entries@.len() - i,
    {
        if str_eq(entries[i].0.as_str(), key) {
            proof {
                lemma_lookup_found(entries@, key@, i as int);
            }
            return Some(&entries[i].1);
        }
        i += 1;
    }
    proof {
        lemma_lookup_absent(entries@, key@);
    }
    None
}

} // verus!
