//! The JSON document model that the protocol core works on.
//!
//! A wire message is a JSON object; the core only ever reads top-level
//! fields of such objects, so the model keeps an object as an ordered list
//! of key/value pairs and defines field access as "first entry whose key
//! matches".  Numbers are held as `i64`: a request id and an error code are
//! integers on this protocol's wire, and a document whose numbers do not
//! fit is rejected at the text boundary.

use vstd::prelude::*;

verus! {

/// A JSON value: the opaque payload currency of the envelope layer.
#[derive(Debug, PartialEq, Eq)]
pub enum JsonValue {
    Null,
    Bool(bool),
    Number(i64),
    Text(String),
    Array(Vec<JsonValue>),
    Object(Vec<(String, JsonValue)>),
}

/// The value of the first entry of `entries` whose key reads as `key`,
/// if any: the field-access rule for model objects.
pub open spec fn lookup(entries: Seq<(String, JsonValue)>, key: Seq<char>) -> Option<JsonValue>
    decreases entries.len(),
{
    if entries.len() == 0 {
        None
    } else if entries[0].0@ == key {
        Some(entries[0].1)
    } else {
        lookup(entries.drop_first(), key)
    }
}

/// `v` is an object that carries a field named `key`.
pub open spec fn has_key(v: JsonValue, key: Seq<char>) -> bool {
    match v {
        JsonValue::Object(entries) => lookup(entries@, key) is Some,
        _ => false,
    }
}

/// Looking up `key` yields the value at `i` when `i` is the first
/// entry named `key`.
pub proof fn lemma_lookup_at_first_match(entries: Seq<(String, JsonValue)>, key: Seq<char>, i: int)
    requires
        0 <= i < entries.len(),
        entries[i].0@ == key,
        forall|j: int| 0 <= j < i ==> entries[j].0@ != key,
    ensures
        lookup(entries, key) == Some(entries[i].1),
    decreases i,
{
    if i > 0 {
        lemma_lookup_at_first_match(entries.drop_first(), key, i - 1);
    }
}

/// Looking up `key` yields nothing when no entry is named `key`.
pub proof fn lemma_lookup_no_match(entries: Seq<(String, JsonValue)>, key: Seq<char>)
    requires
        forall|j: int| 0 <= j < entries.len() ==> entries[j].0@ != key,
    ensures
        lookup(entries, key) is None,
    decreases entries.len(),
{
    if entries.len() > 0 {
        lemma_lookup_no_match(entries.drop_first(), key);
    }
}

proof fn lemma_lookup_skips_other_key(entries: Seq<(String, JsonValue)>, i: int, other: Seq<char>)
    requires
        0 <= i < entries.len(),
        entries[i].0@ != other,
    ensures
        lookup(entries.remove(i), other) == lookup(entries, other),
    decreases entries.len(),
{
    if i == 0 {
        assert(entries.remove(0) =~= entries.drop_first());
    } else {
        if entries[0].0@ != other {
            lemma_lookup_skips_other_key(entries.drop_first(), i - 1, other);
            assert(entries.remove(i).drop_first() =~= entries.drop_first().remove(i - 1));
            assert(entries.remove(i)[0] == entries[0]);
        } else {
            assert(entries.remove(i)[0] == entries[0]);
        }
    }
}

/// A reference to the field named `key` of the object entries, or `None`
/// when no entry's key matches.
pub fn find<'a>(entries: &'a Vec<(String, JsonValue)>, key: &str) -> (r: Option<&'a JsonValue>)
    ensures
        match r {
            Some(v) => lookup(entries@, key@) == Some(*v),
            None => lookup(entries@, key@) is None,
        },
{
    let wanted: String = key.to_owned();
    let mut i: usize = 0;
    while i < entries.len()
        invariant
            0 <= i <= entries@.len(),
            wanted@ == key@,
            forall|j: int| 0 <= j < i ==> entries@[j].0@ != key@,
        decreases entries@.len() - i,
    {
        if entries[i].0 == wanted {
            proof {
                lemma_lookup_at_first_match(entries@, key@, i as int);
            }
            return Some(&entries[i].1);
        }
        i = i + 1;
    }
    proof {
        lemma_lookup_no_match(entries@, key@);
    }
    None
}

/// Removes the first entry named `key` and hands its value out, leaving
/// every other field of the object unchanged.
pub fn take_first(entries: &mut Vec<(String, JsonValue)>, key: &str) -> (r: Option<JsonValue>)
    ensures
        r == lookup(old(entries)@, key@),
        r is None ==> final(entries)@ == old(entries)@,
        forall|other: Seq<char>|
            other != key@ ==> lookup(final(entries)@, other) == lookup(old(entries)@, other),
{
    let wanted: String = key.to_owned();
    let mut i: usize = 0;
    while i < entries.len()
        invariant
            entries@ == old(entries)@,
            0 <= i <= entries@.len(),
            wanted@ == key@,
            forall|j: int| 0 <= j < i ==> entries@[j].0@ != key@,
        decreases entries@.len() - i,
    {
        if entries[i].0 == wanted {
            proof {
                lemma_lookup_at_first_match(entries@, key@, i as int);
            }
            let ghost before = entries@;
            let pair = entries.remove(i);
            proof {
                assert forall|other: Seq<char>| other != key@ implies #[trigger] lookup(
                    entries@,
                    other,
                ) == lookup(before, other) by {
                    lemma_lookup_skips_other_key(before, i as int, other);
                }
            }
            return Some(pair.1);
        }
        i = i + 1;
    }
    proof {
        lemma_lookup_no_match(entries@, key@);
    }
    None
}

} // verus!
