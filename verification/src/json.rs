//! The library's model of a request body read as generic JSON: a top-level
//! object whose values are kept only as far as the request schemas can tell
//! them apart. The generic read serves two purposes at once: the schema
//! validators check every key and every recognized value against it, and the
//! deprecation tracker probes it for retired key names that the current
//! schema no longer carries.

use vstd::prelude::*;

verus! {

/// One JSON value at the top level of a request body. Only the scalar shapes
/// that the request schemas distinguish are kept apart; arrays, nested
/// objects and numbers outside the unsigned 64-bit integer range all fall
/// under `Other`, which every schema field treats as a type mismatch.
#[derive(Debug)]
pub enum JsonAtom {
    /// JSON `null`.
    Null,
    /// A JSON boolean.
    Bool(bool),
    /// A JSON number that is an unsigned integer fitting 64 bits.
    UInt(u64),
    /// A JSON string.
    Str(String),
    /// Any other JSON value: an array, a nested object, or a number outside
    /// the unsigned 64-bit integer range.
    Other,
}

/// One key/value pair of a top-level JSON object.
#[derive(Debug)]
pub struct JsonField {
    /// The member's key.
    pub key: String,
    /// The member's value.
    pub value: JsonAtom,
}

/// The outcome of reading a request body as generic JSON.
#[derive(Debug)]
pub enum RawDoc {
    /// The bytes are not a well-formed JSON document.
    Invalid,
    /// A well-formed document whose top level is not an object.
    NotObject,
    /// A top-level object, with its members in the order the parse hands
    /// them out: sorted by key, each key occurring once.
    Object(Vec<JsonField>),
}

/// The generic read of a byte string as a JSON document. The result is a
/// function of the bytes alone; this name stands for it, and `parse_raw`
/// is the one place that computes it.
pub uninterp spec fn raw_doc_of(bytes: Seq<u8>) -> RawDoc;

/// Relies on `serde_json::from_slice::<serde_json::Value>`: parsing is a
/// function of the input bytes alone, it fails exactly on malformed input,
/// and a parsed object's members come out of `serde_json::Map` (a `BTreeMap`
/// under the default features) in sorted order with unique keys, a duplicate
/// key keeping its last value. Relies on `serde_json::Number::as_u64` to tell
/// unsigned 64-bit integers from every other number.
#[verifier::external_body]
pub(crate) fn parse_raw(bytes: &[u8]) -> (doc: RawDoc)
    ensures
        doc == raw_doc_of(bytes@),
{
    match serde_json::from_slice::<serde_json::Value>(bytes) {
        Err(_) => RawDoc::Invalid,
        Ok(serde_json::Value::Object(map)) => RawDoc::Object(
            map.into_iter().map(|(key, v)| JsonField { key, value: match v {
                serde_json::Value::Null => JsonAtom::Null,
                serde_json::Value::Bool(b) => JsonAtom::Bool(b),
                serde_json::Value::Number(n) => n.as_u64().map_or(JsonAtom::Other, JsonAtom::UInt),
                serde_json::Value::String(s) => JsonAtom::Str(s),
                _ => JsonAtom::Other,
            } }).collect(),
        ),
        Ok(_) => RawDoc::NotObject,
    }
}

/// The value at key `k`, taking the first member that carries it; `None`
/// when no member does.
pub open spec fn spec_lookup(fields: Seq<JsonField>, k: Seq<char>) -> Option<JsonAtom>
    decreases fields.len(),
{
    if fields.len() == 0 {
        None
    } else if fields[0].key@ == k {
        Some(fields[0].value)
    } else {
        spec_lookup(fields.skip(1), k)
    }
}

/// A key is absent exactly when no member carries it.
pub proof fn lemma_lookup_none(fields: Seq<JsonField>, k: Seq<char>)
    ensures
        spec_lookup(fields, k) is None <==> (forall|i: int|
            0 <= i < fields.len() ==> fields[i].key@ != k),
    decreases fields.len(),
{
    if fields.len() > 0 && fields[0].key@ != k {
        lemma_lookup_none(fields.skip(1), k);
        if spec_lookup(fields, k) is None {
            assert forall|i: int| 0 <= i < fields.len() implies fields[i].key@ != k by {
                if i > 0 {
                    assert(fields.skip(1)[i - 1] == fields[i]);
                }
            }
        }
        if forall|i: int| 0 <= i < fields.len() ==> fields[i].key@ != k {
            assert forall|j: int| 0 <= j < fields.skip(1).len() implies fields.skip(1)[j].key@
                != k by {
                assert(fields.skip(1)[j] == fields[j + 1]);
            }
        }
    }
}

/// The first member that carries a key determines what the lookup yields.
pub proof fn lemma_lookup_first(fields: Seq<JsonField>, k: Seq<char>, i: int)
    requires
        0 <= i < fields.len(),
        fields[i].key@ == k,
        forall|j: int| 0 <= j < i ==> fields[j].key@ != k,
    ensures
        spec_lookup(fields, k) == Some(fields[i].value),
    decreases i,
{
    if i > 0 {
        assert(forall|j: int|
            0 <= j < fields.skip(1).len() ==> fields.skip(1)[j] == fields[j + 1]);
        lemma_lookup_first(fields.skip(1), k, i - 1);
    }
}

/// The index of the first member carrying key `name`, or `None` when no
/// member does; either way the outcome of `spec_lookup` is pinned down.
pub(crate) fn find_index(fields: &Vec<JsonField>, name: &str) -> (r: Option<usize>)
    ensures
        match r {
            Some(i) => i < fields@.len() && fields@[i as int].key@ == name@
                && spec_lookup(fields@, name@) == Some(fields@[i as int].value),
            None => spec_lookup(fields@, name@) is None,
        },
{
    let mut idx: usize = 0;
    while idx < fields.len()
        invariant
            idx <= fields@.len(),
            forall|j: int| 0 <= j < idx ==> fields@[j].key@ != name@,
        decreases fields@.len() - idx,
    {
        if str_eq(fields[idx].key.as_str(), name) {
            proof {
                lemma_lookup_first(fields@, name@, idx as int);
            }
            return Some(idx);
        }
        idx += 1;
    }
    proof {
        lemma_lookup_none(fields@, name@);
    }
    None
}

/// Whether two string slices hold the same characters.
pub(crate) fn str_eq(a: &str, b: &str) -> (r: bool)
    ensures
        r == (a@ == b@),
{
    let owned_a: String = a.to_owned();
    let owned_b: String = b.to_owned();
    owned_a == owned_b
}

} // verus!
