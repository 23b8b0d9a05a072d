//! The boundary to the JSON decoder.
//!
//! Everything this library learns about JSON text it learns through the
//! trusted declarations in this module.  Each `uninterp` spec function names
//! the (deterministic) result of one decoding routine of the `serde_json`
//! crate — or of `bs58` for the identifier argument — and each wrapper
//! relates its return value to that name.  All structural decisions (arity,
//! defaults, error selection) are made by verified code on top of these.

use vstd::prelude::*;

verus! {

/// The elements of a JSON array, each as its raw sub-span, or `None` when
/// the text is not a JSON array.
pub uninterp spec fn json_array_of(s: Seq<char>) -> Option<Seq<Seq<char>>>;

/// The key/value entries of a JSON object, keys in ascending order, each
/// value as its raw sub-span, or `None` when the text is not a JSON object.
pub uninterp spec fn json_object_of(s: Seq<char>) -> Option<Seq<(Seq<char>, Seq<char>)>>;

/// The decoded text of a JSON string, or `None` when the text is not one.
pub uninterp spec fn json_string_of(s: Seq<char>) -> Option<Seq<char>>;

/// The value of a JSON number that fits in `u64`, or `None`.
pub uninterp spec fn json_u64_of(s: Seq<char>) -> Option<u64>;

/// The value of a JSON boolean, or `None` when the text is not one.
pub uninterp spec fn json_bool_of(s: Seq<char>) -> Option<bool>;

/// Whether the text is the JSON value `null`.
pub uninterp spec fn json_null_of(s: Seq<char>) -> bool;

/// The bytes a base58 string decodes to, or `None` when a character is
/// outside the alphabet.
pub uninterp spec fn base58_of(s: Seq<char>) -> Option<Seq<u8>>;

/// Relies on `serde_json::from_str` decoding a JSON array into raw element
/// spans (`RawValue`, gathered into a two-slot inline `SmallVec`, as the
/// positional arrays here almost never spill): on success the elements are
/// returned verbatim as sub-spans of the input; on failure the decoder's
/// message is returned.
#[verifier::external_body]
pub(crate) fn json_array_elems(s: &str) -> (r: Result<Vec<String>, String>)
    ensures
        r is Ok <==> json_array_of(s@) is Some,
        r matches Ok(v) ==> {
            let elems = json_array_of(s@).unwrap();
            &&& v@.len() == elems.len()
            &&& forall|i: int| 0 <= i < elems.len() ==> (#[trigger] v@[i])@ == elems[i]
        },
{
    let parsed: Result<smallvec::SmallVec<[&serde_json::value::RawValue; 2]>, serde_json::Error> =
        serde_json::from_str(s);
    match parsed {
        Ok(v) => Ok(v.into_iter().map(|e| e.get().to_string()).collect()),
        Err(e) => Err(format!("{}", e)),
    }
}

/// Relies on `serde_json::from_str` decoding a JSON object into a key-sorted
/// map of raw value spans (`BTreeMap<String, &RawValue>`); the entries are
/// returned in the map's (ascending key) order.
#[verifier::external_body]
pub(crate) fn json_object_entries(s: &str) -> (r: Option<Vec<(String, String)>>)
    ensures
        r is Some <==> json_object_of(s@) is Some,
        r matches Some(v) ==> {
            let entries = json_object_of(s@).unwrap();
            &&& v@.len() == entries.len()
            &&& forall|i: int| 0 <= i < entries.len() ==> {
                &&& (#[trigger] v@[i]).0@ == entries[i].0
                &&& v@[i].1@ == entries[i].1
            }
        },
{
    let parsed: Result<
        std::collections::BTreeMap<String, &serde_json::value::RawValue>,
        serde_json::Error,
    > = serde_json::from_str(s);
    parsed.ok().map(|m| m.into_iter().map(|(k, v)| (k, v.get().to_string())).collect())
}

/// Relies on `serde_json::from_str::<String>`: decodes a JSON string,
/// escapes resolved.
#[verifier::external_body]
pub(crate) fn json_string(s: &str) -> (r: Option<String>)
    ensures
        r is Some <==> json_string_of(s@) is Some,
        r matches Some(v) ==> Some(v@) == json_string_of(s@),
{
    serde_json::from_str::<String>(s).ok()
}

/// Relies on `serde_json::from_str::<u64>`: decodes a non-negative JSON
/// integer that fits in 64 bits.
#[verifier::external_body]
pub(crate) fn json_u64(s: &str) -> (r: Option<u64>)
    ensures
        r == json_u64_of(s@),
{
    serde_json::from_str::<u64>(s).ok()
}

/// Relies on `serde_json::from_str::<bool>`: decodes a JSON boolean.
#[verifier::external_body]
pub(crate) fn json_bool(s: &str) -> (r: Option<bool>)
    ensures
        r == json_bool_of(s@),
{
    serde_json::from_str::<bool>(s).ok()
}

/// Relies on `serde_json::from_str::<()>`, which succeeds exactly on the
/// JSON value `null`.
#[verifier::external_body]
pub(crate) fn json_is_null(s: &str) -> (r: bool)
    ensures
        r == json_null_of(s@),
{
    serde_json::from_str::<()>(s).is_ok()
}

/// Relies on `bs58::decode`: the bytes a base58 string stands for.
#[verifier::external_body]
pub(crate) fn base58_decode(s: &str) -> (r: Option<Vec<u8>>)
    ensures
        r is Some <==> base58_of(s@) is Some,
        r matches Some(v) ==> Some(v@) == base58_of(s@),
{
    bs58::decode(s).into_vec().ok()
}

/// First-match lookup in a sequence of key/value entries.
pub open spec fn lookup(entries: Seq<(Seq<char>, Seq<char>)>, key: Seq<char>) -> Option<Seq<char>>
    decreases entries.len(),
{
    if entries.len() == 0 {
        None
    } else if entries[0].0 == key {
        Some(entries[0].1)
    } else {
        lookup(entries.drop_first(), key)
    }
}

/// The spec-level contents of a vector of owned key/value entries.
pub open spec fn entries_view(v: Seq<(String, String)>) -> Seq<(Seq<char>, Seq<char>)> {
    v.map(|i: int, p: (String, String)| (p.0@, p.1@))
}

fn find_key_from<'a>(entries: &'a Vec<(String, String)>, key: &String, i: usize) -> (r: Option<
    &'a String,
>)
    requires
        i <= entries@.len(),
    ensures
        match r {
            Some(v) => lookup(entries_view(entries@).skip(i as int), key@) == Some(v@),
            None => lookup(entries_view(entries@).skip(i as int), key@) is None,
        },
    decreases entries@.len() - i,
{
    proof {
        assert(entries_view(entries@).len() == entries@.len());
    }
    if i == entries.len() {
        None
    } else {
        proof {
            assert(entries_view(entries@).skip(i as int)[0] == entries_view(entries@)[i as int]);
        }
        if entries[i].0.eq(key) {
            Some(&entries[i].1)
        } else {
            proof {
                assert(entries_view(entries@).skip(i as int).drop_first() =~= entries_view(
                    entries@,
                ).skip(i + 1));
            }
            find_key_from(entries, key, i + 1)
        }
    }
}

/// The raw span stored under `key`, when the entries hold one.
pub fn find_key<'a>(entries: &'a Vec<(String, String)>, key: &String) -> (r: Option<&'a String>)
    ensures
        match r {
            Some(v) => lookup(entries_view(entries@), key@) == Some(v@),
            None => lookup(entries_view(entries@), key@) is None,
        },
{
    let r = find_key_from(entries, key, 0);
    proof {
        assert(entries_view(entries@).skip(0) =~= entries_view(entries@));
    }
    r
}

} // verus!
