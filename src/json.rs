//! The JSON documents that the service answers with, read through serde_json.

use vstd::prelude::*;

verus! {

/// serde_json's document tree, carried through unread.
#[verifier::external_type_specification]
#[verifier::external_body]
pub struct ExJsonValue(serde_json::Value);

/// serde_json's parse error, carried as the cause of a decode error.
#[verifier::external_type_specification]
#[verifier::external_body]
pub struct ExJsonError(serde_json::Error);

/// Whether serde_json reads `text` as one JSON document.
pub uninterp spec fn json_accepts(text: Seq<char>) -> bool;

/// The members of the JSON object in `text`, in ascending order of their
/// keys, when `text` is an object whose members are all strings.
pub uninterp spec fn json_string_object(text: Seq<char>) -> Option<Seq<(Seq<char>, Seq<char>)>>;

/// The texts of a list of string pairs.
pub open spec fn pair_texts(pairs: Seq<(String, String)>) -> Seq<(Seq<char>, Seq<char>)> {
    pairs.map_values(|p: (String, String)| (p.0@, p.1@))
}

/// Relies on `serde_json::from_str::<serde_json::Value>`, which reads a whole
/// text as one JSON document and fails on anything else; the outcome depends
/// on the text alone.
#[verifier::external_body]
pub(crate) fn parse_json(text: &str) -> (r: Result<serde_json::Value, serde_json::Error>)
    ensures
        r is Ok <==> json_accepts(text@),
{
    serde_json::from_str(text)
}

/// Relies on `serde_json::from_str` into a `BTreeMap<String, String>`, which
/// succeeds on a JSON object whose members are all strings, and on the map's
/// iteration in ascending key order.
#[verifier::external_body]
pub(crate) fn string_members(text: &str) -> (r: Option<Vec<(String, String)>>)
    ensures
        r is Some <==> json_string_object(text@) is Some,
        r matches Some(v) ==> pair_texts(v@) == json_string_object(text@)->0,
{
    match serde_json::from_str::<std::collections::BTreeMap<String, String>>(text) {
        Ok(m) => Some(m.into_iter().collect()),
        Err(_) => None,
    }
}

} // verus!
