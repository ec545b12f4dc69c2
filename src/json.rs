use vstd::prelude::*;

verus! {

#[verifier::external_type_specification]
#[verifier::external_body]
pub struct ExJsonError(serde_json::Error);

/// Whether `serde_json::from_slice::<serde_json::Value>` accepts the bytes.
pub uninterp spec fn json_parses(text: Seq<u8>) -> bool;

/// The string found under `key` in element `index` of the JSON document,
/// if the document is an array whose element there is an object holding a
/// string under that key.
pub uninterp spec fn entry_str(text: Seq<u8>, index: nat, key: Seq<char>) -> Option<Seq<char>>;

/// A string that JSON writes between quotes without any escape: no quote, no
/// backslash, no control character.
pub open spec fn plain_json_text(s: Seq<char>) -> bool {
    forall|i: int| 0 <= i < s.len() ==> s[i] != '"' && s[i] != '\\' && (s[i] as u32) >= 0x20
}

pub open spec fn quoted(s: Seq<char>) -> Seq<char> {
    seq!['"'] + s + seq!['"']
}

/// The compact JSON text of an object with two string members, in this order.
pub open spec fn two_member_object(k1: Seq<char>, v1: Seq<char>, k2: Seq<char>, v2: Seq<char>) -> Seq<char> {
    seq!['{'] + quoted(k1) + seq![':'] + quoted(v1) + seq![','] + quoted(k2) + seq![':'] + quoted(v2)
        + seq!['}']
}

/// Relies on `serde_json::from_slice::<serde_json::Value>`: it fails exactly
/// on bytes that are not one JSON document.
#[verifier::external_body]
pub(crate) fn parse_check(text: &[u8]) -> (r: Result<(), serde_json::Error>)
    ensures
        r is Ok <==> json_parses(text@),
{
    serde_json::from_slice::<serde_json::Value>(text).map(|_| ())
}

/// Relies on `serde_json::from_slice::<serde_json::Value>` and on reading
/// `value[index][key].as_str()`, which yields `None` (never panics) where the
/// document has another shape.
#[verifier::external_body]
pub(crate) fn entry_text(text: &[u8], index: usize, key: &str) -> (r: Result<Option<String>, serde_json::Error>)
    ensures
        r is Ok <==> json_parses(text@),
        r matches Ok(Some(s)) ==> entry_str(text@, index as nat, key@) == Some(s@),
        r matches Ok(None) ==> entry_str(text@, index as nat, key@) is None,
{
    let value: serde_json::Value = serde_json::from_slice(text)?;
    Ok(value[index][key].as_str().map(|s| s.to_string()))
}

/// Relies on `serde_json::Map` keeping its keys in ascending order (the
/// default, without `preserve_order`; with it, in order of insertion, which
/// here is the same) and on the compact `Display` of `serde_json::Value`,
/// which writes strings without escapes when they hold no quote, backslash
/// or control character.
#[verifier::external_body]
pub(crate) fn object_text(k1: &str, v1: &str, k2: &str, v2: &str) -> (r: String)
    requires
        plain_json_text(k1@),
        plain_json_text(v1@),
        plain_json_text(k2@),
        plain_json_text(v2@),
        k1@.len() > 0,
        k2@.len() > 0,
        (k1@[0] as u32) < (k2@[0] as u32),
    ensures
        r@ == two_member_object(k1@, v1@, k2@, v2@),
{
    let mut map = serde_json::Map::new();
    map.insert(k1.to_string(), serde_json::Value::String(v1.to_string()));
    map.insert(k2.to_string(), serde_json::Value::String(v2.to_string()));
    serde_json::Value::Object(map).to_string()
}

} // verus!
