//! JSON objects that hold strings, from `serde_json`.

use vstd::prelude::*;

verus! {

/// `serde_json::Map`, the entries of a JSON object; nothing is known of its inside.
#[verifier::external_type_specification]
#[verifier::external_body]
#[verifier::reject_recursive_types(K)]
#[verifier::reject_recursive_types(V)]
pub struct ExJsonMap<K, V>(serde_json::Map<K, V>);

/// `serde_json::Value`, any JSON value; nothing is known of its inside.
#[verifier::external_type_specification]
#[verifier::external_body]
pub struct ExJsonValue(serde_json::Value);

/// `serde_json::Error`; nothing is known of its inside.
#[verifier::external_type_specification]
#[verifier::external_body]
pub struct ExJsonError(serde_json::Error);

/// The entries of a JSON object whose values are strings.
pub uninterp spec fn json_entries(
    object: serde_json::Map<String, serde_json::Value>,
) -> Map<Seq<char>, Seq<char>>;

/// All values of a JSON object are strings.
pub uninterp spec fn json_holds_strings(
    object: serde_json::Map<String, serde_json::Value>,
) -> bool;

/// The indented text of the JSON object with these entries.
pub uninterp spec fn json_pretty(entries: Map<Seq<char>, Seq<char>>) -> Seq<char>;

/// `serde_json::Map::new`: an object without entries.
#[verifier::external_body]
pub(crate) fn json_object() -> (object: serde_json::Map<String, serde_json::Value>)
    ensures
        (json_entries(object) == Map::<Seq<char>, Seq<char>>::empty()),
        json_holds_strings(object),
{
    serde_json::Map::new()
}

/// `serde_json::Map::insert` of a string: the key has that value afterwards, in
/// place of the one it had, and the other entries stay.
#[verifier::external_body]
pub(crate) fn json_insert(
    object: &mut serde_json::Map<String, serde_json::Value>,
    key: &str,
    value: &str,
)
    ensures
        json_entries(*final(object)) == json_entries(*old(object)).insert(key@, value@),
        json_holds_strings(*old(object)) ==> json_holds_strings(*final(object)),
{
    object.insert(key.to_string(), serde_json::Value::String(value.to_string()));
}

/// `serde_json::to_string_pretty` of an object of strings. It fails only where a
/// value refuses to be written or a key is not a string, and neither can be here.
/// The map keeps its entries in the order of their keys, so that the text depends
/// on the entries alone. What the text is, is not said.
#[verifier::external_body]
pub(crate) fn json_to_string_pretty(
    object: serde_json::Map<String, serde_json::Value>,
) -> (r: Result<String, serde_json::Error>)
    requires
        json_holds_strings(object),
    ensures
        r is Ok && r->Ok_0@ == json_pretty(json_entries(object)),
{
    serde_json::to_string_pretty(&serde_json::Value::Object(object))
}

} // verus!
