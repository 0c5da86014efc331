//! Reading JSON documents through `serde_json`. Each reading is named by a
//! function of the text alone; the library decides on what it reads.

use crate::activity::opt_view;
use vstd::prelude::*;

verus! {

/// Whether `text` is a JSON document, as `serde_json::from_str` reads one
/// into a `serde_json::Value`.
pub uninterp spec fn is_json(text: Seq<char>) -> bool;

/// The string member `key` of the JSON object `text`: none when `text` is
/// not JSON, is not an object, has no such member, or the member is not a
/// string.
pub uninterp spec fn json_string_member(text: Seq<char>, key: Seq<char>) -> Option<Seq<char>>;

/// For the JSON array `text`, the string member `key` of each element, in
/// order (none for an element that is not an object with such a string);
/// none when `text` is not JSON or not an array.
pub uninterp spec fn json_array_member_strings(text: Seq<char>, key: Seq<char>) -> Option<Seq<Option<Seq<char>>>>;

/// The string member `key` of the JSON object in `bytes`: none when the
/// bytes are not a JSON document, not an object, have no such member, or
/// the member is not a string.
pub uninterp spec fn json_bytes_string_member(bytes: Seq<u8>, key: Seq<char>) -> Option<Seq<char>>;

/// The characters of each optional string.
pub open spec fn opt_strings(v: Seq<Option<String>>) -> Seq<Option<Seq<char>>> {
    Seq::new(v.len(), |i: int| opt_view(v[i]))
}

/// Why `text` is not a JSON document (`serde_json::from_str` into a
/// `Value`, and the error's message); none when it is one. Which texts are
/// JSON is named [`is_json`]; the message is not stated.
#[verifier::external_body]
pub(crate) fn json_error(text: &str) -> (r: Option<String>)
    ensures
        r is None <==> is_json(text@),
{
    match serde_json::from_str::<serde_json::Value>(text) {
        Ok(_) => None,
        Err(e) => Some(e.to_string()),
    }
}

/// The string member `key` of the JSON object `text`
/// (`serde_json::from_str` into a `Value`, then `Value::get` and
/// `Value::as_str`), named [`json_string_member`]. A text that does not
/// parse has none.
#[verifier::external_body]
pub(crate) fn string_member(text: &str, key: &str) -> (r: Option<String>)
    ensures
        opt_view(r) == json_string_member(text@, key@),
        !is_json(text@) ==> r is None,
{
    serde_json::from_str::<serde_json::Value>(text).ok()?.get(key)?.as_str().map(str::to_owned)
}

/// The string member `key` of each element of the JSON array `text`
/// (`serde_json::from_str` into a `Value`, `Value::as_array`, then
/// `Value::get` and `Value::as_str` on each element), named
/// [`json_array_member_strings`]. A text that does not parse has none.
#[verifier::external_body]
pub(crate) fn array_member_strings(text: &str, key: &str) -> (r: Option<Vec<Option<String>>>)
    ensures
        match r {
            Some(v) => json_array_member_strings(text@, key@) == Some(opt_strings(v@)),
            None => json_array_member_strings(text@, key@) is None,
        },
        !is_json(text@) ==> r is None,
{
    let value = serde_json::from_str::<serde_json::Value>(text).ok()?;
    let mut out = Vec::new();
    for element in value.as_array()? {
        out.push(element.get(key).and_then(serde_json::Value::as_str).map(str::to_owned));
    }
    Some(out)
}

/// The string member `key` of the JSON object in `bytes`
/// (`serde_json::from_slice` into a `Value`, then `Value::get` and
/// `Value::as_str`), named [`json_bytes_string_member`].
#[verifier::external_body]
pub(crate) fn bytes_string_member(bytes: &[u8], key: &str) -> (r: Option<String>)
    ensures
        opt_view(r) == json_bytes_string_member(bytes@, key@),
{
    serde_json::from_slice::<serde_json::Value>(bytes).ok()?.get(key)?.as_str().map(str::to_owned)
}

} // verus!
