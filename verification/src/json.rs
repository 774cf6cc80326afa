//! JSON text, read and written by `serde_json`.

use crate::text::text_of;
use vstd::prelude::*;

verus! {

/// The JSON string literal that `serde_json` writes for a string: the text in
/// double quotes, with the characters that JSON reserves escaped.
pub uninterp spec fn json_quoted(text: Seq<char>) -> Seq<char>;

/// The string held under `key` in a JSON document, as `serde_json` reads it.
/// `None` when the document is not valid JSON, is not an object, has no such
/// member, or holds something other than a string there.
pub uninterp spec fn json_member(document: Seq<char>, key: Seq<char>) -> Option<Seq<char>>;

/// Calls `serde_json::to_string` on a string slice.
///
/// Trusted: the result is the literal named by [`json_quoted`]. Serialising a
/// plain string cannot fail, since neither a `Serialize` impl of the caller
/// nor a map key is involved and the output is written to memory.
#[verifier::external_body]
pub(crate) fn quote(text: &str) -> (r: String)
    ensures
        r@ == json_quoted(text@),
{
    match serde_json::to_string(text) {
        Ok(literal) => literal,
        Err(_) => String::new(),
    }
}

/// Parses `document` with `serde_json::from_str` into a `serde_json::Value`,
/// looks `key` up with `Value::get` and reads the member with `Value::as_str`.
///
/// Trusted: the result is the value named by [`json_member`], `None` included.
#[verifier::external_body]
pub(crate) fn string_member(document: &str, key: &str) -> (r: Option<String>)
    ensures
        text_of(r) == json_member(document@, key@),
{
    let value: serde_json::Value = serde_json::from_str(document).ok()?;
    Some(value.get(key)?.as_str()?.to_owned())
}

} // verus!
