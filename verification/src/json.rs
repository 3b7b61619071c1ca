//! Reading a text member out of a JSON document.

use vstd::prelude::*;

verus! {

#[verifier::external_type_specification]
#[verifier::external_body]
pub struct ExJsonError(serde_json::Error);

/// What a text holds under a key when it is read as JSON: `None` where the
/// text is not a JSON document, `Some(None)` where it is one but is no
/// object with a string under that key, and `Some(Some(s))` where the
/// object's member of that key is the string `s`.
pub uninterp spec fn json_text_member(text: Seq<char>, key: Seq<char>) -> Option<
    Option<Seq<char>>,
>;

/// The characters of an optional string.
pub open spec fn text_view(text: Option<String>) -> Option<Seq<char>> {
    match text {
        Some(t) => Some(t@),
        None => None,
    }
}

/// serde_json's `from_str` into a `serde_json::Value`, then `Value::get`
/// with the key on the document. The parse error is handed on as it is; of
/// a document the member under the key is handed out where it is a
/// `Value::String`, and nothing otherwise.
#[verifier::external_body]
pub(crate) fn text_member(text: &str, key: &str) -> (member: Result<
    Option<String>,
    serde_json::Error,
>)
    ensures
        member is Ok <==> json_text_member(text@, key@) is Some,
        member is Ok ==> text_view(member->Ok_0) == json_text_member(text@, key@)->0,
{
    match serde_json::from_str::<serde_json::Value>(text) {
        Ok(document) => match document.get(key) {
            Some(serde_json::Value::String(found)) => Ok(Some(found.clone())),
            _ => Ok(None),
        },
        Err(error) => Err(error),
    }
}

} // verus!
