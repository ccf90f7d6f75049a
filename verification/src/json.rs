//! JSON documents, which `serde_json` reads.

use vstd::prelude::*;

verus! {

/// A JSON value, as `serde_json` holds it. The library hands such values on and never
/// looks inside one.
#[verifier::external_type_specification]
#[verifier::external_body]
pub struct ExValue(serde_json::Value);

/// The value that `text` denotes as one JSON document, or `None` where `text` is no JSON
/// document. It is what `serde_json::from_str` makes of the text.
pub uninterp spec fn json_document(text: Seq<char>) -> Option<serde_json::Value>;

/// Calls `serde_json::from_str` for a `serde_json::Value` and drops the error that says
/// why a text is no document. Nothing is claimed of the result but that it depends on the
/// text alone.
#[verifier::external_body]
pub(crate) fn parse_document(text: &str) -> (parsed: Option<serde_json::Value>)
    ensures
        parsed == json_document(text@),
{
    serde_json::from_str::<serde_json::Value>(text).ok()
}

} // verus!
