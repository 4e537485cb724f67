//! JSON documents, parsed by `serde_json`.

use vstd::prelude::*;

verus! {

/// `serde_json::Value`: a parsed JSON document. Nothing is said of what is
/// inside it.
#[verifier::external_type_specification]
#[verifier::external_body]
pub struct ExValue(serde_json::Value);

/// `serde_json::Error`: the parser's diagnostic for a text that is no JSON
/// document.
#[verifier::external_type_specification]
#[verifier::external_body]
pub struct ExError(serde_json::Error);

/// What `serde_json::from_str` makes of `text` when asked for a
/// `serde_json::Value`: the document, or the diagnostic.
pub uninterp spec fn json_parse(text: Seq<char>) -> Result<serde_json::Value, serde_json::Error>;

/// `text` is a JSON document.
pub open spec fn is_json(text: Seq<char>) -> bool {
    json_parse(text) is Ok
}

/// Calls `serde_json::from_str` for a `serde_json::Value`. The outcome
/// depends on the text alone, so it is `json_parse` of the text; nothing
/// more is claimed of it.
#[verifier::external_body]
pub(crate) fn parse(text: &str) -> (parsed: Result<serde_json::Value, serde_json::Error>)
    ensures
        parsed == json_parse(text@),
{
    serde_json::from_str(text)
}

} // verus!
