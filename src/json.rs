use vstd::prelude::*;

verus! {

#[verifier::external_type_specification]
#[verifier::external_body]
pub struct ExJsonValue(serde_json::Value);

#[verifier::external_type_specification]
#[verifier::external_body]
pub struct ExJsonError(serde_json::Error);

/// Whether `serde_json` reads `s` as one JSON value.
pub uninterp spec fn is_json_text(s: Seq<char>) -> bool;

/// Relies on `serde_json::from_str::<serde_json::Value>`: it succeeds exactly
/// when the text is one well-formed JSON value, which depends on the text
/// alone.
#[verifier::external_body]
pub(crate) fn parse_json(s: &str) -> (r: Result<serde_json::Value, serde_json::Error>)
    ensures
        r is Ok == is_json_text(s@),
{
    serde_json::from_str::<serde_json::Value>(s)
}

/// Relies on `serde_json::to_string_pretty`: the indented text of a JSON
/// value.
#[verifier::external_body]
pub(crate) fn pretty_json(v: &serde_json::Value) -> (r: Result<String, serde_json::Error>) {
    serde_json::to_string_pretty(v)
}

} // verus!
