//! Trusted boundary to the JSON serializer.
//!
//! The default pub/sub encoder frames its JSON object itself and leaves only
//! the escaping of text to the serializer: [`json_string`] renders one piece
//! of text as a JSON string literal.

use vstd::prelude::*;

verus! {

/// The JSON string literal (surrounding quotes and escapes included) that
/// the JSON serializer produces for a piece of text. It is a function of the
/// characters alone.
pub uninterp spec fn json_string_of(text: Seq<char>) -> Seq<char>;

/// Relies on serde_json::to_string for str: renders `text` as a JSON string
/// literal, escaping quotes, backslashes and control characters as JSON
/// demands. Serializing a string slice never fails, so the unwrap never
/// panics.
#[verifier::external_body]
pub(crate) fn json_string(text: &str) -> (rendered: String)
    ensures
        rendered@ == json_string_of(text@),
{
    serde_json::to_string(text).unwrap()
}

} // verus!
