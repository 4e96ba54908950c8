//! JSON rendering of values, as shown in verification failures.

use vstd::prelude::*;

verus! {

/// The compact JSON text of a string value: the string in double quotes, with
/// the escapes that JSON asks for.
pub uninterp spec fn json_string_text(s: Seq<char>) -> Seq<char>;

/// Renders a string as compact JSON text.
///
/// Trusted: calls `Display` (`to_string`) of `serde_json::Value` on
/// `Value::String`. The contract only gives the result its name; the text
/// depends on nothing but the string.
#[verifier::external_body]
pub(crate) fn json_text_of_string(s: &str) -> (r: String)
    ensures
        r@ == json_string_text(s@),
{
    serde_json::Value::String(s.to_string()).to_string()
}

} // verus!
