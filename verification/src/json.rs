//! The two uses the registry makes of a JSON library: bringing a JSON text
//! into compact form, and quoting a text as a JSON string.

use vstd::prelude::*;
use vstd::string::*;

verus! {

/// The compact form that `serde_json` prints for the value it parses from
/// `text`; `None` where the text is no JSON.
pub uninterp spec fn json_compact_text(text: Seq<char>) -> Option<Seq<char>>;

/// `text` as a JSON string, quoted and escaped as `serde_json` writes it.
pub uninterp spec fn json_quoted_text(text: Seq<char>) -> Seq<char>;

/// The text of an optional string.
pub open spec fn text_of(s: Option<String>) -> Option<Seq<char>> {
    match s {
        Some(s) => Some(s@),
        None => None,
    }
}

/// Calls `serde_json::from_str` for a `Value` and prints the value.
/// Trusted: the result is the compact text of the parsed value, `None`
/// where the parser reports an error.
#[verifier::external_body]
pub(crate) fn compact(text: &str) -> (r: Option<String>)
    ensures
        text_of(r) == json_compact_text(text@),
{
    let value: serde_json::Value = serde_json::from_str(text).ok()?;
    Some(value.to_string())
}

/// Prints `serde_json::Value::String`. Trusted: the result is `text` as
/// one JSON string.
#[verifier::external_body]
pub(crate) fn quote(text: &str) -> (r: String)
    ensures
        r@ == json_quoted_text(text@),
{
    serde_json::Value::String(text.to_owned()).to_string()
}

} // verus!
