//! How a string is written as a JSON literal. The writing is `serde_json`'s;
//! this module states what the template relies on.

use vstd::prelude::*;

verus! {

/// The JSON string literal for `text`, quotes included.
pub uninterp spec fn json_string(text: Seq<char>) -> Seq<char>;

/// The inside of a string literal: ordinary characters, and backslash
/// escapes that take the next character with them. No bare quote, no
/// trailing backslash.
pub open spec fn is_literal_body(body: Seq<char>) -> bool
    decreases body.len(),
{
    if body.len() == 0 {
        true
    } else if body[0] == '\\' {
        body.len() >= 2 && is_literal_body(body.skip(2))
    } else {
        body[0] != '"' && is_literal_body(body.skip(1))
    }
}

/// A double-quoted literal whose closing quote is its last character.
pub open spec fn is_string_literal(text: Seq<char>) -> bool {
    &&& text.len() >= 2
    &&& text[0] == '"'
    &&& text[text.len() - 1] == '"'
    &&& is_literal_body(text.subrange(1, text.len() - 1))
}

/// Calls `serde_json::to_string_pretty` on a string slice. The result is the
/// JSON literal of `text`: an opening quote, the characters of `text` with
/// quotes, backslashes and control characters written as backslash escapes,
/// and a closing quote. Writing a string into memory has no failing step, so
/// the empty fallback is never taken.
#[verifier::external_body]
pub(crate) fn encode_text(text: &str) -> (literal: String)
    ensures
        literal@ == json_string(text@),
        is_string_literal(literal@),
{
    serde_json::to_string_pretty(text).unwrap_or_default()
}

} // verus!
