//! JSON text for the few shapes an update request is made of: strings,
//! booleans, unsigned numbers and arrays.
//!
//! String literals come from `serde_json`; the rest is assembled here.

use vstd::prelude::*;
use crate::text::{join, joined, texts_of};

verus! {

/// The error type of `serde_json`, carried through unopened.
#[verifier::external_type_specification]
#[verifier::external_body]
pub struct ExJsonError(serde_json::Error);

/// Whether a character cannot stand for itself inside a JSON string
/// literal: the double quote, the backslash and the control characters below
/// the space.
pub open spec fn needs_escape(c: char) -> bool {
    c == '"' || c == '\\' || (c as u32) < 0x20
}

/// Whether `text` holds no character that needs an escape.
pub open spec fn is_plain(text: Seq<char>) -> bool {
    forall|i: int| 0 <= i < text.len() ==> !needs_escape(#[trigger] text[i])
}

/// The JSON string literal that `serde_json` writes for a text that is not
/// plain: the text between double quotes, with an escape sequence in place
/// of each character that needs one.
pub uninterp spec fn escaped_literal(text: Seq<char>) -> Seq<char>;

/// The JSON string literal that stands for `text`. A plain text is put
/// between double quotes as it is.
pub open spec fn json_string(text: Seq<char>) -> Seq<char> {
    if is_plain(text) {
        "\""@ + text + "\""@
    } else {
        escaped_literal(text)
    }
}

/// Calls `serde_json::to_string` on a string slice.
///
/// Trusted: the call succeeds for every string (a string slice has no
/// serialisation error of its own and the output buffer is a `Vec<u8>`, whose
/// writes do not fail). A text without double quote, backslash and control
/// character comes back between double quotes, unchanged: the serialiser
/// copies every byte that its escape table maps to zero, which is every byte
/// but those. For any other text the result depends on the characters of
/// `text` alone.
#[verifier::external_body]
fn encode_string(text: &str) -> (encoded: Result<String, serde_json::Error>)
    ensures
        encoded is Ok,
        is_plain(text@) ==> encoded->Ok_0@ == "\""@ + text@ + "\""@,
        !is_plain(text@) ==> encoded->Ok_0@ == escaped_literal(text@),
{
    serde_json::to_string(text)
}

/// `true` or `false`.
pub open spec fn bool_text(value: bool) -> Seq<char> {
    if value {
        "true"@
    } else {
        "false"@
    }
}

/// The numeral of one decimal digit.
pub open spec fn digit_text(digit: nat) -> Seq<char>
    recommends
        digit < 10,
{
    if digit == 0 {
        "0"@
    } else if digit == 1 {
        "1"@
    } else if digit == 2 {
        "2"@
    } else if digit == 3 {
        "3"@
    } else if digit == 4 {
        "4"@
    } else if digit == 5 {
        "5"@
    } else if digit == 6 {
        "6"@
    } else if digit == 7 {
        "7"@
    } else if digit == 8 {
        "8"@
    } else {
        "9"@
    }
}

/// `value` in decimal, most significant digit first, without leading zeros.
pub open spec fn decimal_text(value: nat) -> Seq<char>
    decreases value,
{
    if value < 10 {
        digit_text(value)
    } else {
        decimal_text(value / 10) + digit_text(value % 10)
    }
}

/// A JSON array whose elements are the given texts, each already valid JSON.
pub open spec fn array_text(elements: Seq<Seq<char>>) -> Seq<char> {
    "["@ + joined(elements, ","@) + "]"@
}

/// Encodes `text` as a JSON string literal.
pub fn quote(text: &str) -> (literal: String)
    ensures
        literal@ == json_string(text@),
{
    match encode_string(text) {
        Ok(literal) => literal,
        Err(_) => unreached(),
    }
}

/// Encodes each of `texts` as a JSON string literal, keeping their order.
pub fn quote_each(texts: &Vec<String>) -> (literals: Vec<String>)
    ensures
        literals@.len() == texts@.len(),
        forall|i: int| 0 <= i < texts@.len() ==> literals@[i]@ == json_string(#[trigger] texts@[i]@),
{
    let mut literals: Vec<String> = Vec::new();
    let mut i: usize = 0;
    while i < texts.len()
        invariant
            i <= texts@.len(),
            literals@.len() == i,
            forall|j: int| 0 <= j < i ==> literals@[j]@ == json_string(#[trigger] texts@[j]@),
        decreases texts@.len() - i,
    {
        literals.push(quote(texts[i].as_str()));
        i = i + 1;
    }
    literals
}

/// Writes a boolean as JSON.
pub fn render_bool(value: bool) -> (text: String)
    ensures
        text@ == bool_text(value),
{
    if value {
        String::from_str("true")
    } else {
        String::from_str("false")
    }
}

/// The numeral of one decimal digit.
fn digit(value: u32) -> (text: &'static str)
    requires
        value < 10,
    ensures
        text@ == digit_text(value as nat),
{
    if value == 0 {
        "0"
    } else if value == 1 {
        "1"
    } else if value == 2 {
        "2"
    } else if value == 3 {
        "3"
    } else if value == 4 {
        "4"
    } else if value == 5 {
        "5"
    } else if value == 6 {
        "6"
    } else if value == 7 {
        "7"
    } else if value == 8 {
        "8"
    } else {
        "9"
    }
}

/// Writes an unsigned number as JSON.
pub fn render_number(value: u32) -> (text: String)
    ensures
        text@ == decimal_text(value as nat),
    decreases value,
{
    if value < 10 {
        String::from_str(digit(value))
    } else {
        let mut text = render_number(value / 10);
        text.append(digit(value % 10));
        text
    }
}

/// Writes a JSON array from elements that are JSON texts already.
pub fn render_array(elements: &Vec<String>) -> (text: String)
    ensures
        text@ == array_text(texts_of(elements@)),
{
    let mut text = String::from_str("[");
    let inner = join(elements, ",");
    text.append(inner.as_str());
    text.append("]");
    text
}

} // verus!
