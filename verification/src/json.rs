//! JSON text, written and read by `serde_json`.

use vstd::prelude::*;

verus! {

/// A JSON value, as `serde_json` holds it. The library carries such values
/// through and never looks inside.
#[verifier::external_type_specification]
#[verifier::external_body]
pub struct ExJsonValue(serde_json::Value);

/// The error of `serde_json`.
#[verifier::external_type_specification]
#[verifier::external_body]
pub struct ExJsonError(serde_json::Error);

/// The JSON text that `serde_json::to_string` writes for a value.
pub uninterp spec fn json_text(value: serde_json::Value) -> Seq<char>;

/// What `serde_json::from_slice` makes of a body: the value that it reads,
/// or the error with which it refuses the bytes.
pub uninterp spec fn parsed_json(body: Seq<u8>) -> Result<serde_json::Value, serde_json::Error>;

/// The message of a `serde_json` error, as its `Display` writes it.
pub uninterp spec fn json_error_text(error: serde_json::Error) -> Seq<char>;

/// The lower-case hexadecimal digit for a value below sixteen.
pub open spec fn hex_lower(digit: u8) -> char {
    if digit < 10 {
        (0x30 + digit) as u8 as char
    } else {
        (0x61 - 10 + digit) as u8 as char
    }
}

/// What one character becomes inside a JSON string: `"` and `\` get a `\` in
/// front, the control characters below U+0020 become `\b`, `\t`, `\n`, `\f`,
/// `\r` or `\u00` with two hexadecimal digits, and every other character
/// stays.
pub open spec fn escaped_char(c: char) -> Seq<char> {
    if c == '"' {
        seq!['\\', '"']
    } else if c == '\\' {
        seq!['\\', '\\']
    } else if c == '\u{8}' {
        seq!['\\', 'b']
    } else if c == '\t' {
        seq!['\\', 't']
    } else if c == '\n' {
        seq!['\\', 'n']
    } else if c == '\u{c}' {
        seq!['\\', 'f']
    } else if c == '\r' {
        seq!['\\', 'r']
    } else if (c as u32) < 0x20 {
        seq!['\\', 'u', '0', '0', hex_lower((c as u8) / 16), hex_lower((c as u8) % 16)]
    } else {
        seq![c]
    }
}

/// A text with each of its characters escaped.
pub open spec fn escaped(text: Seq<char>) -> Seq<char>
    decreases text.len(),
{
    if text.len() == 0 {
        Seq::empty()
    } else {
        escaped(text.drop_last()) + escaped_char(text.last())
    }
}

/// A text as a JSON string: escaped, between double quotes.
pub open spec fn json_string(text: Seq<char>) -> Seq<char> {
    seq!['"'] + escaped(text) + seq!['"']
}

/// A character that a JSON string holds as it is.
pub open spec fn is_plain_char(c: char) -> bool {
    c != '"' && c != '\\' && (c as u32) >= 0x20
}

/// A text of plain characters is its own escaped form.
pub proof fn lemma_plain_text_is_unescaped(text: Seq<char>)
    requires
        forall|i: int| 0 <= i < text.len() ==> is_plain_char(#[trigger] text[i]),
    ensures
        escaped(text) == text,
        json_string(text) == seq!['"'] + text + seq!['"'],
    decreases text.len(),
{
    if text.len() > 0 {
        lemma_plain_text_is_unescaped(text.drop_last());
        assert(is_plain_char(text[text.len() - 1]));
        assert(escaped_char(text.last()) == seq![text.last()]);
        assert(text.drop_last() + seq![text.last()] == text);
    } else {
        assert(escaped(text) == text);
    }
}

/// Calls `serde_json::to_string` on a text. It writes into a vector in
/// memory, which takes every byte, so it succeeds; and what it writes is the
/// text as a JSON string: see [`json_string`].
#[verifier::external_body]
pub(crate) fn string_to_json(text: &str) -> (written: Result<String, serde_json::Error>)
    ensures
        written is Ok,
        written matches Ok(quoted) ==> quoted@ == json_string(text@),
{
    serde_json::to_string(text)
}

/// Calls `serde_json::to_string` on a JSON value. It writes into a vector in
/// memory, and a value holds nothing that JSON cannot express, so it
/// succeeds. What it writes depends on the value alone and goes by the name
/// [`json_text`].
#[verifier::external_body]
pub(crate) fn value_to_json(value: &serde_json::Value) -> (written: Result<
    String,
    serde_json::Error,
>)
    ensures
        written is Ok,
        written matches Ok(text) ==> text@ == json_text(*value),
{
    serde_json::to_string(value)
}

/// Calls `serde_json::from_slice` for a JSON value. Whether it succeeds, with
/// which value and with which error, depends on the bytes alone and goes by
/// the name [`parsed_json`].
#[verifier::external_body]
pub(crate) fn json_from_bytes(body: &[u8]) -> (read: Result<serde_json::Value, serde_json::Error>)
    ensures
        read == parsed_json(body@),
{
    serde_json::from_slice(body)
}

/// The message of a `serde_json` error, as its `Display` writes it: what went
/// wrong and, where the error has one, the line and column. The text depends
/// on the error alone and goes by the name [`json_error_text`].
#[verifier::external_body]
pub(crate) fn json_error_message(error: &serde_json::Error) -> (message: String)
    ensures
        message@ == json_error_text(*error),
{
    error.to_string()
}

} // verus!
