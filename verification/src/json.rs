//! JSON: writing strings, and looking strings up in a document.
use crate::text::{opt_text, texts};
use vstd::prelude::*;

verus! {

/// A lower-case hexadecimal digit.
pub open spec fn hex_digit(n: int) -> char {
    if n < 10 {
        (n + 48) as char
    } else {
        (n + 87) as char
    }
}

/// What stands for one character inside a JSON string.
pub open spec fn json_char(c: char) -> Seq<char> {
    if c == '"' {
        seq!['\\', '"']
    } else if c == '\\' {
        seq!['\\', '\\']
    } else if c == '\u{8}' {
        seq!['\\', 'b']
    } else if c == '\t' {
        seq!['\\', 't']
    } else if c == '\n' {
        seq!['\\', 'n']
    } else if c == '\u{c}' {
        seq!['\\', 'f']
    } else if c == '\r' {
        seq!['\\', 'r']
    } else if (c as u32) < 32 {
        seq!['\\', 'u', '0', '0', hex_digit(c as int / 16), hex_digit(c as int % 16)]
    } else {
        seq![c]
    }
}

/// The inside of a JSON string.
pub open spec fn json_chars(s: Seq<char>) -> Seq<char>
    decreases s.len(),
{
    if s.len() == 0 {
        Seq::empty()
    } else {
        json_chars(s.drop_last()) + json_char(s.last())
    }
}

/// A text as a JSON string, quotes included.
pub open spec fn json_text(s: Seq<char>) -> Seq<char> {
    seq!['"'] + json_chars(s) + seq!['"']
}

/// `serde_json::to_string` of a string: the text in double quotes, with `"`,
/// `\` and the control characters below U+0020 escaped and every other
/// character as it is. Serialising a string does not fail.
#[verifier::external_body]
pub(crate) fn write_text(s: &str) -> (r: String)
    ensures
        r@ == json_text(s@),
{
    serde_json::to_string(s).unwrap_or_default()
}

/// The elements of a JSON array, separated by commas.
pub open spec fn json_elements(list: Seq<Seq<char>>) -> Seq<char>
    decreases list.len(),
{
    if list.len() == 0 {
        Seq::empty()
    } else if list.len() == 1 {
        json_text(list[0])
    } else {
        json_elements(list.drop_last()) + seq![','] + json_text(list.last())
    }
}

/// A list of texts as a JSON array of strings.
pub open spec fn json_list(list: Seq<Seq<char>>) -> Seq<char> {
    seq!['['] + json_elements(list) + seq![']']
}

/// `serde_json::to_string` of a list of strings: the strings as
/// [`write_text`] writes them, in order, separated by commas and in brackets,
/// without white space.
#[verifier::external_body]
pub(crate) fn write_list(list: &Vec<String>) -> (r: String)
    ensures
        r@ == json_list(texts(list@)),
{
    serde_json::to_string(list).unwrap_or_default()
}

/// What stands in a JSON text at a pointer: nothing, a string, or (the inner
/// `None`) something that is not a string. The whole document stands at the
/// empty pointer; a text that is not JSON holds nothing.
pub uninterp spec fn json_at(raw: Seq<char>, pointer: Seq<char>) -> Option<Option<Seq<char>>>;

/// The view of what was found.
pub open spec fn found_view(r: Option<Option<String>>) -> Option<Option<Seq<char>>> {
    match r {
        Some(inner) => Some(opt_text(inner)),
        None => None,
    }
}

/// `serde_json::from_str` into a `serde_json::Value`, and in that value
/// `Value::pointer` and `Value::as_str`: the result depends on the two texts
/// alone, and nothing is found in a text that does not parse.
#[verifier::external_body]
pub(crate) fn json_pointer(raw: &str, pointer: &str) -> (r: Option<Option<String>>)
    ensures
        found_view(r) == json_at(raw@, pointer@),
        r is Some ==> json_at(raw@, ""@) is Some,
{
    let value: serde_json::Value = serde_json::from_str(raw).ok()?;
    let found = value.pointer(pointer)?;
    Some(found.as_str().map(str::to_owned))
}

/// What stands in JSON bytes at a pointer, in the same terms as [`json_at`].
pub uninterp spec fn json_bytes_at(raw: Seq<u8>, pointer: Seq<char>) -> Option<Option<Seq<char>>>;

/// `serde_json::from_slice` into a `serde_json::Value`, and in that value
/// `Value::pointer` and `Value::as_str`: the result depends on the bytes and
/// the pointer alone, and nothing is found in bytes that do not parse.
#[verifier::external_body]
pub(crate) fn json_bytes_pointer(raw: &[u8], pointer: &str) -> (r: Option<Option<String>>)
    ensures
        found_view(r) == json_bytes_at(raw@, pointer@),
        r is Some ==> json_bytes_at(raw@, ""@) is Some,
{
    let value: serde_json::Value = serde_json::from_slice(raw).ok()?;
    let found = value.pointer(pointer)?;
    Some(found.as_str().map(str::to_owned))
}

} // verus!
