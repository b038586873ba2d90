//! The calls into serde_json that the wire formats rely on.
use vstd::prelude::*;

verus! {

#[verifier::external_type_specification]
#[verifier::external_body]
pub struct ExJsonError(serde_json::Error);

/// Lower-case hexadecimal digits.
pub open spec fn hex_digits() -> Seq<char> {
    seq!['0', '1', '2', '3', '4', '5', '6', '7', '8', '9', 'a', 'b', 'c', 'd', 'e', 'f']
}

/// How one character stands inside a JSON string literal: quote and
/// backslash get a backslash, the control characters with a short form
/// use it, the other control characters below 0x20 are written `\u00XX`,
/// and every other character stands as itself.
pub open spec fn escaped_char(c: char) -> Seq<char> {
    if c == '"' {
        seq!['\\', '"']
    } else if c == '\\' {
        seq!['\\', '\\']
    } else if c == '\u{8}' {
        seq!['\\', 'b']
    } else if c == '\t' {
        seq!['\\', 't']
    } else if c == '\n' {
        seq!['\\', 'n']
    } else if c == '\u{c}' {
        seq!['\\', 'f']
    } else if c == '\r' {
        seq!['\\', 'r']
    } else if (c as int) < 0x20 {
        seq!['\\', 'u', '0', '0', hex_digits()[(c as int) / 16], hex_digits()[(c as int) % 16]]
    } else {
        seq![c]
    }
}

/// The characters of `s`, each escaped.
pub open spec fn escaped(s: Seq<char>) -> Seq<char>
    decreases s.len(),
{
    if s.len() == 0 {
        Seq::empty()
    } else {
        escaped(s.drop_last()) + escaped_char(s.last())
    }
}

/// The JSON string literal that serde_json writes for the given text:
/// the escaped characters between double quotes.
pub open spec fn json_string_of(s: Seq<char>) -> Seq<char> {
    seq!['"'] + escaped(s) + seq!['"']
}

/// The text of an optional string.
pub open spec fn opt_view(o: Option<String>) -> Option<Seq<char>> {
    match o {
        Some(s) => Some(s@),
        None => None,
    }
}

/// Whether serde_json accepts the given bytes as one JSON document.
pub uninterp spec fn json_parses(b: Seq<u8>) -> bool;

/// The string found in the JSON document `b` at the JSON pointer `pointer`,
/// if the value there is a string.
pub uninterp spec fn json_string_at(b: Seq<u8>, pointer: Seq<char>) -> Option<Seq<char>>;

/// Relies on serde_json::to_string on a `str`: the JSON string literal for
/// `s`, as `format_escaped_str` writes it with its escape table and
/// `write_char_escape`. `str::serialize` goes to `Serializer::serialize_str`
/// and `format_escaped_str`, whose only errors are the writer's; `to_vec`
/// writes into a `Vec<u8>`, which does not fail, so the result is `Ok`.
#[verifier::external_body]
pub(crate) fn quote(s: &str) -> (r: Result<String, serde_json::Error>)
    ensures
        r is Ok,
        r matches Ok(q) ==> q@ == json_string_of(s@),
{
    serde_json::to_string(s)
}

/// Relies on serde_json::from_slice into a `Value`, which succeeds exactly on
/// the bytes of one JSON document, and on serde_json::Value::pointer, kept
/// only where the value found is a string. `None` when the bytes are not
/// JSON; else the string at `path`, if any.
#[verifier::external_body]
pub(crate) fn string_at(b: &[u8], path: &str) -> (r: Option<Option<String>>)
    ensures
        r is Some <==> json_parses(b@),
        r matches Some(a) ==> opt_view(a) == json_string_at(b@, path@),
{
    let v = serde_json::from_slice::<serde_json::Value>(b).ok()?;
    match v.pointer(path) {
        Some(serde_json::Value::String(s)) => Some(Some(s.clone())),
        _ => Some(None),
    }
}

} // verus!
