//! Reading fields of JSON documents and writing JSON string literals.
//!
//! Each reader parses a whole document with `serde_json` and picks one member
//! of its top-level object. What `serde_json` makes of a document is named by
//! the spec functions below; the library's own decoding is stated over them.
use vstd::prelude::*;
use crate::text::digit_char;

verus! {

/// The string held by member `key` of the JSON object `body`.
pub uninterp spec fn json_text_field(body: Seq<char>, key: Seq<char>) -> Option<Seq<char>>;

/// Member `key` of the object `body` as a string that may be null or missing.
pub uninterp spec fn json_opt_text_field(body: Seq<char>, key: Seq<char>) -> Option<
    Option<Seq<char>>,
>;

/// The boolean held by member `key` of the object `body`.
pub uninterp spec fn json_bool_field(body: Seq<char>, key: Seq<char>) -> Option<bool>;

/// The 64-bit integer held by member `key` of the object `body`.
pub uninterp spec fn json_int_field(body: Seq<char>, key: Seq<char>) -> Option<i64>;

/// Member `key` of the object `body` as an integer that may be null or missing.
pub uninterp spec fn json_opt_int_field(body: Seq<char>, key: Seq<char>) -> Option<
    Option<i64>,
>;

/// The JSON text of member `key` of the object `body`, whatever its type;
/// none inside where there is no such member.
pub uninterp spec fn json_member_text(body: Seq<char>, key: Seq<char>) -> Option<Option<Seq<char>>>;

/// The texts of the elements of the array `body`.
pub uninterp spec fn json_items(body: Seq<char>) -> Option<Seq<Seq<char>>>;

/// The texts of the elements of the array held by member `key` of the object `body`.
pub uninterp spec fn json_items_field(body: Seq<char>, key: Seq<char>) -> Option<Seq<Seq<char>>>;

/// The lowercase hexadecimal digit for `d`.
pub open spec fn hex_digit(d: nat) -> char {
    if d < 10 {
        digit_char(d)
    } else if d == 10 {
        'a'
    } else if d == 11 {
        'b'
    } else if d == 12 {
        'c'
    } else if d == 13 {
        'd'
    } else if d == 14 {
        'e'
    } else {
        'f'
    }
}

/// How one character is written inside a JSON string literal: the quote and
/// the backslash escaped, the control characters below U+0020 as short
/// escapes where JSON has one and as `\u00XX` otherwise, all else as it is.
pub open spec fn escaped_char(c: char) -> Seq<char> {
    if c == '"' {
        seq!['\\', '"']
    } else if c == '\\' {
        seq!['\\', '\\']
    } else if c == '\u{8}' {
        seq!['\\', 'b']
    } else if c == '\t' {
        seq!['\\', 't']
    } else if c == '\n' {
        seq!['\\', 'n']
    } else if c == '\u{c}' {
        seq!['\\', 'f']
    } else if c == '\r' {
        seq!['\\', 'r']
    } else if (c as u32) < 0x20 {
        seq!['\\', 'u', '0', '0', hex_digit((c as u32 / 16) as nat), hex_digit((c as u32 % 16) as nat)]
    } else {
        seq![c]
    }
}

/// The characters of `s`, each written as inside a JSON string literal.
pub open spec fn escaped(s: Seq<char>) -> Seq<char>
    decreases s.len(),
{
    if s.len() == 0 {
        Seq::empty()
    } else {
        escaped(s.drop_last()) + escaped_char(s.last())
    }
}

/// The JSON string literal that denotes `s`.
pub open spec fn json_quoted(s: Seq<char>) -> Seq<char> {
    seq!['"'] + escaped(s) + seq!['"']
}

/// Relies on `serde_json::from_str` and `serde_json::from_value::<String>`:
/// the result depends on the two texts alone.
#[verifier::external_body]
pub fn text_field(body: &str, key: &str) -> (r: Result<String, serde_json::Error>)
    ensures
        r is Ok <==> json_text_field(body@, key@) is Some,
        r matches Ok(t) ==> json_text_field(body@, key@) == Some(t@),
{
    let v: serde_json::Value = serde_json::from_str(body)?;
    serde_json::from_value::<String>(v.get(key).cloned().unwrap_or(serde_json::Value::Null))
}

/// Relies on `serde_json::from_str` and `serde_json::from_value::<Option<String>>`:
/// the result depends on the two texts alone.
#[verifier::external_body]
pub fn opt_text_field(body: &str, key: &str) -> (r: Result<Option<String>, serde_json::Error>)
    ensures
        r is Ok <==> json_opt_text_field(body@, key@) is Some,
        r matches Ok(t) ==> json_opt_text_field(body@, key@) == Some(
            match t {
                Some(s) => Some(s@),
                None => None,
            },
        ),
{
    let v: serde_json::Value = serde_json::from_str(body)?;
    serde_json::from_value::<Option<String>>(
        v.get(key).cloned().unwrap_or(serde_json::Value::Null),
    )
}

/// Relies on `serde_json::from_str` and `serde_json::from_value::<bool>`:
/// the result depends on the two texts alone.
#[verifier::external_body]
pub fn bool_field(body: &str, key: &str) -> (r: Result<bool, serde_json::Error>)
    ensures
        r is Ok <==> json_bool_field(body@, key@) is Some,
        r matches Ok(b) ==> json_bool_field(body@, key@) == Some(b),
{
    let v: serde_json::Value = serde_json::from_str(body)?;
    serde_json::from_value::<bool>(v.get(key).cloned().unwrap_or(serde_json::Value::Null))
}

/// Relies on `serde_json::from_str` and `serde_json::from_value::<i64>`:
/// the result depends on the two texts alone.
#[verifier::external_body]
pub fn int_field(body: &str, key: &str) -> (r: Result<i64, serde_json::Error>)
    ensures
        r is Ok <==> json_int_field(body@, key@) is Some,
        r matches Ok(n) ==> json_int_field(body@, key@) == Some(n),
{
    let v: serde_json::Value = serde_json::from_str(body)?;
    serde_json::from_value::<i64>(v.get(key).cloned().unwrap_or(serde_json::Value::Null))
}

/// Relies on `serde_json::from_str` and `serde_json::from_value::<Option<i64>>`:
/// the result depends on the two texts alone.
#[verifier::external_body]
pub fn opt_int_field(body: &str, key: &str) -> (r: Result<Option<i64>, serde_json::Error>)
    ensures
        r is Ok <==> json_opt_int_field(body@, key@) is Some,
        r matches Ok(n) ==> json_opt_int_field(body@, key@) == Some(n),
{
    let v: serde_json::Value = serde_json::from_str(body)?;
    serde_json::from_value::<Option<i64>>(
        v.get(key).cloned().unwrap_or(serde_json::Value::Null),
    )
}

/// Relies on `serde_json::from_str::<Value>`, `Value::get` and
/// `Value::to_string`: member `key` written back as JSON text, or none where
/// it is missing; fails only where `body` is not JSON.
#[verifier::external_body]
pub fn member_text(body: &str, key: &str) -> (r: Result<Option<String>, serde_json::Error>)
    ensures
        r is Ok <==> json_member_text(body@, key@) is Some,
        r matches Ok(m) ==> json_member_text(body@, key@) == Some(
            match m {
                Some(s) => Some(s@),
                None => None,
            },
        ),
{
    let v: serde_json::Value = serde_json::from_str(body)?;
    Ok(v.get(key).map(|m| m.to_string()))
}

/// Relies on `serde_json::from_str::<Vec<Value>>` and `Value::to_string`:
/// the elements of a JSON array, each written back as JSON text.
#[verifier::external_body]
pub fn items(body: &str) -> (r: Result<Vec<String>, serde_json::Error>)
    ensures
        r is Ok <==> json_items(body@) is Some,
        r matches Ok(v) ==> json_items(body@) == Some(v@.map_values(|t: String| t@)),
{
    let vs: Vec<serde_json::Value> = serde_json::from_str(body)?;
    Ok(vs.iter().map(|v| v.to_string()).collect())
}

/// Relies on `serde_json::from_str`, `serde_json::from_value::<Vec<Value>>` and
/// `Value::to_string`: the elements of the array held by member `key`, each
/// written back as JSON text.
#[verifier::external_body]
pub fn items_field(body: &str, key: &str) -> (r: Result<Vec<String>, serde_json::Error>)
    ensures
        r is Ok <==> json_items_field(body@, key@) is Some,
        r matches Ok(v) ==> json_items_field(body@, key@) == Some(v@.map_values(|t: String| t@)),
{
    let v: serde_json::Value = serde_json::from_str(body)?;
    let vs = serde_json::from_value::<Vec<serde_json::Value>>(
        v.get(key).cloned().unwrap_or(serde_json::Value::Null),
    )?;
    Ok(vs.iter().map(|e| e.to_string()).collect())
}

/// Relies on `serde::de::Error::custom` for `serde_json::Error`: an error that
/// carries the message `msg`. Nothing of it is stated.
#[verifier::external_body]
pub fn custom_error(msg: &str) -> serde_json::Error {
    <serde_json::Error as serde::de::Error>::custom(msg)
}

/// Relies on `serde_json::to_string` on a string slice, which cannot fail:
/// the literal in quotes, each character escaped as `escaped_char` says
/// (serde_json's `format_escaped_str`).
#[verifier::external_body]
pub fn quote(s: &str) -> (r: String)
    ensures
        r@ == json_quoted(s@),
{
    serde_json::to_string(s).unwrap_or_default()
}

} // verus!
