//! What the library asks of `serde_json`.
//!
//! JSON text is read and written by `serde_json`; none of that is proved here.
//! Each function below makes one call into it, and its contract is taken on
//! trust. The contracts say very little: that a call on the same values gives
//! the same result, which is given a name so that the rest of the library can
//! speak of it. Where more is claimed, the function says so and why.

use crate::text::holds_no_control;
use serde_json::Value;
use vstd::prelude::*;

verus! {

/// A parsed JSON document, as `serde_json` holds it.
#[verifier::external_type_specification]
#[verifier::external_body]
pub struct ExValue(serde_json::Value);

/// The reason `serde_json` gives for refusing a text.
#[verifier::external_type_specification]
#[verifier::external_body]
pub struct ExJsonError(serde_json::Error);

/// What `serde_json::from_str` makes of a text: the document, or the reason
/// the text is none.
pub uninterp spec fn json_parsed(text: Seq<char>) -> Result<Value, serde_json::Error>;

/// What `Value::get` finds under a key: the member of that name where the
/// document is an object that has one.
pub uninterp spec fn json_member(doc: Value, key: Seq<char>) -> Option<Value>;

/// What `Value::as_str` finds: the characters, where the document is a string.
pub uninterp spec fn json_string(doc: Value) -> Option<Seq<char>>;

/// What `Value::is_object` says: whether the document is an object.
pub uninterp spec fn json_is_object(doc: Value) -> bool;

/// What `Value::get` finds at a position: the element there, where the
/// document is an array that is long enough.
pub uninterp spec fn json_element(doc: Value, index: usize) -> Option<Value>;

/// What `Value::as_i64` finds: the number, where the document is an integer
/// that an `i64` can hold.
pub uninterp spec fn json_integer(doc: Value) -> Option<i64>;

/// What `Value::as_bool` finds: the truth value, where the document is one.
pub uninterp spec fn json_boolean(doc: Value) -> Option<bool>;

/// What `Value::as_array` finds, counted: the number of elements, where the
/// document is an array.
pub uninterp spec fn json_length(doc: Value) -> Option<usize>;

/// The character of a decimal digit.
pub open spec fn digit_char(digit: int) -> char {
    ((48 + digit) as u8) as char
}

/// The decimal text of a natural number, without leading zeros.
pub open spec fn decimal_digits(n: nat) -> Seq<char>
    decreases n,
{
    if n < 10 {
        seq![digit_char(n as int)]
    } else {
        decimal_digits(n / 10).push(digit_char((n % 10) as int))
    }
}

/// The JSON text of an integer: its decimal digits, after a minus sign where
/// it is negative.
pub open spec fn json_number(n: i64) -> Seq<char> {
    if n < 0 {
        seq!['-'] + decimal_digits((-n) as nat)
    } else {
        decimal_digits(n as nat)
    }
}

/// What `serde_json::to_string` writes for a string: the string as a JSON
/// literal, quotes and escapes included.
pub uninterp spec fn json_quoted(s: Seq<char>) -> Seq<char>;

/// The words in which `serde_json` states an error.
pub uninterp spec fn json_error_text(error: serde_json::Error) -> Seq<char>;

/// Calls `serde_json::from_str` for a `Value`. Trusted: the result depends on
/// the text alone.
#[verifier::external_body]
pub(crate) fn parse(text: &str) -> (r: Result<Value, serde_json::Error>)
    ensures
        r == json_parsed(text@),
{
    serde_json::from_str::<Value>(text)
}

/// Calls `Value::get` with a string key. Trusted: the result depends on the
/// document and the key alone.
#[verifier::external_body]
pub(crate) fn member<'a>(doc: &'a Value, key: &str) -> (r: Option<&'a Value>)
    ensures
        match r {
            Some(found) => json_member(*doc, key@) == Some(*found),
            None => json_member(*doc, key@) is None,
        },
{
    doc.get(key)
}

/// Calls `Value::as_str`. Trusted: the result depends on the document alone.
#[verifier::external_body]
pub(crate) fn string<'a>(doc: &'a Value) -> (r: Option<&'a str>)
    ensures
        match r {
            Some(s) => json_string(*doc) == Some(s@),
            None => json_string(*doc) is None,
        },
{
    doc.as_str()
}

/// Calls `Value::is_object`. Trusted: the result depends on the document alone.
#[verifier::external_body]
pub(crate) fn is_object(doc: &Value) -> (r: bool)
    ensures
        r == json_is_object(*doc),
{
    doc.is_object()
}

/// Calls `Value::get` with a position. Trusted: the result depends on the
/// document and the position alone.
#[verifier::external_body]
pub(crate) fn element<'a>(doc: &'a Value, index: usize) -> (r: Option<&'a Value>)
    ensures
        match r {
            Some(found) => json_element(*doc, index) == Some(*found),
            None => json_element(*doc, index) is None,
        },
{
    doc.get(index)
}

/// Calls `Value::as_i64`. Trusted: the result depends on the document alone.
#[verifier::external_body]
pub(crate) fn integer(doc: &Value) -> (r: Option<i64>)
    ensures
        r == json_integer(*doc),
{
    doc.as_i64()
}

/// Calls `Value::as_bool`. Trusted: the result depends on the document alone.
#[verifier::external_body]
pub(crate) fn boolean(doc: &Value) -> (r: Option<bool>)
    ensures
        r == json_boolean(*doc),
{
    doc.as_bool()
}

/// Calls `Value::as_array` and counts what it gives. Trusted: the result
/// depends on the document alone.
#[verifier::external_body]
pub(crate) fn length(doc: &Value) -> (r: Option<usize>)
    ensures
        r == json_length(*doc),
{
    doc.as_array().map(|items| items.len())
}

/// Calls `serde_json::to_string` on an `i64`. Trusted: the call succeeds, for
/// the reason given at [`quote`], and the text is the integer in decimal, with
/// a minus sign where it is negative, which is what `itoa` writes.
#[verifier::external_body]
pub(crate) fn number(n: i64) -> (r: Result<String, serde_json::Error>)
    ensures
        r is Ok,
        r->Ok_0@ == json_number(n),
{
    serde_json::to_string(&n)
}

/// Calls `serde_json::to_string` on a string. Trusted: the text depends on the
/// string alone, the call succeeds, and the text holds no control character.
/// The call succeeds because the serializer writes into a `Vec<u8>` and
/// reports no error but the writer's, and a `Vec` has none. The text holds no
/// control character because the serializer's table of escapes replaces every
/// byte below 0x20 by an escape made of other characters.
#[verifier::external_body]
pub(crate) fn quote(s: &str) -> (r: Result<String, serde_json::Error>)
    ensures
        r is Ok,
        r->Ok_0@ == json_quoted(s@),
        holds_no_control(r->Ok_0@),
{
    serde_json::to_string(s)
}

/// Calls `to_string` on a `serde_json::Error`, which writes it as `Display`
/// does. Trusted: the words depend on the error alone.
#[verifier::external_body]
pub(crate) fn error_text(error: &serde_json::Error) -> (text: String)
    ensures
        text@ == json_error_text(*error),
{
    error.to_string()
}

/// The characters of the member of that name, where the document is an object
/// that has one and the member is a string.
pub open spec fn json_string_member(doc: Value, key: Seq<char>) -> Option<Seq<char>> {
    match json_member(doc, key) {
        Some(found) => json_string(found),
        None => None,
    }
}

/// The string as a JSON literal, which holds no control character.
pub fn quoted(s: &str) -> (text: String)
    ensures
        text@ == json_quoted(s@),
        holds_no_control(text@),
{
    match quote(s) {
        Ok(text) => text,
        Err(_) => vstd::pervasive::unreached(),
    }
}

/// The integer as JSON text.
pub fn numbered(n: i64) -> (text: String)
    ensures
        text@ == json_number(n),
{
    match number(n) {
        Ok(text) => text,
        Err(_) => vstd::pervasive::unreached(),
    }
}

/// The integer at that position, where the document is an array that has one
/// there.
pub open spec fn json_integer_element(doc: Value, index: usize) -> Option<i64> {
    match json_element(doc, index) {
        Some(found) => json_integer(found),
        None => None,
    }
}

/// The integer at that position, if the document has one there.
pub fn integer_element(doc: &Value, index: usize) -> (r: Option<i64>)
    ensures
        r == json_integer_element(*doc, index),
{
    match element(doc, index) {
        Some(found) => integer(found),
        None => None,
    }
}

/// The string member of that name, if the document has one.
pub fn string_member<'a>(doc: &'a Value, key: &str) -> (r: Option<&'a str>)
    ensures
        match r {
            Some(s) => json_string_member(*doc, key@) == Some(s@),
            None => json_string_member(*doc, key@) is None,
        },
{
    match member(doc, key) {
        Some(found) => string(found),
        None => None,
    }
}

} // verus!
