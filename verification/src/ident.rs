//! Identifiers of groups and messages.
//!
//! An identifier is a UUID. The library holds it as the 128-bit number that it
//! is; the `uuid` crate reads and writes its text.

use uuid::Uuid;
use vstd::prelude::*;

verus! {

/// What `Uuid::parse_str` makes of a text: the identifier as a number, where
/// the text is one.
pub uninterp spec fn uuid_parsed(text: Seq<char>) -> Option<u128>;

/// What `to_string` writes for a `Uuid`: the hyphenated form.
pub uninterp spec fn uuid_written(id: u128) -> Seq<char>;

/// Calls `Uuid::parse_str` and hands the identifier on as a number. Trusted:
/// the result depends on the text alone.
#[verifier::external_body]
pub(crate) fn parse_uuid(text: &str) -> (r: Option<u128>)
    ensures
        r == uuid_parsed(text@),
{
    match Uuid::parse_str(text) {
        Ok(id) => Some(id.as_u128()),
        Err(_) => None,
    }
}

/// Calls `to_string` on the `Uuid` of a number, which writes it as `Display`
/// does. Trusted: the text depends on the number alone.
#[verifier::external_body]
pub(crate) fn write_uuid(id: u128) -> (text: String)
    ensures
        text@ == uuid_written(id),
{
    Uuid::from_u128(id).to_string()
}

} // verus!
