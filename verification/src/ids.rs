//! Identifiers of accounts and parts.
//!
//! An identifier is a 128-bit number. Outside the service it is written as a
//! UUID; reading and writing that text is left to the `uuid` crate.

use vstd::prelude::*;

verus! {

/// The identifier that `uuid::Uuid::parse_str` reads from `text`, as a
/// number in big-endian order; `None` where it reports an error.
pub uninterp spec fn uuid_parse(text: Seq<char>) -> Option<u128>;

/// The text that `uuid` prints for the identifier `id`: 32 lower-case
/// hexadecimal digits in five groups.
pub uninterp spec fn uuid_text(id: u128) -> Seq<char>;

/// Calls `uuid::Uuid::parse_str` and hands the identifier out through
/// `Uuid::as_u128`. Trusted: the result is the named value `uuid_parse`.
#[verifier::external_body]
pub(crate) fn parse_uuid(text: &str) -> (id: Option<u128>)
    ensures
        id == uuid_parse(text@),
{
    match uuid::Uuid::parse_str(text) {
        Ok(parsed) => Some(parsed.as_u128()),
        Err(_) => None,
    }
}

/// Prints `uuid::Uuid::from_u128(id)` with its `Display` impl. Trusted: the
/// result is the named value `uuid_text`, and `parse_str` reads from it the
/// identifier that was printed, as the crate documents for its hyphenated
/// form.
#[verifier::external_body]
pub(crate) fn format_uuid(id: u128) -> (text: String)
    ensures
        text@ == uuid_text(id),
        uuid_parse(text@) == Some(id),
{
    uuid::Uuid::from_u128(id).to_string()
}

} // verus!
