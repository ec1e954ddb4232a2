//! Opaque identifiers: 128-bit ids, written and read in UUID text form.
//!
//! The service identifies users, sessions, API keys and posts by UUIDs.
//! The library holds an id as its 128-bit value; the uuid crate does the
//! parsing and the formatting of the text form.

use vstd::prelude::*;

verus! {

/// The 128-bit value a given UUID text form denotes, if it is one.
pub uninterp spec fn spec_uuid_of(s: Seq<char>) -> Option<u128>;

/// The canonical text form of an id: hyphenated, lower case.
pub uninterp spec fn spec_uuid_chars(n: u128) -> Seq<char>;

/// Relies on `uuid::Uuid::parse_str`: parses hexadecimal digits with
/// optional hyphens into a UUID; the result depends on the input string
/// alone.
#[verifier::external_body]
pub(crate) fn parse_uuid(s: &str) -> (r: Option<u128>)
    ensures
        r == spec_uuid_of(s@),
{
    uuid::Uuid::parse_str(s).ok().map(|u| u.as_u128())
}

/// Relies on `uuid::Uuid`'s `Display`: the hyphenated lower-case form,
/// 36 characters, a function of the id value alone. `Uuid::parse_str`
/// documents that it parses any format this module generates, so the
/// text parses back to the same id.
#[verifier::external_body]
pub(crate) fn format_uuid(n: u128) -> (r: String)
    ensures
        r@ == spec_uuid_chars(n),
        r@.len() == 36,
        spec_uuid_of(r@) == Some(n),
{
    uuid::Uuid::from_u128(n).to_string()
}

} // verus!
