//! Transfer identifiers: 128-bit ids with a canonical hyphenated text form.
//!
//! Fresh ids come from the `uuid` crate's version-4 generator; the text form
//! is the crate's hyphenated rendering, named here by uninterpreted spec
//! functions since spelling it out would restate the crate.

use vstd::prelude::*;

verus! {

/// The canonical hyphenated text of a 128-bit transfer id.
pub uninterp spec fn uuid_text_of(id: u128) -> Seq<char>;

/// The 128-bit value a text denotes, if it is a valid id text.
pub uninterp spec fn uuid_of_text(s: Seq<char>) -> Option<u128>;

/// Relies on uuid::Uuid::new_v4 (with as_u128): a fresh random id whose
/// version nibble is 4.
#[verifier::external_body]
pub(crate) fn fresh_transfer_id() -> (r: u128)
    ensures
        (r >> 76) & 0xF == 4,
{
    uuid::Uuid::new_v4().as_u128()
}

/// Relies on uuid::Uuid::to_string on Uuid::from_u128: the hyphenated
/// lowercase rendering, 36 characters, determined by the id alone; and on
/// uuid::Uuid::parse_str accepting that rendering back.
#[verifier::external_body]
pub(crate) fn format_transfer_id(id: u128) -> (r: String)
    ensures
        r@ == uuid_text_of(id),
        r@.len() == 36,
        uuid_of_text(r@) == Some(id),
{
    uuid::Uuid::from_u128(id).to_string()
}

/// Relies on uuid::Uuid::parse_str (with as_u128): acceptance and the value
/// depend on the text alone.
#[verifier::external_body]
pub(crate) fn parse_transfer_id(s: &str) -> (r: Option<u128>)
    ensures
        r == uuid_of_text(s@),
{
    match uuid::Uuid::parse_str(s) {
        Ok(u) => Some(u.as_u128()),
        Err(_) => None,
    }
}

} // verus!
