//! Identifiers of logs.

use vstd::prelude::*;

use crate::text;

verus! {

/// The identifier that `uuid` reads in a text, as it writes it.
pub uninterp spec fn canonical_uuid(s: Seq<char>) -> Option<Seq<char>>;

/// `uuid::Uuid::parse_str`, then `Uuid::to_string`: none where the text is no identifier.
/// The result is named and nothing more is claimed.
#[verifier::external_body]
pub(crate) fn parse_uuid(source: &str) -> (r: Option<String>)
    ensures
        text::viewed(r) == canonical_uuid(source@),
{
    match uuid::Uuid::parse_str(source) {
        Ok(found) => Some(found.to_string()),
        Err(_) => None,
    }
}

} // verus!
