//! Post identifiers as they arrive in a path.

use vstd::prelude::*;

verus! {

/// What reading `s` as a UUID gives: the 128-bit value of the UUID, or the
/// parser's description of what is wrong with `s`.
pub uninterp spec fn uuid_parsed(s: Seq<char>) -> Result<u128, Seq<char>>;

/// A parse outcome with its error text as a sequence of characters.
pub open spec fn outcome_view(r: Result<u128, String>) -> Result<u128, Seq<char>> {
    match r {
        Ok(v) => Ok(v),
        Err(e) => Err(e@),
    }
}

/// Calls `uuid::Uuid::parse_str`. The contract claims only that the outcome
/// is a function of the text: the value from `Uuid::as_u128` where the text
/// is accepted, the error's `Display` text where it is not.
#[verifier::external_body]
pub(crate) fn parse_uuid(s: &str) -> (r: Result<u128, String>)
    ensures
        outcome_view(r) == uuid_parsed(s@),
{
    match uuid::Uuid::parse_str(s) {
        Ok(u) => Ok(u.as_u128()),
        Err(e) => Err(e.to_string()),
    }
}

} // verus!
