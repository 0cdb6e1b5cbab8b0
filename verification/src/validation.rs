//! Checks on what clients send, done with the `validator` crate.
use vstd::prelude::*;
use validator::{ValidateEmail, ValidateLength};

verus! {

/// The text is an e-mail address in the sense of the HTML5 specification
/// (`validator::ValidateEmail::validate_email`).
pub uninterp spec fn is_valid_email(s: Seq<char>) -> bool;

/// `ValidateEmail::validate_email` on a text: the named judgement; a text
/// without an `@` is never an address.
#[verifier::external_body]
pub(crate) fn validate_email(s: &str) -> (res: bool)
    ensures
        res == is_valid_email(s@),
        !s@.contains('@') ==> !res,
{
    s.validate_email()
}

/// `ValidateLength::validate_length` with both bounds on a text: its number
/// of characters lies between `min` and `max`.
#[verifier::external_body]
pub(crate) fn validate_length(s: &str, min: u64, max: u64) -> (res: bool)
    ensures
        res == (min <= s@.len() && s@.len() <= max),
{
    s.validate_length(Some(min), Some(max), None)
}

} // verus!
