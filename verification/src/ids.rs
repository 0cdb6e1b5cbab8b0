//! 128-bit identifiers of users, files and folders.
use vstd::prelude::*;

verus! {

/// The text of `s` names an identifier (`uuid::Uuid::parse_str`).
pub uninterp spec fn parsed_uuid(s: Seq<char>) -> Option<u128>;

/// `uuid::Uuid::parse_str`: the identifier that the text names, if any.
#[verifier::external_body]
pub(crate) fn parse_uuid(s: &str) -> (res: Option<u128>)
    ensures
        res == parsed_uuid(s@),
{
    match uuid::Uuid::parse_str(s) {
        Ok(u) => Some(u.as_u128()),
        Err(_) => None,
    }
}

/// The identifier is a random (version 4) one: its version nibble is 4 and
/// its variant bits are `10`.
pub open spec fn is_v4_uuid(id: u128) -> bool {
    id & 0x0000_0000_0000_f000_c000_0000_0000_0000u128 == 0x0000_0000_0000_4000_8000_0000_0000_0000u128
}

/// A fresh random identifier (`uuid::Uuid::new_v4`). Of every outcome the
/// version nibble is 4 and the variant bits are `10`.
#[verifier::external_body]
pub(crate) fn new_uuid_v4() -> (res: u128)
    ensures
        is_v4_uuid(res),
{
    uuid::Uuid::new_v4().as_u128()
}

} // verus!
